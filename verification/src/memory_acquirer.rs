//! Acquiring a memory image with `winpmem.exe`.

use vstd::prelude::*;
use crate::text::{views, push_str};
use crate::winpath::{path_joined, join_path};
use crate::remote::connector::{Computer, Connector, Invocation, LocalProgramRun, LocalProgramPlan, report_name, report_path_for, runnable, program_in, program_in_dir};
use crate::remote::copier::{RemoteFileCopier, plans};
use crate::remote::archiver::Compression;
use crate::remote::psexec::PsExec;
use crate::remote::psremote::PsRemote;
use crate::remote::rdp::Rdp;
use crate::remote::wmi::Wmi;
use crate::remote::local::Local;
use crate::large_evidence_acquirer::{FetchHow, fetch_how, fetch_model};
use crate::events_acquirer::{whole_unless, split_unless, whole_compression, split_compression};

verus! {

/// The `winpmem.exe` command that writes a memory image into `target`.
pub open spec fn winpmem_args(target: Seq<char>) -> Seq<Seq<char>> {
    seq!["winpmem.exe"@, "--format"@, "map"@, "-t"@, "-o"@, target]
}

/// The acquisition of a memory image: run `image` (elevated, for at most the
/// image timeout), bring the image `target` here as `fetch` says, pause
/// `pause_secs`, delete the program with `delete_program`, pause again,
/// and delete the image with `delete_image`.
pub struct MemoryImagePlan {
    pub target: String,
    pub image: LocalProgramRun,
    pub fetch: FetchHow,
    pub pause_secs: u64,
    pub delete_program: Vec<Invocation>,
    pub delete_image: Vec<Invocation>,
}

/// A memory image of a computer, made there and brought here.
pub struct MemoryAcquirer<C: Connector + RemoteFileCopier> {
    pub local_store_directory: String,
    pub connector: C,
    pub image_timeout: Option<u64>,
    pub compress_timeout: Option<u64>,
    pub compression: Compression,
}

proof fn lemma_winpmem_runnable(command: Seq<Seq<char>>)
    requires
        command.len() > 0,
        command[0] == "winpmem.exe"@,
    ensures
        runnable(command),
{
    reveal_strlit("winpmem.exe");
    let s = "winpmem.exe"@;
    assert forall|i: int| 0 <= i < s.len() implies !crate::winpath::is_sep(#[trigger] s[i]) by {}
    crate::winpath::lemma_no_sep_component(s);
}

impl<C: Connector + RemoteFileCopier> MemoryAcquirer<C> {
    /// The remote image file: the report name for `mem-image` with
    /// extension `aff4`, in the remote temporary directory.
    pub open spec fn image_target(&self) -> Seq<char> {
        path_joined(
            self.connector.temp_storage_view(),
            report_name(self.connector.target(), "mem-image"@, self.connector.method_name_view(), "aff4"@),
        )
    }

    /// How a memory image is acquired, with `winpmem.exe` taken from `program_dir`.
    pub fn image_memory(&self, program_dir: &str) -> (res: MemoryImagePlan)
        ensures
            res.target@ == self.image_target(),
            res.image@ == self.connector.local_program_view(program_in(winpmem_args(self.image_target()), program_dir@)),
            res.fetch@ == fetch_model(self.connector, self.compression, self.image_target(), self.local_store_directory@),
            res.pause_secs == 1,
            plans(res.delete_program@) == self.connector.delete_steps(
                path_joined(self.connector.temp_storage_view(), "winpmem.exe"@),
            ),
            plans(res.delete_image@) == self.connector.delete_steps(self.image_target()),
    {
        let target = report_path_for(&self.connector, self.connector.remote_temp_storage(), "mem-image", "aff4");
        let mut command: Vec<String> = Vec::new();
        push_str(&mut command, "winpmem.exe");
        push_str(&mut command, "--format");
        push_str(&mut command, "map");
        push_str(&mut command, "-t");
        push_str(&mut command, "-o");
        push_str(&mut command, target.as_str());
        assert(views(command@) =~= winpmem_args(target@));
        proof {
            lemma_winpmem_runnable(views(command@));
            crate::winpath::lemma_file_name_plain(views(command@)[0]);
            crate::winpath::lemma_joined_file_name(program_dir@, crate::winpath::file_name_of(views(command@)[0])->Some_0);
        }
        let command = program_in_dir(command, program_dir);
        assert(views(command@).len() == command@.len());
        assert(views(command@)[0] == command@[0]@);
        let image = self.connector.local_program_run(command);
        let fetch = fetch_how(&self.connector, self.compression, target.as_str(), self.local_store_directory.as_str());
        let program = join_path(self.connector.remote_temp_storage(), "winpmem.exe");
        let delete_program = self.connector.delete_remote_file(program.as_str());
        let delete_image = self.connector.delete_remote_file(target.as_str());
        MemoryImagePlan { target, image, fetch, pause_secs: 1, delete_program, delete_image }
    }
}

impl MemoryAcquirer<PsExec> {
    /// A memory image through 32-bit PsExec, moved as a whole archive unless 7-Zip is off.
    pub fn psexec32(remote_computer: Computer, local_store_directory: String, no_7zip: bool, remote_temp_storage: String, custom_share_folder: Option<String>) -> (res: Self)
        ensures
            res.local_store_directory == local_store_directory,
            res.image_timeout is None,
            res.compress_timeout is None,
            res.compression == whole_unless(no_7zip),
            res.connector.ms_psexec,
            res.connector.remote_temp_storage == remote_temp_storage,
    {
        MemoryAcquirer {
            local_store_directory,
            connector: PsExec::psexec32(remote_computer, remote_temp_storage, custom_share_folder),
            image_timeout: None,
            compress_timeout: None,
            compression: whole_compression(no_7zip),
        }
    }

    /// A memory image through 64-bit PsExec, moved as a whole archive unless 7-Zip is off.
    pub fn psexec64(remote_computer: Computer, local_store_directory: String, no_7zip: bool, remote_temp_storage: String, custom_share_folder: Option<String>) -> (res: Self)
        ensures
            res.local_store_directory == local_store_directory,
            res.image_timeout is None,
            res.compress_timeout is None,
            res.compression == whole_unless(no_7zip),
            res.connector.ms_psexec,
            res.connector.remote_temp_storage == remote_temp_storage,
    {
        MemoryAcquirer {
            local_store_directory,
            connector: PsExec::psexec64(remote_computer, remote_temp_storage, custom_share_folder),
            image_timeout: None,
            compress_timeout: None,
            compression: whole_compression(no_7zip),
        }
    }
}

impl MemoryAcquirer<Local> {
    /// A memory image of this computer, moved plainly.
    pub fn local(username: String, local_store_directory: String, temp_storage: String) -> (res: Self)
        ensures
            res.local_store_directory == local_store_directory,
            res.image_timeout is None,
            res.compress_timeout is None,
            res.compression == Compression::No,
            res.connector.localhost.username == username,
            res.connector.temp_storage == temp_storage,
    {
        MemoryAcquirer {
            local_store_directory,
            connector: Local::new(username, temp_storage),
            image_timeout: None,
            compress_timeout: None,
            compression: Compression::No,
        }
    }
}

impl MemoryAcquirer<PsRemote> {
    /// A memory image through PowerShell remoting, moved plainly.
    pub fn psremote(remote_computer: Computer, local_store_directory: String, no_7zip: bool, remote_temp_storage: String, custom_share_folder: Option<String>) -> (res: Self)
        ensures
            res.local_store_directory == local_store_directory,
            res.image_timeout is None,
            res.compress_timeout is None,
            res.compression == Compression::No,
            res.connector.remote_temp_storage == remote_temp_storage,
    {
        MemoryAcquirer {
            local_store_directory,
            connector: PsRemote::new(remote_computer, remote_temp_storage, custom_share_folder),
            image_timeout: None,
            compress_timeout: None,
            compression: Compression::No,
        }
    }
}

impl MemoryAcquirer<Wmi> {
    /// A memory image through WMI within `timeout` seconds, moved as split
    /// archives (packed within `compress_timeout` seconds) unless 7-Zip is off.
    pub fn wmi(remote_computer: Computer, local_store_directory: String, timeout: u64, compress_timeout: u64, no_7zip: bool, remote_temp_storage: String) -> (res: Self)
        ensures
            res.local_store_directory == local_store_directory,
            res.image_timeout == Some(timeout),
            res.compress_timeout == Some(compress_timeout),
            res.compression == split_unless(no_7zip),
            res.connector.computer == remote_computer,
            res.connector.remote_temp_storage == remote_temp_storage,
    {
        MemoryAcquirer {
            local_store_directory,
            connector: Wmi { computer: remote_computer, remote_temp_storage },
            image_timeout: Some(timeout),
            compress_timeout: Some(compress_timeout),
            compression: split_compression(no_7zip),
        }
    }
}

impl MemoryAcquirer<Rdp> {
    /// A memory image through remote desktop within `image_timeout` seconds,
    /// moved as split archives unless 7-Zip is off.
    pub fn rdp(remote_computer: Computer, local_store_directory: String, nla: bool, image_timeout: u64, compress_timeout: u64, no_7zip: bool, remote_temp_storage: String) -> (res: Self)
        ensures
            res.local_store_directory == local_store_directory,
            res.image_timeout == Some(image_timeout),
            res.compress_timeout == Some(compress_timeout),
            res.compression == split_unless(no_7zip),
            res.connector.computer == remote_computer,
            res.connector.nla == nla,
            res.connector.remote_temp_storage == remote_temp_storage,
    {
        MemoryAcquirer {
            local_store_directory,
            connector: Rdp { nla, computer: remote_computer, remote_temp_storage },
            image_timeout: Some(image_timeout),
            compress_timeout: Some(compress_timeout),
            compression: split_compression(no_7zip),
        }
    }
}

} // verus!
