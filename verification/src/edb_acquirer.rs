//! Acquiring the Windows search index (`Windows.edb`) from a shadow copy.
//!
//! The steps: make a shadow copy of `C:`, list the shadow copies into a
//! report, find the newest volume in it (see `shadow_volume`), link it at a
//! fresh directory under `C:\`, fetch the index from under the link, pause,
//! and remove the link.

use vstd::prelude::*;
use crate::text::{views, owned, concat3, push_str};
use crate::winpath::{path_joined, join_path};
use crate::remote::connector::{Computer, Connector, Invocation, LocalProgramRun, report_name, report_path_for, program_in, program_in_dir, runnable, uuid_text};
use crate::remote::copier::RemoteFileCopier;
use crate::remote::archiver::Compression;
use crate::remote::psexec::PsExec;
use crate::remote::psremote::PsRemote;
use crate::remote::rdp::Rdp;
use crate::remote::wmi::Wmi;
use crate::remote::local::Local;
use crate::remote::shadow_copier::{list_shadows_command, link_command, unlink_command, shadow_link, new_shadow_link, StepOutcome};
use crate::large_evidence_acquirer::{FetchHow, fetch_how, fetch_model};
use crate::events_acquirer::{whole_unless, split_unless, whole_compression, split_compression};

verus! {

/// The command that makes a shadow copy of `C:`, its PowerShell call in double quotes.
pub open spec fn edb_shadow_args() -> Seq<Seq<char>> {
    seq![
        "cmd.exe"@,
        "/c"@,
        "powershell.exe"@,
        "-Command"@,
        "\"(gwmi -list win32_shadowcopy).Create('C:','ClientAccessible')\""@,
    ]
}

/// The index's path under the root of the drive.
pub open spec fn edb_relative() -> Seq<char> {
    "ProgramData\\Microsoft\\Search\\Data\\Applications\\Windows\\Windows.edb"@
}

/// The Windows search index of a computer, taken from a shadow copy.
pub struct EdbAcquirer<C: Connector + RemoteFileCopier> {
    pub local_store_directory: String,
    pub connector: C,
    pub image_timeout: Option<u64>,
    pub compress_timeout: Option<u64>,
    pub compression: Compression,
}

proof fn lemma_cmd_runnable(command: Seq<Seq<char>>)
    requires
        command.len() > 0,
        command[0] == "cmd.exe"@,
    ensures
        runnable(command),
{
    reveal_strlit("cmd.exe");
    let s = "cmd.exe"@;
    assert forall|i: int| 0 <= i < s.len() implies !crate::winpath::is_sep(#[trigger] s[i]) by {}
    crate::winpath::lemma_no_sep_component(s);
}

impl<C: Connector + RemoteFileCopier> EdbAcquirer<C> {
    /// How the shadow copy is made: the command run as a local program taken from `program_dir`.
    pub fn create_shadow(&self, program_dir: &str) -> (res: LocalProgramRun)
        ensures
            res@ == self.connector.local_program_view(program_in(edb_shadow_args(), program_dir@)),
    {
        let mut command: Vec<String> = Vec::new();
        push_str(&mut command, "cmd.exe");
        push_str(&mut command, "/c");
        push_str(&mut command, "powershell.exe");
        push_str(&mut command, "-Command");
        push_str(&mut command, "\"(gwmi -list win32_shadowcopy).Create('C:','ClientAccessible')\"");
        assert(views(command@) =~= edb_shadow_args());
        proof {
            lemma_cmd_runnable(views(command@));
            crate::winpath::lemma_file_name_plain(views(command@)[0]);
            crate::winpath::lemma_joined_file_name(program_dir@, crate::winpath::file_name_of(views(command@)[0])->Some_0);
        }
        let command = program_in_dir(command, program_dir);
        assert(views(command@).len() == command@.len());
        assert(views(command@)[0] == command@[0]@);
        self.connector.local_program_run(command)
    }

    /// The local report of a step, named after `prefix`.
    pub fn step_report(&self, prefix: &str) -> (res: String)
        ensures
            res@ == path_joined(
                self.local_store_directory@,
                report_name(self.connector.target(), prefix@, self.connector.method_name_view(), "txt"@),
            ),
    {
        report_path_for(&self.connector, self.local_store_directory.as_str(), prefix, "txt")
    }

    /// The process that lists the shadow copies into `report` (the report
    /// of prefix `VSS_RESULT`).
    pub fn list_shadows(&self, report: &str) -> (res: Invocation)
        ensures
            res@ == self.connector.run_plan_view(
                seq!["cmd.exe"@, "/c"@, "vssadmin"@, "list"@, "shadows"@], Some(report@), true, self.image_timeout),
    {
        self.connector.run_plan(list_shadows_command(), Some(report), true, self.image_timeout)
    }

    /// A fresh link directory under `C:\`, named with a random UUID.
    pub fn new_link(&self) -> (res: String)
        ensures
            exists|id: Seq<char>| uuid_text(id) && res@ == #[trigger] shadow_link("C:\\"@, id),
    {
        new_shadow_link("C:\\")
    }

    /// The process that links `link` to the shadow `volume`, its output going
    /// to `report` (the report of the empty prefix).
    pub fn link_shadow(&self, link: &str, volume: &str, report: &str) -> (res: Invocation)
        ensures
            res@ == self.connector.run_plan_view(
                seq!["cmd.exe"@, "/c"@, "mklink"@, "/d"@, link@, volume@], Some(report@), true, self.image_timeout),
    {
        self.connector.run_plan(link_command(link, volume), Some(report), true, self.image_timeout)
    }

    /// The index's path under the link.
    pub fn edb_path(link: &str) -> (res: String)
        ensures
            res@ == path_joined(link@, edb_relative()),
    {
        join_path(link, "ProgramData\\Microsoft\\Search\\Data\\Applications\\Windows\\Windows.edb")
    }

    /// How the index under `link` is brought here; a pause of 20 seconds follows.
    pub fn fetch_edb(&self, link: &str) -> (res: FetchHow)
        ensures
            res@ == fetch_model(self.connector, self.compression, path_joined(link@, edb_relative()), self.local_store_directory@),
    {
        let path = Self::edb_path(link);
        fetch_how(&self.connector, self.compression, path.as_str(), self.local_store_directory.as_str())
    }

    /// The process that removes the link, its output going to `report`.
    pub fn unlink(&self, link: &str, report: &str) -> (res: Invocation)
        ensures
            res@ == self.connector.run_plan_view(
                seq!["cmd.exe"@, "/c"@, "rmdir"@, link@], Some(report@), true, self.image_timeout),
    {
        self.connector.run_plan(unlink_command(link), Some(report), true, self.image_timeout)
    }
}

impl EdbAcquirer<PsExec> {
    /// Through 32-bit PsExec, moved as a whole archive unless 7-Zip is off.
    pub fn psexec32(remote_computer: Computer, local_store_directory: String, no_7zip: bool, remote_temp_storage: String, custom_share_folder: Option<String>) -> (res: Self)
        ensures
            res.local_store_directory == local_store_directory,
            res.image_timeout == Some(20u64),
            res.compress_timeout is None,
            res.compression == whole_unless(no_7zip),
            res.connector.ms_psexec,
            res.connector.remote_temp_storage == remote_temp_storage,
    {
        EdbAcquirer {
            local_store_directory,
            connector: PsExec::psexec32(remote_computer, remote_temp_storage, custom_share_folder),
            image_timeout: Some(20),
            compress_timeout: None,
            compression: whole_compression(no_7zip),
        }
    }

    /// Through 64-bit PsExec, moved as a whole archive unless 7-Zip is off.
    pub fn psexec64(remote_computer: Computer, local_store_directory: String, no_7zip: bool, remote_temp_storage: String, custom_share_folder: Option<String>) -> (res: Self)
        ensures
            res.local_store_directory == local_store_directory,
            res.image_timeout == Some(20u64),
            res.compress_timeout is None,
            res.compression == whole_unless(no_7zip),
            res.connector.ms_psexec,
            res.connector.remote_temp_storage == remote_temp_storage,
    {
        EdbAcquirer {
            local_store_directory,
            connector: PsExec::psexec64(remote_computer, remote_temp_storage, custom_share_folder),
            image_timeout: Some(20),
            compress_timeout: None,
            compression: whole_compression(no_7zip),
        }
    }
}

impl EdbAcquirer<Local> {
    /// From this computer, moved plainly.
    pub fn local(username: String, local_store_directory: String, temp_storage: String) -> (res: Self)
        ensures
            res.local_store_directory == local_store_directory,
            res.image_timeout == Some(20u64),
            res.compress_timeout is None,
            res.compression == Compression::No,
            res.connector.localhost.username == username,
            res.connector.temp_storage == temp_storage,
    {
        EdbAcquirer {
            local_store_directory,
            connector: Local::new(username, temp_storage),
            image_timeout: Some(20),
            compress_timeout: None,
            compression: Compression::No,
        }
    }
}

impl EdbAcquirer<PsRemote> {
    /// Through PowerShell remoting, moved plainly.
    pub fn psremote(remote_computer: Computer, local_store_directory: String, no_7zip: bool, remote_temp_storage: String, custom_share_folder: Option<String>) -> (res: Self)
        ensures
            res.local_store_directory == local_store_directory,
            res.image_timeout == Some(20u64),
            res.compress_timeout is None,
            res.compression == Compression::No,
            res.connector.remote_temp_storage == remote_temp_storage,
    {
        EdbAcquirer {
            local_store_directory,
            connector: PsRemote::new(remote_computer, remote_temp_storage, custom_share_folder),
            image_timeout: Some(20),
            compress_timeout: None,
            compression: Compression::No,
        }
    }
}

impl EdbAcquirer<Wmi> {
    /// Through WMI, moved as split archives unless 7-Zip is off.
    pub fn wmi(remote_computer: Computer, local_store_directory: String, timeout: u64, compress_timeout: u64, no_7zip: bool, remote_temp_storage: String) -> (res: Self)
        ensures
            res.local_store_directory == local_store_directory,
            res.image_timeout == Some(timeout),
            res.compress_timeout == Some(compress_timeout),
            res.compression == split_unless(no_7zip),
            res.connector.computer == remote_computer,
            res.connector.remote_temp_storage == remote_temp_storage,
    {
        EdbAcquirer {
            local_store_directory,
            connector: Wmi { computer: remote_computer, remote_temp_storage },
            image_timeout: Some(timeout),
            compress_timeout: Some(compress_timeout),
            compression: split_compression(no_7zip),
        }
    }
}

impl EdbAcquirer<Rdp> {
    /// Through remote desktop, moved as split archives unless 7-Zip is off.
    pub fn rdp(remote_computer: Computer, local_store_directory: String, nla: bool, image_timeout: u64, compress_timeout: u64, no_7zip: bool, remote_temp_storage: String) -> (res: Self)
        ensures
            res.local_store_directory == local_store_directory,
            res.image_timeout == Some(image_timeout),
            res.compress_timeout == Some(compress_timeout),
            res.compression == split_unless(no_7zip),
            res.connector.computer == remote_computer,
            res.connector.nla == nla,
            res.connector.remote_temp_storage == remote_temp_storage,
    {
        EdbAcquirer {
            local_store_directory,
            connector: Rdp { nla, computer: remote_computer, remote_temp_storage },
            image_timeout: Some(image_timeout),
            compress_timeout: Some(compress_timeout),
            compression: split_compression(no_7zip),
        }
    }
}

/// A phase of acquiring the search index.
#[derive(PartialEq, Eq, Structural, Clone, Copy)]
pub enum EdbPhase {
    /// Make the shadow copy (`create_shadow`).
    Create,
    /// List the shadow copies into a report (`list_shadows`).
    List,
    /// Read the report and find the newest volume (see `shadow_volume`).
    Read,
    /// Link the volume (`link_shadow`).
    Link,
    /// Bring the index here (`fetch_edb`), then pause 20 s.
    Fetch,
    /// Remove the link (`unlink`).
    Unlink,
    /// Done: the index was acquired.
    Done,
    /// Done: a step failed, and the acquisition ends with that error.
    Failed,
    /// The newest volume line ends right after its `:`: reading it is an error.
    Malformed,
}

/// The phase that follows `phase` given its outcome: the first failure of
/// making, listing, finding, linking or unlinking ends the acquisition with
/// an error; a failed fetch is only reported, and the link is removed all
/// the same; the done phases stay.
pub open spec fn edb_next(phase: EdbPhase, outcome: StepOutcome) -> EdbPhase {
    match phase {
        EdbPhase::Create => if outcome == StepOutcome::Succeeded { EdbPhase::List } else { EdbPhase::Failed },
        EdbPhase::List => if outcome == StepOutcome::Succeeded { EdbPhase::Read } else { EdbPhase::Failed },
        EdbPhase::Read => match outcome {
            StepOutcome::Succeeded => EdbPhase::Link,
            StepOutcome::Failed => EdbPhase::Failed,
            StepOutcome::Malformed => EdbPhase::Malformed,
        },
        EdbPhase::Link => if outcome == StepOutcome::Succeeded { EdbPhase::Fetch } else { EdbPhase::Failed },
        EdbPhase::Fetch => EdbPhase::Unlink,
        EdbPhase::Unlink => if outcome == StepOutcome::Succeeded { EdbPhase::Done } else { EdbPhase::Failed },
        p => p,
    }
}

/// The phase that follows `phase` (see `edb_next`).
pub fn edb_step(phase: EdbPhase, outcome: StepOutcome) -> (res: EdbPhase)
    ensures
        res == edb_next(phase, outcome),
{
    match phase {
        EdbPhase::Create => if outcome == StepOutcome::Succeeded { EdbPhase::List } else { EdbPhase::Failed },
        EdbPhase::List => if outcome == StepOutcome::Succeeded { EdbPhase::Read } else { EdbPhase::Failed },
        EdbPhase::Read => match outcome {
            StepOutcome::Succeeded => EdbPhase::Link,
            StepOutcome::Failed => EdbPhase::Failed,
            StepOutcome::Malformed => EdbPhase::Malformed,
        },
        EdbPhase::Link => if outcome == StepOutcome::Succeeded { EdbPhase::Fetch } else { EdbPhase::Failed },
        EdbPhase::Fetch => EdbPhase::Unlink,
        EdbPhase::Unlink => if outcome == StepOutcome::Succeeded { EdbPhase::Done } else { EdbPhase::Failed },
        p => p,
    }
}

/// The seconds to pause after a phase: 20 after the fetch, none otherwise.
pub open spec fn edb_pause_of(phase: EdbPhase) -> u64 {
    if phase == EdbPhase::Fetch { 20 } else { 0 }
}

/// The seconds to pause after a phase (see `edb_pause_of`).
pub fn edb_pause(phase: EdbPhase) -> (res: u64)
    ensures
        res == edb_pause_of(phase),
{
    if phase == EdbPhase::Fetch { 20 } else { 0 }
}

/// Once linked, the link is always removed: every phase after linking
/// leads to the unlinking, whatever came of the fetch.
pub proof fn law_edb_link_is_removed(outcome: StepOutcome)
    ensures
        edb_next(EdbPhase::Link, StepOutcome::Succeeded) == EdbPhase::Fetch,
        edb_next(EdbPhase::Fetch, outcome) == EdbPhase::Unlink,
{
}

} // verus!
