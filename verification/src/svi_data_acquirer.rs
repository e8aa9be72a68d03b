//! Acquiring the link files of the System Volume Information directory.

use vstd::prelude::*;
use crate::text::{views, owned};
use crate::remote::connector::{Computer, Connector, Invocation, permission_command, acquire_perms_command, release_perms_command};
use crate::remote::copier::RemoteFileCopier;
use crate::remote::archiver::Compression;
use crate::remote::psexec::PsExec;
use crate::remote::psremote::PsRemote;
use crate::remote::rdp::Rdp;
use crate::remote::wmi::Wmi;
use crate::remote::local::Local;
use crate::large_evidence_acquirer::{FetchHow, fetch_how, fetch_model};
use crate::events_acquirer::{whole_unless, split_unless, whole_compression, split_compression};

verus! {

/// The protected directory whose link files are acquired.
pub open spec fn svi_dir() -> Seq<char> {
    "C:\\System Volume Information"@
}

/// The files acquired from it.
pub open spec fn svi_files() -> Seq<char> {
    "C:\\System Volume Information\\*.lnk"@
}

/// The acquisition of the System Volume Information link files: grant the
/// user full control of the directory, pause, bring its link files here,
/// pause, and deny the user again.
pub struct SviPlan {
    pub grant: Invocation,
    pub pause_after_grant_secs: u64,
    pub fetch: FetchHow,
    pub pause_after_fetch_secs: u64,
    pub deny: Invocation,
}

/// System Volume Information data of a computer, brought here.
pub struct SystemVolumeInformationAcquirer<C: Connector + RemoteFileCopier> {
    pub local_store_directory: String,
    pub connector: C,
    pub image_timeout: Option<u64>,
    pub compress_timeout: Option<u64>,
    pub compression: Compression,
}

impl<C: Connector + RemoteFileCopier> SystemVolumeInformationAcquirer<C> {
    /// How the link files are acquired (see `SviPlan`); the permission
    /// changes run elevated, without a report and without a timeout.
    pub fn download_data(&self) -> (res: SviPlan)
        ensures
            res.grant@ == self.connector.run_plan_view(
                permission_command(svi_dir(), "/grant"@, self.connector.target().username@), None, true, None),
            res.pause_after_grant_secs == 5,
            res.fetch@ == fetch_model(self.connector, self.compression, svi_files(), self.local_store_directory@),
            res.pause_after_fetch_secs == 25,
            res.deny@ == self.connector.run_plan_view(
                permission_command(svi_dir(), "/deny"@, self.connector.target().username@), None, true, None),
    {
        let username = self.connector.computer().username.as_str();
        let grant = self.connector.run_plan(acquire_perms_command(username, "C:\\System Volume Information"), None, true, None);
        let fetch = fetch_how(&self.connector, self.compression, "C:\\System Volume Information\\*.lnk", self.local_store_directory.as_str());
        let deny = self.connector.run_plan(release_perms_command(username, "C:\\System Volume Information"), None, true, None);
        SviPlan { grant, pause_after_grant_secs: 5, fetch, pause_after_fetch_secs: 25, deny }
    }
}

impl SystemVolumeInformationAcquirer<PsExec> {
    /// Through 32-bit PsExec, moved as a whole archive unless 7-Zip is off.
    pub fn psexec32(remote_computer: Computer, local_store_directory: String, no_7zip: bool, remote_temp_storage: String, custom_share_folder: Option<String>) -> (res: Self)
        ensures
            res.local_store_directory == local_store_directory,
            res.image_timeout == Some(20u64),
            res.compress_timeout is None,
            res.compression == whole_unless(no_7zip),
            res.connector.ms_psexec,
            res.connector.remote_temp_storage == remote_temp_storage,
    {
        SystemVolumeInformationAcquirer {
            local_store_directory,
            connector: PsExec::psexec32(remote_computer, remote_temp_storage, custom_share_folder),
            image_timeout: Some(20),
            compress_timeout: None,
            compression: whole_compression(no_7zip),
        }
    }

    /// Through 64-bit PsExec, moved as a whole archive unless 7-Zip is off.
    pub fn psexec64(remote_computer: Computer, local_store_directory: String, no_7zip: bool, remote_temp_storage: String, custom_share_folder: Option<String>) -> (res: Self)
        ensures
            res.local_store_directory == local_store_directory,
            res.image_timeout == Some(20u64),
            res.compress_timeout is None,
            res.compression == whole_unless(no_7zip),
            res.connector.ms_psexec,
            res.connector.remote_temp_storage == remote_temp_storage,
    {
        SystemVolumeInformationAcquirer {
            local_store_directory,
            connector: PsExec::psexec64(remote_computer, remote_temp_storage, custom_share_folder),
            image_timeout: Some(20),
            compress_timeout: None,
            compression: whole_compression(no_7zip),
        }
    }
}

impl SystemVolumeInformationAcquirer<Local> {
    /// From this computer, moved plainly.
    pub fn local(username: String, local_store_directory: String, temp_storage: String) -> (res: Self)
        ensures
            res.local_store_directory == local_store_directory,
            res.image_timeout == Some(20u64),
            res.compress_timeout is None,
            res.compression == Compression::No,
            res.connector.localhost.username == username,
            res.connector.temp_storage == temp_storage,
    {
        SystemVolumeInformationAcquirer {
            local_store_directory,
            connector: Local::new(username, temp_storage),
            image_timeout: Some(20),
            compress_timeout: None,
            compression: Compression::No,
        }
    }
}

impl SystemVolumeInformationAcquirer<PsRemote> {
    /// Through PowerShell remoting, moved plainly.
    pub fn psremote(remote_computer: Computer, local_store_directory: String, no_7zip: bool, remote_temp_storage: String, custom_share_folder: Option<String>) -> (res: Self)
        ensures
            res.local_store_directory == local_store_directory,
            res.image_timeout == Some(20u64),
            res.compress_timeout is None,
            res.compression == Compression::No,
            res.connector.remote_temp_storage == remote_temp_storage,
    {
        SystemVolumeInformationAcquirer {
            local_store_directory,
            connector: PsRemote::new(remote_computer, remote_temp_storage, custom_share_folder),
            image_timeout: Some(20),
            compress_timeout: None,
            compression: Compression::No,
        }
    }
}

impl SystemVolumeInformationAcquirer<Wmi> {
    /// Through WMI, moved as split archives unless 7-Zip is off.
    pub fn wmi(remote_computer: Computer, local_store_directory: String, timeout: u64, compress_timeout: u64, no_7zip: bool, remote_temp_storage: String) -> (res: Self)
        ensures
            res.local_store_directory == local_store_directory,
            res.image_timeout == Some(timeout),
            res.compress_timeout == Some(compress_timeout),
            res.compression == split_unless(no_7zip),
            res.connector.computer == remote_computer,
            res.connector.remote_temp_storage == remote_temp_storage,
    {
        SystemVolumeInformationAcquirer {
            local_store_directory,
            connector: Wmi { computer: remote_computer, remote_temp_storage },
            image_timeout: Some(timeout),
            compress_timeout: Some(compress_timeout),
            compression: split_compression(no_7zip),
        }
    }
}

impl SystemVolumeInformationAcquirer<Rdp> {
    /// Through remote desktop, moved as split archives unless 7-Zip is off.
    pub fn rdp(remote_computer: Computer, local_store_directory: String, nla: bool, image_timeout: u64, compress_timeout: u64, no_7zip: bool, remote_temp_storage: String) -> (res: Self)
        ensures
            res.local_store_directory == local_store_directory,
            res.image_timeout == Some(image_timeout),
            res.compress_timeout == Some(compress_timeout),
            res.compression == split_unless(no_7zip),
            res.connector.computer == remote_computer,
            res.connector.nla == nla,
            res.connector.remote_temp_storage == remote_temp_storage,
    {
        SystemVolumeInformationAcquirer {
            local_store_directory,
            connector: Rdp { nla, computer: remote_computer, remote_temp_storage },
            image_timeout: Some(image_timeout),
            compress_timeout: Some(compress_timeout),
            compression: split_compression(no_7zip),
        }
    }
}

} // verus!
