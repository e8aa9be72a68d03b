//! Acquiring the registry hives.

use vstd::prelude::*;
use crate::text::{views, push_str};
use crate::remote::connector::{Computer, Connector};
use crate::remote::copier::RemoteFileCopier;
use crate::remote::archiver::Compression;
use crate::remote::psexec::PsExec;
use crate::remote::psremote::PsRemote;
use crate::remote::rdp::Rdp;
use crate::remote::wmi::Wmi;
use crate::remote::local::Local;
use crate::large_evidence_acquirer::{LargeRun, large_run, is_large_run};
use crate::events_acquirer::{whole_unless, split_unless, whole_compression, split_compression};

verus! {

/// The `reg export` command that exports the hive `root`.
pub open spec fn export_hive_command(root: Seq<char>) -> Seq<Seq<char>> {
    seq!["reg"@, "export"@, root]
}

/// The registry hives of a computer, exported there and brought here.
pub struct RegistryAcquirer<C: Connector + RemoteFileCopier> {
    pub store_directory: String,
    pub connector: C,
    pub registry_hklm_command: Vec<String>,
    pub registry_hkcu_command: Vec<String>,
    pub registry_hkcr_command: Vec<String>,
    pub registry_hku_command: Vec<String>,
    pub registry_hkcc_command: Vec<String>,
    pub compress_timeout: Option<u64>,
    pub compression: Compression,
}

fn hive_command(root: &str) -> (res: Vec<String>)
    ensures
        views(res@) == export_hive_command(root@),
{
    let mut res: Vec<String> = Vec::new();
    push_str(&mut res, "reg");
    push_str(&mut res, "export");
    push_str(&mut res, root);
    res
}

impl<C: Connector + RemoteFileCopier> RegistryAcquirer<C> {
    /// The commands in the order they run, with their report prefixes:
    /// `HKLM`, `HKU`, `HKCU`, `HKCR`, `HKCC`.
    pub open spec fn steps(&self) -> Seq<(Seq<Seq<char>>, Seq<char>)> {
        seq![
            (views(self.registry_hklm_command@), "registry-hklm"@),
            (views(self.registry_hku_command@), "registry-hku"@),
            (views(self.registry_hkcu_command@), "registry-hkcu"@),
            (views(self.registry_hkcr_command@), "registry-hkcr"@),
            (views(self.registry_hkcc_command@), "registry-hkcc"@),
        ]
    }

    /// An acquirer through `connector` that exports the five root hives.
    pub fn new(store_directory: String, connector: C, compress_timeout: Option<u64>, compression: Compression) -> (res: Self)
        ensures
            res.store_directory == store_directory,
            res.connector == connector,
            res.compress_timeout == compress_timeout,
            res.compression == compression,
            views(res.registry_hklm_command@) == export_hive_command("HKLM"@),
            views(res.registry_hkcu_command@) == export_hive_command("HKCU"@),
            views(res.registry_hkcr_command@) == export_hive_command("HKCR"@),
            views(res.registry_hku_command@) == export_hive_command("HKU"@),
            views(res.registry_hkcc_command@) == export_hive_command("HKCC"@),
    {
        RegistryAcquirer {
            store_directory,
            connector,
            registry_hklm_command: hive_command("HKLM"),
            registry_hkcu_command: hive_command("HKCU"),
            registry_hkcr_command: hive_command("HKCR"),
            registry_hku_command: hive_command("HKU"),
            registry_hkcc_command: hive_command("HKCC"),
            compress_timeout,
            compression,
        }
    }

    /// The acquisitions of the hives in the order of `steps`, as `.txt`
    /// reports exported with `/y`; nothing for an empty command.
    pub fn acquire(&self) -> (res: Vec<Option<LargeRun>>)
        ensures
            res@.len() == 5,
            forall|i: int| 0 <= i < 5 ==> (#[trigger] res@[i] is None <==> self.steps()[i].0.len() == 0),
            forall|i: int| 0 <= i < 5 ==> (#[trigger] res@[i] matches Some(r) ==> is_large_run(
                self.connector,
                self.store_directory@,
                self.compression,
                "txt"@,
                Some("/y"@),
                r,
                self.steps()[i].0,
                self.steps()[i].1,
            )),
    {
        let store = self.store_directory.as_str();
        let mut res: Vec<Option<LargeRun>> = Vec::new();
        res.push(large_run(&self.connector, store, self.compression, "txt", Some("/y"), &self.registry_hklm_command, "registry-hklm"));
        res.push(large_run(&self.connector, store, self.compression, "txt", Some("/y"), &self.registry_hku_command, "registry-hku"));
        res.push(large_run(&self.connector, store, self.compression, "txt", Some("/y"), &self.registry_hkcu_command, "registry-hkcu"));
        res.push(large_run(&self.connector, store, self.compression, "txt", Some("/y"), &self.registry_hkcr_command, "registry-hkcr"));
        res.push(large_run(&self.connector, store, self.compression, "txt", Some("/y"), &self.registry_hkcc_command, "registry-hkcc"));
        res
    }
}

impl RegistryAcquirer<PsExec> {
    /// Hives through PAExec, moved as whole archives unless 7-Zip is off.
    pub fn psexec(store_directory: String, computer: Computer, no_7zip: bool, remote_temp_storage: String, custom_share_folder: Option<String>) -> (res: Self)
        ensures
            res.store_directory == store_directory,
            res.compress_timeout is None,
            res.compression == whole_unless(no_7zip),
            res.connector.psexec_name@ == "paexec.exe"@,
            res.connector.remote_temp_storage == remote_temp_storage,
    {
        RegistryAcquirer::new(store_directory, PsExec::paexec(computer, remote_temp_storage, custom_share_folder), None, whole_compression(no_7zip))
    }

    /// Hives through 32-bit PsExec, moved as whole archives unless 7-Zip is off.
    pub fn psexec32(store_directory: String, computer: Computer, no_7zip: bool, remote_temp_storage: String, custom_share_folder: Option<String>) -> (res: Self)
        ensures
            res.store_directory == store_directory,
            res.compress_timeout is None,
            res.compression == whole_unless(no_7zip),
            res.connector.ms_psexec,
            res.connector.remote_temp_storage == remote_temp_storage,
    {
        RegistryAcquirer::new(store_directory, PsExec::psexec32(computer, remote_temp_storage, custom_share_folder), None, whole_compression(no_7zip))
    }

    /// Hives through 64-bit PsExec, moved as whole archives unless 7-Zip is off.
    pub fn psexec64(store_directory: String, computer: Computer, no_7zip: bool, remote_temp_storage: String, custom_share_folder: Option<String>) -> (res: Self)
        ensures
            res.store_directory == store_directory,
            res.compress_timeout is None,
            res.compression == whole_unless(no_7zip),
            res.connector.ms_psexec,
            res.connector.remote_temp_storage == remote_temp_storage,
    {
        RegistryAcquirer::new(store_directory, PsExec::psexec64(computer, remote_temp_storage, custom_share_folder), None, whole_compression(no_7zip))
    }
}

impl RegistryAcquirer<PsRemote> {
    /// Hives through PowerShell remoting, moved plainly.
    pub fn psremote(store_directory: String, computer: Computer, no_7zip: bool, remote_temp_storage: String, custom_share_folder: Option<String>) -> (res: Self)
        ensures
            res.store_directory == store_directory,
            res.compress_timeout is None,
            res.compression == Compression::No,
            res.connector.remote_temp_storage == remote_temp_storage,
    {
        RegistryAcquirer::new(store_directory, PsRemote::new(computer, remote_temp_storage, custom_share_folder), None, Compression::No)
    }
}

impl RegistryAcquirer<Wmi> {
    /// Hives through WMI, moved as split archives unless 7-Zip is off.
    pub fn wmi(store_directory: String, computer: Computer, compress_timeout: u64, no_7zip: bool, remote_temp_storage: String) -> (res: Self)
        ensures
            res.store_directory == store_directory,
            res.compress_timeout == Some(compress_timeout),
            res.compression == split_unless(no_7zip),
            res.connector.computer == computer,
            res.connector.remote_temp_storage == remote_temp_storage,
    {
        RegistryAcquirer::new(store_directory, Wmi { computer, remote_temp_storage }, Some(compress_timeout), split_compression(no_7zip))
    }
}

impl RegistryAcquirer<Rdp> {
    /// Hives through remote desktop, moved as split archives unless 7-Zip is off.
    pub fn rdp(store_directory: String, computer: Computer, compress_timeout: u64, nla: bool, no_7zip: bool, remote_temp_storage: String) -> (res: Self)
        ensures
            res.store_directory == store_directory,
            res.compress_timeout == Some(compress_timeout),
            res.compression == split_unless(no_7zip),
            res.connector.computer == computer,
            res.connector.nla == nla,
            res.connector.remote_temp_storage == remote_temp_storage,
    {
        RegistryAcquirer::new(store_directory, Rdp { computer, nla, remote_temp_storage }, Some(compress_timeout), split_compression(no_7zip))
    }
}

impl RegistryAcquirer<Local> {
    /// Hives of this computer, moved plainly.
    pub fn local(username: String, store_directory: String, temp_storage: String) -> (res: Self)
        ensures
            res.store_directory == store_directory,
            res.compress_timeout is None,
            res.compression == Compression::No,
            res.connector.localhost.username == username,
            res.connector.temp_storage == temp_storage,
    {
        RegistryAcquirer::new(store_directory, Local::new(username, temp_storage), None, Compression::No)
    }
}

} // verus!
