//! Acquiring the system and application event logs.

use vstd::prelude::*;
use crate::text::{views, push_str};
use crate::remote::connector::{Computer, Connector};
use crate::remote::copier::RemoteFileCopier;
use crate::remote::archiver::Compression;
use crate::remote::psexec::PsExec;
use crate::remote::psremote::PsRemote;
use crate::remote::rdp::Rdp;
use crate::remote::wmi::Wmi;
use crate::remote::local::Local;
use crate::large_evidence_acquirer::{LargeRun, large_run, is_large_run};

verus! {

/// The `wevtutil` command that exports the event log `log`.
pub open spec fn export_log_command(log: Seq<char>) -> Seq<Seq<char>> {
    seq!["wevtutil"@, "epl"@, log]
}

/// The compression of a method that moves archives whole unless 7-Zip is off.
pub open spec fn whole_unless(no_7zip: bool) -> Compression {
    if no_7zip {
        Compression::No
    } else {
        Compression::Yes
    }
}

/// The compression of a method that moves archives in parts unless 7-Zip is off.
pub open spec fn split_unless(no_7zip: bool) -> Compression {
    if no_7zip {
        Compression::No
    } else {
        Compression::YesSplit
    }
}

/// The compression of a method that moves archives whole unless 7-Zip is off.
pub fn whole_compression(no_7zip: bool) -> (res: Compression)
    ensures
        res == whole_unless(no_7zip),
{
    if no_7zip {
        Compression::No
    } else {
        Compression::Yes
    }
}

/// The compression of a method that moves archives in parts unless 7-Zip is off.
pub fn split_compression(no_7zip: bool) -> (res: Compression)
    ensures
        res == split_unless(no_7zip),
{
    if no_7zip {
        Compression::No
    } else {
        Compression::YesSplit
    }
}

/// The event logs of a computer, exported there and brought here.
pub struct EventsAcquirer<C: Connector + RemoteFileCopier> {
    pub store_directory: String,
    pub connector: C,
    pub application_event_logs_command: Vec<String>,
    pub system_event_logs_command: Vec<String>,
    pub compress_timeout: Option<u64>,
    pub compression: Compression,
}

fn log_command(log: &str) -> (res: Vec<String>)
    ensures
        views(res@) == export_log_command(log@),
{
    let mut res: Vec<String> = Vec::new();
    push_str(&mut res, "wevtutil");
    push_str(&mut res, "epl");
    push_str(&mut res, log);
    res
}

impl<C: Connector + RemoteFileCopier> EventsAcquirer<C> {
    /// An acquirer through `connector` that exports the `application` and `system` logs.
    pub fn new(store_directory: String, connector: C, compress_timeout: Option<u64>, compression: Compression) -> (res: Self)
        ensures
            res.store_directory == store_directory,
            res.connector == connector,
            res.compress_timeout == compress_timeout,
            res.compression == compression,
            views(res.application_event_logs_command@) == export_log_command("application"@),
            views(res.system_event_logs_command@) == export_log_command("system"@),
    {
        EventsAcquirer {
            store_directory,
            connector,
            application_event_logs_command: log_command("application"),
            system_event_logs_command: log_command("system"),
            compress_timeout,
            compression,
        }
    }

    /// The acquisitions of the system log, then of the application log, as
    /// `.evtx` files exported with `/ow:true`; nothing for an empty command.
    pub fn acquire(&self) -> (res: (Option<LargeRun>, Option<LargeRun>))
        ensures
            res.0 is None <==> self.system_event_logs_command@.len() == 0,
            res.0 matches Some(r) ==> is_large_run(self.connector, self.store_directory@, self.compression,
                "evtx"@, Some("/ow:true"@), r, views(self.system_event_logs_command@), "events-system"@),
            res.1 is None <==> self.application_event_logs_command@.len() == 0,
            res.1 matches Some(r) ==> is_large_run(self.connector, self.store_directory@, self.compression,
                "evtx"@, Some("/ow:true"@), r, views(self.application_event_logs_command@), "events-application"@),
    {
        let store = self.store_directory.as_str();
        let system = large_run(&self.connector, store, self.compression, "evtx", Some("/ow:true"), &self.system_event_logs_command, "events-system");
        let application = large_run(&self.connector, store, self.compression, "evtx", Some("/ow:true"), &self.application_event_logs_command, "events-application");
        (system, application)
    }
}

impl EventsAcquirer<PsExec> {
    /// Event logs through 32-bit PsExec, moved as whole archives unless 7-Zip is off.
    pub fn psexec32(store_directory: String, remote_computer: Computer, no_7zip: bool, remote_temp_storage: String, custom_share_folder: Option<String>) -> (res: Self)
        ensures
            res.store_directory == store_directory,
            res.compress_timeout is None,
            res.compression == whole_unless(no_7zip),
            res.connector.ms_psexec,
            res.connector.remote_temp_storage == remote_temp_storage,
    {
        EventsAcquirer::new(store_directory, PsExec::psexec32(remote_computer, remote_temp_storage, custom_share_folder), None, whole_compression(no_7zip))
    }

    /// Event logs through 64-bit PsExec, moved as whole archives unless 7-Zip is off.
    pub fn psexec64(store_directory: String, remote_computer: Computer, no_7zip: bool, remote_temp_storage: String, custom_share_folder: Option<String>) -> (res: Self)
        ensures
            res.store_directory == store_directory,
            res.compress_timeout is None,
            res.compression == whole_unless(no_7zip),
            res.connector.ms_psexec,
            res.connector.remote_temp_storage == remote_temp_storage,
    {
        EventsAcquirer::new(store_directory, PsExec::psexec64(remote_computer, remote_temp_storage, custom_share_folder), None, whole_compression(no_7zip))
    }
}

impl EventsAcquirer<Local> {
    /// Event logs of this computer, moved plainly.
    pub fn local(username: String, store_directory: String, temp_storage: String) -> (res: Self)
        ensures
            res.store_directory == store_directory,
            res.compress_timeout is None,
            res.compression == Compression::No,
            res.connector.localhost.username == username,
            res.connector.temp_storage == temp_storage,
    {
        EventsAcquirer::new(store_directory, Local::new(username, temp_storage), None, Compression::No)
    }
}

impl EventsAcquirer<PsRemote> {
    /// Event logs through PowerShell remoting, moved plainly.
    pub fn psremote(store_directory: String, remote_computer: Computer, no_7zip: bool, remote_temp_storage: String, custom_share_folder: Option<String>) -> (res: Self)
        ensures
            res.store_directory == store_directory,
            res.compress_timeout is None,
            res.compression == Compression::No,
            res.connector.remote_temp_storage == remote_temp_storage,
    {
        EventsAcquirer::new(store_directory, PsRemote::new(remote_computer, remote_temp_storage, custom_share_folder), None, Compression::No)
    }
}

impl EventsAcquirer<Wmi> {
    /// Event logs through WMI, moved as split archives unless 7-Zip is off.
    pub fn wmi(store_directory: String, computer: Computer, compress_timeout: u64, no_7zip: bool, remote_temp_storage: String) -> (res: Self)
        ensures
            res.store_directory == store_directory,
            res.compress_timeout == Some(compress_timeout),
            res.compression == split_unless(no_7zip),
            res.connector.computer == computer,
            res.connector.remote_temp_storage == remote_temp_storage,
    {
        EventsAcquirer::new(store_directory, Wmi { computer, remote_temp_storage }, Some(compress_timeout), split_compression(no_7zip))
    }
}

impl EventsAcquirer<Rdp> {
    /// Event logs through remote desktop, moved as split archives unless 7-Zip is off.
    pub fn rdp(store_directory: String, computer: Computer, compress_timeout: u64, nla: bool, no_7zip: bool, remote_temp_storage: String) -> (res: Self)
        ensures
            res.store_directory == store_directory,
            res.compress_timeout == Some(compress_timeout),
            res.compression == split_unless(no_7zip),
            res.connector.computer == computer,
            res.connector.nla == nla,
            res.connector.remote_temp_storage == remote_temp_storage,
    {
        EventsAcquirer::new(store_directory, Rdp { computer, nla, remote_temp_storage }, Some(compress_timeout), split_compression(no_7zip))
    }
}

} // verus!
