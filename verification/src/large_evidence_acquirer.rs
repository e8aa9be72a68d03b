//! Acquiring evidence that a command writes into a file on the remote
//! computer, which is then brought here.

use vstd::prelude::*;
use crate::text::{views, owned, push_str, append_all};
use crate::winpath::{path_joined, join_path};
use crate::remote::connector::{Connector, Invocation, Plan, report_name, report_file_name, opt_str_view};
use crate::remote::copier::{RemoteFileCopier, plans};
use crate::remote::archiver::Compression;

verus! {

/// How a remote file is brought to this computer.
pub enum FetchHow {
    /// With the connector's own copying, by these processes.
    Plain(Vec<Invocation>),
    /// Through 7-Zip archives, split into parts or not.
    Compressed { split: bool },
}

/// The content of a `FetchHow`.
pub enum FetchModel {
    Plain(Seq<Plan>),
    Compressed { split: bool },
}

impl View for FetchHow {
    type V = FetchModel;

    open spec fn view(&self) -> FetchModel {
        match self {
            FetchHow::Plain(v) => FetchModel::Plain(plans(v@)),
            FetchHow::Compressed { split } => FetchModel::Compressed { split: *split },
        }
    }
}

/// How the remote `source` is brought into `target` with `compression`:
/// plainly with the connector's copying, or through archives (split for
/// `YesSplit`).
pub open spec fn fetch_model<C: RemoteFileCopier>(connector: C, compression: Compression, source: Seq<char>, target: Seq<char>) -> FetchModel {
    match compression {
        Compression::No => FetchModel::Plain(connector.from_remote_steps(source, target)),
        Compression::Yes => FetchModel::Compressed { split: false },
        Compression::YesSplit => FetchModel::Compressed { split: true },
    }
}

/// How the remote `source` is brought into `target` (see `fetch_model`).
pub fn fetch_how<C: RemoteFileCopier>(connector: &C, compression: Compression, source: &str, target: &str) -> (res: FetchHow)
    ensures
        res@ == fetch_model(*connector, compression, source@, target@),
{
    match compression {
        Compression::No => FetchHow::Plain(connector.copy_from_remote(source, target)),
        Compression::Yes => FetchHow::Compressed { split: false },
        Compression::YesSplit => FetchHow::Compressed { split: true },
    }
}

/// The acquisition of one piece of evidence written into a remote file: run
/// the command, pause `pause_after_run_secs`, bring the file into the local
/// report's directory, pause `pause_after_fetch_secs`, delete the remote file.
pub struct LargeRun {
    /// The local report file.
    pub report_path: String,
    /// The remote file the command writes.
    pub remote_report_path: String,
    /// The process that runs the command.
    pub run: Invocation,
    pub pause_after_run_secs: u64,
    /// How the remote file is brought here.
    pub fetch: FetchHow,
    pub pause_after_fetch_secs: u64,
    /// The processes that delete the remote file.
    pub delete: Vec<Invocation>,
}

/// Evidence written into a remote file by a command, then brought here.
pub struct LargeEvidenceAcquirer<'a, C: Connector + RemoteFileCopier> {
    pub store_directory: String,
    pub connector: &'a C,
    pub compress_timeout: Option<u64>,
    pub compression: Compression,
    pub report_extension: String,
    pub overwrite_switch: Option<String>,
}

/// The command that writes its output into `remote_report`, with the
/// overwrite switch when one is given.
pub open spec fn large_command(command: Seq<Seq<char>>, remote_report: Seq<char>, overwrite: Option<Seq<char>>) -> Seq<Seq<char>> {
    match overwrite {
        Some(o) => command + seq![remote_report, o],
        None => command + seq![remote_report],
    }
}

/// Whether `r` acquires the output of `command` under `prefix` through
/// `connector`: the report named after the prefix (with `extension`) in
/// `store`, the remote file of that name in the connector's temporary
/// directory, fetched as `compression` says (see `LargeRun`).
pub open spec fn is_large_run<C: Connector + RemoteFileCopier>(
    connector: C,
    store: Seq<char>,
    compression: Compression,
    extension: Seq<char>,
    overwrite: Option<Seq<char>>,
    r: LargeRun,
    command: Seq<Seq<char>>,
    prefix: Seq<char>,
) -> bool {
    let name = report_name(connector.target(), prefix, connector.method_name_view(), extension);
    let remote = path_joined(connector.temp_storage_view(), name);
    &&& r.report_path@ == path_joined(store, name)
    &&& r.remote_report_path@ == remote
    &&& r.run@ == connector.run_plan_view(large_command(command, remote, overwrite), None, false, None)
    &&& r.pause_after_run_secs == 10
    &&& r.fetch@ == fetch_model(connector, compression, remote, store)
    &&& r.pause_after_fetch_secs == 2
    &&& plans(r.delete@) == connector.delete_steps(remote)
}

/// The acquisition of the output of `command` under the report prefix
/// `prefix` (see `is_large_run`); nothing for an empty command.
pub fn large_run<C: Connector + RemoteFileCopier>(
    connector: &C,
    store: &str,
    compression: Compression,
    extension: &str,
    overwrite: Option<&str>,
    command: &Vec<String>,
    prefix: &str,
) -> (res: Option<LargeRun>)
    ensures
        command@.len() == 0 <==> res is None,
        res matches Some(r) ==> is_large_run(*connector, store@, compression, extension@, opt_str_view(overwrite), r, views(command@), prefix@),
{
    if command.len() == 0 {
        return None;
    }
    let name = report_file_name(connector.computer(), prefix, connector.connect_method_name(), extension);
    let report_path = join_path(store, name.as_str());
    let remote = join_path(connector.remote_temp_storage(), name.as_str());
    let mut full: Vec<String> = Vec::new();
    let mut i: usize = 0;
    while i < command.len()
        invariant
            i <= command.len(),
            views(full@) == views(command@).take(i as int),
        decreases command.len() - i,
    {
        push_str(&mut full, command[i].as_str());
        assert(views(command@).take(i + 1) =~= views(command@).take(i as int).push(command@[i as int]@));
        i = i + 1;
    }
    assert(views(command@).take(command.len() as int) =~= views(command@));
    push_str(&mut full, remote.as_str());
    match overwrite {
        Some(o) => push_str(&mut full, o),
        None => {},
    }
    assert(views(full@) =~= large_command(views(command@), remote@, opt_str_view(overwrite)));
    let run = connector.run_plan(full, None, false, None);
    let fetch = fetch_how(connector, compression, remote.as_str(), store);
    let delete = connector.delete_remote_file(remote.as_str());
    Some(LargeRun {
        report_path,
        remote_report_path: remote,
        run,
        pause_after_run_secs: 10,
        fetch,
        pause_after_fetch_secs: 2,
        delete,
    })
}

impl<'a, C: Connector + RemoteFileCopier> LargeEvidenceAcquirer<'a, C> {
    /// The acquisition of the output of `command` under the report prefix
    /// `report_filename_prefix` (see `is_large_run`); nothing for an empty command.
    pub fn run(&self, command: &Vec<String>, report_filename_prefix: &str) -> (res: Option<LargeRun>)
        ensures
            command@.len() == 0 <==> res is None,
            res matches Some(r) ==> is_large_run(
                *self.connector,
                self.store_directory@,
                self.compression,
                self.report_extension@,
                crate::remote::connector::opt_view(self.overwrite_switch),
                r,
                views(command@),
                report_filename_prefix@,
            ),
    {
        let overwrite = match &self.overwrite_switch {
            Some(o) => Some(o.as_str()),
            None => None,
        };
        large_run(
            self.connector,
            self.store_directory.as_str(),
            self.compression,
            self.report_extension.as_str(),
            overwrite,
            command,
            report_filename_prefix,
        )
    }
}

} // verus!
