//! Connectors that let the remote computer reach this one through a share.

use vstd::prelude::*;
use crate::text::{views, owned, concat2, concat3, push_str, replace_all, replaced};
use crate::remote::connector::{
    Computer, Connector, Invocation, Plan, LocalProgramRun, LocalProgramPlan, cmd_plan,
    cmd_invocation, staged_plan, staged_run,
};
use crate::remote::copier::{
    FileCopier, RemoteFileCopier, single, remote_xcopy, remote_del, remote_del_command, xcopy_arguments,
    GARGAMEL_SHARED_FOLDER_NAME,
};

verus! {

/// A connector that shares this computer's `C:` drive and has the remote
/// computer copy files from and to that share with `xcopy` (as `RemoteCmd`
/// does); commands run through `connector_impl`.
pub struct RevShareConnector<C: Connector> {
    pub connector_impl: C,
    /// The name of this computer, under which the remote computer finds the share.
    pub host: String,
}

/// The name of this computer, from `gethostname::gethostname()`. It depends on
/// the machine, so nothing is stated of it.
#[verifier::external_body]
pub(crate) fn local_hostname() -> (res: String)
{
    gethostname::gethostname().to_string_lossy().to_string()
}

impl<C: Connector> RevShareConnector<C> {
    /// A connector through `connector_impl` that is reached back under this
    /// computer's host name. The share itself is opened with `open_share`.
    pub fn new(connector_impl: C) -> (res: RevShareConnector<C>)
        ensures
            res.connector_impl == connector_impl,
    {
        RevShareConnector { connector_impl, host: local_hostname() }
    }

    /// A connector through `connector_impl` reached back under the host name `host`.
    pub fn with_host(connector_impl: C, host: String) -> (res: RevShareConnector<C>)
        ensures
            res.connector_impl == connector_impl,
            res.host == host,
    {
        RevShareConnector { connector_impl, host }
    }

    /// The process that shares this computer's `C:` drive with everyone.
    pub fn open_share(&self) -> (res: Invocation)
        ensures
            res@ == (Plan::Run {
                program: "NET"@,
                args: seq!["share"@, GARGAMEL_SHARED_FOLDER_NAME@ + "=C:"@, "/GRANT:Everyone,FULL"@],
            }),
    {
        let mut args: Vec<String> = Vec::new();
        push_str(&mut args, "share");
        let s = concat2(GARGAMEL_SHARED_FOLDER_NAME, "=C:");
        push_str(&mut args, s.as_str());
        push_str(&mut args, "/GRANT:Everyone,FULL");
        assert(views(args@) =~= seq!["share"@, GARGAMEL_SHARED_FOLDER_NAME@ + "=C:"@, "/GRANT:Everyone,FULL"@]);
        Invocation::Run { program: owned("NET"), args }
    }

    /// The process that removes the share again.
    pub fn close_share(&self) -> (res: Invocation)
        ensures
            res@ == (Plan::Run {
                program: "NET"@,
                args: seq!["share"@, "/Y"@, "/D"@, GARGAMEL_SHARED_FOLDER_NAME@],
            }),
    {
        let mut args: Vec<String> = Vec::new();
        push_str(&mut args, "share");
        push_str(&mut args, "/Y");
        push_str(&mut args, "/D");
        push_str(&mut args, GARGAMEL_SHARED_FOLDER_NAME);
        assert(views(args@) =~= seq!["share"@, "/Y"@, "/D"@, GARGAMEL_SHARED_FOLDER_NAME@]);
        Invocation::Run { program: owned("NET"), args }
    }
}

impl<C: Connector> Connector for RevShareConnector<C> {
    open spec fn method_name_view(&self) -> Seq<char> {
        self.connector_impl.method_name_view()
    }

    open spec fn target(&self) -> Computer {
        self.connector_impl.target()
    }

    open spec fn temp_storage_view(&self) -> Seq<char> {
        self.connector_impl.temp_storage_view()
    }

    open spec fn prepared(&self, command: Seq<Seq<char>>, output: Option<Seq<char>>, elevated: bool) -> Seq<Seq<char>> {
        self.connector_impl.prepared(command, output, elevated)
    }

    open spec fn run_plan_view(&self, command: Seq<Seq<char>>, output: Option<Seq<char>>, elevated: bool, timeout: Option<u64>) -> Plan {
        cmd_plan(self.prepared(command, output, elevated), timeout)
    }

    open spec fn local_program_view(&self, command: Seq<Seq<char>>) -> LocalProgramPlan {
        staged_plan(*self, command, self.temp_storage_view(), 0, 0)
    }

    fn connect_method_name(&self) -> (res: &'static str) {
        self.connector_impl.connect_method_name()
    }

    fn computer(&self) -> (res: &Computer) {
        self.connector_impl.computer()
    }

    fn remote_temp_storage(&self) -> (res: &str) {
        self.connector_impl.remote_temp_storage()
    }

    fn prepare_command(&self, command: Vec<String>, output_file_path: Option<&str>, elevated: bool) -> (res: Vec<String>) {
        self.connector_impl.prepare_command(command, output_file_path, elevated)
    }

    fn run_plan(&self, command: Vec<String>, output_file_path: Option<&str>, elevated: bool, timeout: Option<u64>) -> (res: Invocation) {
        cmd_invocation(self.prepare_command(command, output_file_path, elevated), timeout)
    }

    fn local_program_run(&self, command: Vec<String>) -> (res: LocalProgramRun) {
        staged_run(self, command, self.remote_temp_storage(), 0, 0)
    }
}

impl<C: Connector> FileCopier for RevShareConnector<C> {
    open spec fn copy_view(&self, source: Seq<char>, target: Seq<char>) -> Plan {
        cmd_plan(self.connector_impl.prepared(remote_xcopy(source, target), None, true), None)
    }

    open spec fn delete_view(&self, target: Seq<char>) -> Plan {
        cmd_plan(self.connector_impl.prepared(remote_del(target), None, true), None)
    }

    open spec fn copier_name(&self) -> Seq<char> {
        "RemoteXCopy"@
    }

    fn copy_file(&self, source: &str, target: &str) -> (res: Invocation) {
        let mut command: Vec<String> = Vec::new();
        push_str(&mut command, "xcopy");
        crate::text::append_all(&mut command, xcopy_arguments(source, target));
        assert(views(command@) =~= remote_xcopy(source@, target@));
        cmd_invocation(self.connector_impl.prepare_command(command, None, true), None)
    }

    fn delete_file(&self, target: &str) -> (res: Invocation) {
        cmd_invocation(self.connector_impl.prepare_command(remote_del_command(target), None, true), None)
    }

    fn method_name(&self) -> (res: &'static str) {
        "RemoteXCopy"
    }
}

/// How the remote computer reaches this computer's `path`: through the share
/// on `host`, with `C:` replaced by the share's name.
pub open spec fn share_back_form(host: Seq<char>, path: Seq<char>) -> Seq<char> {
    "\\\\"@ + host + "\\"@ + replaced(path, "C:"@, GARGAMEL_SHARED_FOLDER_NAME@)
}

impl<C: Connector> RemoteFileCopier for RevShareConnector<C> {
    open spec fn remote_target(&self) -> Computer {
        self.connector_impl.target()
    }

    open spec fn remote_form(&self, path: Seq<char>) -> Seq<char> {
        share_back_form(self.host@, path)
    }

    open spec fn to_remote_steps(&self, source: Seq<char>, target: Seq<char>) -> Seq<Plan> {
        seq![self.copy_view(share_back_form(self.host@, source), target)]
    }

    open spec fn delete_steps(&self, target: Seq<char>) -> Seq<Plan> {
        seq![self.delete_view(target)]
    }

    open spec fn from_remote_steps(&self, source: Seq<char>, target: Seq<char>) -> Seq<Plan> {
        seq![self.copy_view(source, share_back_form(self.host@, target))]
    }

    open spec fn wildcards_view(&self) -> bool {
        false
    }

    open spec fn copier_name_view(&self) -> Seq<char> {
        "RemoteXCopy"@
    }

    fn remote_computer(&self) -> (res: &Computer) {
        self.connector_impl.computer()
    }

    fn path_to_remote_form(&self, path: &str) -> (res: String) {
        proof {
            reveal_strlit("C:");
        }
        let p = replace_all(path, "C:", GARGAMEL_SHARED_FOLDER_NAME);
        let mut res = concat3("\\\\", self.host.as_str(), "\\");
        res.append(p.as_str());
        res
    }

    fn copy_to_remote(&self, source: &str, target: &str) -> (res: Vec<Invocation>) {
        let s = self.path_to_remote_form(source);
        single(self.copy_file(s.as_str(), target))
    }

    fn delete_remote_file(&self, target: &str) -> (res: Vec<Invocation>) {
        single(self.delete_file(target))
    }

    fn copy_from_remote(&self, source: &str, target: &str) -> (res: Vec<Invocation>) {
        let t = self.path_to_remote_form(target);
        single(self.copy_file(source, t.as_str()))
    }

    open spec fn open_steps(&self) -> Seq<Plan> {
        seq![Plan::Run {
            program: "NET"@,
            args: seq!["share"@, GARGAMEL_SHARED_FOLDER_NAME@ + "=C:"@, "/GRANT:Everyone,FULL"@],
        }]
    }

    open spec fn close_steps(&self) -> Seq<Plan> {
        seq![Plan::Run { program: "NET"@, args: seq!["share"@, "/Y"@, "/D"@, GARGAMEL_SHARED_FOLDER_NAME@] }]
    }

    fn open_session(&self) -> (res: Vec<Invocation>) {
        single(self.open_share())
    }

    fn close_session(&self) -> (res: Vec<Invocation>) {
        single(self.close_share())
    }

    fn expands_wildcards(&self) -> (res: bool) {
        false
    }

    fn method_name(&self) -> (res: &'static str) {
        "RemoteXCopy"
    }
}

} // verus!
