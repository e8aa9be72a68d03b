//! Acquisition from the computer the tool runs on.

use vstd::prelude::*;
use crate::text::{views, owned, append_all};
use crate::remote::connector::{
    Computer, Connector, Invocation, Plan, LocalProgramRun, LocalProgramPlan, cmd_plan,
    cmd_invocation, redirect, opt_str_view, push_opt_args,
};
use crate::remote::copier::{FileCopier, RemoteFileCopier, plans, Cmd, single, xcopy_args};

verus! {

/// The remote directory used for temporary files when none is given.
pub const DEFAULT_REMOTE_PATH_STORAGE: &'static str = "C:\\Users\\Public";

/// The local computer, reached without any remote connection.
pub struct Local {
    pub localhost: Computer,
    pub temp_storage: String,
}

impl Local {
    /// The local computer (address `127.0.0.1`, no domain, no password) used by
    /// `username`, with `temp_storage` for temporary files.
    pub fn new(username: String, temp_storage: String) -> (res: Local)
        ensures
            res.localhost.address@ == "127.0.0.1"@,
            res.localhost.username == username,
            res.localhost.password is None,
            res.localhost.domain is None,
            res.temp_storage == temp_storage,
    {
        Local {
            localhost: Computer {
                address: owned("127.0.0.1"),
                username,
                password: None,
                domain: None,
            },
            temp_storage,
        }
    }

    /// The local computer with the default temporary storage.
    pub fn new_default(username: String) -> (res: Local)
        ensures
            res.localhost.address@ == "127.0.0.1"@,
            res.localhost.username == username,
            res.localhost.password is None,
            res.localhost.domain is None,
            res.temp_storage@ == DEFAULT_REMOTE_PATH_STORAGE@,
    {
        Local::new(username, owned(DEFAULT_REMOTE_PATH_STORAGE))
    }
}

impl Connector for Local {
    open spec fn method_name_view(&self) -> Seq<char> {
        "LOCAL"@
    }

    open spec fn target(&self) -> Computer {
        self.localhost
    }

    open spec fn temp_storage_view(&self) -> Seq<char> {
        self.temp_storage@
    }

    open spec fn prepared(&self, command: Seq<Seq<char>>, output: Option<Seq<char>>, elevated: bool) -> Seq<Seq<char>> {
        command + redirect(output)
    }

    open spec fn run_plan_view(&self, command: Seq<Seq<char>>, output: Option<Seq<char>>, elevated: bool, timeout: Option<u64>) -> Plan {
        cmd_plan(self.prepared(command, output, elevated), timeout)
    }

    open spec fn local_program_view(&self, command: Seq<Seq<char>>) -> LocalProgramPlan {
        LocalProgramPlan::Direct { command }
    }

    fn connect_method_name(&self) -> (res: &'static str) {
        "LOCAL"
    }

    fn computer(&self) -> (res: &Computer) {
        &self.localhost
    }

    fn remote_temp_storage(&self) -> (res: &str) {
        self.temp_storage.as_str()
    }

    fn prepare_command(&self, command: Vec<String>, output_file_path: Option<&str>, elevated: bool) -> (res: Vec<String>) {
        let mut res = command;
        push_opt_args(&mut res, ">", output_file_path);
        res
    }

    fn run_plan(&self, command: Vec<String>, output_file_path: Option<&str>, elevated: bool, timeout: Option<u64>) -> (res: Invocation) {
        cmd_invocation(self.prepare_command(command, output_file_path, elevated), timeout)
    }

    fn local_program_run(&self, command: Vec<String>) -> (res: LocalProgramRun) {
        LocalProgramRun::Direct { command }
    }
}

impl FileCopier for Local {
    open spec fn copy_view(&self, source: Seq<char>, target: Seq<char>) -> Plan {
        Plan::Run { program: "xcopy"@, args: xcopy_args(source, target) }
    }

    open spec fn delete_view(&self, target: Seq<char>) -> Plan {
        Plan::Run { program: "del"@, args: seq!["/F"@, "/Q"@, target] }
    }

    open spec fn copier_name(&self) -> Seq<char> {
        "XCopy (local)"@
    }

    fn copy_file(&self, source: &str, target: &str) -> (res: Invocation) {
        Cmd {}.copy_file(source, target)
    }

    fn delete_file(&self, target: &str) -> (res: Invocation) {
        Cmd {}.delete_file(target)
    }

    fn method_name(&self) -> (res: &'static str) {
        "XCopy (local)"
    }
}

impl RemoteFileCopier for Local {
    open spec fn remote_target(&self) -> Computer {
        self.localhost
    }

    open spec fn remote_form(&self, path: Seq<char>) -> Seq<char> {
        path
    }

    open spec fn to_remote_steps(&self, source: Seq<char>, target: Seq<char>) -> Seq<Plan> {
        seq![self.copy_view(source, target)]
    }

    open spec fn delete_steps(&self, target: Seq<char>) -> Seq<Plan> {
        seq![self.delete_view(target)]
    }

    open spec fn from_remote_steps(&self, source: Seq<char>, target: Seq<char>) -> Seq<Plan> {
        seq![self.copy_view(source, target)]
    }

    open spec fn wildcards_view(&self) -> bool {
        true
    }

    open spec fn copier_name_view(&self) -> Seq<char> {
        "XCopy (local)"@
    }

    fn remote_computer(&self) -> (res: &Computer) {
        &self.localhost
    }

    fn path_to_remote_form(&self, path: &str) -> (res: String) {
        owned(path)
    }

    fn copy_to_remote(&self, source: &str, target: &str) -> (res: Vec<Invocation>) {
        single(self.copy_file(source, target))
    }

    fn delete_remote_file(&self, target: &str) -> (res: Vec<Invocation>) {
        single(self.delete_file(target))
    }

    fn copy_from_remote(&self, source: &str, target: &str) -> (res: Vec<Invocation>) {
        single(self.copy_file(source, target))
    }

    open spec fn open_steps(&self) -> Seq<Plan> {
        Seq::empty()
    }

    open spec fn close_steps(&self) -> Seq<Plan> {
        Seq::empty()
    }

    fn open_session(&self) -> (res: Vec<Invocation>) {
        let res: Vec<Invocation> = Vec::new();
        assert(plans(res@) =~= Seq::<Plan>::empty());
        res
    }

    fn close_session(&self) -> (res: Vec<Invocation>) {
        let res: Vec<Invocation> = Vec::new();
        assert(plans(res@) =~= Seq::<Plan>::empty());
        res
    }

    fn expands_wildcards(&self) -> (res: bool) {
        true
    }

    fn method_name(&self) -> (res: &'static str) {
        "XCopy (local)"
    }
}

} // verus!
