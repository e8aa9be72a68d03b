//! Acquisition with PowerShell remoting.

use vstd::prelude::*;
use crate::text::{views, owned, concat2, concat3, push_str, append_all};
use crate::remote::connector::{
    Computer, Connector, Invocation, Plan, LocalProgramRun, LocalProgramPlan, cmd_plan,
    cmd_invocation, redirect, opt_str_view, push_opt_args, staged_plan, staged_run, computer_view,
};
use crate::remote::copier::{FileCopier, RemoteFileCopier, WindowsRemoteFileHandler};

verus! {

/// Copying with PowerShell's `Copy-Item` and `Remove-Item`.
pub struct Powershell {}

/// A path in single quotes, as PowerShell reads it.
pub open spec fn single_quoted(p: Seq<char>) -> Seq<char> {
    "'"@ + p + "'"@
}

impl FileCopier for Powershell {
    open spec fn copy_view(&self, source: Seq<char>, target: Seq<char>) -> Plan {
        Plan::Run {
            program: "powershell.exe"@,
            args: seq!["Copy-Item"@, single_quoted(source), single_quoted(target)],
        }
    }

    open spec fn delete_view(&self, target: Seq<char>) -> Plan {
        Plan::Run { program: "powershell.exe"@, args: seq!["Remove-Item"@, "-Force"@, single_quoted(target)] }
    }

    open spec fn copier_name(&self) -> Seq<char> {
        "PSCOPY"@
    }

    fn copy_file(&self, source: &str, target: &str) -> (res: Invocation) {
        let mut args: Vec<String> = Vec::new();
        push_str(&mut args, "Copy-Item");
        let q1 = concat3("'", source, "'");
        push_str(&mut args, q1.as_str());
        let q2 = concat3("'", target, "'");
        push_str(&mut args, q2.as_str());
        assert(views(args@) =~= seq!["Copy-Item"@, single_quoted(source@), single_quoted(target@)]);
        Invocation::Run { program: owned("powershell.exe"), args }
    }

    fn delete_file(&self, target: &str) -> (res: Invocation) {
        let mut args: Vec<String> = Vec::new();
        push_str(&mut args, "Remove-Item");
        push_str(&mut args, "-Force");
        let q = concat3("'", target, "'");
        push_str(&mut args, q.as_str());
        assert(views(args@) =~= seq!["Remove-Item"@, "-Force"@, single_quoted(target@)]);
        Invocation::Run { program: owned("powershell.exe"), args }
    }

    fn method_name(&self) -> (res: &'static str) {
        "PSCOPY"
    }
}

/// A connector that runs commands with PowerShell remoting and copies files
/// through the remote computer's shares.
pub struct PsRemote {
    pub computer: Computer,
    pub copier_impl: WindowsRemoteFileHandler<Powershell>,
    pub remote_temp_storage: String,
}

impl PsRemote {
    /// A PowerShell remoting connector to `computer`.
    pub fn new(computer: Computer, remote_temp_storage: String, custom_share_folder: Option<String>) -> (res: PsRemote)
        ensures
            computer_view(res.computer) == computer_view(computer),
            res.copier_impl.computer == computer,
            res.copier_impl.custom_share_folder == custom_share_folder,
            res.remote_temp_storage == remote_temp_storage,
    {
        let copy = computer.duplicate();
        PsRemote {
            computer: copy,
            copier_impl: WindowsRemoteFileHandler::new(computer, Powershell {}, custom_share_folder),
            remote_temp_storage,
        }
    }
}

/// The credential argument: the bare user name without a password, and a
/// `PSCredential` object built from user name and password otherwise.
pub open spec fn credential(computer: Computer) -> Seq<char> {
    match computer.password {
        None => computer.username@,
        Some(p) => "(New-Object Management.Automation.PSCredential ('"@ + computer.username@
            + "', (ConvertTo-SecureString '"@ + p@ + "' -AsPlainText -Force)))"@,
    }
}

/// The PowerShell command line that runs `command` on `computer`.
pub open spec fn psremote_prepared(computer: Computer, command: Seq<Seq<char>>, output: Option<Seq<char>>) -> Seq<Seq<char>> {
    seq![
        "powershell.exe"@,
        "-command"@,
        "Invoke-Command"@,
        "-ComputerName"@,
        computer.address@,
        "-ScriptBlock"@,
        "{"@,
    ] + command + seq!["}"@, "-credential"@, credential(computer)] + redirect(output)
}

/// The PowerShell command line that runs `command` on `computer` (see `psremote_prepared`).
pub fn powershell_command(computer: &Computer, command: Vec<String>, output_file_path: Option<&str>) -> (res: Vec<String>)
    ensures
        views(res@) == psremote_prepared(*computer, views(command@), opt_str_view(output_file_path)),
{
    let mut res: Vec<String> = Vec::new();
    push_str(&mut res, "powershell.exe");
    push_str(&mut res, "-command");
    push_str(&mut res, "Invoke-Command");
    push_str(&mut res, "-ComputerName");
    push_str(&mut res, computer.address.as_str());
    push_str(&mut res, "-ScriptBlock");
    push_str(&mut res, "{");
    append_all(&mut res, command);
    push_str(&mut res, "}");
    push_str(&mut res, "-credential");
    let cred = match &computer.password {
        None => computer.username.clone(),
        Some(p) => {
            let mut c = concat3(
                "(New-Object Management.Automation.PSCredential ('",
                computer.username.as_str(),
                "', (ConvertTo-SecureString '",
            );
            c.append(p.as_str());
            c.append("' -AsPlainText -Force)))");
            c
        },
    };
    push_str(&mut res, cred.as_str());
    push_opt_args(&mut res, ">", output_file_path);
    assert(views(res@) =~= psremote_prepared(*computer, views(command@), opt_str_view(output_file_path)));
    res
}

impl Connector for PsRemote {
    open spec fn method_name_view(&self) -> Seq<char> {
        "PSREM"@
    }

    open spec fn target(&self) -> Computer {
        self.computer
    }

    open spec fn temp_storage_view(&self) -> Seq<char> {
        self.remote_temp_storage@
    }

    open spec fn prepared(&self, command: Seq<Seq<char>>, output: Option<Seq<char>>, elevated: bool) -> Seq<Seq<char>> {
        psremote_prepared(self.computer, command, output)
    }

    open spec fn run_plan_view(&self, command: Seq<Seq<char>>, output: Option<Seq<char>>, elevated: bool, timeout: Option<u64>) -> Plan {
        cmd_plan(self.prepared(command, output, elevated), timeout)
    }

    open spec fn local_program_view(&self, command: Seq<Seq<char>>) -> LocalProgramPlan {
        staged_plan(self.copier_impl, command, self.remote_temp_storage@, 20, 10)
    }

    fn connect_method_name(&self) -> (res: &'static str) {
        "PSREM"
    }

    fn computer(&self) -> (res: &Computer) {
        &self.computer
    }

    fn remote_temp_storage(&self) -> (res: &str) {
        self.remote_temp_storage.as_str()
    }

    fn prepare_command(&self, command: Vec<String>, output_file_path: Option<&str>, elevated: bool) -> (res: Vec<String>) {
        powershell_command(&self.computer, command, output_file_path)
    }

    fn run_plan(&self, command: Vec<String>, output_file_path: Option<&str>, elevated: bool, timeout: Option<u64>) -> (res: Invocation) {
        cmd_invocation(self.prepare_command(command, output_file_path, elevated), timeout)
    }

    fn local_program_run(&self, command: Vec<String>) -> (res: LocalProgramRun) {
        staged_run(&self.copier_impl, command, self.remote_temp_storage.as_str(), 20, 10)
    }
}

impl RemoteFileCopier for PsRemote {
    open spec fn remote_target(&self) -> Computer {
        self.computer
    }

    open spec fn remote_form(&self, path: Seq<char>) -> Seq<char> {
        self.copier_impl.remote_form(path)
    }

    open spec fn to_remote_steps(&self, source: Seq<char>, target: Seq<char>) -> Seq<Plan> {
        self.copier_impl.from_remote_steps(source, target)
    }

    open spec fn delete_steps(&self, target: Seq<char>) -> Seq<Plan> {
        self.copier_impl.delete_steps(target)
    }

    open spec fn from_remote_steps(&self, source: Seq<char>, target: Seq<char>) -> Seq<Plan> {
        self.copier_impl.from_remote_steps(source, target)
    }

    open spec fn wildcards_view(&self) -> bool {
        true
    }

    open spec fn copier_name_view(&self) -> Seq<char> {
        "PSCOPY"@
    }

    fn remote_computer(&self) -> (res: &Computer) {
        &self.computer
    }

    fn path_to_remote_form(&self, path: &str) -> (res: String) {
        self.copier_impl.path_to_remote_form(path)
    }

    fn copy_to_remote(&self, source: &str, target: &str) -> (res: Vec<Invocation>) {
        self.copier_impl.copy_from_remote(source, target)
    }

    fn delete_remote_file(&self, target: &str) -> (res: Vec<Invocation>) {
        self.copier_impl.delete_remote_file(target)
    }

    fn copy_from_remote(&self, source: &str, target: &str) -> (res: Vec<Invocation>) {
        self.copier_impl.copy_from_remote(source, target)
    }

    open spec fn open_steps(&self) -> Seq<Plan> {
        self.copier_impl.open_steps()
    }

    open spec fn close_steps(&self) -> Seq<Plan> {
        self.copier_impl.close_steps()
    }

    fn open_session(&self) -> (res: Vec<Invocation>) {
        self.copier_impl.open_session()
    }

    fn close_session(&self) -> (res: Vec<Invocation>) {
        self.copier_impl.close_session()
    }

    fn expands_wildcards(&self) -> (res: bool) {
        true
    }

    fn method_name(&self) -> (res: &'static str) {
        "PSCOPY"
    }
}

} // verus!
