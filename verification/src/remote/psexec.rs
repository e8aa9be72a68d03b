//! Acquisition with PsExec or PAExec.

use vstd::prelude::*;
use crate::text::{views, owned, concat2, push_str, append_all};
use crate::remote::connector::{
    Computer, Connector, Invocation, Plan, LocalProgramRun, LocalProgramPlan, cmd_plan,
    cmd_invocation, redirect, opt_args, flag_arg, opt_str_view, opt_view, push_opt_args,
    push_flag_arg, opt_as_str, domain_user, computer_view,
};
use crate::remote::copier::{
    FileCopier, RemoteFileCopier, Cmd, WindowsRemoteFileHandler, single, remote_del, remote_del_command,
};

verus! {

/// The program name of 64-bit PsExec.
pub const PSEXEC64_NAME: &'static str = "PsExec64.exe";

/// The program name of 32-bit PsExec.
pub const PSEXEC32_NAME: &'static str = "PsExec.exe";

/// A connector that runs commands with PsExec (or PAExec) and copies files
/// through the remote computer's shares.
pub struct PsExec {
    pub computer: Computer,
    pub copier_impl: WindowsRemoteFileHandler<Cmd>,
    pub psexec_name: String,
    pub remote_temp_storage: String,
    pub ms_psexec: bool,
}

impl PsExec {
    fn make(
        computer: Computer,
        remote_temp_storage: String,
        custom_share_folder: Option<String>,
        psexec_name: &str,
        ms_psexec: bool,
    ) -> (res: PsExec)
        ensures
            computer_view(res.computer) == computer_view(computer),
            res.copier_impl.computer == computer,
            res.copier_impl.custom_share_folder == custom_share_folder,
            res.psexec_name@ == psexec_name@,
            res.remote_temp_storage == remote_temp_storage,
            res.ms_psexec == ms_psexec,
    {
        let copy = computer.duplicate();
        let handler = WindowsRemoteFileHandler::new(computer, Cmd {}, custom_share_folder);
        PsExec {
            computer: copy,
            copier_impl: handler,
            psexec_name: owned(psexec_name),
            remote_temp_storage,
            ms_psexec,
        }
    }

    /// A connector that uses PAExec.
    pub fn paexec(computer: Computer, remote_temp_storage: String, custom_share_folder: Option<String>) -> (res: PsExec)
        ensures
            computer_view(res.computer) == computer_view(computer),
            res.copier_impl.computer == computer,
            res.copier_impl.custom_share_folder == custom_share_folder,
            res.psexec_name@ == "paexec.exe"@,
            res.remote_temp_storage == remote_temp_storage,
            !res.ms_psexec,
    {
        PsExec::make(computer, remote_temp_storage, custom_share_folder, "paexec.exe", false)
    }

    /// A connector that uses 32-bit PsExec.
    pub fn psexec32(computer: Computer, remote_temp_storage: String, custom_share_folder: Option<String>) -> (res: PsExec)
        ensures
            computer_view(res.computer) == computer_view(computer),
            res.copier_impl.computer == computer,
            res.copier_impl.custom_share_folder == custom_share_folder,
            res.psexec_name@ == PSEXEC32_NAME@,
            res.remote_temp_storage == remote_temp_storage,
            res.ms_psexec,
    {
        PsExec::make(computer, remote_temp_storage, custom_share_folder, PSEXEC32_NAME, true)
    }

    /// A connector that uses 64-bit PsExec.
    pub fn psexec64(computer: Computer, remote_temp_storage: String, custom_share_folder: Option<String>) -> (res: PsExec)
        ensures
            computer_view(res.computer) == computer_view(computer),
            res.copier_impl.computer == computer,
            res.copier_impl.custom_share_folder == custom_share_folder,
            res.psexec_name@ == PSEXEC64_NAME@,
            res.remote_temp_storage == remote_temp_storage,
            res.ms_psexec,
    {
        PsExec::make(computer, remote_temp_storage, custom_share_folder, PSEXEC64_NAME, true)
    }
}

/// The PsExec command line that runs `command` on `computer`.
pub open spec fn psexec_prepared(
    psexec_name: Seq<char>,
    computer: Computer,
    command: Seq<Seq<char>>,
    output: Option<Seq<char>>,
    elevated: bool,
) -> Seq<Seq<char>> {
    seq![psexec_name, "\\\\"@ + computer.address@, "-u"@, domain_user(computer)]
        + opt_args("-p"@, opt_view(computer.password)) + flag_arg(elevated, "-h"@) + command
        + redirect(output)
}

/// The PsExec switches that copy the local program over and run it: `-f -c`,
/// and `-accepteula` for Microsoft's PsExec.
pub open spec fn local_program_switches(ms_psexec: bool) -> Seq<Seq<char>> {
    seq!["-f"@, "-c"@] + flag_arg(ms_psexec, "-accepteula"@)
}

impl Connector for PsExec {
    open spec fn method_name_view(&self) -> Seq<char> {
        "PSEXEC"@
    }

    open spec fn target(&self) -> Computer {
        self.computer
    }

    open spec fn temp_storage_view(&self) -> Seq<char> {
        self.remote_temp_storage@
    }

    open spec fn prepared(&self, command: Seq<Seq<char>>, output: Option<Seq<char>>, elevated: bool) -> Seq<Seq<char>> {
        psexec_prepared(self.psexec_name@, self.computer, command, output, elevated)
    }

    open spec fn run_plan_view(&self, command: Seq<Seq<char>>, output: Option<Seq<char>>, elevated: bool, timeout: Option<u64>) -> Plan {
        cmd_plan(self.prepared(command, output, elevated), timeout)
    }

    open spec fn local_program_view(&self, command: Seq<Seq<char>>) -> LocalProgramPlan {
        LocalProgramPlan::Direct { command: local_program_switches(self.ms_psexec) + command }
    }

    fn connect_method_name(&self) -> (res: &'static str) {
        "PSEXEC"
    }

    fn computer(&self) -> (res: &Computer) {
        &self.computer
    }

    fn remote_temp_storage(&self) -> (res: &str) {
        self.remote_temp_storage.as_str()
    }

    fn prepare_command(&self, command: Vec<String>, output_file_path: Option<&str>, elevated: bool) -> (res: Vec<String>) {
        let mut res: Vec<String> = Vec::new();
        push_str(&mut res, self.psexec_name.as_str());
        let address = concat2("\\\\", self.computer.address.as_str());
        push_str(&mut res, address.as_str());
        push_str(&mut res, "-u");
        let du = self.computer.domain_username();
        push_str(&mut res, du.as_str());
        push_opt_args(&mut res, "-p", opt_as_str(&self.computer.password));
        push_flag_arg(&mut res, elevated, "-h");
        append_all(&mut res, command);
        push_opt_args(&mut res, ">", output_file_path);
        res
    }

    fn run_plan(&self, command: Vec<String>, output_file_path: Option<&str>, elevated: bool, timeout: Option<u64>) -> (res: Invocation) {
        cmd_invocation(self.prepare_command(command, output_file_path, elevated), timeout)
    }

    fn local_program_run(&self, command: Vec<String>) -> (res: LocalProgramRun) {
        let mut res: Vec<String> = Vec::new();
        push_str(&mut res, "-f");
        push_str(&mut res, "-c");
        push_flag_arg(&mut res, self.ms_psexec, "-accepteula");
        assert(views(res@) =~= local_program_switches(self.ms_psexec));
        append_all(&mut res, command);
        LocalProgramRun::Direct { command: res }
    }
}

impl RemoteFileCopier for PsExec {
    open spec fn remote_target(&self) -> Computer {
        self.computer
    }

    open spec fn remote_form(&self, path: Seq<char>) -> Seq<char> {
        self.copier_impl.remote_form(path)
    }

    open spec fn to_remote_steps(&self, source: Seq<char>, target: Seq<char>) -> Seq<Plan> {
        self.copier_impl.from_remote_steps(source, target)
    }

    open spec fn delete_steps(&self, target: Seq<char>) -> Seq<Plan> {
        seq![self.run_plan_view(seq!["cmd"@] + remote_del(target).drop_first(), None, true, None)]
    }

    open spec fn from_remote_steps(&self, source: Seq<char>, target: Seq<char>) -> Seq<Plan> {
        self.copier_impl.from_remote_steps(source, target)
    }

    open spec fn wildcards_view(&self) -> bool {
        true
    }

    open spec fn copier_name_view(&self) -> Seq<char> {
        "XCopy"@
    }

    fn remote_computer(&self) -> (res: &Computer) {
        &self.computer
    }

    fn path_to_remote_form(&self, path: &str) -> (res: String) {
        self.copier_impl.path_to_remote_form(path)
    }

    fn copy_to_remote(&self, source: &str, target: &str) -> (res: Vec<Invocation>) {
        self.copier_impl.copy_from_remote(source, target)
    }

    fn delete_remote_file(&self, target: &str) -> (res: Vec<Invocation>) {
        let mut command: Vec<String> = Vec::new();
        push_str(&mut command, "cmd");
        push_str(&mut command, "/c");
        push_str(&mut command, "del");
        push_str(&mut command, "/F");
        push_str(&mut command, "/Q");
        push_str(&mut command, target);
        assert(views(command@) =~= seq!["cmd"@] + remote_del(target@).drop_first());
        single(self.run_plan(command, None, true, None))
    }

    fn copy_from_remote(&self, source: &str, target: &str) -> (res: Vec<Invocation>) {
        self.copier_impl.copy_from_remote(source, target)
    }

    open spec fn open_steps(&self) -> Seq<Plan> {
        self.copier_impl.open_steps()
    }

    open spec fn close_steps(&self) -> Seq<Plan> {
        self.copier_impl.close_steps()
    }

    fn open_session(&self) -> (res: Vec<Invocation>) {
        self.copier_impl.open_session()
    }

    fn close_session(&self) -> (res: Vec<Invocation>) {
        self.copier_impl.close_session()
    }

    fn expands_wildcards(&self) -> (res: bool) {
        true
    }

    fn method_name(&self) -> (res: &'static str) {
        "XCopy"
    }
}

/// A PsExec command line names the computer as `\\address` and then, after
/// `-u`, the user qualified by the domain when one is set (`DOMAIN\user`),
/// else the bare user name; after that comes `-p` and the password, when one
/// is set.
pub proof fn law_psexec_names_the_domain_user(
    p: PsExec,
    command: Seq<Seq<char>>,
    output: Option<Seq<char>>,
    elevated: bool,
)
    ensures
        p.prepared(command, output, elevated).len() >= 4,
        p.prepared(command, output, elevated)[0] == p.psexec_name@,
        p.prepared(command, output, elevated)[1] == "\\\\"@ + p.computer.address@,
        p.prepared(command, output, elevated)[2] == "-u"@,
        p.prepared(command, output, elevated)[3] == match p.computer.domain {
            Some(d) => d@ + "\\"@ + p.computer.username@,
            None => p.computer.username@,
        },
        p.computer.password matches Some(pw) ==> p.prepared(command, output, elevated).len() >= 6
            && p.prepared(command, output, elevated)[4] == "-p"@
            && p.prepared(command, output, elevated)[5] == pw@,
{
    let head = seq![p.psexec_name@, "\\\\"@ + p.computer.address@, "-u"@, domain_user(p.computer)];
    let r = p.prepared(command, output, elevated);
    let tail = opt_args("-p"@, opt_view(p.computer.password)) + flag_arg(elevated, "-h"@) + command + redirect(output);
    assert(r =~= head + tail);
    assert(r[0] == head[0] && r[1] == head[1] && r[2] == head[2] && r[3] == head[3]);
    match p.computer.password {
        Some(pw) => {
            assert(opt_args("-p"@, opt_view(p.computer.password)) =~= seq!["-p"@, pw@]);
            assert(r[4] == tail[0]);
            assert(r[5] == tail[1]);
        },
        None => {},
    }
}

} // verus!
