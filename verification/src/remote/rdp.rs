//! Acquisition over RDP with SharpRDP.

use vstd::prelude::*;
use crate::text::{views, owned, concat2, concat3, push_str, append_all, join, joined, replace_first, replaced_first};
use crate::remote::connector::{
    Computer, Connector, Invocation, Plan, LocalProgramRun, LocalProgramPlan, opt_args, flag_arg,
    opt_view, push_flag_arg, staged_plan, staged_run, domain_user, prepare_remote_process,
};
use crate::remote::copier::{FileCopier, RemoteFileCopier, plans, single};

verus! {

/// A connector that runs commands over RDP with SharpRDP; the remote computer
/// reaches this one's disks through the `\\tsclient` share.
pub struct Rdp {
    pub computer: Computer,
    pub nla: bool,
    pub remote_temp_storage: String,
}

/// The SharpRDP argument that gives the password, when there is one.
pub open spec fn password_arg(computer: Computer) -> Seq<Seq<char>> {
    match computer.password {
        Some(p) => seq!["password="@ + p@],
        None => Seq::empty(),
    }
}

/// The `command=` argument of SharpRDP for `command`; with an output file the
/// command runs in `cmd.exe` and its output goes to that file on this computer.
pub open spec fn rdp_command_arg(command: Seq<Seq<char>>, output: Option<Seq<char>>) -> Seq<char> {
    match output {
        None => "command="@ + joined(command, " "@),
        Some(o) => "command=cmd.exe /c "@ + joined(command, " "@) + " -p.i.p.e- Out-File -FilePath \\\\tsclient\\"@
            + replaced_first(o, ":"@, ""@),
    }
}

/// The SharpRDP command line that runs `command` on `computer`.
pub open spec fn rdp_prepared(
    computer: Computer,
    nla: bool,
    command: Seq<Seq<char>>,
    output: Option<Seq<char>>,
    elevated: bool,
) -> Seq<Seq<char>> {
    seq!["SharpRDP.exe"@, "computername="@ + computer.address@, "username="@ + domain_user(computer)]
        + password_arg(computer) + flag_arg(nla, "nla=true"@) + flag_arg(elevated, "elevated=taskmgr"@)
        + seq!["exec=ps"@, "takeover=true"@, "connectdrive=true"@, rdp_command_arg(command, output)]
}

/// The SharpRDP process that runs the `cmd.exe` command `command_arg`.
pub open spec fn rdp_cmd_plan(computer: Computer, nla: bool, command_arg: Seq<char>) -> Plan {
    Plan::Run {
        program: "SharpRDP.exe"@,
        args: seq![
            "computername="@ + computer.address@,
            "exec=cmd"@,
            "takeover=true"@,
            "connectdrive=true"@,
            "username="@ + domain_user(computer),
        ] + password_arg(computer) + flag_arg(nla, "nla=true"@) + seq![command_arg],
    }
}

/// How the remote computer reaches the local `path`: through `\\tsclient`,
/// with the drive's `:` left out.
pub open spec fn tsclient_form(path: Seq<char>) -> Seq<char> {
    "\\\\tsclient\\"@ + replaced_first(path, ":"@, ""@)
}

impl Rdp {
    fn push_password(&self, args: &mut Vec<String>)
        ensures
            views(final(args)@) == views(old(args)@) + password_arg(self.computer),
    {
        match &self.computer.password {
            Some(p) => {
                let a = concat2("password=", p.as_str());
                push_str(args, a.as_str());
                assert(views(args@) =~= views(old(args)@) + password_arg(self.computer));
            },
            None => {
                assert(views(args@) =~= views(old(args)@) + password_arg(self.computer));
            },
        }
    }

    /// The SharpRDP process that runs `command` (a `command=` argument) in `cmd.exe`.
    pub fn run_command(&self, command: String) -> (res: Invocation)
        ensures
            res@ == rdp_cmd_plan(self.computer, self.nla, command@),
    {
        let mut args: Vec<String> = Vec::new();
        let a = concat2("computername=", self.computer.address.as_str());
        push_str(&mut args, a.as_str());
        push_str(&mut args, "exec=cmd");
        push_str(&mut args, "takeover=true");
        push_str(&mut args, "connectdrive=true");
        let du = self.computer.domain_username();
        let u = concat2("username=", du.as_str());
        push_str(&mut args, u.as_str());
        self.push_password(&mut args);
        push_flag_arg(&mut args, self.nla, "nla=true");
        push_str(&mut args, command.as_str());
        assert(views(args@) =~= seq![
            "computername="@ + self.computer.address@,
            "exec=cmd"@,
            "takeover=true"@,
            "connectdrive=true"@,
            "username="@ + domain_user(self.computer),
        ] + password_arg(self.computer) + flag_arg(self.nla, "nla=true"@) + seq![command@]);
        Invocation::Run { program: owned("SharpRDP.exe"), args }
    }
}

impl Connector for Rdp {
    open spec fn method_name_view(&self) -> Seq<char> {
        "RDP"@
    }

    open spec fn target(&self) -> Computer {
        self.computer
    }

    open spec fn temp_storage_view(&self) -> Seq<char> {
        self.remote_temp_storage@
    }

    open spec fn prepared(&self, command: Seq<Seq<char>>, output: Option<Seq<char>>, elevated: bool) -> Seq<Seq<char>> {
        rdp_prepared(self.computer, self.nla, command, output, elevated)
    }

    /// SharpRDP may not end when the command does: the run is followed by a
    /// pause of the timeout instead of being cut off by it.
    open spec fn run_plan_view(&self, command: Seq<Seq<char>>, output: Option<Seq<char>>, elevated: bool, timeout: Option<u64>) -> Plan {
        let args = seq!["/c"@] + self.prepared(command, output, elevated);
        match timeout {
            None => Plan::Run { program: "cmd.exe"@, args },
            Some(t) => Plan::RunThenPause { program: "cmd.exe"@, args, pause_secs: t },
        }
    }

    open spec fn local_program_view(&self, command: Seq<Seq<char>>) -> LocalProgramPlan {
        staged_plan(*self, command, self.remote_temp_storage@, 20, 10)
    }

    fn connect_method_name(&self) -> (res: &'static str) {
        "RDP"
    }

    fn computer(&self) -> (res: &Computer) {
        &self.computer
    }

    fn remote_temp_storage(&self) -> (res: &str) {
        self.remote_temp_storage.as_str()
    }

    fn prepare_command(&self, command: Vec<String>, output_file_path: Option<&str>, elevated: bool) -> (res: Vec<String>) {
        proof {
            reveal_strlit(":");
        }
        let mut res: Vec<String> = Vec::new();
        push_str(&mut res, "SharpRDP.exe");
        let a = concat2("computername=", self.computer.address.as_str());
        push_str(&mut res, a.as_str());
        let du = self.computer.domain_username();
        let u = concat2("username=", du.as_str());
        push_str(&mut res, u.as_str());
        self.push_password(&mut res);
        push_flag_arg(&mut res, self.nla, "nla=true");
        push_flag_arg(&mut res, elevated, "elevated=taskmgr");
        push_str(&mut res, "exec=ps");
        push_str(&mut res, "takeover=true");
        push_str(&mut res, "connectdrive=true");
        let joined_command = join(&command, " ");
        let arg = match output_file_path {
            None => concat2("command=", joined_command.as_str()),
            Some(o) => {
                let remote = replace_first(o, ":", "");
                let mut c = concat3("command=cmd.exe /c ", joined_command.as_str(), " -p.i.p.e- Out-File -FilePath \\\\tsclient\\");
                c.append(remote.as_str());
                c
            },
        };
        push_str(&mut res, arg.as_str());
        assert(views(res@) =~= rdp_prepared(
            self.computer,
            self.nla,
            views(command@),
            crate::remote::connector::opt_str_view(output_file_path),
            elevated,
        ));
        res
    }

    fn run_plan(&self, command: Vec<String>, output_file_path: Option<&str>, elevated: bool, timeout: Option<u64>) -> (res: Invocation) {
        let args = prepare_remote_process(self.prepare_command(command, output_file_path, elevated));
        match timeout {
            None => Invocation::Run { program: owned("cmd.exe"), args },
            Some(t) => Invocation::RunThenPause { program: owned("cmd.exe"), args, pause_secs: t },
        }
    }

    fn local_program_run(&self, command: Vec<String>) -> (res: LocalProgramRun) {
        staged_run(self, command, self.remote_temp_storage.as_str(), 20, 10)
    }
}

impl FileCopier for Rdp {
    open spec fn copy_view(&self, source: Seq<char>, target: Seq<char>) -> Plan {
        rdp_cmd_plan(self.computer, self.nla, "command=xcopy "@ + source + " "@ + target + " /y"@)
    }

    open spec fn delete_view(&self, target: Seq<char>) -> Plan {
        rdp_cmd_plan(self.computer, self.nla, "command=del /f "@ + target)
    }

    open spec fn copier_name(&self) -> Seq<char> {
        "RDP"@
    }

    fn copy_file(&self, source: &str, target: &str) -> (res: Invocation) {
        let mut c = concat3("command=xcopy ", source, " ");
        c.append(target);
        c.append(" /y");
        self.run_command(c)
    }

    fn delete_file(&self, target: &str) -> (res: Invocation) {
        self.run_command(concat2("command=del /f ", target))
    }

    fn method_name(&self) -> (res: &'static str) {
        "RDP"
    }
}

impl RemoteFileCopier for Rdp {
    open spec fn remote_target(&self) -> Computer {
        self.computer
    }

    open spec fn remote_form(&self, path: Seq<char>) -> Seq<char> {
        tsclient_form(path)
    }

    open spec fn to_remote_steps(&self, source: Seq<char>, target: Seq<char>) -> Seq<Plan> {
        seq![self.copy_view(tsclient_form(source), target)]
    }

    open spec fn delete_steps(&self, target: Seq<char>) -> Seq<Plan> {
        seq![self.delete_view(target)]
    }

    open spec fn from_remote_steps(&self, source: Seq<char>, target: Seq<char>) -> Seq<Plan> {
        seq![self.copy_view(source, tsclient_form(target))]
    }

    open spec fn wildcards_view(&self) -> bool {
        true
    }

    open spec fn copier_name_view(&self) -> Seq<char> {
        "RDP"@
    }

    fn remote_computer(&self) -> (res: &Computer) {
        &self.computer
    }

    fn path_to_remote_form(&self, path: &str) -> (res: String) {
        proof {
            reveal_strlit(":");
        }
        let p = replace_first(path, ":", "");
        concat2("\\\\tsclient\\", p.as_str())
    }

    fn copy_to_remote(&self, source: &str, target: &str) -> (res: Vec<Invocation>) {
        let s = self.path_to_remote_form(source);
        single(self.copy_file(s.as_str(), target))
    }

    fn delete_remote_file(&self, target: &str) -> (res: Vec<Invocation>) {
        single(self.delete_file(target))
    }

    fn copy_from_remote(&self, source: &str, target: &str) -> (res: Vec<Invocation>) {
        let t = self.path_to_remote_form(target);
        single(self.copy_file(source, t.as_str()))
    }

    open spec fn open_steps(&self) -> Seq<Plan> {
        Seq::empty()
    }

    open spec fn close_steps(&self) -> Seq<Plan> {
        Seq::empty()
    }

    fn open_session(&self) -> (res: Vec<Invocation>) {
        let res: Vec<Invocation> = Vec::new();
        assert(plans(res@) =~= Seq::<Plan>::empty());
        res
    }

    fn close_session(&self) -> (res: Vec<Invocation>) {
        let res: Vec<Invocation> = Vec::new();
        assert(plans(res@) =~= Seq::<Plan>::empty());
        res
    }

    fn expands_wildcards(&self) -> (res: bool) {
        true
    }

    fn method_name(&self) -> (res: &'static str) {
        "RDP"
    }
}

} // verus!
