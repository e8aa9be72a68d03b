//! Acquisition from Linux computers over SSH with plink and pscp.

use vstd::prelude::*;
use crate::text::{views, owned, concat2, concat3, push_str, append_all, join, joined};
use crate::remote::connector::{
    Computer, Connector, Invocation, Plan, LocalProgramRun, LocalProgramPlan, opt_args, redirect,
    opt_view, opt_str_view, push_opt_args, opt_as_str, staged_plan, staged_run, prepare_remote_process,
};
use crate::remote::copier::{FileCopier, RemoteFileCopier, plans, single};

verus! {

/// A connector to a Linux computer: commands run with plink, files are copied with pscp.
pub struct Ssh {
    pub computer: Computer,
    pub key_file: Option<String>,
}

/// The plink arguments that open a session on `computer`.
pub open spec fn plink_session(computer: Computer, key_file: Option<Seq<char>>) -> Seq<Seq<char>> {
    seq!["-ssh"@, computer.address@, "-l"@, computer.username@, "-no-antispoof"@]
        + opt_args("-pw"@, opt_view(computer.password)) + opt_args("-i"@, key_file)
}

/// The remote shell command: `command` joined with spaces, run through `sudo`
/// when `elevated` (fed the password when there is one).
pub open spec fn shell_command(computer: Computer, command: Seq<Seq<char>>, elevated: bool) -> Seq<char> {
    if elevated {
        match computer.password {
            Some(p) => "echo "@ + p@ + " | sudo -S "@ + joined(command, " "@),
            None => "sudo -S "@ + joined(command, " "@),
        }
    } else {
        joined(command, " "@)
    }
}

/// The plink command line that runs `command` on `computer`.
pub open spec fn ssh_prepared(
    computer: Computer,
    key_file: Option<Seq<char>>,
    command: Seq<Seq<char>>,
    output: Option<Seq<char>>,
    elevated: bool,
) -> Seq<Seq<char>> {
    seq!["plink.exe"@] + plink_session(computer, key_file) + seq![shell_command(computer, command, elevated)]
        + redirect(output)
}

/// The command that answers `n` to the host-key question of plink and pscp.
pub open spec fn echo_no() -> Seq<Seq<char>> {
    seq!["/c"@, "echo"@, "n"@]
}

impl Ssh {
    fn push_session(&self, v: &mut Vec<String>)
        ensures
            views(final(v)@) == views(old(v)@) + plink_session(self.computer, opt_view(self.key_file)),
    {
        push_str(v, "-ssh");
        push_str(v, self.computer.address.as_str());
        push_str(v, "-l");
        push_str(v, self.computer.username.as_str());
        push_str(v, "-no-antispoof");
        push_opt_args(v, "-pw", opt_as_str(&self.computer.password));
        push_opt_args(v, "-i", opt_as_str(&self.key_file));
        assert(views(v@) =~= views(old(v)@) + plink_session(self.computer, opt_view(self.key_file)));
    }

    fn echo_no_args() -> (res: Vec<String>)
        ensures
            views(res@) == echo_no(),
    {
        let mut res: Vec<String> = Vec::new();
        push_str(&mut res, "/c");
        push_str(&mut res, "echo");
        push_str(&mut res, "n");
        res
    }
}

impl Connector for Ssh {
    open spec fn method_name_view(&self) -> Seq<char> {
        "SSH"@
    }

    open spec fn target(&self) -> Computer {
        self.computer
    }

    open spec fn temp_storage_view(&self) -> Seq<char> {
        "/tmp"@
    }

    open spec fn prepared(&self, command: Seq<Seq<char>>, output: Option<Seq<char>>, elevated: bool) -> Seq<Seq<char>> {
        ssh_prepared(self.computer, opt_view(self.key_file), command, output, elevated)
    }

    /// The command is piped `n` for the host-key question and always runs
    /// without `sudo`; no timeout applies.
    open spec fn run_plan_view(&self, command: Seq<Seq<char>>, output: Option<Seq<char>>, elevated: bool, timeout: Option<u64>) -> Plan {
        Plan::Piped {
            first: "cmd.exe"@,
            first_args: echo_no(),
            second: "cmd.exe"@,
            second_args: seq!["/c"@] + self.prepared(command, output, false),
        }
    }

    open spec fn local_program_view(&self, command: Seq<Seq<char>>) -> LocalProgramPlan {
        staged_plan(*self, command, "/tmp"@, 20, 10)
    }

    fn connect_method_name(&self) -> (res: &'static str) {
        "SSH"
    }

    fn computer(&self) -> (res: &Computer) {
        &self.computer
    }

    fn remote_temp_storage(&self) -> (res: &str) {
        "/tmp"
    }

    fn prepare_command(&self, command: Vec<String>, output_file_path: Option<&str>, elevated: bool) -> (res: Vec<String>) {
        let mut res: Vec<String> = Vec::new();
        push_str(&mut res, "plink.exe");
        self.push_session(&mut res);
        let joined_command = join(&command, " ");
        let shell = if elevated {
            match &self.computer.password {
                Some(p) => {
                    let mut c = concat3("echo ", p.as_str(), " | sudo -S ");
                    c.append(joined_command.as_str());
                    c
                },
                None => concat2("sudo -S ", joined_command.as_str()),
            }
        } else {
            joined_command
        };
        push_str(&mut res, shell.as_str());
        push_opt_args(&mut res, ">", output_file_path);
        assert(views(res@) =~= ssh_prepared(
            self.computer,
            opt_view(self.key_file),
            views(command@),
            opt_str_view(output_file_path),
            elevated,
        ));
        res
    }

    fn run_plan(&self, command: Vec<String>, output_file_path: Option<&str>, elevated: bool, timeout: Option<u64>) -> (res: Invocation) {
        let second_args = prepare_remote_process(self.prepare_command(command, output_file_path, false));
        Invocation::Piped {
            first: owned("cmd.exe"),
            first_args: Ssh::echo_no_args(),
            second: owned("cmd.exe"),
            second_args,
        }
    }

    fn local_program_run(&self, command: Vec<String>) -> (res: LocalProgramRun) {
        staged_run(self, command, "/tmp", 20, 10)
    }
}

impl FileCopier for Ssh {
    open spec fn copy_view(&self, source: Seq<char>, target: Seq<char>) -> Plan {
        Plan::Piped {
            first: "cmd"@,
            first_args: echo_no(),
            second: "pscp.exe"@,
            second_args: seq!["-l"@, self.computer.username@] + opt_args("-pw"@, opt_view(self.computer.password))
                + opt_args("-i"@, opt_view(self.key_file)) + seq![source, target],
        }
    }

    open spec fn delete_view(&self, target: Seq<char>) -> Plan {
        Plan::Piped {
            first: "cmd"@,
            first_args: echo_no(),
            second: "plink.exe"@,
            second_args: plink_session(self.computer, opt_view(self.key_file)) + seq!["rm"@, "-f"@, target],
        }
    }

    open spec fn copier_name(&self) -> Seq<char> {
        "SCP"@
    }

    fn copy_file(&self, source: &str, target: &str) -> (res: Invocation) {
        let mut scp: Vec<String> = Vec::new();
        push_str(&mut scp, "-l");
        push_str(&mut scp, self.computer.username.as_str());
        push_opt_args(&mut scp, "-pw", opt_as_str(&self.computer.password));
        push_opt_args(&mut scp, "-i", opt_as_str(&self.key_file));
        push_str(&mut scp, source);
        push_str(&mut scp, target);
        assert(views(scp@) =~= seq!["-l"@, self.computer.username@] + opt_args("-pw"@, opt_view(self.computer.password))
            + opt_args("-i"@, opt_view(self.key_file)) + seq![source@, target@]);
        Invocation::Piped {
            first: owned("cmd"),
            first_args: Ssh::echo_no_args(),
            second: owned("pscp.exe"),
            second_args: scp,
        }
    }

    fn delete_file(&self, target: &str) -> (res: Invocation) {
        let mut params: Vec<String> = Vec::new();
        self.push_session(&mut params);
        push_str(&mut params, "rm");
        push_str(&mut params, "-f");
        push_str(&mut params, target);
        assert(views(params@) =~= plink_session(self.computer, opt_view(self.key_file)) + seq!["rm"@, "-f"@, target@]);
        Invocation::Piped {
            first: owned("cmd"),
            first_args: Ssh::echo_no_args(),
            second: owned("plink.exe"),
            second_args: params,
        }
    }

    fn method_name(&self) -> (res: &'static str) {
        "SCP"
    }
}

/// How a remote path is named for pscp: `address:path`.
pub open spec fn scp_form(computer: Computer, path: Seq<char>) -> Seq<char> {
    computer.address@ + ":"@ + path
}

impl RemoteFileCopier for Ssh {
    open spec fn remote_target(&self) -> Computer {
        self.computer
    }

    open spec fn remote_form(&self, path: Seq<char>) -> Seq<char> {
        scp_form(self.computer, path)
    }

    open spec fn to_remote_steps(&self, source: Seq<char>, target: Seq<char>) -> Seq<Plan> {
        seq![self.copy_view(source, scp_form(self.computer, target))]
    }

    open spec fn delete_steps(&self, target: Seq<char>) -> Seq<Plan> {
        seq![self.delete_view(scp_form(self.computer, target))]
    }

    open spec fn from_remote_steps(&self, source: Seq<char>, target: Seq<char>) -> Seq<Plan> {
        seq![self.copy_view(scp_form(self.computer, source), target)]
    }

    open spec fn wildcards_view(&self) -> bool {
        false
    }

    open spec fn copier_name_view(&self) -> Seq<char> {
        "SCP"@
    }

    fn remote_computer(&self) -> (res: &Computer) {
        &self.computer
    }

    fn path_to_remote_form(&self, path: &str) -> (res: String) {
        concat3(self.computer.address.as_str(), ":", path)
    }

    fn copy_to_remote(&self, source: &str, target: &str) -> (res: Vec<Invocation>) {
        let t = self.path_to_remote_form(target);
        single(self.copy_file(source, t.as_str()))
    }

    fn delete_remote_file(&self, target: &str) -> (res: Vec<Invocation>) {
        let t = self.path_to_remote_form(target);
        single(self.delete_file(t.as_str()))
    }

    fn copy_from_remote(&self, source: &str, target: &str) -> (res: Vec<Invocation>) {
        let s = self.path_to_remote_form(source);
        single(self.copy_file(s.as_str(), target))
    }

    open spec fn open_steps(&self) -> Seq<Plan> {
        Seq::empty()
    }

    open spec fn close_steps(&self) -> Seq<Plan> {
        Seq::empty()
    }

    fn open_session(&self) -> (res: Vec<Invocation>) {
        let res: Vec<Invocation> = Vec::new();
        assert(plans(res@) =~= Seq::<Plan>::empty());
        res
    }

    fn close_session(&self) -> (res: Vec<Invocation>) {
        let res: Vec<Invocation> = Vec::new();
        assert(plans(res@) =~= Seq::<Plan>::empty());
        res
    }

    fn expands_wildcards(&self) -> (res: bool) {
        false
    }

    fn method_name(&self) -> (res: &'static str) {
        "SCP"
    }
}

} // verus!
