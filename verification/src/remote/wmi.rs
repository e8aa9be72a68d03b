//! Acquisition over WMI with WMImplant.

use vstd::prelude::*;
use crate::text::{views, owned, push_str, append_all, join, joined};
use crate::winpath::{file_name, file_name_of, join_path, path_joined};
use crate::remote::connector::{
    Computer, Connector, Invocation, Plan, LocalProgramRun, LocalProgramPlan, opt_args, redirect,
    opt_view, opt_str_view, push_opt_args, opt_as_str, staged_plan, staged_run, cmd_plan,
    cmd_invocation, domain_user,
};
use crate::remote::copier::{FileCopier, RemoteFileCopier, plans, single};

verus! {

/// A connector that runs commands and copies files over WMI with WMImplant.ps1.
pub struct Wmi {
    pub computer: Computer,
    pub remote_temp_storage: String,
}

/// The WMImplant command line that runs `command` on `computer`.
pub open spec fn wmi_prepared(computer: Computer, command: Seq<Seq<char>>, output: Option<Seq<char>>) -> Seq<Seq<char>> {
    seq![
        "powershell.exe"@,
        "-File"@,
        "WMImplant.ps1"@,
        "-ComputerName"@,
        computer.address@,
        "-RemoteUser"@,
        domain_user(computer),
        "-CommandExec"@,
        "-RemoteCommand"@,
        joined(command, " "@),
    ] + opt_args("-RemotePass"@, opt_view(computer.password)) + redirect(output)
}

/// Where a copy of `source` into the directory `target` ends up: `target`
/// joined with the file name of `source`, or `target` itself for a source
/// without a file name.
pub open spec fn copy_destination(source: Seq<char>, target: Seq<char>) -> Seq<char> {
    match file_name_of(source) {
        None => target,
        Some(f) => path_joined(target, f),
    }
}

/// The WMImplant process that moves a file with the switch `method`; the
/// remote side is `target` (at its full destination) when `target_is_remote`,
/// and `source` otherwise.
pub open spec fn wmi_copy_plan(computer: Computer, source: Seq<char>, target: Seq<char>, method: Seq<char>, target_is_remote: bool) -> Plan {
    let dest = copy_destination(source, target);
    Plan::Run {
        program: "powershell.exe"@,
        args: seq![
            "-File"@,
            "WMImplant.ps1"@,
            method,
            "-ComputerName"@,
            computer.address@,
            "-RemoteUser"@,
            domain_user(computer),
        ] + (if target_is_remote {
            seq!["-RemoteFile"@, dest, "-LocalFile"@, source]
        } else {
            seq!["-RemoteFile"@, source, "-LocalFile"@, dest]
        }) + opt_args("-RemotePass"@, opt_view(computer.password)),
    }
}

impl Wmi {
    /// The WMImplant process that moves `source` into `target` (see `wmi_copy_plan`).
    pub fn copy_impl(&self, source: &str, target: &str, method_name: &str, target_is_remote: bool) -> (res: Invocation)
        ensures
            res@ == wmi_copy_plan(self.computer, source@, target@, method_name@, target_is_remote),
    {
        let dest = match file_name(source) {
            None => owned(target),
            Some(f) => join_path(target, f.as_str()),
        };
        let mut args: Vec<String> = Vec::new();
        push_str(&mut args, "-File");
        push_str(&mut args, "WMImplant.ps1");
        push_str(&mut args, method_name);
        push_str(&mut args, "-ComputerName");
        push_str(&mut args, self.computer.address.as_str());
        push_str(&mut args, "-RemoteUser");
        let du = self.computer.domain_username();
        push_str(&mut args, du.as_str());
        push_str(&mut args, "-RemoteFile");
        if target_is_remote {
            push_str(&mut args, dest.as_str());
            push_str(&mut args, "-LocalFile");
            push_str(&mut args, source);
        } else {
            push_str(&mut args, source);
            push_str(&mut args, "-LocalFile");
            push_str(&mut args, dest.as_str());
        }
        push_opt_args(&mut args, "-RemotePass", opt_as_str(&self.computer.password));
        assert(views(args@) =~= seq![
            "-File"@,
            "WMImplant.ps1"@,
            method_name@,
            "-ComputerName"@,
            self.computer.address@,
            "-RemoteUser"@,
            domain_user(self.computer),
        ] + (if target_is_remote {
            seq!["-RemoteFile"@, dest@, "-LocalFile"@, source@]
        } else {
            seq!["-RemoteFile"@, source@, "-LocalFile"@, dest@]
        }) + opt_args("-RemotePass"@, opt_view(self.computer.password)));
        Invocation::Run { program: owned("powershell.exe"), args }
    }
}

impl Connector for Wmi {
    open spec fn method_name_view(&self) -> Seq<char> {
        "WMI"@
    }

    open spec fn target(&self) -> Computer {
        self.computer
    }

    open spec fn temp_storage_view(&self) -> Seq<char> {
        self.remote_temp_storage@
    }

    open spec fn prepared(&self, command: Seq<Seq<char>>, output: Option<Seq<char>>, elevated: bool) -> Seq<Seq<char>> {
        wmi_prepared(self.computer, command, output)
    }

    open spec fn run_plan_view(&self, command: Seq<Seq<char>>, output: Option<Seq<char>>, elevated: bool, timeout: Option<u64>) -> Plan {
        cmd_plan(self.prepared(command, output, elevated), timeout)
    }

    open spec fn local_program_view(&self, command: Seq<Seq<char>>) -> LocalProgramPlan {
        staged_plan(*self, command, self.remote_temp_storage@, 20, 10)
    }

    fn connect_method_name(&self) -> (res: &'static str) {
        "WMI"
    }

    fn computer(&self) -> (res: &Computer) {
        &self.computer
    }

    fn remote_temp_storage(&self) -> (res: &str) {
        self.remote_temp_storage.as_str()
    }

    fn prepare_command(&self, command: Vec<String>, output_file_path: Option<&str>, elevated: bool) -> (res: Vec<String>) {
        let joined_command = join(&command, " ");
        let mut res: Vec<String> = Vec::new();
        push_str(&mut res, "powershell.exe");
        push_str(&mut res, "-File");
        push_str(&mut res, "WMImplant.ps1");
        push_str(&mut res, "-ComputerName");
        push_str(&mut res, self.computer.address.as_str());
        push_str(&mut res, "-RemoteUser");
        let du = self.computer.domain_username();
        push_str(&mut res, du.as_str());
        push_str(&mut res, "-CommandExec");
        push_str(&mut res, "-RemoteCommand");
        push_str(&mut res, joined_command.as_str());
        push_opt_args(&mut res, "-RemotePass", opt_as_str(&self.computer.password));
        push_opt_args(&mut res, ">", output_file_path);
        assert(views(res@) =~= wmi_prepared(self.computer, views(command@), opt_str_view(output_file_path)));
        res
    }

    fn run_plan(&self, command: Vec<String>, output_file_path: Option<&str>, elevated: bool, timeout: Option<u64>) -> (res: Invocation) {
        cmd_invocation(self.prepare_command(command, output_file_path, elevated), timeout)
    }

    fn local_program_run(&self, command: Vec<String>) -> (res: LocalProgramRun) {
        staged_run(self, command, self.remote_temp_storage.as_str(), 20, 10)
    }
}

/// The WMImplant process that deletes `target`, cut off after ten seconds.
pub open spec fn wmi_delete_plan(computer: Computer, target: Seq<char>) -> Plan {
    Plan::RunTimed {
        program: "powershell.exe"@,
        args: seq![
            "-File"@,
            "WMImplant.ps1"@,
            "-Delete"@,
            "-LocalFile"@,
            target,
            "-ComputerName"@,
            computer.address@,
            "-RemoteUser"@,
            domain_user(computer),
        ] + opt_args("-RemotePass"@, opt_view(computer.password)),
        timeout_secs: 10,
    }
}

impl FileCopier for Wmi {
    open spec fn copy_view(&self, source: Seq<char>, target: Seq<char>) -> Plan {
        wmi_copy_plan(self.computer, source, target, "-Copy"@, true)
    }

    open spec fn delete_view(&self, target: Seq<char>) -> Plan {
        wmi_delete_plan(self.computer, target)
    }

    open spec fn copier_name(&self) -> Seq<char> {
        "WMI"@
    }

    fn copy_file(&self, source: &str, target: &str) -> (res: Invocation) {
        self.copy_impl(source, target, "-Copy", true)
    }

    fn delete_file(&self, target: &str) -> (res: Invocation) {
        let mut args: Vec<String> = Vec::new();
        push_str(&mut args, "-File");
        push_str(&mut args, "WMImplant.ps1");
        push_str(&mut args, "-Delete");
        push_str(&mut args, "-LocalFile");
        push_str(&mut args, target);
        push_str(&mut args, "-ComputerName");
        push_str(&mut args, self.computer.address.as_str());
        push_str(&mut args, "-RemoteUser");
        let du = self.computer.domain_username();
        push_str(&mut args, du.as_str());
        push_opt_args(&mut args, "-RemotePass", opt_as_str(&self.computer.password));
        assert(views(args@) =~= seq![
            "-File"@,
            "WMImplant.ps1"@,
            "-Delete"@,
            "-LocalFile"@,
            target@,
            "-ComputerName"@,
            self.computer.address@,
            "-RemoteUser"@,
            domain_user(self.computer),
        ] + opt_args("-RemotePass"@, opt_view(self.computer.password)));
        let res = Invocation::RunTimed { program: owned("powershell.exe"), args, timeout_secs: 10 };
        assert(res@ == wmi_delete_plan(self.computer, target@));
        assert(res@ == <Wmi as FileCopier>::delete_view(self, target@));
        res
    }

    fn method_name(&self) -> (res: &'static str) {
        "WMI"
    }
}

impl RemoteFileCopier for Wmi {
    open spec fn remote_target(&self) -> Computer {
        self.computer
    }

    open spec fn remote_form(&self, path: Seq<char>) -> Seq<char> {
        path
    }

    open spec fn to_remote_steps(&self, source: Seq<char>, target: Seq<char>) -> Seq<Plan> {
        seq![wmi_copy_plan(self.computer, source, target, "-Upload"@, true)]
    }

    open spec fn delete_steps(&self, target: Seq<char>) -> Seq<Plan> {
        seq![wmi_delete_plan(self.computer, target)]
    }

    open spec fn from_remote_steps(&self, source: Seq<char>, target: Seq<char>) -> Seq<Plan> {
        seq![wmi_copy_plan(self.computer, source, target, "-Download"@, false)]
    }

    open spec fn wildcards_view(&self) -> bool {
        false
    }

    open spec fn copier_name_view(&self) -> Seq<char> {
        "WMI"@
    }

    fn remote_computer(&self) -> (res: &Computer) {
        &self.computer
    }

    fn path_to_remote_form(&self, path: &str) -> (res: String) {
        owned(path)
    }

    fn copy_to_remote(&self, source: &str, target: &str) -> (res: Vec<Invocation>) {
        single(self.copy_impl(source, target, "-Upload", true))
    }

    fn delete_remote_file(&self, target: &str) -> (res: Vec<Invocation>) {
        single(self.delete_file(target))
    }

    fn copy_from_remote(&self, source: &str, target: &str) -> (res: Vec<Invocation>) {
        single(self.copy_impl(source, target, "-Download", false))
    }

    open spec fn open_steps(&self) -> Seq<Plan> {
        Seq::empty()
    }

    open spec fn close_steps(&self) -> Seq<Plan> {
        Seq::empty()
    }

    fn open_session(&self) -> (res: Vec<Invocation>) {
        let res: Vec<Invocation> = Vec::new();
        assert(plans(res@) =~= Seq::<Plan>::empty());
        res
    }

    fn close_session(&self) -> (res: Vec<Invocation>) {
        let res: Vec<Invocation> = Vec::new();
        assert(plans(res@) =~= Seq::<Plan>::empty());
        res
    }

    fn expands_wildcards(&self) -> (res: bool) {
        false
    }

    fn method_name(&self) -> (res: &'static str) {
        "WMI"
    }
}

} // verus!
