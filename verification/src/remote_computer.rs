//! Running commands on a remote computer through `cmd.exe`, with the
//! connecting program's arguments around the command.

use vstd::prelude::*;
use crate::text::{views, owned, concat2, push_str, append_all};

verus! {

/// A remote computer with the credentials to use.
pub struct RemoteComputer {
    pub address: String,
    pub username: String,
    pub password: String,
}

/// A program to start and all its arguments.
pub struct PreparedProgramToRun {
    pub program_path: String,
    pub all_program_args: Vec<String>,
}

/// The arguments of `cmd.exe` that run `command` between `pre` and `post`.
pub open spec fn cmd_args(pre: Seq<Seq<char>>, command: Seq<Seq<char>>, post: Seq<Seq<char>>) -> Seq<Seq<char>> {
    seq!["/c"@] + pre + command + post
}

/// A way of reaching a remote computer: a connecting program whose arguments
/// stand before and after the command.
pub trait RemoteComputerConnector {
    /// The name of the method.
    spec fn method_name_view(&self) -> Seq<char>;

    /// The arguments before the command.
    spec fn prefix_view(&self, remote_computer: RemoteComputer, output_file_path: Seq<char>) -> Seq<Seq<char>>;

    /// The arguments after the command.
    spec fn postfix_view(&self, remote_computer: RemoteComputer, output_file_path: Seq<char>) -> Seq<Seq<char>>;

    /// Whether the method has arguments after the command at all.
    spec fn has_postfix(&self) -> bool;

    /// The name of the method.
    fn connect_method_name(&self) -> (res: &'static str)
        ensures
            res@ == self.method_name_view(),
    ;

    /// The arguments before the command (see `prefix_view`).
    fn prefix_connector_arguments(&self, remote_computer: &RemoteComputer, output_file_path: String) -> (res: Vec<String>)
        ensures
            views(res@) == self.prefix_view(*remote_computer, output_file_path@),
    ;

    /// The arguments after the command (see `postfix_view`).
    fn postfix_connector_arguments(&self, remote_computer: &RemoteComputer, output_file_path: String) -> (res: Vec<String>)
        requires
            self.has_postfix(),
        ensures
            views(res@) == self.postfix_view(*remote_computer, output_file_path@),
    ;

    /// The `cmd.exe` process that runs `command` between `pre_command` and `post_command`.
    fn prepare_remote_process(&self, pre_command: Vec<String>, command: Vec<String>, post_command: Vec<String>) -> (res: PreparedProgramToRun)
        ensures
            res.program_path@ == "cmd.exe"@,
            views(res.all_program_args@) == cmd_args(views(pre_command@), views(command@), views(post_command@)),
    {
        let mut all_args: Vec<String> = Vec::new();
        push_str(&mut all_args, "/c");
        append_all(&mut all_args, pre_command);
        append_all(&mut all_args, command);
        append_all(&mut all_args, post_command);
        assert(views(all_args@) =~= cmd_args(views(pre_command@), views(command@), views(post_command@)));
        PreparedProgramToRun { program_path: owned("cmd.exe"), all_program_args: all_args }
    }

    /// The process that runs `command` on `remote_computer`, its output going
    /// to `output_file_path`.
    fn connect_and_run_command(&self, remote_computer: &RemoteComputer, output_file_path: String, command: Vec<String>) -> (res: PreparedProgramToRun)
        requires
            self.has_postfix(),
        ensures
            res.program_path@ == "cmd.exe"@,
            views(res.all_program_args@) == cmd_args(
                self.prefix_view(*remote_computer, output_file_path@),
                views(command@),
                self.postfix_view(*remote_computer, output_file_path@),
            ),
    {
        let pre = self.prefix_connector_arguments(remote_computer, output_file_path.clone());
        let post = self.postfix_connector_arguments(remote_computer, output_file_path);
        self.prepare_remote_process(pre, command, post)
    }
}

/// Running commands on this computer: no connecting program. It has no
/// arguments after the command; asking for them is an error.
pub struct Local {}

impl RemoteComputerConnector for Local {
    open spec fn method_name_view(&self) -> Seq<char> {
        "LOCAL"@
    }

    open spec fn prefix_view(&self, remote_computer: RemoteComputer, output_file_path: Seq<char>) -> Seq<Seq<char>> {
        Seq::empty()
    }

    open spec fn postfix_view(&self, remote_computer: RemoteComputer, output_file_path: Seq<char>) -> Seq<Seq<char>> {
        Seq::empty()
    }

    open spec fn has_postfix(&self) -> bool {
        false
    }

    fn connect_method_name(&self) -> (res: &'static str) {
        "LOCAL"
    }

    fn prefix_connector_arguments(&self, remote_computer: &RemoteComputer, output_file_path: String) -> (res: Vec<String>) {
        let res: Vec<String> = Vec::new();
        assert(views(res@) =~= Seq::<Seq<char>>::empty());
        res
    }

    fn postfix_connector_arguments(&self, remote_computer: &RemoteComputer, output_file_path: String) -> (res: Vec<String>) {
        let res: Vec<String> = Vec::new();
        assert(views(res@) =~= Seq::<Seq<char>>::empty());
        res
    }
}

/// The `paexec.exe` arguments before a command: the computer as `\\address`,
/// then user name and password.
pub open spec fn paexec_prefix(rc: RemoteComputer) -> Seq<Seq<char>> {
    seq!["paexec.exe"@, "\\\\"@ + rc.address@, "-u"@, rc.username@, "-p"@, rc.password@]
}

/// Running commands with PAExec.
pub struct PsExec {}

impl RemoteComputerConnector for PsExec {
    open spec fn method_name_view(&self) -> Seq<char> {
        "PAEXEC"@
    }

    open spec fn prefix_view(&self, remote_computer: RemoteComputer, output_file_path: Seq<char>) -> Seq<Seq<char>> {
        paexec_prefix(remote_computer)
    }

    open spec fn postfix_view(&self, remote_computer: RemoteComputer, output_file_path: Seq<char>) -> Seq<Seq<char>> {
        seq![">"@, output_file_path]
    }

    open spec fn has_postfix(&self) -> bool {
        true
    }

    fn connect_method_name(&self) -> (res: &'static str) {
        "PAEXEC"
    }

    fn prefix_connector_arguments(&self, remote_computer: &RemoteComputer, output_file_path: String) -> (res: Vec<String>) {
        let mut res: Vec<String> = Vec::new();
        push_str(&mut res, "paexec.exe");
        let address = concat2("\\\\", remote_computer.address.as_str());
        push_str(&mut res, address.as_str());
        push_str(&mut res, "-u");
        push_str(&mut res, remote_computer.username.as_str());
        push_str(&mut res, "-p");
        push_str(&mut res, remote_computer.password.as_str());
        assert(views(res@) =~= paexec_prefix(*remote_computer));
        res
    }

    fn postfix_connector_arguments(&self, remote_computer: &RemoteComputer, output_file_path: String) -> (res: Vec<String>) {
        let mut res: Vec<String> = Vec::new();
        push_str(&mut res, ">");
        push_str(&mut res, output_file_path.as_str());
        assert(views(res@) =~= seq![">"@, output_file_path@]);
        res
    }
}

/// The `wmic.exe` arguments before a command: output file, computer, user
/// name and password as `/OUTPUT:`, `/NODE:`, `/USER:` and `/PASSWORD:` options.
pub open spec fn wmic_prefix(rc: RemoteComputer, output_file_path: Seq<char>) -> Seq<Seq<char>> {
    seq![
        "wmic.exe"@,
        "/OUTPUT:"@ + output_file_path,
        "/NODE:"@ + rc.address@,
        "/USER:"@ + rc.username@,
        "/PASSWORD:"@ + rc.password@,
    ]
}

/// Running commands with WMIC.
pub struct Wmi {}

impl RemoteComputerConnector for Wmi {
    open spec fn method_name_view(&self) -> Seq<char> {
        "WMI"@
    }

    open spec fn prefix_view(&self, remote_computer: RemoteComputer, output_file_path: Seq<char>) -> Seq<Seq<char>> {
        wmic_prefix(remote_computer, output_file_path)
    }

    open spec fn postfix_view(&self, remote_computer: RemoteComputer, output_file_path: Seq<char>) -> Seq<Seq<char>> {
        Seq::empty()
    }

    open spec fn has_postfix(&self) -> bool {
        true
    }

    fn connect_method_name(&self) -> (res: &'static str) {
        "WMI"
    }

    fn prefix_connector_arguments(&self, remote_computer: &RemoteComputer, output_file_path: String) -> (res: Vec<String>) {
        let address = concat2("/NODE:", remote_computer.address.as_str());
        let user = concat2("/USER:", remote_computer.username.as_str());
        let password = concat2("/PASSWORD:", remote_computer.password.as_str());
        let output = concat2("/OUTPUT:", output_file_path.as_str());
        let mut res: Vec<String> = Vec::new();
        push_str(&mut res, "wmic.exe");
        push_str(&mut res, output.as_str());
        push_str(&mut res, address.as_str());
        push_str(&mut res, user.as_str());
        push_str(&mut res, password.as_str());
        assert(views(res@) =~= wmic_prefix(*remote_computer, output_file_path@));
        res
    }

    fn postfix_connector_arguments(&self, remote_computer: &RemoteComputer, output_file_path: String) -> (res: Vec<String>) {
        let res: Vec<String> = Vec::new();
        assert(views(res@) =~= Seq::<Seq<char>>::empty());
        res
    }
}

} // verus!
