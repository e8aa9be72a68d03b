//! Computers, commands and the connectors that reach them.

use vstd::prelude::*;
use crate::text::{views, owned, concat2, concat3, push_str, append_all, replace_all, trimmed, trim};
use crate::winpath::{file_name_of, path_joined, file_name, join_path};
use crate::remote::copier::{RemoteFileCopier, plans};
use crate::arg_parser::Opts;
use crate::methods::{local_target, is_local_target};
use crate::text::{pieces, split_char, same_text};

verus! {

/// A computer to acquire evidence from, with the credentials to use.
pub struct Computer {
    pub address: String,
    pub username: String,
    pub domain: Option<String>,
    pub password: Option<String>,
}

/// The view of an optional string.
pub open spec fn opt_view(o: Option<String>) -> Option<Seq<char>> {
    match o {
        Some(s) => Some(s@),
        None => None,
    }
}

/// The view of an optional string slice.
pub open spec fn opt_str_view(o: Option<&str>) -> Option<Seq<char>> {
    match o {
        Some(s) => Some(s@),
        None => None,
    }
}

/// A copy of an optional string.
pub fn copy_opt(o: &Option<String>) -> (res: Option<String>)
    ensures
        opt_view(res) == opt_view(*o),
{
    match o {
        Some(s) => Some(s.clone()),
        None => None,
    }
}

/// The user name qualified by the domain: `DOMAIN\user`, or the bare user
/// name when no domain is given.
pub open spec fn domain_user(c: Computer) -> Seq<char> {
    match c.domain {
        None => c.username@,
        Some(d) => d@ + "\\"@ + c.username@,
    }
}

/// The view of a computer: its address, user name, domain and password.
pub open spec fn computer_view(c: Computer) -> (Seq<char>, Seq<char>, Option<Seq<char>>, Option<Seq<char>>) {
    (c.address@, c.username@, opt_view(c.domain), opt_view(c.password))
}

impl Computer {
    /// The user name qualified by the domain (see `domain_user`).
    pub fn domain_username(&self) -> (res: String)
        ensures
            res@ == domain_user(*self),
    {
        match &self.domain {
            None => self.username.clone(),
            Some(domain) => concat3(domain.as_str(), "\\", self.username.as_str()),
        }
    }

    /// A copy of this computer with the same address and credentials.
    pub fn duplicate(&self) -> (res: Computer)
        ensures
            computer_view(res) == computer_view(*self),
    {
        Computer {
            address: self.address.clone(),
            username: self.username.clone(),
            domain: copy_opt(&self.domain),
            password: copy_opt(&self.password),
        }
    }
}

/// A process to start and how to wait for it.
pub enum Invocation {
    /// Start `program` with `args` and wait until it ends.
    Run { program: String, args: Vec<String> },
    /// Start `program` with `args`; stop waiting, and kill it, after `timeout_secs` seconds.
    RunTimed { program: String, args: Vec<String>, timeout_secs: u64 },
    /// Start `program` with `args`, wait until it ends, then pause for `pause_secs` seconds.
    RunThenPause { program: String, args: Vec<String>, pause_secs: u64 },
    /// Start `first` and feed its output to `second`; wait until `second` ends.
    Piped { first: String, first_args: Vec<String>, second: String, second_args: Vec<String> },
}

/// The mathematical content of an `Invocation`.
pub enum Plan {
    Run { program: Seq<char>, args: Seq<Seq<char>> },
    RunTimed { program: Seq<char>, args: Seq<Seq<char>>, timeout_secs: u64 },
    RunThenPause { program: Seq<char>, args: Seq<Seq<char>>, pause_secs: u64 },
    Piped { first: Seq<char>, first_args: Seq<Seq<char>>, second: Seq<char>, second_args: Seq<Seq<char>> },
}

impl View for Invocation {
    type V = Plan;

    open spec fn view(&self) -> Plan {
        match self {
            Invocation::Run { program, args } => Plan::Run { program: program@, args: views(args@) },
            Invocation::RunTimed { program, args, timeout_secs } => Plan::RunTimed {
                program: program@,
                args: views(args@),
                timeout_secs: *timeout_secs,
            },
            Invocation::RunThenPause { program, args, pause_secs } => Plan::RunThenPause {
                program: program@,
                args: views(args@),
                pause_secs: *pause_secs,
            },
            Invocation::Piped { first, first_args, second, second_args } => Plan::Piped {
                first: first@,
                first_args: views(first_args@),
                second: second@,
                second_args: views(second_args@),
            },
        }
    }
}

/// The arguments `flag value` when a value is given, and nothing otherwise.
pub open spec fn opt_args(flag: Seq<char>, value: Option<Seq<char>>) -> Seq<Seq<char>> {
    match value {
        Some(v) => seq![flag, v],
        None => Seq::empty(),
    }
}

/// The redirection `> file` of a command's output, when a file is given.
pub open spec fn redirect(output: Option<Seq<char>>) -> Seq<Seq<char>> {
    opt_args(">"@, output)
}

/// The single argument `arg` when `flag` holds, and nothing otherwise.
pub open spec fn flag_arg(flag: bool, arg: Seq<char>) -> Seq<Seq<char>> {
    if flag {
        seq![arg]
    } else {
        Seq::empty()
    }
}

/// Appends `flag value` to `v` when a value is given.
pub fn push_opt_args(v: &mut Vec<String>, flag: &str, value: Option<&str>)
    ensures
        views(final(v)@) == views(old(v)@) + opt_args(flag@, opt_str_view(value)),
{
    match value {
        Some(x) => {
            push_str(v, flag);
            push_str(v, x);
            assert(views(v@) =~= views(old(v)@) + seq![flag@, x@]);
        },
        None => {
            assert(views(v@) =~= views(old(v)@) + Seq::<Seq<char>>::empty());
        },
    }
}

/// Appends `arg` to `v` when `flag` holds.
pub fn push_flag_arg(v: &mut Vec<String>, flag: bool, arg: &str)
    ensures
        views(final(v)@) == views(old(v)@) + flag_arg(flag, arg@),
{
    if flag {
        push_str(v, arg);
        assert(views(v@) =~= views(old(v)@) + seq![arg@]);
    } else {
        assert(views(v@) =~= views(old(v)@) + Seq::<Seq<char>>::empty());
    }
}

/// The optional string as a string slice.
pub fn opt_as_str(o: &Option<String>) -> (res: Option<&str>)
    ensures
        opt_str_view(res) == opt_view(*o),
{
    match o {
        Some(s) => Some(s.as_str()),
        None => None,
    }
}

/// A command to run on a remote computer.
pub struct Command<'a> {
    /// The program and its arguments.
    pub command: Vec<String>,
    /// Where the command's output is stored as a report, if anywhere.
    pub report_store_directory: Option<&'a str>,
    /// The prefix of the report file name.
    pub report_filename_prefix: &'a str,
    /// Whether the command needs administrator rights.
    pub elevated: bool,
}

impl<'a> Command<'a> {
    /// A command made of the given parts.
    pub fn new(
        command: Vec<String>,
        store_directory: Option<&'a str>,
        report_filename_prefix: &'a str,
        elevated: bool,
    ) -> (res: Command<'a>)
        ensures
            res.command@ == command@,
            res.report_store_directory == store_directory,
            res.report_filename_prefix == report_filename_prefix,
            res.elevated == elevated,
    {
        Command { command, report_store_directory: store_directory, report_filename_prefix, elevated }
    }
}

/// The name of a report file: method, prefix, address with `-` for `.`, and
/// user name without spaces, separated by `-`, then `.` and the extension.
pub open spec fn report_name(
    computer: Computer,
    filename_prefix: Seq<char>,
    method_name: Seq<char>,
    extension: Seq<char>,
) -> Seq<char> {
    method_name + "-"@ + filename_prefix + "-"@ + crate::text::replaced(computer.address@, "."@, "-"@)
        + "-"@ + crate::text::replaced(computer.username@, " "@, ""@) + "."@ + extension
}

/// The name of the report file that a command's output goes to (see `report_name`).
pub fn report_file_name(
    computer: &Computer,
    filename_prefix: &str,
    method_name: &str,
    extension: &str,
) -> (res: String)
    ensures
        res@ == report_name(*computer, filename_prefix@, method_name@, extension@),
{
    proof {
        reveal_strlit(".");
        reveal_strlit(" ");
    }
    let address = replace_all(computer.address.as_str(), ".", "-");
    let user = replace_all(computer.username.as_str(), " ", "");
    let mut res = concat3(method_name, "-", filename_prefix);
    res.append("-");
    res.append(address.as_str());
    res.append("-");
    res.append(user.as_str());
    res.append(".");
    res.append(extension);
    res
}

/// The arguments of `cmd.exe` that run `processed_command`: `/c` in front of it.
pub fn prepare_remote_process(processed_command: Vec<String>) -> (res: Vec<String>)
    ensures
        views(res@) == seq!["/c"@] + views(processed_command@),
{
    let mut res: Vec<String> = Vec::new();
    push_str(&mut res, "/c");
    append_all(&mut res, processed_command);
    assert(views(res@) =~= seq!["/c"@] + views(processed_command@));
    res
}

/// How a prepared command is run through `cmd.exe`: waiting for it, or for at
/// most `timeout` seconds.
pub open spec fn cmd_plan(prepared: Seq<Seq<char>>, timeout: Option<u64>) -> Plan {
    match timeout {
        None => Plan::Run { program: "cmd.exe"@, args: seq!["/c"@] + prepared },
        Some(t) => Plan::RunTimed { program: "cmd.exe"@, args: seq!["/c"@] + prepared, timeout_secs: t },
    }
}

/// The invocation of `cmd.exe` for a prepared command (see `cmd_plan`).
pub fn cmd_invocation(prepared: Vec<String>, timeout: Option<u64>) -> (res: Invocation)
    ensures
        res@ == cmd_plan(views(prepared@), timeout),
{
    let args = prepare_remote_process(prepared);
    match timeout {
        None => Invocation::Run { program: owned("cmd.exe"), args },
        Some(t) => Invocation::RunTimed { program: owned("cmd.exe"), args, timeout_secs: t },
    }
}

/// How a local program is run through a connector.
pub enum LocalProgramRun {
    /// Run `command` as it is.
    Direct { command: Vec<String> },
    /// Run `upload`, wait `pause_before_secs` seconds, run `command`, wait
    /// `pause_after_secs` seconds, then run `cleanup`.
    Staged {
        upload: Vec<Invocation>,
        pause_before_secs: u64,
        command: Vec<String>,
        pause_after_secs: u64,
        cleanup: Vec<Invocation>,
    },
}

/// The mathematical content of a `LocalProgramRun`.
pub enum LocalProgramPlan {
    Direct { command: Seq<Seq<char>> },
    Staged {
        upload: Seq<Plan>,
        pause_before_secs: u64,
        command: Seq<Seq<char>>,
        pause_after_secs: u64,
        cleanup: Seq<Plan>,
    },
}

impl View for LocalProgramRun {
    type V = LocalProgramPlan;

    open spec fn view(&self) -> LocalProgramPlan {
        match self {
            LocalProgramRun::Direct { command } => LocalProgramPlan::Direct { command: views(command@) },
            LocalProgramRun::Staged { upload, pause_before_secs, command, pause_after_secs, cleanup } =>
                LocalProgramPlan::Staged {
                upload: plans(upload@),
                pause_before_secs: *pause_before_secs,
                command: views(command@),
                pause_after_secs: *pause_after_secs,
                cleanup: plans(cleanup@),
            },
        }
    }
}

/// Whether `command` names a program file to run.
pub open spec fn runnable(command: Seq<Seq<char>>) -> bool {
    command.len() > 0 && file_name_of(command[0]) is Some
}

/// `command` with its program taken from the directory `dir`.
pub open spec fn program_in(command: Seq<Seq<char>>, dir: Seq<char>) -> Seq<Seq<char>>
    recommends
        runnable(command),
{
    command.update(0, path_joined(dir, file_name_of(command[0])->0))
}

/// `command` with its program replaced by the one of the same name in `dir`;
/// with the current directory as `dir` this is how every local program is started.
pub fn program_in_dir(command: Vec<String>, dir: &str) -> (res: Vec<String>)
    requires
        runnable(views(command@)),
    ensures
        views(res@) == program_in(views(command@), dir@),
{
    let ghost before = views(command@);
    let mut command = command;
    let name = file_name(command[0].as_str());
    let name = match name {
        Some(n) => n,
        None => {
            assert(false);
            String::new()
        },
    };
    let p = join_path(dir, name.as_str());
    command.set(0, p);
    assert(views(command@) =~= before.update(0, path_joined(dir@, file_name_of(before[0])->0)));
    command
}

/// The standard way of running a local program remotely: copy it with
/// `copier` into the remote directory `storage`, run it from there, and delete it.
pub open spec fn staged_plan<R: RemoteFileCopier>(
    copier: R,
    command: Seq<Seq<char>>,
    storage: Seq<char>,
    pause_before_secs: u64,
    pause_after_secs: u64,
) -> LocalProgramPlan
    recommends
        runnable(command),
{
    LocalProgramPlan::Staged {
        upload: copier.to_remote_steps(command[0], storage),
        pause_before_secs,
        command: program_in(command, storage),
        pause_after_secs,
        cleanup: copier.delete_steps(path_joined(storage, file_name_of(command[0])->0)),
    }
}

/// The standard way of running a local program remotely (see `staged_plan`).
pub fn staged_run<R: RemoteFileCopier>(
    copier: &R,
    command: Vec<String>,
    storage: &str,
    pause_before_secs: u64,
    pause_after_secs: u64,
) -> (res: LocalProgramRun)
    requires
        runnable(views(command@)),
    ensures
        res@ == staged_plan(*copier, views(command@), storage@, pause_before_secs, pause_after_secs),
{
    assert(views(command@).len() == command@.len());
    let upload = copier.copy_to_remote(command[0].as_str(), storage);
    let remote = program_in_dir(command, storage);
    assert(views(remote@).len() == remote@.len());
    assert(views(remote@)[0] == remote@[0]@);
    let cleanup = copier.delete_remote_file(remote[0].as_str());
    LocalProgramRun::Staged { upload, pause_before_secs, command: remote, pause_after_secs, cleanup }
}

/// A way of running commands on a computer.
pub trait Connector {
    /// The name of the method, as it appears in report file names.
    spec fn method_name_view(&self) -> Seq<char>;

    /// The computer this connector reaches.
    spec fn target(&self) -> Computer;

    /// The remote directory used to hold temporary files.
    spec fn temp_storage_view(&self) -> Seq<char>;

    /// The full command line that runs `command` remotely, its output going to
    /// `output` when one is given.
    spec fn prepared(&self, command: Seq<Seq<char>>, output: Option<Seq<char>>, elevated: bool) -> Seq<Seq<char>>;

    /// The process that runs `command` remotely.
    spec fn run_plan_view(&self, command: Seq<Seq<char>>, output: Option<Seq<char>>, elevated: bool, timeout: Option<u64>) -> Plan;

    /// How a local program `command` is run remotely.
    spec fn local_program_view(&self, command: Seq<Seq<char>>) -> LocalProgramPlan;

    /// The name of the method.
    fn connect_method_name(&self) -> (res: &'static str)
        ensures
            res@ == self.method_name_view(),
    ;

    /// The computer this connector reaches.
    fn computer(&self) -> (res: &Computer)
        ensures
            *res == self.target(),
    ;

    /// The remote directory used to hold temporary files.
    fn remote_temp_storage(&self) -> (res: &str)
        ensures
            res@ == self.temp_storage_view(),
    ;

    /// The full command line that runs `command` remotely (see `prepared`).
    fn prepare_command(&self, command: Vec<String>, output_file_path: Option<&str>, elevated: bool) -> (res: Vec<String>)
        ensures
            views(res@) == self.prepared(views(command@), opt_str_view(output_file_path), elevated),
    ;

    /// The process that runs `command` remotely, its output going to the report
    /// file `output_file_path` when one is given (see `run_plan_view`).
    fn run_plan(&self, command: Vec<String>, output_file_path: Option<&str>, elevated: bool, timeout: Option<u64>) -> (res: Invocation)
        ensures
            res@ == self.run_plan_view(views(command@), opt_str_view(output_file_path), elevated, timeout),
    ;

    /// How the local program `command` is run remotely (see `local_program_view`).
    fn local_program_run(&self, command: Vec<String>) -> (res: LocalProgramRun)
        requires
            runnable(views(command@)),
        ensures
            res@ == self.local_program_view(views(command@)),
    ;
}

/// The report file of a command run through `connector`: the report name
/// (see `report_name`) in `store_directory`.
pub fn report_path_for<C: Connector>(connector: &C, store_directory: &str, prefix: &str, extension: &str) -> (res: String)
    ensures
        res@ == path_joined(
            store_directory@,
            report_name(connector.target(), prefix@, connector.method_name_view(), extension@),
        ),
{
    let name = report_file_name(connector.computer(), prefix, connector.connect_method_name(), extension);
    join_path(store_directory, name.as_str())
}

/// The command that creates the directory `path` on a Windows computer.
pub fn mkdir_command(path: &str) -> (res: Vec<String>)
    ensures
        views(res@) == seq!["cmd.exe"@, "/c"@, "md"@, path@],
{
    let mut res: Vec<String> = Vec::new();
    push_str(&mut res, "cmd.exe");
    push_str(&mut res, "/c");
    push_str(&mut res, "md");
    push_str(&mut res, path);
    res
}

/// The command that lists the sub-directories of `path`, one bare name per line.
pub fn list_dirs_command(path: &str) -> (res: Vec<String>)
    ensures
        views(res@) == seq!["cmd.exe"@, "/c"@, "dir"@, path@, "/Ad"@, "/B"@],
{
    let mut res: Vec<String> = Vec::new();
    push_str(&mut res, "cmd.exe");
    push_str(&mut res, "/c");
    push_str(&mut res, "dir");
    push_str(&mut res, path);
    push_str(&mut res, "/Ad");
    push_str(&mut res, "/B");
    res
}

/// The report-name prefix under which a directory listing is stored.
pub fn list_dirs_prefix_with(id: &str) -> (res: String)
    ensures
        res@ == "--TEMP_LIST_DIR_"@ + id@,
{
    concat2("--TEMP_LIST_DIR_", id)
}

/// Whether `c` is a lower-case hexadecimal digit.
pub open spec fn is_lower_hex(c: char) -> bool {
    ('0' <= c && c <= '9') || ('a' <= c && c <= 'f')
}

/// Whether `s` has the form of a hyphenated lower-case UUID: 36 characters,
/// `-` at positions 8, 13, 18 and 23 and hexadecimal digits elsewhere.
pub open spec fn uuid_text(s: Seq<char>) -> bool {
    &&& s.len() == 36
    &&& forall|i: int|
        0 <= i < 36 ==> if i == 8 || i == 13 || i == 18 || i == 23 {
            #[trigger] s[i] == '-'
        } else {
            is_lower_hex(s[i])
        }
}

/// A new random version 4 UUID, from `uuid::Uuid::new_v4().to_string()`.
/// Its digits are left to chance; the crate writes it in the hyphenated
/// lower-case form that `uuid_text` states.
#[verifier::external_body]
pub(crate) fn new_uuid() -> (res: String)
    ensures
        uuid_text(res@),
{
    uuid::Uuid::new_v4().to_string()
}

/// A fresh report-name prefix for a directory listing, made unique by a random UUID.
pub fn list_dirs_prefix() -> (res: String)
    ensures
        exists|id: Seq<char>| uuid_text(id) && res@ == "--TEMP_LIST_DIR_"@ + id,
{
    let id = new_uuid();
    let res = list_dirs_prefix_with(id.as_str());
    assert(uuid_text(id@) && res@ == "--TEMP_LIST_DIR_"@ + id@);
    res
}

/// The lines of a report, trimmed, without those left empty.
pub open spec fn listed_names(lines: Seq<Seq<char>>) -> Seq<Seq<char>>
    decreases lines.len(),
{
    if lines.len() == 0 {
        Seq::empty()
    } else {
        let rest = listed_names(lines.drop_last());
        let t = trimmed(lines.last());
        if t.len() > 0 {
            rest.push(t)
        } else {
            rest
        }
    }
}

/// The directory names listed in the lines of a `dir /B` report (see `listed_names`).
pub fn parse_dir_listing(lines: &Vec<String>) -> (res: Vec<String>)
    ensures
        views(res@) == listed_names(views(lines@)),
{
    let mut res: Vec<String> = Vec::new();
    let mut i: usize = 0;
    assert(views(lines@).take(0) =~= Seq::<Seq<char>>::empty());
    assert(views(res@) =~= Seq::<Seq<char>>::empty());
    while i < lines.len()
        invariant
            i <= lines.len(),
            views(res@) == listed_names(views(lines@).take(i as int)),
        decreases lines.len() - i,
    {
        assert(views(lines@).take(i + 1).drop_last() =~= views(lines@).take(i as int));
        let t = trim(lines[i].as_str());
        let ghost before = views(res@);
        if t.unicode_len() > 0 {
            res.push(t);
            assert(views(res@) =~= before.push(t@));
        }
        i = i + 1;
    }
    assert(views(lines@).take(i as int) =~= views(lines@));
    res
}

/// The command that grants (`grant`) or denies (`deny`) full control of
/// `path` to `username`.
pub open spec fn permission_command(path: Seq<char>, verb: Seq<char>, username: Seq<char>) -> Seq<Seq<char>> {
    seq!["cmd.exe"@, "/c"@, "icacls.exe"@, path, verb, username + ":F"@]
}

/// The command that gives the connector's user full control of `path`.
pub fn acquire_perms_command(username: &str, path: &str) -> (res: Vec<String>)
    ensures
        views(res@) == permission_command(path@, "/grant"@, username@),
{
    let mut res: Vec<String> = Vec::new();
    push_str(&mut res, "cmd.exe");
    push_str(&mut res, "/c");
    push_str(&mut res, "icacls.exe");
    push_str(&mut res, path);
    push_str(&mut res, "/grant");
    let grantee = concat2(username, ":F");
    push_str(&mut res, grantee.as_str());
    assert(views(res@) =~= permission_command(path@, "/grant"@, username@));
    res
}

/// The command that takes full control of `path` away from the connector's user.
pub fn release_perms_command(username: &str, path: &str) -> (res: Vec<String>)
    ensures
        views(res@) == permission_command(path@, "/deny"@, username@),
{
    let mut res: Vec<String> = Vec::new();
    push_str(&mut res, "cmd.exe");
    push_str(&mut res, "/c");
    push_str(&mut res, "icacls.exe");
    push_str(&mut res, path);
    push_str(&mut res, "/deny");
    let grantee = concat2(username, ":F");
    push_str(&mut res, grantee.as_str());
    assert(views(res@) =~= permission_command(path@, "/deny"@, username@));
    res
}

/// What the user is asked to complete a computer's credentials.
pub struct Prompts {
    pub domain: bool,
    pub user: bool,
    pub password: bool,
}

/// What the user answered; only the answers that were asked for are read.
pub struct Answers {
    pub domain: String,
    pub user: String,
    pub password: Option<String>,
}

/// A typed domain: none when it is blank.
pub open spec fn typed_domain(a: Answers) -> Option<Seq<char>> {
    if trimmed(a.domain@).len() == 0 {
        None
    } else {
        Some(a.domain@)
    }
}

/// An optional password: none when it is missing or blank.
pub open spec fn nonblank(p: Option<Seq<char>>) -> Option<Seq<char>> {
    match p {
        Some(x) => if trimmed(x).len() == 0 {
            None
        } else {
            Some(x)
        },
        None => None,
    }
}

/// What is asked for the computer named in the options: domain and user
/// when no user is given, and the password when none is given (unless the
/// target is this computer).
pub open spec fn opts_prompts_of(o: Opts) -> (bool, bool, bool) {
    (o.user is None, o.user is None, !local_target(o.computer@) && o.password is None)
}

/// The computer named in the options, with the answers `a` where something
/// was asked: an empty user name means no user and no domain; this computer
/// (`127.0.0.1` or `localhost`) is reached as `127.0.0.1` without domain or
/// password; an empty password means none.
pub open spec fn computer_of_opts(o: Opts, a: Answers) -> (Seq<char>, Seq<char>, Option<Seq<char>>, Option<Seq<char>>) {
    let (domain, username) = match o.user {
        Some(u) => if u@.len() == 0 {
            (None, Seq::empty())
        } else {
            (opt_view(o.domain), u@)
        },
        None => (typed_domain(a), a.user@),
    };
    if local_target(o.computer@) {
        ("127.0.0.1"@, username, None, None)
    } else {
        let password = match o.password {
            Some(p) => if p@.len() == 0 {
                None
            } else {
                Some(p@)
            },
            None => opt_view(a.password),
        };
        (o.computer@, username, domain, password)
    }
}

/// The address, domain, user name and password field of a line of a
/// computer list: `address [DOMAIN\user|user] [password]`, separated by
/// single spaces; what a line leaves out comes from the options.
pub open spec fn line_options(o: Opts, line: Seq<char>) -> (Seq<char>, Option<Seq<char>>, Option<Seq<char>>, Option<Seq<char>>) {
    let ps = pieces(line, ' ');
    let (d, u) = if ps.len() > 1 {
        let du = pieces(ps[1], '\\');
        if du.len() == 1 {
            (opt_view(o.domain), Some(du[0]))
        } else {
            (Some(du[0]), Some(du[1]))
        }
    } else {
        (opt_view(o.domain), opt_view(o.user))
    };
    let pw = if ps.len() > 2 {
        Some(ps[2])
    } else {
        None
    };
    (ps[0], d, u, pw)
}

/// What is asked for a line of a computer list: the domain when neither the
/// line nor the options give a user or a domain, the user when neither gives
/// a user, and the password when neither gives one.
pub open spec fn line_prompts_of(o: Opts, line: Seq<char>) -> (bool, bool, bool) {
    let (address, d, u, pw) = line_options(o, line);
    (u is None && d is None, u is None, pw is None && o.password is None)
}

/// The computer of a line of a computer list, with the answers `a` where
/// something was asked; a blank password from the options or the answers
/// means none.
pub open spec fn computer_of_line(o: Opts, line: Seq<char>, a: Answers) -> (Seq<char>, Seq<char>, Option<Seq<char>>, Option<Seq<char>>) {
    let (address, d, u, pw) = line_options(o, line);
    let (domain, username) = match u {
        Some(x) => (d, x),
        None => (
            match d {
                Some(dd) => Some(dd),
                None => typed_domain(a),
            },
            a.user@,
        ),
    };
    let password = match pw {
        Some(p) => Some(p),
        None => match o.password {
            Some(p) => nonblank(Some(p@)),
            None => nonblank(opt_view(a.password)),
        },
    };
    (address, username, domain, password)
}

/// Whether a line of a computer list names a computer: it is not blank.
pub open spec fn listed_line(line: Seq<char>) -> bool {
    trimmed(line).len() > 0
}

fn typed_domain_exec(a: &Answers) -> (res: Option<String>)
    ensures
        opt_view(res) == typed_domain(*a),
{
    let t = trim(a.domain.as_str());
    if t.as_str().is_empty() {
        None
    } else {
        Some(a.domain.clone())
    }
}

fn nonblank_exec(p: &Option<String>) -> (res: Option<String>)
    ensures
        opt_view(res) == nonblank(opt_view(*p)),
{
    match p {
        Some(x) => {
            let t = trim(x.as_str());
            if t.as_str().is_empty() {
                None
            } else {
                Some(x.clone())
            }
        },
        None => None,
    }
}

impl Computer {
    /// What is asked for the computer named in `opts` (see `opts_prompts_of`).
    pub fn opts_prompts(opts: &Opts) -> (res: Prompts)
        ensures
            (res.domain, res.user, res.password) == opts_prompts_of(*opts),
    {
        let local = is_local_target(opts.computer.as_str());
        Prompts {
            domain: opts.user.is_none(),
            user: opts.user.is_none(),
            password: !local && opts.password.is_none(),
        }
    }

    /// The computer named in `opts` (see `computer_of_opts`).
    pub fn from_opts(opts: &Opts, answers: &Answers) -> (res: Computer)
        ensures
            computer_view(res) == computer_of_opts(*opts, *answers),
    {
        let (domain, username) = match &opts.user {
            Some(u) => if u.as_str().is_empty() {
                (None, String::new())
            } else {
                (copy_opt(&opts.domain), u.clone())
            },
            None => (typed_domain_exec(answers), answers.user.clone()),
        };
        if is_local_target(opts.computer.as_str()) {
            return Computer { address: owned("127.0.0.1"), username, domain: None, password: None };
        }
        let password = match &opts.password {
            Some(p) => if p.as_str().is_empty() {
                None
            } else {
                Some(p.clone())
            },
            None => copy_opt(&answers.password),
        };
        Computer { address: opts.computer.clone(), username, domain, password }
    }

    /// Whether a line of a computer list names a computer (see `listed_line`).
    pub fn is_listed(line: &str) -> (res: bool)
        ensures
            res == listed_line(line@),
    {
        let t = trim(line);
        !t.as_str().is_empty()
    }

    /// What is asked for a line of a computer list (see `line_prompts_of`).
    pub fn line_prompts(opts: &Opts, line: &str) -> (res: Prompts)
        ensures
            (res.domain, res.user, res.password) == line_prompts_of(*opts, line@),
    {
        let (_, d, u, pw) = Self::line_fields(opts, line);
        Prompts { domain: u.is_none() && d.is_none(), user: u.is_none(), password: pw.is_none() && opts.password.is_none() }
    }

    fn line_fields(opts: &Opts, line: &str) -> (res: (String, Option<String>, Option<String>, Option<String>))
        ensures
            (res.0@, opt_view(res.1), opt_view(res.2), opt_view(res.3)) == line_options(*opts, line@),
    {
        let ps = split_char(line, ' ');
        assert(views(ps@).len() == ps@.len());
        assert(views(ps@)[0] == ps@[0]@);
        let (d, u) = if ps.len() > 1 {
            assert(views(ps@)[1] == ps@[1]@);
            let du = split_char(ps[1].as_str(), '\\');
            assert(views(du@).len() == du@.len());
            assert(views(du@)[0] == du@[0]@);
            if du.len() == 1 {
                (copy_opt(&opts.domain), Some(du[0].clone()))
            } else {
                assert(views(du@)[1] == du@[1]@);
                (Some(du[0].clone()), Some(du[1].clone()))
            }
        } else {
            (copy_opt(&opts.domain), copy_opt(&opts.user))
        };
        let pw = if ps.len() > 2 {
            assert(views(ps@)[2] == ps@[2]@);
            Some(ps[2].clone())
        } else {
            None
        };
        (ps[0].clone(), d, u, pw)
    }

    /// The computer of a line of a computer list (see `computer_of_line`).
    pub fn from_line(opts: &Opts, line: &str, answers: &Answers) -> (res: Computer)
        ensures
            computer_view(res) == computer_of_line(*opts, line@, *answers),
    {
        let (address, d, u, pw) = Self::line_fields(opts, line);
        let (domain, username) = match u {
            Some(x) => (d, x),
            None => (
                match d {
                    Some(dd) => Some(dd),
                    None => typed_domain_exec(answers),
                },
                answers.user.clone(),
            ),
        };
        let password = match pw {
            Some(p) => Some(p),
            None => match &opts.password {
                Some(_) => nonblank_exec(&opts.password),
                None => nonblank_exec(&answers.password),
            },
        };
        Computer { address, username, domain, password }
    }
}

/// A line of a computer list names its computer's address first; the
/// password comes from its third field when it has one, else from the
/// options when they give a non-blank one (an answer is then not used).
pub proof fn law_listed_computer_password(o: Opts, line: Seq<char>, a: Answers)
    ensures
        computer_of_line(o, line, a).0 == pieces(line, ' ')[0],
        pieces(line, ' ').len() > 2 ==> computer_of_line(o, line, a).3 == Some(pieces(line, ' ')[2]),
        pieces(line, ' ').len() <= 2 && o.password is Some && trimmed(o.password->0@).len() > 0
            ==> computer_of_line(o, line, a).3 == Some(o.password->0@),
        pieces(line, ' ').len() <= 2 && o.password is Some && trimmed(o.password->0@).len() == 0
            ==> computer_of_line(o, line, a).3 is None,
{
}

} // verus!
