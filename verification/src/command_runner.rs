//! Running the custom commands of a command file on a remote computer.
//!
//! Each line of the file is a command. A line may start with a selector word
//! such as `:psexec:wmi`, which limits the command to the methods it names;
//! `:admin` or `:sudo` in that word runs the command elevated. Lines that
//! start with `#` are comments.

use vstd::prelude::*;
use crate::text::{
    views, owned, concat2, chars_of, string_of_range, has_prefix, has_infix, contains, starts_with,
    ascii_lowered, to_ascii_lowercase, joined, join, replaced, replace_all,
    lemma_replaced_removes, lemma_replaced_keeps_out,
};
use crate::command_utils::{parse_command, command_args};
use crate::remote::connector::{Computer, Connector, Invocation, report_name, report_file_name};
use crate::remote::psexec::PsExec;
use crate::remote::psremote::PsRemote;
use crate::remote::rdp::Rdp;
use crate::remote::ssh::Ssh;
use crate::remote::wmi::Wmi;
use crate::remote::local::Local;
use crate::winpath::{path_joined, join_path};

verus! {

/// `s` without its leading spaces.
pub open spec fn spaces_skipped(s: Seq<char>) -> Seq<char>
    decreases s.len(),
{
    if s.len() > 0 && s[0] == ' ' {
        spaces_skipped(s.drop_first())
    } else {
        s
    }
}

/// The position of the first space of `s`, if it has one.
pub open spec fn first_space(s: Seq<char>) -> Option<int>
    decreases s.len(),
{
    if s.len() == 0 {
        None
    } else if s[0] == ' ' {
        Some(0)
    } else {
        match first_space(s.drop_first()) {
            Some(k) => Some(k + 1),
            None => None,
        }
    }
}

/// The first word of `s`: what precedes its first space.
pub open spec fn first_word(s: Seq<char>) -> Seq<char> {
    match first_space(s) {
        Some(k) => s.take(k),
        None => s,
    }
}

/// What follows the first word of `s` and the space after it.
pub open spec fn after_first_word(s: Seq<char>) -> Seq<char> {
    match first_space(s) {
        Some(k) => s.skip(k + 1),
        None => Seq::empty(),
    }
}

/// Whether a selector (or first word) asks for elevation: it holds `:admin` or `:sudo`.
pub open spec fn asks_elevation(first_arg: Seq<char>) -> bool {
    has_infix(first_arg, ":admin"@) || has_infix(first_arg, ":sudo"@)
}

/// The number of bytes of `c` in UTF-8.
pub open spec fn utf8_width(c: char) -> nat {
    let u = c as u32;
    if u < 0x80 {
        1
    } else if u < 0x800 {
        2
    } else if u < 0x10000 {
        3
    } else {
        4
    }
}

/// The number of bytes of `s` in UTF-8.
pub open spec fn utf8_len(s: Seq<char>) -> nat
    decreases s.len(),
{
    if s.len() == 0 {
        0
    } else {
        utf8_width(s[0]) + utf8_len(s.drop_first())
    }
}

/// The characters that make up the first `n` bytes of `s` in UTF-8; none
/// when byte `n` falls inside a character (or `s` is shorter).
pub open spec fn byte_prefix(s: Seq<char>, n: int) -> Option<Seq<char>>
    decreases s.len(),
{
    if n <= 0 {
        Some(Seq::empty())
    } else if s.len() == 0 || utf8_width(s[0]) > n {
        None
    } else {
        match byte_prefix(s.drop_first(), n - utf8_width(s[0])) {
            Some(p) => Some(seq![s[0]] + p),
            None => None,
        }
    }
}

/// `s` cut to its first 100 bytes in UTF-8 when it is longer; none when
/// the cut falls inside a character.
pub open spec fn clipped(s: Seq<char>) -> Option<Seq<char>> {
    if utf8_len(s) > 100 {
        byte_prefix(s, 100)
    } else {
        Some(s)
    }
}

/// A clipped command made fit for a file name: spaces and `:` made `-`,
/// and `"`, `/` and `\` removed.
pub open spec fn cleaned(x: Seq<char>) -> Seq<char> {
    replaced(
        replaced(
            replaced(replaced(replaced(x, " "@, "-"@), "\""@, ""@), "/"@, ""@),
            "\\"@,
            ""@,
        ),
        ":"@,
        "-"@,
    )
}

/// The prefix of the report file of a custom command: `custom-`, then the
/// words joined by `-`, cut to 100 bytes and cleaned (see `cleaned`); none
/// when the cut falls inside a character.
pub open spec fn report_prefix_of(words: Seq<Seq<char>>) -> Option<Seq<char>> {
    match clipped(joined(words, "-"@)) {
        Some(x) => Some("custom-"@ + cleaned(x)),
        None => None,
    }
}

/// What a line of a command file asks of one runner.
pub enum CommandLine {
    /// Nothing: a comment, an empty line, or a command for other methods.
    Skipped,
    /// A line of spaces alone, which names no command: reading it is an error.
    NoCommand,
    /// A command whose report name would be cut inside a character: reading
    /// it is an error.
    BadReportName,
    /// Run `command`, elevated or not; its report is named with `report_prefix`.
    Run { command: Vec<String>, elevated: bool, report_prefix: String },
}

/// The content of a `CommandLine`.
pub enum LineModel {
    Skipped,
    NoCommand,
    BadReportName,
    Run { command: Seq<Seq<char>>, elevated: bool, report_prefix: Seq<char> },
}

impl View for CommandLine {
    type V = LineModel;

    open spec fn view(&self) -> LineModel {
        match self {
            CommandLine::Skipped => LineModel::Skipped,
            CommandLine::NoCommand => LineModel::NoCommand,
            CommandLine::BadReportName => LineModel::BadReportName,
            CommandLine::Run { command, elevated, report_prefix } => LineModel::Run {
                command: views(command@),
                elevated: *elevated,
                report_prefix: report_prefix@,
            },
        }
    }
}

/// The run of `words`, elevated when `first_arg` asks for it; an error when
/// its report name cannot be cut.
pub open spec fn run_model(words: Seq<Seq<char>>, first_arg: Seq<char>) -> LineModel {
    match report_prefix_of(words) {
        Some(p) => LineModel::Run { command: words, elevated: asks_elevation(first_arg), report_prefix: p },
        None => LineModel::BadReportName,
    }
}

/// What the line `line` asks of a runner whose method name, in lower case, is
/// `method`. A comment or empty line is skipped. A line whose first word
/// starts with `:` runs what follows that word when the word names the
/// method, and is skipped otherwise. Any other line is split into words
/// (see `command_args`): none is an error; else it runs when the runner runs
/// lines without a selector, and is skipped otherwise.
pub open spec fn line_model(line: Seq<char>, method: Seq<char>, run_implicit: bool) -> LineModel {
    let t = spaces_skipped(line);
    if has_prefix(line, "#"@) || line.len() == 0 {
        LineModel::Skipped
    } else if has_prefix(t, ":"@) {
        let selector = ascii_lowered(first_word(t));
        if has_infix(selector, method) {
            run_model(command_args(after_first_word(t)), selector)
        } else {
            LineModel::Skipped
        }
    } else {
        let words = command_args(line);
        if words.len() == 0 {
            LineModel::NoCommand
        } else if run_implicit {
            run_model(words, ascii_lowered(words[0]))
        } else {
            LineModel::Skipped
        }
    }
}

proof fn lemma_spaces_skipped(s: Seq<char>, k: int)
    requires
        0 <= k <= s.len(),
        forall|j: int| 0 <= j < k ==> #[trigger] s[j] == ' ',
        k == s.len() || s[k] != ' ',
    ensures
        spaces_skipped(s) == s.skip(k),
    decreases k,
{
    if k > 0 {
        assert forall|j: int| 0 <= j < k - 1 implies #[trigger] s.drop_first()[j] == ' ' by {
            assert(s.drop_first()[j] == s[j + 1]);
        }
        if k < s.len() {
            assert(s.drop_first()[k - 1] == s[k]);
        }
        lemma_spaces_skipped(s.drop_first(), k - 1);
        assert(s.drop_first().skip(k - 1) =~= s.skip(k));
    } else {
        assert(s.skip(0) =~= s);
    }
}

proof fn lemma_first_space(s: Seq<char>, k: int)
    requires
        0 <= k <= s.len(),
        forall|j: int| 0 <= j < k ==> #[trigger] s[j] != ' ',
    ensures
        k < s.len() && s[k] == ' ' ==> first_space(s) == Some(k),
        k == s.len() ==> first_space(s) == None::<int>,
    decreases k,
{
    if k > 0 {
        assert forall|j: int| 0 <= j < k - 1 implies #[trigger] s.drop_first()[j] != ' ' by {
            assert(s.drop_first()[j] == s[j + 1]);
        }
        if k < s.len() {
            assert(s.drop_first()[k - 1] == s[k]);
        }
        lemma_first_space(s.drop_first(), k - 1);
    }
}

/// The line without its leading spaces (see `spaces_skipped`).
fn skip_spaces(line: &str) -> (res: String)
    ensures
        res@ == spaces_skipped(line@),
{
    let cs = chars_of(line);
    let mut k: usize = 0;
    while k < cs.len() && cs[k] == ' '
        invariant
            cs@ == line@,
            k <= cs.len(),
            forall|j: int| 0 <= j < k ==> #[trigger] line@[j] == ' ',
        decreases cs.len() - k,
    {
        k = k + 1;
    }
    proof {
        lemma_spaces_skipped(line@, k as int);
    }
    assert(line@.subrange(k as int, cs.len() as int) =~= line@.skip(k as int));
    string_of_range(&cs, k, cs.len())
}

/// The first word of `s` and what follows it (see `first_word`, `after_first_word`).
fn split_first_word(s: &str) -> (res: (String, String))
    ensures
        res.0@ == first_word(s@),
        res.1@ == after_first_word(s@),
{
    let cs = chars_of(s);
    let mut k: usize = 0;
    while k < cs.len() && cs[k] != ' '
        invariant
            cs@ == s@,
            k <= cs.len(),
            forall|j: int| 0 <= j < k ==> #[trigger] s@[j] != ' ',
        decreases cs.len() - k,
    {
        k = k + 1;
    }
    proof {
        lemma_first_space(s@, k as int);
    }
    if k == cs.len() {
        assert(s@.subrange(0, cs.len() as int) =~= s@);
        (string_of_range(&cs, 0, cs.len()), String::new())
    } else {
        assert(s@.subrange(0, k as int) =~= s@.take(k as int));
        assert(s@.subrange(k + 1, cs.len() as int) =~= s@.skip(k + 1));
        (string_of_range(&cs, 0, k), string_of_range(&cs, k + 1, cs.len()))
    }
}

/// The number of bytes of `c` in UTF-8 (see `utf8_width`).
fn char_width(c: char) -> (res: usize)
    ensures
        res == utf8_width(c),
        1 <= res <= 4,
{
    let u = c as u32;
    if u < 0x80 {
        1
    } else if u < 0x800 {
        2
    } else if u < 0x10000 {
        3
    } else {
        4
    }
}

/// A cut prefix `p` before what is left of a cut.
pub open spec fn prefixed(p: Seq<char>, o: Option<Seq<char>>) -> Option<Seq<char>> {
    match o {
        Some(x) => Some(p + x),
        None => None,
    }
}

proof fn lemma_cut_step(s: Seq<char>, k: int, n: int)
    requires
        0 <= k < s.len(),
        n > 0,
        utf8_width(s[k]) <= n,
    ensures
        byte_prefix(s.skip(k), n) == prefixed(seq![s[k]], byte_prefix(s.skip(k + 1), n - utf8_width(s[k]))),
        utf8_len(s.skip(k)) == utf8_width(s[k]) + utf8_len(s.skip(k + 1)),
{
    assert(s.skip(k).drop_first() =~= s.skip(k + 1));
    assert(s.skip(k)[0] == s[k]);
}

/// `s` cut to its first 100 bytes in UTF-8 (see `clipped`).
fn clip(s: &str) -> (res: Option<String>)
    ensures
        match res {
            Some(r) => clipped(s@) == Some(r@),
            None => clipped(s@) is None,
        },
{
    let cs = chars_of(s);
    let mut k: usize = 0;
    let mut used: usize = 0;
    proof {
        assert(s@.skip(0) =~= s@);
        assert(s@.take(0) + s@ =~= s@);
    }
    while k < cs.len() && used < 100
        invariant
            cs@ == s@,
            k <= cs.len(),
            used <= 100,
            byte_prefix(s@, 100) == prefixed(s@.take(k as int), byte_prefix(s@.skip(k as int), 100 - used)),
            utf8_len(s@) == used + utf8_len(s@.skip(k as int)),
        decreases cs.len() - k,
    {
        let w = char_width(cs[k]);
        if used + w > 100 {
            proof {
                assert(s@.skip(k as int).drop_first() =~= s@.skip(k + 1));
                assert(s@.skip(k as int)[0] == s@[k as int]);
            }
            return None;
        }
        proof {
            lemma_cut_step(s@, k as int, 100 - used);
            assert(s@.take(k as int) + seq![s@[k as int]] =~= s@.take(k + 1));
            let o = byte_prefix(s@.skip(k + 1), 100 - used - w);
            match o {
                Some(x) => {
                    assert(s@.take(k as int) + (seq![s@[k as int]] + x) =~= s@.take(k + 1) + x);
                },
                None => {},
            }
        }
        used = used + w;
        k = k + 1;
    }
    if used == 100 && k < cs.len() {
        proof {
            assert(s@.skip(k as int).len() > 0);
            assert(s@.skip(k as int).drop_first() =~= s@.skip(k + 1));
            assert(s@.take(k as int) + Seq::<char>::empty() =~= s@.take(k as int));
        }
        Some(string_of_range(&cs, 0, k))
    } else {
        proof {
            assert(s@.skip(k as int).len() == 0);
        }
        Some(owned(s))
    }
}

/// The prefix of the report file of a custom command (see `report_prefix_of`).
pub fn report_prefix(words: &Vec<String>) -> (res: Option<String>)
    ensures
        match res {
            Some(r) => report_prefix_of(views(words@)) == Some(r@),
            None => report_prefix_of(views(words@)) is None,
        },
{
    proof {
        reveal_strlit(" ");
        reveal_strlit("\"");
        reveal_strlit("/");
        reveal_strlit("\\");
        reveal_strlit(":");
    }
    let all = join(words, "-");
    let cut = match clip(all.as_str()) {
        Some(c) => c,
        None => return None,
    };
    let a = replace_all(cut.as_str(), " ", "-");
    let b = replace_all(a.as_str(), "\"", "");
    let c = replace_all(b.as_str(), "/", "");
    let d = replace_all(c.as_str(), "\\", "");
    let e = replace_all(d.as_str(), ":", "-");
    Some(concat2("custom-", e.as_str()))
}

/// The run of `words`, elevated when `first_arg` asks for it (see `run_model`).
fn run_line(words: Vec<String>, first_arg: &str) -> (res: CommandLine)
    ensures
        res@ == run_model(views(words@), first_arg@),
{
    let elevated = contains(first_arg, ":admin") || contains(first_arg, ":sudo");
    match report_prefix(&words) {
        Some(report_prefix) => CommandLine::Run { command: words, elevated, report_prefix },
        None => CommandLine::BadReportName,
    }
}

/// What the line `line` asks of a runner whose lower-case method name is
/// `method` (see `line_model`).
pub fn command_line(line: &str, method: &str, run_implicit: bool) -> (res: CommandLine)
    ensures
        res@ == line_model(line@, method@, run_implicit),
{
    if starts_with(line, "#") || line.is_empty() {
        return CommandLine::Skipped;
    }
    let t = skip_spaces(line);
    if starts_with(t.as_str(), ":") {
        let (word, rest) = split_first_word(t.as_str());
        let selector = to_ascii_lowercase(word.as_str());
        if contains(selector.as_str(), method) {
            let words = parse_command(rest.as_str());
            run_line(words, selector.as_str())
        } else {
            CommandLine::Skipped
        }
    } else {
        let words = parse_command(line);
        if words.len() == 0 {
            assert(views(words@).len() == 0);
            CommandLine::NoCommand
        } else if run_implicit {
            assert(views(words@)[0] == words@[0]@);
            let first_arg = to_ascii_lowercase(words[0].as_str());
            run_line(words, first_arg.as_str())
        } else {
            assert(views(words@).len() > 0);
            CommandLine::Skipped
        }
    }
}

/// The custom commands of a command file, run on a computer through one connector.
pub struct CommandRunner<C: Connector> {
    pub local_store_directory: String,
    pub connector: C,
    /// Whether lines without a selector are run too.
    pub run_implicit: bool,
}

impl<C: Connector> CommandRunner<C> {
    /// What each line of a command file asks of this runner (see `line_model`).
    pub fn run_commands(&self, lines: &Vec<String>) -> (res: Vec<CommandLine>)
        ensures
            res@.len() == lines@.len(),
            forall|i: int| 0 <= i < lines@.len() ==> (#[trigger] res@[i])@ == line_model(
                lines@[i]@,
                ascii_lowered(self.connector.method_name_view()),
                self.run_implicit,
            ),
    {
        let method = to_ascii_lowercase(self.connector.connect_method_name());
        let mut res: Vec<CommandLine> = Vec::new();
        let mut i: usize = 0;
        while i < lines.len()
            invariant
                i <= lines.len(),
                res@.len() == i,
                method@ == ascii_lowered(self.connector.method_name_view()),
                forall|k: int| 0 <= k < i ==> (#[trigger] res@[k])@ == line_model(
                    lines@[k]@,
                    ascii_lowered(self.connector.method_name_view()),
                    self.run_implicit,
                ),
            decreases lines.len() - i,
        {
            res.push(command_line(lines[i].as_str(), method.as_str(), self.run_implicit));
            i = i + 1;
        }
        res
    }

    /// The report file of a custom command with report prefix `report_prefix`,
    /// in the local store directory.
    pub fn report_path(&self, report_prefix: &str) -> (res: String)
        ensures
            res@ == path_joined(
                self.local_store_directory@,
                report_name(self.connector.target(), report_prefix@, self.connector.method_name_view(), "txt"@),
            ),
    {
        let name = report_file_name(
            self.connector.computer(),
            report_prefix,
            self.connector.connect_method_name(),
            "txt",
        );
        join_path(self.local_store_directory.as_str(), name.as_str())
    }

    /// The process that runs `command`, its output going to the report file `report`.
    pub fn run_plan(&self, command: Vec<String>, report: &str, elevated: bool, timeout: Option<u64>) -> (res: Invocation)
        ensures
            res@ == self.connector.run_plan_view(views(command@), Some(report@), elevated, timeout),
    {
        self.connector.run_plan(command, Some(report), elevated, timeout)
    }
}

impl CommandRunner<PsExec> {
    /// A runner that uses PAExec.
    pub fn psexec(remote_computer: Computer, local_store_directory: String, remote_temp_storage: String, share: Option<String>) -> (res: Self)
        ensures
            res.local_store_directory == local_store_directory,
            res.run_implicit,
            res.connector.psexec_name@ == "paexec.exe"@,
            res.connector.remote_temp_storage == remote_temp_storage,
    {
        CommandRunner {
            local_store_directory,
            connector: PsExec::paexec(remote_computer, remote_temp_storage, share),
            run_implicit: true,
        }
    }
}

impl CommandRunner<Wmi> {
    /// A runner that uses WMI.
    pub fn wmi(remote_computer: Computer, local_store_directory: String, remote_temp_storage: String) -> (res: Self)
        ensures
            res.local_store_directory == local_store_directory,
            res.run_implicit,
            res.connector.computer == remote_computer,
            res.connector.remote_temp_storage == remote_temp_storage,
    {
        CommandRunner {
            local_store_directory,
            connector: Wmi { computer: remote_computer, remote_temp_storage },
            run_implicit: true,
        }
    }
}

impl CommandRunner<Local> {
    /// A runner that runs the commands on this computer.
    pub fn local(username: String, local_store_directory: String) -> (res: Self)
        ensures
            res.local_store_directory == local_store_directory,
            res.run_implicit,
            res.connector.localhost.username == username,
            res.connector.temp_storage@ == crate::remote::local::DEFAULT_REMOTE_PATH_STORAGE@,
    {
        CommandRunner { local_store_directory, connector: Local::new_default(username), run_implicit: true }
    }
}

impl CommandRunner<PsRemote> {
    /// A runner that uses PowerShell remoting.
    pub fn psremote(remote_computer: Computer, local_store_directory: String, remote_temp_storage: String, share: Option<String>) -> (res: Self)
        ensures
            res.local_store_directory == local_store_directory,
            res.run_implicit,
            res.connector.remote_temp_storage == remote_temp_storage,
    {
        CommandRunner {
            local_store_directory,
            connector: PsRemote::new(remote_computer, remote_temp_storage, share),
            run_implicit: true,
        }
    }
}

impl CommandRunner<Rdp> {
    /// A runner that uses remote desktop.
    pub fn rdp(remote_computer: Computer, local_store_directory: String, nla: bool, remote_temp_storage: String) -> (res: Self)
        ensures
            res.local_store_directory == local_store_directory,
            res.run_implicit,
            res.connector.computer == remote_computer,
            res.connector.nla == nla,
            res.connector.remote_temp_storage == remote_temp_storage,
    {
        CommandRunner {
            local_store_directory,
            connector: Rdp { computer: remote_computer, nla, remote_temp_storage },
            run_implicit: true,
        }
    }
}

impl CommandRunner<Ssh> {
    /// A runner that uses SSH; like every runner it runs lines without a
    /// selector, and lines whose selector names it.
    pub fn ssh(remote_computer: Computer, local_store_directory: String, key_file: Option<String>) -> (res: Self)
        ensures
            res.local_store_directory == local_store_directory,
            res.run_implicit,
            res.connector.computer == remote_computer,
            res.connector.key_file == key_file,
    {
        CommandRunner {
            local_store_directory,
            connector: Ssh { computer: remote_computer, key_file },
            run_implicit: true,
        }
    }
}

/// A line that starts with `#` is a comment: no runner runs it.
pub proof fn law_comment_lines_are_skipped(line: Seq<char>, method: Seq<char>, run_implicit: bool)
    requires
        has_prefix(line, "#"@),
    ensures
        line_model(line, method, run_implicit) == LineModel::Skipped,
{
}

/// A line whose first word is a selector (it starts with `:`) is skipped
/// exactly on the runners whose method the selector does not name, whatever
/// their other settings; elsewhere it runs what follows the selector,
/// elevated exactly when the selector holds `:admin` or `:sudo`.
pub proof fn law_selector_names_the_methods(line: Seq<char>, method: Seq<char>, run_implicit: bool)
    requires
        !has_prefix(line, "#"@),
        line.len() > 0,
        has_prefix(spaces_skipped(line), ":"@),
    ensures
        (line_model(line, method, run_implicit) is Skipped)
            == !has_infix(ascii_lowered(first_word(spaces_skipped(line))), method),
        has_infix(ascii_lowered(first_word(spaces_skipped(line))), method) ==> line_model(line, method, run_implicit)
            == run_model(
                command_args(after_first_word(spaces_skipped(line))),
                ascii_lowered(first_word(spaces_skipped(line))),
            ),
        line_model(line, method, run_implicit) matches LineModel::Run { elevated, .. }
            ==> elevated == asks_elevation(ascii_lowered(first_word(spaces_skipped(line)))),
{
}

/// A line without a selector that is neither a comment nor empty is read
/// alike by every runner that runs such lines (all of them do): it is never
/// skipped, and whether it runs, and what, does not depend on the method.
pub proof fn law_untagged_line_runs_with_any_method(line: Seq<char>, method: Seq<char>, other: Seq<char>)
    requires
        !has_prefix(line, "#"@),
        line.len() > 0,
        !has_prefix(spaces_skipped(line), ":"@),
    ensures
        line_model(line, method, true) == line_model(line, other, true),
        !(line_model(line, method, true) is Skipped),
        command_args(line).len() > 0 && report_prefix_of(command_args(line)) is Some
            ==> line_model(line, method, true) is Run,
{
}

/// The prefix of a custom command's report holds no space, `"`, `/`, `\` or
/// `:`, so it can stand in a file name.
pub proof fn law_report_prefix_is_plain(words: Seq<Seq<char>>)
    ensures
        report_prefix_of(words) matches Some(p) ==> {
            &&& !p.contains(' ')
            &&& !p.contains('"')
            &&& !p.contains('/')
            &&& !p.contains('\\')
            &&& !p.contains(':')
        },
{
    match clipped(joined(words, "-"@)) {
        Some(x) => lemma_cleaned_is_plain(x),
        None => {},
    }
}

proof fn lemma_cleaned_is_plain(x: Seq<char>)
    ensures
        forall|ch: char| ch == ' ' || ch == '"' || ch == '/' || ch == '\\' || ch == ':' ==> !("custom-"@ + cleaned(x)).contains(ch),
{
    reveal_strlit(" ");
    reveal_strlit("\"");
    reveal_strlit("/");
    reveal_strlit("\\");
    reveal_strlit(":");
    reveal_strlit("");
    reveal_strlit("-");
    reveal_strlit("custom-");
    let dash = "-"@;
    let none = ""@;
    let head = "custom-"@;
    assert(none.len() == 0);
    assert forall|c: char| c != '-' implies !dash.contains(c) by {
        assert forall|i: int| 0 <= i < dash.len() implies dash[i] != c by {}
    }
    assert forall|c: char| c == ' ' || c == '"' || c == '/' || c == '\\' || c == ':' implies !head.contains(c) by {
        assert forall|i: int| 0 <= i < head.len() implies head[i] != c by {}
    }
    let a = replaced(x, seq![' '], dash);
    lemma_replaced_removes(x, ' ', dash);
    let b = replaced(a, seq!['"'], none);
    lemma_replaced_removes(a, '"', none);
    lemma_replaced_keeps_out(a, seq!['"'], none, ' ');
    let c = replaced(b, seq!['/'], none);
    lemma_replaced_removes(b, '/', none);
    lemma_replaced_keeps_out(b, seq!['/'], none, ' ');
    lemma_replaced_keeps_out(b, seq!['/'], none, '"');
    let d = replaced(c, seq!['\\'], none);
    lemma_replaced_removes(c, '\\', none);
    lemma_replaced_keeps_out(c, seq!['\\'], none, ' ');
    lemma_replaced_keeps_out(c, seq!['\\'], none, '"');
    lemma_replaced_keeps_out(c, seq!['\\'], none, '/');
    let e = replaced(d, seq![':'], dash);
    lemma_replaced_removes(d, ':', dash);
    lemma_replaced_keeps_out(d, seq![':'], dash, ' ');
    lemma_replaced_keeps_out(d, seq![':'], dash, '"');
    lemma_replaced_keeps_out(d, seq![':'], dash, '/');
    lemma_replaced_keeps_out(d, seq![':'], dash, '\\');
    assert(" "@ == seq![' ']);
    assert("\""@ == seq!['"']);
    assert("/"@ == seq!['/']);
    assert("\\"@ == seq!['\\']);
    assert(":"@ == seq![':']);
    assert forall|ch: char| ch == ' ' || ch == '"' || ch == '/' || ch == '\\' || ch == ':' implies !(head + e).contains(ch) by {
        assert forall|i: int| 0 <= i < (head + e).len() implies (head + e)[i] != ch by {
            if i < head.len() {
                assert((head + e)[i] == head[i]);
            } else {
                assert((head + e)[i] == e[i - head.len()]);
            }
        }
    }
}

} // verus!
