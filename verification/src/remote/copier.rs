//! Copying files to and from remote computers.

use vstd::prelude::*;
use crate::text::{views, owned, concat2, concat3, push_str, replace_all, replace_first, joined, has_infix, contains};
use crate::winpath::{components, path_joined, path_components, join_path};
use crate::remote::connector::{Computer, Connector, Invocation, Plan, opt_str_view};

verus! {

/// The plans of a sequence of invocations.
pub open spec fn plans(v: Seq<Invocation>) -> Seq<Plan> {
    v.map_values(|i: Invocation| i@)
}

/// A vector holding the one invocation `i`.
pub fn single(i: Invocation) -> (res: Vec<Invocation>)
    ensures
        plans(res@) == seq![i@],
{
    let mut res: Vec<Invocation> = Vec::new();
    res.push(i);
    assert(plans(res@) =~= seq![res@[0]@]);
    res
}

/// A way of copying and deleting files.
pub trait FileCopier {
    /// The process that copies `source` to `target`.
    spec fn copy_view(&self, source: Seq<char>, target: Seq<char>) -> Plan;

    /// The process that deletes `target`.
    spec fn delete_view(&self, target: Seq<char>) -> Plan;

    /// The name of the copying method.
    spec fn copier_name(&self) -> Seq<char>;

    /// The process that copies `source` to `target` (see `copy_view`).
    fn copy_file(&self, source: &str, target: &str) -> (res: Invocation)
        ensures
            res@ == self.copy_view(source@, target@),
    ;

    /// The process that deletes `target` (see `delete_view`).
    fn delete_file(&self, target: &str) -> (res: Invocation)
        ensures
            res@ == self.delete_view(target@),
    ;

    /// The name of the copying method.
    fn method_name(&self) -> (res: &'static str)
        ensures
            res@ == self.copier_name(),
    ;
}

/// A way of moving files between this computer and a remote one.
pub trait RemoteFileCopier {
    /// The remote computer.
    spec fn remote_target(&self) -> Computer;

    /// How a remote path is reached from this computer.
    spec fn remote_form(&self, path: Seq<char>) -> Seq<char>;

    /// The processes that copy the local `source` into the remote directory `target`.
    spec fn to_remote_steps(&self, source: Seq<char>, target: Seq<char>) -> Seq<Plan>;

    /// The processes that delete the remote file `target`.
    spec fn delete_steps(&self, target: Seq<char>) -> Seq<Plan>;

    /// The processes that copy the remote `source` into the local directory `target`.
    spec fn from_remote_steps(&self, source: Seq<char>, target: Seq<char>) -> Seq<Plan>;

    /// Whether a `*` in a parent directory of a remote source is expanded by
    /// listing the remote directories first.
    spec fn wildcards_view(&self) -> bool;

    /// The name of the copying method.
    spec fn copier_name_view(&self) -> Seq<char>;

    /// The remote computer.
    fn remote_computer(&self) -> (res: &Computer)
        ensures
            *res == self.remote_target(),
    ;

    /// How the remote `path` is reached from this computer (see `remote_form`).
    fn path_to_remote_form(&self, path: &str) -> (res: String)
        ensures
            res@ == self.remote_form(path@),
    ;

    /// The processes that copy `source` to the remote `target` (see `to_remote_steps`).
    fn copy_to_remote(&self, source: &str, target: &str) -> (res: Vec<Invocation>)
        ensures
            plans(res@) == self.to_remote_steps(source@, target@),
    ;

    /// The processes that delete the remote `target` (see `delete_steps`).
    fn delete_remote_file(&self, target: &str) -> (res: Vec<Invocation>)
        ensures
            plans(res@) == self.delete_steps(target@),
    ;

    /// The processes that copy the remote `source` to `target` (see `from_remote_steps`).
    fn copy_from_remote(&self, source: &str, target: &str) -> (res: Vec<Invocation>)
        ensures
            plans(res@) == self.from_remote_steps(source@, target@),
    ;

    /// The processes that open what copying needs, run once before the first
    /// copy or deletion.
    spec fn open_steps(&self) -> Seq<Plan>;

    /// The processes that close it again, run once after the last copy.
    spec fn close_steps(&self) -> Seq<Plan>;

    /// The processes that open what copying needs (see `open_steps`).
    fn open_session(&self) -> (res: Vec<Invocation>)
        ensures
            plans(res@) == self.open_steps(),
    ;

    /// The processes that close it again (see `close_steps`).
    fn close_session(&self) -> (res: Vec<Invocation>)
        ensures
            plans(res@) == self.close_steps(),
    ;

    /// Whether wildcards in parent directories are expanded (see `wildcards_view`).
    fn expands_wildcards(&self) -> (res: bool)
        ensures
            res == self.wildcards_view(),
    ;

    /// The name of the copying method.
    fn method_name(&self) -> (res: &'static str)
        ensures
            res@ == self.copier_name_view(),
    ;
}

/// Copying with the `xcopy` and `del` commands of the local computer.
pub struct Cmd {}

/// The `xcopy` arguments that copy `source` to `target`.
pub open spec fn xcopy_args(source: Seq<char>, target: Seq<char>) -> Seq<Seq<char>> {
    seq!["/y"@, "/i"@, "/c"@, "/H"@, "/S"@, source, target]
}

/// The `xcopy` arguments that copy `source` to `target`.
pub fn xcopy_arguments(source: &str, target: &str) -> (res: Vec<String>)
    ensures
        views(res@) == xcopy_args(source@, target@),
{
    let mut res: Vec<String> = Vec::new();
    push_str(&mut res, "/y");
    push_str(&mut res, "/i");
    push_str(&mut res, "/c");
    push_str(&mut res, "/H");
    push_str(&mut res, "/S");
    push_str(&mut res, source);
    push_str(&mut res, target);
    res
}

impl FileCopier for Cmd {
    open spec fn copy_view(&self, source: Seq<char>, target: Seq<char>) -> Plan {
        Plan::Run { program: "xcopy"@, args: xcopy_args(source, target) }
    }

    open spec fn delete_view(&self, target: Seq<char>) -> Plan {
        Plan::Run { program: "del"@, args: seq!["/F"@, "/Q"@, target] }
    }

    open spec fn copier_name(&self) -> Seq<char> {
        "XCopy"@
    }

    fn copy_file(&self, source: &str, target: &str) -> (res: Invocation) {
        Invocation::Run { program: owned("xcopy"), args: xcopy_arguments(source, target) }
    }

    fn delete_file(&self, target: &str) -> (res: Invocation) {
        let mut args: Vec<String> = Vec::new();
        push_str(&mut args, "/F");
        push_str(&mut args, "/Q");
        push_str(&mut args, target);
        assert(views(args@) =~= seq!["/F"@, "/Q"@, target@]);
        Invocation::Run { program: owned("del"), args }
    }

    fn method_name(&self) -> (res: &'static str) {
        "XCopy"
    }
}

/// Copying with `xcopy` and `del` run on the remote computer through a connector.
pub struct RemoteCmd<'a, C: Connector> {
    pub connector: &'a C,
}

impl<'a, C: Connector> RemoteCmd<'a, C> {
    /// A copier that runs its commands through `connector`.
    pub fn new(connector: &'a C) -> (res: RemoteCmd<'a, C>)
        ensures
            res.connector == connector,
    {
        RemoteCmd { connector }
    }
}

/// The remote command that copies `source` to `target` with `xcopy`.
pub open spec fn remote_xcopy(source: Seq<char>, target: Seq<char>) -> Seq<Seq<char>> {
    seq!["xcopy"@] + xcopy_args(source, target)
}

/// The remote command that deletes `target`.
pub open spec fn remote_del(target: Seq<char>) -> Seq<Seq<char>> {
    seq!["cmd.exe"@, "/c"@, "del"@, "/F"@, "/Q"@, target]
}

/// The remote command that deletes `target`.
pub fn remote_del_command(target: &str) -> (res: Vec<String>)
    ensures
        views(res@) == remote_del(target@),
{
    let mut res: Vec<String> = Vec::new();
    push_str(&mut res, "cmd.exe");
    push_str(&mut res, "/c");
    push_str(&mut res, "del");
    push_str(&mut res, "/F");
    push_str(&mut res, "/Q");
    push_str(&mut res, target);
    res
}

impl<'a, C: Connector> FileCopier for RemoteCmd<'a, C> {
    open spec fn copy_view(&self, source: Seq<char>, target: Seq<char>) -> Plan {
        self.connector.run_plan_view(remote_xcopy(source, target), None, true, None)
    }

    open spec fn delete_view(&self, target: Seq<char>) -> Plan {
        self.connector.run_plan_view(remote_del(target), None, true, None)
    }

    open spec fn copier_name(&self) -> Seq<char> {
        "RemoteXCopy"@
    }

    fn copy_file(&self, source: &str, target: &str) -> (res: Invocation) {
        let mut command: Vec<String> = Vec::new();
        push_str(&mut command, "xcopy");
        crate::text::append_all(&mut command, xcopy_arguments(source, target));
        assert(views(command@) =~= remote_xcopy(source@, target@));
        self.connector.run_plan(command, None, true, None)
    }

    fn delete_file(&self, target: &str) -> (res: Invocation) {
        self.connector.run_plan(remote_del_command(target), None, true, None)
    }

    fn method_name(&self) -> (res: &'static str) {
        "RemoteXCopy"
    }
}

/// The name under which this computer's `C:` drive is shared with a remote one.
pub const GARGAMEL_SHARED_FOLDER_NAME: &'static str = "GargamelShare";

/// A copier that reaches the remote disks through Windows shares.
pub struct WindowsRemoteFileHandler<F: FileCopier> {
    pub computer: Computer,
    pub copier_impl: F,
    pub custom_share_folder: Option<String>,
}

/// The arguments of `NET` that open a connection to the remote computer's shares.
pub open spec fn net_use_args(computer: Computer) -> Seq<Seq<char>> {
    seq!["USE"@, "\\\\"@ + computer.address@, "/u:"@ + crate::remote::connector::domain_user(computer)]
        + match computer.password {
        Some(p) => seq![p@],
        None => Seq::empty(),
    }
}

/// The path by which this computer reaches the remote `path` through a share.
pub open spec fn share_form(computer: Computer, share: Option<Seq<char>>, path: Seq<char>) -> Seq<char> {
    match share {
        None => "\\\\"@ + computer.address@ + "\\"@ + crate::text::replaced_first(path, ":"@, "$"@),
        Some(s) => if s.len() == 1 {
            crate::text::replaced(path, "C"@, s)
        } else {
            "\\\\"@ + computer.address@ + "\\"@ + crate::text::replaced(path, "C:"@, s)
        },
    }
}

impl<F: FileCopier> WindowsRemoteFileHandler<F> {
    /// A handler for `computer` that copies with `copier_impl`. Its use begins
    /// with `open_session` (see `connect_steps`: the one `NET USE` without a
    /// custom share) and ends with `close_session`.
    pub fn new(computer: Computer, copier_impl: F, custom_share_folder: Option<String>) -> (res: WindowsRemoteFileHandler<F>)
        ensures
            res.computer == computer,
            res.copier_impl == copier_impl,
            res.custom_share_folder == custom_share_folder,
            res.connect_steps() == (if custom_share_folder is None {
                seq![Plan::Run { program: "NET"@, args: net_use_args(computer) }]
            } else {
                Seq::<Plan>::empty()
            }),
    {
        WindowsRemoteFileHandler { computer, copier_impl, custom_share_folder }
    }

    /// Whether the connection to the remote shares must be opened and closed
    /// by this handler: only when no custom share folder is given.
    pub fn needs_connection(&self) -> (res: bool)
        ensures
            res == (self.custom_share_folder is None),
    {
        self.custom_share_folder.is_none()
    }

    /// The process that opens the connection to the remote shares.
    pub fn open_connection(&self) -> (res: Invocation)
        ensures
            res@ == (Plan::Run { program: "NET"@, args: net_use_args(self.computer) }),
    {
        let mut args: Vec<String> = Vec::new();
        push_str(&mut args, "USE");
        let a = concat2("\\\\", self.computer.address.as_str());
        push_str(&mut args, a.as_str());
        let du = self.computer.domain_username();
        let u = concat2("/u:", du.as_str());
        push_str(&mut args, u.as_str());
        let ghost before = views(args@);
        match &self.computer.password {
            Some(p) => {
                push_str(&mut args, p.as_str());
            },
            None => {},
        }
        assert(views(args@) =~= net_use_args(self.computer));
        Invocation::Run { program: owned("NET"), args }
    }

    /// The process that closes the connection to the remote shares.
    pub fn close_connection(&self) -> (res: Invocation)
        ensures
            res@ == (Plan::Run {
                program: "NET"@,
                args: seq!["USE"@, "\\\\"@ + self.computer.address@, "/D"@],
            }),
    {
        let mut args: Vec<String> = Vec::new();
        push_str(&mut args, "USE");
        let a = concat2("\\\\", self.computer.address.as_str());
        push_str(&mut args, a.as_str());
        push_str(&mut args, "/D");
        assert(views(args@) =~= seq!["USE"@, "\\\\"@ + self.computer.address@, "/D"@]);
        Invocation::Run { program: owned("NET"), args }
    }

    /// The processes that open the connection to the remote shares, once,
    /// before any copy: `NET USE` when no custom share folder is given.
    pub open spec fn connect_steps(&self) -> Seq<Plan> {
        if self.custom_share_folder is None {
            seq![Plan::Run { program: "NET"@, args: net_use_args(self.computer) }]
        } else {
            Seq::empty()
        }
    }

    /// The processes that close the connection again, after the last copy:
    /// `NET USE /D` when no custom share folder is given.
    pub open spec fn disconnect_steps(&self) -> Seq<Plan> {
        if self.custom_share_folder is None {
            seq![Plan::Run { program: "NET"@, args: seq!["USE"@, "\\\\"@ + self.computer.address@, "/D"@] }]
        } else {
            Seq::empty()
        }
    }
}

impl<F: FileCopier> RemoteFileCopier for WindowsRemoteFileHandler<F> {
    open spec fn remote_target(&self) -> Computer {
        self.computer
    }

    open spec fn remote_form(&self, path: Seq<char>) -> Seq<char> {
        share_form(self.computer, crate::remote::connector::opt_view(self.custom_share_folder), path)
    }

    open spec fn to_remote_steps(&self, source: Seq<char>, target: Seq<char>) -> Seq<Plan> {
        seq![self.copier_impl.copy_view(source, self.remote_form(target))]
    }

    open spec fn delete_steps(&self, target: Seq<char>) -> Seq<Plan> {
        seq![self.copier_impl.delete_view(self.remote_form(target))]
    }

    open spec fn from_remote_steps(&self, source: Seq<char>, target: Seq<char>) -> Seq<Plan> {
        seq![self.copier_impl.copy_view(self.remote_form(source), target)]
    }

    open spec fn open_steps(&self) -> Seq<Plan> {
        self.connect_steps()
    }

    open spec fn close_steps(&self) -> Seq<Plan> {
        self.disconnect_steps()
    }

    open spec fn wildcards_view(&self) -> bool {
        false
    }

    open spec fn copier_name_view(&self) -> Seq<char> {
        self.copier_impl.copier_name()
    }

    fn remote_computer(&self) -> (res: &Computer) {
        &self.computer
    }

    fn path_to_remote_form(&self, path: &str) -> (res: String) {
        proof {
            reveal_strlit(":");
            reveal_strlit("C");
            reveal_strlit("C:");
        }
        match &self.custom_share_folder {
            None => {
                let p = replace_first(path, ":", "$");
                let mut res = concat3("\\\\", self.computer.address.as_str(), "\\");
                res.append(p.as_str());
                res
            },
            Some(share) => {
                if share.unicode_len() == 1 {
                    replace_all(path, "C", share.as_str())
                } else {
                    let p = replace_all(path, "C:", share.as_str());
                    let mut res = concat3("\\\\", self.computer.address.as_str(), "\\");
                    res.append(p.as_str());
                    res
                }
            },
        }
    }

    fn copy_to_remote(&self, source: &str, target: &str) -> (res: Vec<Invocation>) {
        let t = self.path_to_remote_form(target);
        single(self.copier_impl.copy_file(source, t.as_str()))
    }

    fn delete_remote_file(&self, target: &str) -> (res: Vec<Invocation>) {
        let t = self.path_to_remote_form(target);
        single(self.copier_impl.delete_file(t.as_str()))
    }

    fn copy_from_remote(&self, source: &str, target: &str) -> (res: Vec<Invocation>) {
        let s = self.path_to_remote_form(source);
        single(self.copier_impl.copy_file(s.as_str(), target))
    }

    fn open_session(&self) -> (res: Vec<Invocation>) {
        let mut res: Vec<Invocation> = Vec::new();
        if self.needs_connection() {
            res.push(self.open_connection());
        }
        assert(plans(res@) =~= self.connect_steps());
        res
    }

    fn close_session(&self) -> (res: Vec<Invocation>) {
        let mut res: Vec<Invocation> = Vec::new();
        if self.needs_connection() {
            res.push(self.close_connection());
        }
        assert(plans(res@) =~= self.disconnect_steps());
        res
    }

    fn expands_wildcards(&self) -> (res: bool) {
        false
    }

    fn method_name(&self) -> (res: &'static str) {
        self.copier_impl.method_name()
    }
}


/// Whether the wildcard pattern `p` matches all of `s`: `?` matches exactly
/// one character, `*` any run of characters (none included), and every other
/// character itself.
pub open spec fn glob(p: Seq<char>, s: Seq<char>) -> bool
    decreases p.len() + s.len(),
{
    if p.len() == 0 {
        s.len() == 0
    } else if p[0] == '*' {
        glob(p.drop_first(), s) || (s.len() > 0 && glob(p, s.drop_first()))
    } else {
        s.len() > 0 && (p[0] == '?' || p[0] == s[0]) && glob(p.drop_first(), s.drop_first())
    }
}

/// A lone `*` matches every text, and a lone `?` exactly the texts of one character.
pub proof fn law_lone_wildcards(s: Seq<char>)
    ensures
        glob(seq!['*'], s),
        glob(seq!['?'], s) <==> s.len() == 1,
    decreases s.len(),
{
    let star = seq!['*'];
    let empty = Seq::<char>::empty();
    assert(star.drop_first() =~= empty);
    assert(star[0] == '*');
    if s.len() > 0 {
        law_lone_wildcards(s.drop_first());
        assert(glob(star, s) == (glob(star.drop_first(), s) || (s.len() > 0 && glob(star, s.drop_first()))));
    } else {
        assert(glob(empty, s));
        assert(glob(star, s) == (glob(star.drop_first(), s) || (s.len() > 0 && glob(star, s.drop_first()))));
    }
    let q = seq!['?'];
    assert(q.drop_first() =~= empty);
    assert(q[0] == '?');
    assert(glob(q, s) == (s.len() > 0 && (q[0] == '?' || q[0] == s[0]) && glob(q.drop_first(), s.drop_first())));
}

/// Matches `text` against the wildcard `pattern` with
/// `wildmatch::WildMatch::new(pattern).matches(text)`, which the crate documents
/// as the matching that `glob` states.
#[verifier::external_body]
pub(crate) fn wildcard_matches(pattern: &str, text: &str) -> (res: bool)
    ensures
        res == glob(pattern@, text@),
{
    wildmatch::WildMatch::new(pattern).matches(text)
}

/// The index of the first component holding a `*`, or the number of components.
pub open spec fn first_wild(cs: Seq<Seq<char>>) -> int
    decreases cs.len(),
{
    if cs.len() == 0 {
        0
    } else if has_infix(cs[0], "*"@) {
        0
    } else {
        1 + first_wild(cs.drop_first())
    }
}

/// Components put back together into a path; a lone drive keeps its root `\`.
pub open spec fn rejoin(cs: Seq<Seq<char>>) -> Seq<char> {
    if cs.len() == 1 && cs[0].len() > 0 && cs[0].last() == ':' {
        cs[0] + "\\"@
    } else {
        joined(cs, "\\"@)
    }
}

/// How a source path is split at its first component with a `*`.
pub struct WildcardSplit {
    /// The path up to the component with the `*`.
    pub dir: String,
    /// The component with the `*`, if any.
    pub pattern: Option<String>,
    /// The path after the component with the `*`.
    pub rest: String,
    /// Whether the source is copied as it is: no `*` stands in a parent directory.
    pub direct: bool,
}

/// The directory part of the split of `source`.
pub open spec fn split_dir(source: Seq<char>) -> Seq<char> {
    let cs = components(source);
    rejoin(cs.take(first_wild(cs)))
}

/// The wildcard component of the split of `source`, if any.
pub open spec fn split_pattern(source: Seq<char>) -> Option<Seq<char>> {
    let cs = components(source);
    let k = first_wild(cs);
    if k < cs.len() {
        Some(cs[k])
    } else {
        None
    }
}

/// The part after the wildcard component of the split of `source`.
pub open spec fn split_rest(source: Seq<char>) -> Seq<char> {
    let cs = components(source);
    let k = first_wild(cs);
    if k < cs.len() {
        joined(cs.skip(k + 1), "\\"@)
    } else {
        Seq::empty()
    }
}

/// Whether `source` is copied as it is: its only `*`, if any, is in its last component.
pub open spec fn split_direct(source: Seq<char>) -> bool {
    let cs = components(source);
    first_wild(cs) + 1 >= cs.len()
}

proof fn lemma_first_wild_bounds(cs: Seq<Seq<char>>)
    ensures
        0 <= first_wild(cs) <= cs.len(),
        forall|j: int| 0 <= j < first_wild(cs) ==> !has_infix(#[trigger] cs[j], "*"@),
        first_wild(cs) < cs.len() ==> has_infix(cs[first_wild(cs)], "*"@),
    decreases cs.len(),
{
    if cs.len() > 0 && !has_infix(cs[0], "*"@) {
        lemma_first_wild_bounds(cs.drop_first());
        assert forall|j: int| 0 <= j < first_wild(cs) implies !has_infix(#[trigger] cs[j], "*"@) by {
            if j > 0 {
                assert(cs[j] == cs.drop_first()[j - 1]);
            }
        }
    }
}

proof fn lemma_first_wild_at(cs: Seq<Seq<char>>, k: int)
    requires
        0 <= k <= cs.len(),
        forall|j: int| 0 <= j < k ==> !has_infix(#[trigger] cs[j], "*"@),
        k == cs.len() || has_infix(cs[k], "*"@),
    ensures
        first_wild(cs) == k,
    decreases k,
{
    if k > 0 {
        assert forall|j: int| 0 <= j < k - 1 implies !has_infix(#[trigger] cs.drop_first()[j], "*"@) by {
            assert(cs.drop_first()[j] == cs[j + 1]);
        }
        if k - 1 < cs.drop_first().len() {
            assert(cs.drop_first()[k - 1] == cs[k]);
        }
        assert(!has_infix(cs[0], "*"@));
        lemma_first_wild_at(cs.drop_first(), k - 1);
    }
}

/// The strings `v[from..to]` as a new vector.
pub fn sub_vec(v: &Vec<String>, from: usize, to: usize) -> (res: Vec<String>)
    requires
        from <= to <= v.len(),
    ensures
        views(res@) == views(v@).subrange(from as int, to as int),
{
    let mut res: Vec<String> = Vec::new();
    let mut i = from;
    while i < to
        invariant
            from <= i <= to <= v.len(),
            views(res@) =~= views(v@).subrange(from as int, i as int),
        decreases to - i,
    {
        push_str(&mut res, v[i].as_str());
        i = i + 1;
    }
    res
}

/// Components put back together into a path (see `rejoin`).
pub fn rejoin_exec(cs: &Vec<String>) -> (res: String)
    ensures
        res@ == rejoin(views(cs@)),
{
    if cs.len() == 1 {
        let c = crate::text::chars_of(cs[0].as_str());
        assert(views(cs@)[0] == cs@[0]@);
        if c.len() > 0 && c[c.len() - 1] == ':' {
            return concat2(cs[0].as_str(), "\\");
        }
    }
    crate::text::join(cs, "\\")
}

/// Splits `source` at its first component holding a `*` (see `split_dir`,
/// `split_pattern`, `split_rest` and `split_direct`).
pub fn split_wildcards(source: &str) -> (res: WildcardSplit)
    requires
        components(source@).len() > 0,
    ensures
        res.dir@ == split_dir(source@),
        opt_view_string(res.pattern) == split_pattern(source@),
        res.rest@ == split_rest(source@),
        res.direct == split_direct(source@),
{
    let cs = path_components(source);
    let ghost c = components(source@);
    assert(views(cs@).len() == cs@.len());
    let mut k: usize = 0;
    while k < cs.len() && !contains(cs[k].as_str(), "*")
        invariant
            views(cs@) == c,
            k <= cs.len(),
            forall|j: int| 0 <= j < k ==> !has_infix(#[trigger] c[j], "*"@),
        decreases cs.len() - k,
    {
        assert(c[k as int] == cs@[k as int]@);
        k = k + 1;
    }
    proof {
        if k < cs.len() {
            assert(c[k as int] == cs@[k as int]@);
        }
        lemma_first_wild_at(c, k as int);
    }
    let head = sub_vec(&cs, 0, k);
    assert(views(head@) =~= c.take(k as int));
    let dir = rejoin_exec(&head);
    if k < cs.len() {
        let tail = sub_vec(&cs, k + 1, cs.len());
        assert(views(tail@) =~= c.skip(k + 1));
        let rest = crate::text::join(&tail, "\\");
        assert(c[k as int] == cs@[k as int]@);
        WildcardSplit { dir, pattern: Some(cs[k].clone()), rest, direct: k + 1 >= cs.len() }
    } else {
        WildcardSplit { dir, pattern: None, rest: String::new(), direct: true }
    }
}

/// The view of an optional string.
pub open spec fn opt_view_string(o: Option<String>) -> Option<Seq<char>> {
    crate::remote::connector::opt_view(o)
}

/// The copies that a source with a `*` in a parent directory stands for: one
/// per listed directory name that matches `pattern`, from `dir\name\rest`, to
/// `target\name` when `per_item` holds and to `target` otherwise.
pub open spec fn wildcard_copies(
    dir: Seq<char>,
    pattern: Seq<char>,
    rest: Seq<char>,
    names: Seq<Seq<char>>,
    target: Seq<char>,
    per_item: bool,
) -> Seq<(Seq<char>, Seq<char>)>
    decreases names.len(),
{
    if names.len() == 0 {
        Seq::empty()
    } else {
        let done = wildcard_copies(dir, pattern, rest, names.drop_last(), target, per_item);
        let n = names.last();
        if glob(pattern, n) {
            done.push(
                (
                    path_joined(path_joined(dir, n), rest),
                    if per_item { path_joined(target, n) } else { target },
                ),
            )
        } else {
            done
        }
    }
}

/// The views of a vector of pairs of strings.
pub open spec fn pair_views(v: Seq<(String, String)>) -> Seq<(Seq<char>, Seq<char>)> {
    v.map_values(|p: (String, String)| (p.0@, p.1@))
}

/// The copies that the listed directory `names` give for a split source (see
/// `wildcard_copies`).
pub fn plan_wildcard_copies(
    split: &WildcardSplit,
    names: &Vec<String>,
    target: &str,
    per_item: bool,
) -> (res: Vec<(String, String)>)
    requires
        split.pattern is Some,
    ensures
        pair_views(res@) == wildcard_copies(
            split.dir@,
            split.pattern->0@,
            split.rest@,
            views(names@),
            target@,
            per_item,
        ),
{
    let pattern = match &split.pattern {
        Some(p) => p,
        None => {
            assert(false);
            return Vec::new();
        },
    };
    let mut res: Vec<(String, String)> = Vec::new();
    let mut i: usize = 0;
    assert(views(names@).take(0) =~= Seq::<Seq<char>>::empty());
    assert(pair_views(res@) =~= Seq::<(Seq<char>, Seq<char>)>::empty());
    while i < names.len()
        invariant
            i <= names.len(),
            pattern@ == split.pattern->0@,
            pair_views(res@) == wildcard_copies(
                split.dir@,
                pattern@,
                split.rest@,
                views(names@).take(i as int),
                target@,
                per_item,
            ),
        decreases names.len() - i,
    {
        assert(views(names@).take(i + 1).drop_last() =~= views(names@).take(i as int));
        assert(views(names@).take(i + 1).last() == names@[i as int]@);
        let name = names[i].as_str();
        if wildcard_matches(pattern.as_str(), name) {
            let d = join_path(split.dir.as_str(), name);
            let src = join_path(d.as_str(), split.rest.as_str());
            let trg = if per_item { join_path(target, name) } else { owned(target) };
            let ghost before = res@;
            res.push((src, trg));
            assert(pair_views(res@) =~= pair_views(before).push((src@, trg@)));
        }
        i = i + 1;
    }
    assert(views(names@).take(i as int) =~= views(names@));
    res
}

/// One copy of a per-item wildcard copy from this computer: make the remote
/// directory `target` (with `make_dir`), then copy `source` into it.
pub struct WildcardUpload {
    pub make_dir: Invocation,
    pub source: String,
    pub target: String,
}

/// The process that makes the remote directory `path` through `connector`:
/// `cmd.exe /c md path`, elevated, with no report and a timeout of 10 s.
pub open spec fn make_dir_plan<C: Connector>(connector: C, path: Seq<char>) -> Plan {
    connector.run_plan_view(seq!["cmd.exe"@, "/c"@, "md"@, path], None, true, Some(10))
}

/// The copies that a local source with a `*` in a parent directory stands
/// for, given the listed directory `names`: in order, for each name that
/// matches the pattern, the directory `target\name` is made, then
/// `dir\name\rest` is copied into it (see `wildcard_copies` with items kept
/// apart).
pub fn copy_from_local_wildcards<C: Connector>(
    connector: &C,
    split: &WildcardSplit,
    names: &Vec<String>,
    target: &str,
) -> (res: Vec<WildcardUpload>)
    requires
        split.pattern is Some,
    ensures
        res@.len() == wildcard_copies(split.dir@, split.pattern->0@, split.rest@, views(names@), target@, true).len(),
        forall|i: int| 0 <= i < res@.len() ==> {
            let c = wildcard_copies(split.dir@, split.pattern->0@, split.rest@, views(names@), target@, true)[i];
            &&& (#[trigger] res@[i]).source@ == c.0
            &&& res@[i].target@ == c.1
            &&& res@[i].make_dir@ == make_dir_plan(*connector, c.1)
        },
{
    let copies = plan_wildcard_copies(split, names, target, true);
    let ghost all = wildcard_copies(split.dir@, split.pattern->0@, split.rest@, views(names@), target@, true);
    assert(pair_views(copies@).len() == copies@.len());
    let mut res: Vec<WildcardUpload> = Vec::new();
    let mut i: usize = 0;
    while i < copies.len()
        invariant
            i <= copies.len(),
            pair_views(copies@) == all,
            all.len() == copies@.len(),
            res@.len() == i,
            forall|k: int| 0 <= k < i ==> {
                &&& (#[trigger] res@[k]).source@ == all[k].0
                &&& res@[k].target@ == all[k].1
                &&& res@[k].make_dir@ == make_dir_plan(*connector, all[k].1)
            },
        decreases copies.len() - i,
    {
        assert(pair_views(copies@)[i as int] == (copies@[i as int].0@, copies@[i as int].1@));
        let source = copies[i].0.clone();
        let trg = copies[i].1.clone();
        let make_dir = connector.run_plan(crate::remote::connector::mkdir_command(trg.as_str()), None, true, Some(10));
        res.push(WildcardUpload { make_dir, source, target: trg });
        i = i + 1;
    }
    res
}

/// Without a custom share a remote path is reached through the computer's
/// administrative share: `\\address\` followed by the path with its first
/// `:` made `$` (`C:\x` becomes `\\address\C$\x`); a path with one `:`
/// and an address with none give a form with no `:` at all; a path with no
/// `:` stays as it is after the share prefix.
pub proof fn law_admin_share_form(computer: Computer, path: Seq<char>, k: int)
    requires
        0 <= k < path.len(),
        path[k] == ':',
        forall|j: int| 0 <= j < k ==> #[trigger] path[j] != ':',
    ensures
        share_form(computer, None, path) == "\\\\"@ + computer.address@ + "\\"@ + path.take(k) + "$"@ + path.skip(k + 1),
        (forall|j: int| k < j < path.len() ==> #[trigger] path[j] != ':') && !computer.address@.contains(':')
            ==> !share_form(computer, None, path).contains(':'),
{
    reveal_strlit(":");
    reveal_strlit("$");
    reveal_strlit("\\\\");
    reveal_strlit("\\");
    assert(":"@ =~= seq![':']);
    crate::text::lemma_replaced_first_char(path, ':', "$"@, k);
    let r = share_form(computer, None, path);
    let a = computer.address@;
    let head = "\\\\"@ + a + "\\"@;
    assert(r =~= head + path.take(k) + "$"@ + path.skip(k + 1));
    if (forall|j: int| k < j < path.len() ==> #[trigger] path[j] != ':') && !a.contains(':') {
        assert forall|i: int| 0 <= i < r.len() implies r[i] != ':' by {
            if i < 2 {
            } else if i < 2 + a.len() {
                assert(r[i] == a[i - 2]);
            } else if i < 3 + a.len() {
            } else if i < 3 + a.len() + k {
                assert(r[i] == path[i - 3 - a.len()]);
            } else if i == 3 + a.len() + k {
            } else {
                assert(r[i] == path[i - 3 - a.len() + 0]);
            }
        }
    }
}

/// Without a custom share, a path with no `:` is reached as it is after the
/// share prefix `\\address\`.
pub proof fn law_admin_share_form_plain(computer: Computer, path: Seq<char>)
    requires
        !path.contains(':'),
    ensures
        share_form(computer, None, path) == "\\\\"@ + computer.address@ + "\\"@ + path,
{
    reveal_strlit(":");
    assert(":"@ =~= seq![':']);
    crate::text::lemma_replaced_first_absent(path, ':', "$"@);
}

} // verus!
