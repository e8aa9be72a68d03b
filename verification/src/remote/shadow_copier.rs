//! Copying locked files from a volume shadow copy of the `C:` drive.
//!
//! A shadow copy is made with PowerShell, found in the listing of
//! `vssadmin list shadows`, and linked into a directory; files under `C:\`
//! are then copied from under that link, which is removed at the end.

use vstd::prelude::*;
use crate::text::{views, owned, concat2, push_str, has_prefix, has_infix, contains, starts_with, chars_of, string_of_range, replace_all, replaced};
use crate::winpath::{path_joined, join_path};
use crate::remote::connector::{Connector, Invocation, Plan, uuid_text, new_uuid, acquire_perms_command, release_perms_command, permission_command};
use crate::remote::copier::RemoteFileCopier;

verus! {

/// The line of a `vssadmin list shadows` listing that names a shadow copy volume.
pub open spec fn names_volume(line: Seq<char>) -> bool {
    has_infix(line, "Shadow Copy Volume"@)
}

/// The position of the first `:` of `s`, if it has one.
pub open spec fn first_colon_at(s: Seq<char>) -> Option<int>
    decreases s.len(),
{
    if s.len() == 0 {
        None
    } else if s[0] == ':' {
        Some(0)
    } else {
        match first_colon_at(s.drop_first()) {
            Some(k) => Some(k + 1),
            None => None,
        }
    }
}

/// Where the volume name starts in a volume line: two characters after its
/// first `:` (after `: `), or at position 2 when it has none.
pub open spec fn volume_start(line: Seq<char>) -> int {
    match first_colon_at(line) {
        Some(k) => k + 2,
        None => 2,
    }
}

/// The index of the last line of `lines` that names a volume, if any.
pub open spec fn last_volume_line(lines: Seq<Seq<char>>) -> Option<int>
    decreases lines.len(),
{
    if lines.len() == 0 {
        None
    } else if names_volume(lines.last()) {
        Some(lines.len() - 1)
    } else {
        last_volume_line(lines.drop_last())
    }
}

/// What a shadow listing says of the shadow copy made last.
pub enum VolumeLookup {
    /// The volume's name.
    Found(String),
    /// No line names a volume.
    Missing,
    /// The last volume line ends right after its `:`, so no name can be cut
    /// from it: reading it is an error.
    Malformed,
}

/// The content of a `VolumeLookup`.
pub enum VolumeModel {
    Found(Seq<char>),
    Missing,
    Malformed,
}

impl View for VolumeLookup {
    type V = VolumeModel;

    open spec fn view(&self) -> VolumeModel {
        match self {
            VolumeLookup::Found(s) => VolumeModel::Found(s@),
            VolumeLookup::Missing => VolumeModel::Missing,
            VolumeLookup::Malformed => VolumeModel::Malformed,
        }
    }
}

/// The volume of the shadow copy made last: on the last line of the listing
/// that names a volume, what follows `: `.
pub open spec fn volume_model(lines: Seq<Seq<char>>) -> VolumeModel {
    match last_volume_line(lines) {
        None => VolumeModel::Missing,
        Some(i) => if volume_start(lines[i]) <= lines[i].len() {
            VolumeModel::Found(lines[i].skip(volume_start(lines[i])))
        } else {
            VolumeModel::Malformed
        },
    }
}

proof fn lemma_first_colon_at(s: Seq<char>, k: int)
    requires
        0 <= k <= s.len(),
        forall|j: int| 0 <= j < k ==> #[trigger] s[j] != ':',
    ensures
        k < s.len() && s[k] == ':' ==> first_colon_at(s) == Some(k),
        k == s.len() ==> first_colon_at(s) == None::<int>,
    decreases k,
{
    if k > 0 {
        assert forall|j: int| 0 <= j < k - 1 implies #[trigger] s.drop_first()[j] != ':' by {
            assert(s.drop_first()[j] == s[j + 1]);
        }
        if k < s.len() {
            assert(s.drop_first()[k - 1] == s[k]);
        }
        lemma_first_colon_at(s.drop_first(), k - 1);
    }
}

/// The volume of the shadow copy made last, from the lines of a
/// `vssadmin list shadows` report (see `volume_model`).
pub fn shadow_volume(lines: &Vec<String>) -> (res: VolumeLookup)
    ensures
        res@ == volume_model(views(lines@)),
{
    let ghost ls = views(lines@);
    let mut i = lines.len();
    assert(ls.take(i as int) =~= ls);
    while i > 0 && !contains(lines[i - 1].as_str(), "Shadow Copy Volume")
        invariant
            i <= lines.len(),
            ls == views(lines@),
            last_volume_line(ls.take(i as int)) == last_volume_line(ls),
        decreases i,
    {
        assert(ls.take(i as int).drop_last() =~= ls.take(i - 1));
        assert(ls.take(i as int).last() == lines@[i - 1]@);
        i = i - 1;
    }
    if i == 0 {
        assert(ls.take(0) =~= Seq::<Seq<char>>::empty());
        return VolumeLookup::Missing;
    }
    assert(ls.take(i as int).last() == lines@[i - 1]@);
    assert(last_volume_line(ls.take(i as int)) == Some(i - 1));
    let line = &lines[i - 1];
    let cs = chars_of(line.as_str());
    let mut k: usize = 0;
    while k < cs.len() && cs[k] != ':'
        invariant
            cs@ == line@,
            k <= cs.len(),
            forall|j: int| 0 <= j < k ==> #[trigger] line@[j] != ':',
        decreases cs.len() - k,
    {
        k = k + 1;
    }
    proof {
        lemma_first_colon_at(line@, k as int);
    }
    let room = cs.len() - k;
    if (k == cs.len() && cs.len() < 2) || (k < cs.len() && room < 2) {
        VolumeLookup::Malformed
    } else {
        let start = if k == cs.len() { 2 } else { k + 2 };
        assert(line@.subrange(start as int, cs.len() as int) =~= line@.skip(start as int));
        VolumeLookup::Found(string_of_range(&cs, start, cs.len()))
    }
}

/// The command that makes a shadow copy of the `C:` drive; `drive` is the
/// drive argument as written in the PowerShell call.
pub open spec fn create_shadow_args(drive_argument: Seq<char>) -> Seq<Seq<char>> {
    seq![
        "cmd.exe"@,
        "/c"@,
        "powershell.exe"@,
        "-Command"@,
        "(gwmi -list win32_shadowcopy).Create('"@ + drive_argument + "','ClientAccessible')"@,
    ]
}

/// The command that makes a shadow copy of `C:\`.
pub fn create_shadow_command() -> (res: Vec<String>)
    ensures
        views(res@) == create_shadow_args("C:\\"@),
{
    let mut res: Vec<String> = Vec::new();
    push_str(&mut res, "cmd.exe");
    push_str(&mut res, "/c");
    push_str(&mut res, "powershell.exe");
    push_str(&mut res, "-Command");
    let call = concat2("(gwmi -list win32_shadowcopy).Create('", "C:\\");
    let call = concat2(call.as_str(), "','ClientAccessible')");
    push_str(&mut res, call.as_str());
    assert(views(res@) =~= create_shadow_args("C:\\"@));
    res
}

/// The command that lists the shadow copies.
pub fn list_shadows_command() -> (res: Vec<String>)
    ensures
        views(res@) == seq!["cmd.exe"@, "/c"@, "vssadmin"@, "list"@, "shadows"@],
{
    let mut res: Vec<String> = Vec::new();
    push_str(&mut res, "cmd.exe");
    push_str(&mut res, "/c");
    push_str(&mut res, "vssadmin");
    push_str(&mut res, "list");
    push_str(&mut res, "shadows");
    res
}

/// The directory link at which a shadow volume is reached: a name made of
/// the UUID `id` without its `-`, in `dir`.
pub open spec fn shadow_link(dir: Seq<char>, id: Seq<char>) -> Seq<char> {
    path_joined(dir, replaced(id, "-"@, ""@))
}

/// The directory link of a shadow volume for the UUID `id` (see `shadow_link`).
pub fn shadow_link_with(dir: &str, id: &str) -> (res: String)
    ensures
        res@ == shadow_link(dir@, id@),
{
    proof {
        reveal_strlit("-");
    }
    let name = replace_all(id, "-", "");
    join_path(dir, name.as_str())
}

/// A fresh directory link in `dir` for a shadow volume, named with a random UUID.
pub fn new_shadow_link(dir: &str) -> (res: String)
    ensures
        exists|id: Seq<char>| uuid_text(id) && res@ == #[trigger] shadow_link(dir@, id),
{
    let id = new_uuid();
    let res = shadow_link_with(dir, id.as_str());
    assert(uuid_text(id@) && res@ == shadow_link(dir@, id@));
    res
}

/// The command that links `link` to the directory `target`.
pub fn link_command(link: &str, target: &str) -> (res: Vec<String>)
    ensures
        views(res@) == seq!["cmd.exe"@, "/c"@, "mklink"@, "/d"@, link@, target@],
{
    let mut res: Vec<String> = Vec::new();
    push_str(&mut res, "cmd.exe");
    push_str(&mut res, "/c");
    push_str(&mut res, "mklink");
    push_str(&mut res, "/d");
    push_str(&mut res, link);
    push_str(&mut res, target);
    res
}

/// The command that removes the directory link `link`.
pub fn unlink_command(link: &str) -> (res: Vec<String>)
    ensures
        views(res@) == seq!["cmd.exe"@, "/c"@, "rmdir"@, link@],
{
    let mut res: Vec<String> = Vec::new();
    push_str(&mut res, "cmd.exe");
    push_str(&mut res, "/c");
    push_str(&mut res, "rmdir");
    push_str(&mut res, link);
    res
}

/// Where a remote path is read from the shadow copy linked at `shadow_drive`:
/// a path under `C:\` is taken under the link; any other stays as it is.
pub open spec fn shadow_path(shadow_drive: Seq<char>, source: Seq<char>) -> Seq<char> {
    if has_prefix(source, "C:\\"@) {
        path_joined(shadow_drive, source.skip(3))
    } else {
        source
    }
}

/// Copying from a shadow copy of the remote `C:` drive, linked at `shadow_drive`.
pub struct ShadowCopier<'a, C: Connector + RemoteFileCopier> {
    pub connector_impl: &'a C,
    pub shadow_drive: String,
}

impl<'a, C: Connector + RemoteFileCopier> ShadowCopier<'a, C> {
    /// A copier through `connector_impl` reading from the shadow copy linked at `shadow_drive`.
    pub fn new(connector_impl: &'a C, shadow_drive: String) -> (res: Self)
        ensures
            res.connector_impl == connector_impl,
            res.shadow_drive == shadow_drive,
    {
        ShadowCopier { connector_impl, shadow_drive }
    }

    /// Where the remote `source` is read from (see `shadow_path`).
    pub fn shadow_source(&self, source: &str) -> (res: String)
        ensures
            res@ == shadow_path(self.shadow_drive@, source@),
    {
        if starts_with(source, "C:\\") {
            let cs = chars_of(source);
            proof {
                reveal_strlit("C:\\");
            }
            let rest = string_of_range(&cs, 3, cs.len());
            assert(source@.subrange(3, cs.len() as int) =~= source@.skip(3));
            join_path(self.shadow_drive.as_str(), rest.as_str())
        } else {
            owned(source)
        }
    }
}

/// A phase of making and linking a shadow copy.
#[derive(PartialEq, Eq, Structural, Clone, Copy)]
pub enum ShadowPhase {
    /// Make the shadow copy.
    Create,
    /// List the shadow copies into a report.
    List,
    /// Read the report and find the newest volume in it (see `shadow_volume`).
    Read,
    /// Give the user full control of the link's path, then pause.
    Grant,
    /// Link the volume at the link's path.
    Link,
    /// Done: files are read from under the link.
    Linked,
    /// Done: no shadow copy could be made or linked; files are read from `C:\`.
    Unavailable,
    /// The newest volume line ends right after its `:`: reading it is an error.
    Malformed,
}

/// What came of a phase: success, failure, or (reading) a malformed report.
#[derive(PartialEq, Eq, Structural, Clone, Copy)]
pub enum StepOutcome {
    Succeeded,
    Failed,
    Malformed,
}

/// The phase that follows `phase` given its outcome: each failure of
/// making, listing, finding or linking leaves the live drive; a failed grant
/// is only warned of; the done phases stay.
pub open spec fn shadow_copy_next(phase: ShadowPhase, outcome: StepOutcome) -> ShadowPhase {
    match phase {
        ShadowPhase::Create => if outcome == StepOutcome::Succeeded { ShadowPhase::List } else { ShadowPhase::Unavailable },
        ShadowPhase::List => if outcome == StepOutcome::Succeeded { ShadowPhase::Read } else { ShadowPhase::Unavailable },
        ShadowPhase::Read => match outcome {
            StepOutcome::Succeeded => ShadowPhase::Grant,
            StepOutcome::Failed => ShadowPhase::Unavailable,
            StepOutcome::Malformed => ShadowPhase::Malformed,
        },
        ShadowPhase::Grant => ShadowPhase::Link,
        ShadowPhase::Link => if outcome == StepOutcome::Succeeded { ShadowPhase::Linked } else { ShadowPhase::Unavailable },
        p => p,
    }
}

/// The phase that follows `phase` (see `shadow_copy_next`).
pub fn shadow_copy_step(phase: ShadowPhase, outcome: StepOutcome) -> (res: ShadowPhase)
    ensures
        res == shadow_copy_next(phase, outcome),
{
    match phase {
        ShadowPhase::Create => if outcome == StepOutcome::Succeeded { ShadowPhase::List } else { ShadowPhase::Unavailable },
        ShadowPhase::List => if outcome == StepOutcome::Succeeded { ShadowPhase::Read } else { ShadowPhase::Unavailable },
        ShadowPhase::Read => match outcome {
            StepOutcome::Succeeded => ShadowPhase::Grant,
            StepOutcome::Failed => ShadowPhase::Unavailable,
            StepOutcome::Malformed => ShadowPhase::Malformed,
        },
        ShadowPhase::Grant => ShadowPhase::Link,
        ShadowPhase::Link => if outcome == StepOutcome::Succeeded { ShadowPhase::Linked } else { ShadowPhase::Unavailable },
        p => p,
    }
}

/// Whether a phase ends the making of a shadow copy.
pub open spec fn shadow_phase_done(phase: ShadowPhase) -> bool {
    phase == ShadowPhase::Linked || phase == ShadowPhase::Unavailable || phase == ShadowPhase::Malformed
}

/// The process that a running phase starts through `connector`, and the
/// seconds to pause after it: making (timeout 20 s), listing into `report`
/// (timeout 20 s), granting the user full control of `link` (no timeout,
/// then a pause of 5 s), linking `link` to `volume` followed by `\`
/// (timeout 20 s); all elevated. Reading and the done phases start none.
pub open spec fn shadow_phase_plan<C: Connector>(
    connector: C,
    phase: ShadowPhase,
    report: Seq<char>,
    link: Seq<char>,
    volume: Seq<char>,
) -> Option<(Plan, u64)> {
    match phase {
        ShadowPhase::Create => Some((connector.run_plan_view(create_shadow_args("C:\\"@), None, true, Some(20)), 0)),
        ShadowPhase::List => Some((
            connector.run_plan_view(seq!["cmd.exe"@, "/c"@, "vssadmin"@, "list"@, "shadows"@], Some(report), true, Some(20)),
            0,
        )),
        ShadowPhase::Grant => Some((
            connector.run_plan_view(permission_command(link, "/grant"@, connector.target().username@), None, true, None),
            5,
        )),
        ShadowPhase::Link => Some((
            connector.run_plan_view(seq!["cmd.exe"@, "/c"@, "mklink"@, "/d"@, link, volume + "\\"@], None, true, Some(20)),
            0,
        )),
        _ => None,
    }
}

/// The process of a running phase and the pause after it (see `shadow_phase_plan`).
pub fn shadow_step_plan<C: Connector>(
    connector: &C,
    phase: ShadowPhase,
    report: &str,
    link: &str,
    volume: &str,
) -> (res: Option<(Invocation, u64)>)
    ensures
        match shadow_phase_plan(*connector, phase, report@, link@, volume@) {
            Some((p, pause)) => res matches Some((i, q)) && i@ == p && q == pause,
            None => res is None,
        },
{
    match phase {
        ShadowPhase::Create => Some((connector.run_plan(create_shadow_command(), None, true, Some(20)), 0)),
        ShadowPhase::List => Some((connector.run_plan(list_shadows_command(), Some(report), true, Some(20)), 0)),
        ShadowPhase::Grant => {
            let username = connector.computer().username.as_str();
            Some((connector.run_plan(acquire_perms_command(username, link), None, true, None), 5))
        },
        ShadowPhase::Link => {
            let target = concat2(volume, "\\");
            Some((connector.run_plan(link_command(link, target.as_str()), None, true, Some(20)), 0))
        },
        _ => None,
    }
}

/// The drive that files are read from once the making is done: the link
/// when it was linked, else `C:\`; none while it runs or when it failed
/// on a malformed report.
pub open spec fn shadow_drive_of(phase: ShadowPhase, link: Seq<char>) -> Option<Seq<char>> {
    match phase {
        ShadowPhase::Linked => Some(link),
        ShadowPhase::Unavailable => Some("C:\\"@),
        _ => None,
    }
}

/// The drive that files are read from (see `shadow_drive_of`).
pub fn shadow_drive(phase: ShadowPhase, link: &str) -> (res: Option<String>)
    ensures
        match shadow_drive_of(phase, link@) {
            Some(d) => res matches Some(r) && r@ == d,
            None => res is None,
        },
{
    match phase {
        ShadowPhase::Linked => Some(owned(link)),
        ShadowPhase::Unavailable => Some(owned("C:\\")),
        _ => None,
    }
}

/// The removal of a shadow copy's link: after a pause of 5 s, deny the user
/// full control of `link` again (no timeout), then remove the link (timeout
/// 1 s); both elevated.
pub fn shadow_delete_plan<C: Connector>(connector: &C, link: &str) -> (res: (u64, Vec<Invocation>))
    ensures
        res.0 == 5,
        res.1@.len() == 2,
        res.1@[0]@ == connector.run_plan_view(permission_command(link@, "/deny"@, connector.target().username@), None, true, None),
        res.1@[1]@ == connector.run_plan_view(seq!["cmd.exe"@, "/c"@, "rmdir"@, link@], None, true, Some(1)),
{
    let username = connector.computer().username.as_str();
    let mut steps: Vec<Invocation> = Vec::new();
    steps.push(connector.run_plan(release_perms_command(username, link), None, true, None));
    steps.push(connector.run_plan(unlink_command(link), None, true, Some(1)));
    (5, steps)
}

/// Making a shadow copy moves in the order create, list, read, grant, link:
/// the link is used only after linking succeeded, linking follows the grant,
/// and the grant follows a volume found in the listing; done phases stay.
pub proof fn law_shadow_link_follows_grant(phase: ShadowPhase, outcome: StepOutcome)
    ensures
        shadow_copy_next(phase, outcome) == ShadowPhase::Linked ==> (phase == ShadowPhase::Link
            && outcome == StepOutcome::Succeeded) || phase == ShadowPhase::Linked,
        shadow_copy_next(phase, outcome) == ShadowPhase::Link ==> phase == ShadowPhase::Grant || phase == ShadowPhase::Link,
        shadow_copy_next(phase, outcome) == ShadowPhase::Grant ==> phase == ShadowPhase::Read,
        shadow_phase_done(phase) ==> shadow_copy_next(phase, outcome) == phase,
{
}

} // verus!
