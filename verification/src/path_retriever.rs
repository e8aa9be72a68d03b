//! Selecting the files that KAPE targets name, while walking a file system.
//!
//! A target's path becomes a pattern of lower-case components, each matched
//! exactly, as a wildcard, or not at all (`*` and `%user%`); its file mask
//! matches the file name.

use vstd::prelude::*;
use crate::text::{views, owned, concat2, has_infix, contains, same_text, to_lowercase, unicode_lowered, to_uppercase, unicode_uppered};
use crate::winpath::{components, path_components};
use crate::remote::copier::{glob, wildcard_matches};
use crate::kape_handler::{TKapeEntry, JSONTarget};

verus! {

/// The options of the file selection: where the list goes, and the JSON
/// file of converted KAPE targets to read.
pub struct Opts {
    pub output: Option<String>,
    pub input: String,
}

/// How one component of a path is matched.
pub enum MatchType {
    /// Exactly this text.
    ExactMatch(String),
    /// This wildcard pattern.
    WildcardMatch(String),
    /// Anything.
    Anything,
}

/// The content of a `MatchType`.
pub enum MatchModel {
    Exact(Seq<char>),
    Wildcard(Seq<char>),
    Anything,
}

impl View for MatchType {
    type V = MatchModel;

    open spec fn view(&self) -> MatchModel {
        match self {
            MatchType::ExactMatch(s) => MatchModel::Exact(s@),
            MatchType::WildcardMatch(s) => MatchModel::Wildcard(s@),
            MatchType::Anything => MatchModel::Anything,
        }
    }
}

/// How a lower-case component of a target path is matched: `%user%` and `*`
/// match anything, another text with a `*` is a wildcard, the rest is exact.
pub open spec fn match_of(component: Seq<char>) -> MatchModel {
    if component == "%user%"@ || component == "*"@ {
        MatchModel::Anything
    } else if has_infix(component, "*"@) {
        MatchModel::Wildcard(component)
    } else {
        MatchModel::Exact(component)
    }
}

/// Whether a component of a walked path matches.
pub open spec fn component_matches(m: MatchModel, s: Seq<char>) -> bool {
    match m {
        MatchModel::Anything => true,
        MatchModel::Exact(x) => x == s,
        MatchModel::Wildcard(x) => glob(x, s),
    }
}

/// A pattern that selects files: per-component matches, a file mask, and
/// whether files in sub-directories of a match are selected too.
pub struct Pattern {
    pub components: Vec<MatchType>,
    pub file_mask: String,
    pub recursive: bool,
}

/// The matches of a pattern's components.
pub open spec fn match_views(v: Seq<MatchType>) -> Seq<MatchModel> {
    v.map_values(|m: MatchType| m@)
}

/// Whether the first components of `path` match all of `ms`.
pub open spec fn prefix_matches(ms: Seq<MatchModel>, path: Seq<Seq<char>>) -> bool {
    forall|i: int| 0 <= i < ms.len() ==> component_matches(#[trigger] ms[i], path[i])
}

/// Whether a pattern may select files under the directory `path` (its
/// lower-case components): the pattern's components match its first ones,
/// and, unless the pattern is recursive, it has no more.
pub open spec fn parent_matches_spec(ms: Seq<MatchModel>, recursive: bool, path: Seq<Seq<char>>) -> bool {
    &&& path.len() >= ms.len()
    &&& (recursive || path.len() == ms.len())
    &&& prefix_matches(ms, path)
}

/// Whether a pattern selects the file `path` (its lower-case components):
/// the file name matches the mask, the pattern's components match the first
/// ones, and, unless the pattern is recursive, the file lies directly in the
/// matched directory.
pub open spec fn matches_spec(ms: Seq<MatchModel>, mask: Seq<char>, recursive: bool, path: Seq<Seq<char>>) -> bool {
    &&& path.len() > ms.len()
    &&& (recursive || path.len() - 1 == ms.len())
    &&& glob(mask, path.last())
    &&& prefix_matches(ms, path)
}

fn match_type(component: String) -> (res: MatchType)
    ensures
        res@ == match_of(component@),
{
    if same_text(component.as_str(), "%user%") || same_text(component.as_str(), "*") {
        MatchType::Anything
    } else if contains(component.as_str(), "*") {
        MatchType::WildcardMatch(component)
    } else {
        MatchType::ExactMatch(component)
    }
}

fn component_matches_exec(m: &MatchType, s: &str) -> (res: bool)
    ensures
        res == component_matches(m@, s@),
{
    match m {
        MatchType::Anything => true,
        MatchType::ExactMatch(x) => same_text(x.as_str(), s),
        MatchType::WildcardMatch(x) => wildcard_matches(x.as_str(), s),
    }
}

impl Pattern {
    /// The pattern of a target: the components of its path in lower case
    /// (see `match_of`), its file mask (`*` when empty), and whether it is recursive.
    pub fn new(path: &str, file_mask: &str, recursive: bool) -> (res: Pattern)
        ensures
            match_views(res.components@) == components(unicode_lowered(path@)).map_values(|c: Seq<char>| match_of(c)),
            res.file_mask@ == (if file_mask@.len() == 0 { "*"@ } else { file_mask@ }),
            res.recursive == recursive,
    {
        let lowered = to_lowercase(path);
        let parts = path_components(lowered.as_str());
        let ghost ps = views(parts@);
        let mut comps: Vec<MatchType> = Vec::new();
        let mut i: usize = 0;
        while i < parts.len()
            invariant
                i <= parts.len(),
                ps == views(parts@),
                ps == components(unicode_lowered(path@)),
                match_views(comps@) == ps.take(i as int).map_values(|c: Seq<char>| match_of(c)),
            decreases parts.len() - i,
        {
            let m = match_type(parts[i].clone());
            let ghost before = comps@;
            let ghost mv = m@;
            comps.push(m);
            assert(match_views(comps@) =~= match_views(before).push(mv));
            assert(ps.take(i + 1).map_values(|c: Seq<char>| match_of(c))
                =~= ps.take(i as int).map_values(|c: Seq<char>| match_of(c)).push(match_of(ps[i as int])));
            i = i + 1;
        }
        assert(ps.take(parts.len() as int) =~= ps);
        let mask = if file_mask.is_empty() { owned("*") } else { owned(file_mask) };
        Pattern { components: comps, file_mask: mask, recursive }
    }

    fn prefix_matches_exec(&self, path: &Vec<String>) -> (res: bool)
        requires
            path@.len() >= self.components@.len(),
        ensures
            res == prefix_matches(match_views(self.components@), views(path@)),
    {
        let mut i: usize = 0;
        while i < self.components.len()
            invariant
                i <= self.components.len(),
                path@.len() >= self.components@.len(),
                forall|k: int| 0 <= k < i ==> component_matches(
                    #[trigger] match_views(self.components@)[k],
                    views(path@)[k],
                ),
            decreases self.components.len() - i,
        {
            if !component_matches_exec(&self.components[i], path[i].as_str()) {
                assert(match_views(self.components@)[i as int] == self.components@[i as int]@);
                assert(views(path@)[i as int] == path@[i as int]@);
                return false;
            }
            assert(match_views(self.components@)[i as int] == self.components@[i as int]@);
            assert(views(path@)[i as int] == path@[i as int]@);
            i = i + 1;
        }
        true
    }

    /// Whether files under the directory `path` may be selected (see `parent_matches_spec`).
    pub fn parent_matches(&self, path: &Vec<String>) -> (res: bool)
        ensures
            res == parent_matches_spec(match_views(self.components@), self.recursive, views(path@)),
    {
        if path.len() < self.components.len() {
            return false;
        }
        if !self.recursive && path.len() != self.components.len() {
            return false;
        }
        self.prefix_matches_exec(path)
    }

    /// Whether the file `path` is selected (see `matches_spec`).
    pub fn matches(&self, path: &Vec<String>) -> (res: bool)
        ensures
            res == matches_spec(match_views(self.components@), self.file_mask@, self.recursive, views(path@)),
    {
        if path.len() <= self.components.len() {
            return false;
        }
        if !self.recursive && path.len() - 1 != self.components.len() {
            return false;
        }
        assert(views(path@).last() == path@[path@.len() - 1]@);
        if !wildcard_matches(self.file_mask.as_str(), path[path.len() - 1].as_str()) {
            return false;
        }
        self.prefix_matches_exec(path)
    }
}

/// The components of a walked path, each in lower case.
pub open spec fn matching_form(path: Seq<char>) -> Seq<Seq<char>> {
    components(path).map_values(|c: Seq<char>| unicode_lowered(c))
}

/// The components of a walked path, each in lower case (see `matching_form`).
pub fn convert_path_for_matching(path: &str) -> (res: Vec<String>)
    ensures
        views(res@) == matching_form(path@),
{
    let parts = path_components(path);
    let ghost ps = views(parts@);
    let mut res: Vec<String> = Vec::new();
    let mut i: usize = 0;
    while i < parts.len()
        invariant
            i <= parts.len(),
            ps == views(parts@),
            ps == components(path@),
            views(res@) == ps.take(i as int).map_values(|c: Seq<char>| unicode_lowered(c)),
        decreases parts.len() - i,
    {
        let low = to_lowercase(parts[i].as_str());
        let ghost before = views(res@);
        res.push(low);
        assert(views(res@) =~= before.push(unicode_lowered(ps[i as int])));
        assert(ps.take(i + 1).map_values(|c: Seq<char>| unicode_lowered(c))
            =~= ps.take(i as int).map_values(|c: Seq<char>| unicode_lowered(c)).push(unicode_lowered(ps[i as int])));
        i = i + 1;
    }
    assert(ps.take(parts.len() as int) =~= ps);
    res
}

/// Whether any of `patterns` may select files under the directory `path`.
pub fn descend_into(patterns: &Vec<Pattern>, path: &Vec<String>) -> (res: bool)
    ensures
        res == exists|i: int| 0 <= i < patterns@.len() && parent_matches_spec(
            match_views(#[trigger] patterns@[i].components@),
            patterns@[i].recursive,
            views(path@),
        ),
{
    let mut i: usize = 0;
    while i < patterns.len()
        invariant
            i <= patterns.len(),
            forall|k: int| 0 <= k < i ==> !parent_matches_spec(
                match_views(#[trigger] patterns@[k].components@),
                patterns@[k].recursive,
                views(path@),
            ),
        decreases patterns.len() - i,
    {
        if patterns[i].parent_matches(path) {
            return true;
        }
        i = i + 1;
    }
    false
}

/// Whether any of `patterns` selects the file `path`.
pub fn selected(patterns: &Vec<Pattern>, path: &Vec<String>) -> (res: bool)
    ensures
        res == exists|i: int| 0 <= i < patterns@.len() && matches_spec(
            match_views(#[trigger] patterns@[i].components@),
            patterns@[i].file_mask@,
            patterns@[i].recursive,
            views(path@),
        ),
{
    let mut i: usize = 0;
    while i < patterns.len()
        invariant
            i <= patterns.len(),
            forall|k: int| 0 <= k < i ==> !matches_spec(
                match_views(#[trigger] patterns@[k].components@),
                patterns@[k].file_mask@,
                patterns@[k].recursive,
                views(path@),
            ),
        decreases patterns.len() - i,
    {
        if patterns[i].matches(path) {
            return true;
        }
        i = i + 1;
    }
    false
}

/// `roots` with `r` added at the end, unless it is there already.
pub open spec fn add_root(roots: Seq<Seq<char>>, r: Seq<char>) -> Seq<Seq<char>> {
    if roots.contains(r) {
        roots
    } else {
        roots.push(r)
    }
}

/// The roots to walk after those of `ms` are added to `roots`: for each
/// exactly matched component, in order, the component in upper case with `\`.
pub open spec fn roots_after(roots: Seq<Seq<char>>, ms: Seq<MatchModel>) -> Seq<Seq<char>>
    decreases ms.len(),
{
    if ms.len() == 0 {
        roots
    } else {
        let prev = roots_after(roots, ms.drop_last());
        match ms.last() {
            MatchModel::Exact(x) => add_root(prev, unicode_uppered(x) + "\\"@),
            _ => prev,
        }
    }
}

/// The roots of a list of patterns, in order, without repetition.
pub open spec fn roots_of(roots: Seq<Seq<char>>, ps: Seq<Seq<MatchModel>>) -> Seq<Seq<char>>
    decreases ps.len(),
{
    if ps.len() == 0 {
        roots
    } else {
        roots_after(roots_of(roots, ps.drop_last()), ps.last())
    }
}

fn push_root(roots: &mut Vec<String>, r: String)
    ensures
        views(final(roots)@) == add_root(views(old(roots)@), r@),
{
    let mut i: usize = 0;
    while i < roots.len()
        invariant
            i <= roots.len(),
            forall|k: int| 0 <= k < i ==> #[trigger] roots@[k]@ != r@,
        decreases roots.len() - i,
    {
        if roots[i] == r {
            assert(views(roots@)[i as int] == r@);
            return;
        }
        i = i + 1;
    }
    proof {
        assert forall|k: int| 0 <= k < views(roots@).len() implies #[trigger] views(roots@)[k] != r@ by {
            assert(views(roots@)[k] == roots@[k]@);
        }
    }
    let ghost before = views(roots@);
    let ghost rv = r@;
    roots.push(r);
    assert(views(roots@) =~= before.push(rv));
}

/// The roots at which the walk starts (see `roots_of`): for each exactly
/// matched component of each pattern, that text in upper case followed by `\`.
pub fn search_roots(patterns: &Vec<Pattern>) -> (res: Vec<String>)
    ensures
        views(res@) == roots_of(Seq::empty(), patterns@.map_values(|p: Pattern| match_views(p.components@))),
{
    let ghost all = patterns@.map_values(|p: Pattern| match_views(p.components@));
    let mut roots: Vec<String> = Vec::new();
    let mut i: usize = 0;
    assert(views(roots@) =~= roots_of(Seq::empty(), all.take(0)));
    while i < patterns.len()
        invariant
            i <= patterns.len(),
            all == patterns@.map_values(|p: Pattern| match_views(p.components@)),
            views(roots@) == roots_of(Seq::empty(), all.take(i as int)),
        decreases patterns.len() - i,
    {
        let comps = &patterns[i].components;
        let ghost ms = match_views(comps@);
        let ghost start = views(roots@);
        let mut j: usize = 0;
        while j < comps.len()
            invariant
                j <= comps.len(),
                ms == match_views(comps@),
                views(roots@) == roots_after(start, ms.take(j as int)),
            decreases comps.len() - j,
        {
            assert(ms.take(j + 1).drop_last() =~= ms.take(j as int));
            assert(ms.take(j + 1).last() == comps@[j as int]@);
            match &comps[j] {
                MatchType::ExactMatch(x) => {
                    let up = to_uppercase(x.as_str());
                    let r = concat2(up.as_str(), "\\");
                    push_root(&mut roots, r);
                },
                _ => {},
            }
            j = j + 1;
        }
        assert(ms.take(comps.len() as int) =~= ms);
        assert(all.take(i + 1).drop_last() =~= all.take(i as int));
        assert(all.take(i + 1).last() == ms);
        i = i + 1;
    }
    assert(all.take(patterns.len() as int) =~= all);
    roots
}

/// The content of a pattern: its matches, file mask, and whether it is recursive.
pub open spec fn pattern_view(p: Pattern) -> (Seq<MatchModel>, Seq<char>, bool) {
    (match_views(p.components@), p.file_mask@, p.recursive)
}

/// The pattern of a KAPE target (see `Pattern::new`).
pub open spec fn pattern_of_target(t: JSONTarget) -> (Seq<MatchModel>, Seq<char>, bool) {
    (
        components(unicode_lowered(t.path@)).map_values(|c: Seq<char>| match_of(c)),
        if t.file_mask@.len() == 0 { "*"@ } else { t.file_mask@ },
        t.recursive,
    )
}

/// The patterns of all targets of a list of converted target files, in order.
pub open spec fn target_patterns(entries: Seq<TKapeEntry>) -> Seq<(Seq<MatchModel>, Seq<char>, bool)>
    decreases entries.len(),
{
    if entries.len() == 0 {
        Seq::empty()
    } else {
        target_patterns(entries.drop_last()) + entries.last().targets@.map_values(|t: JSONTarget| pattern_of_target(t))
    }
}

/// The patterns of the targets of converted KAPE target files, in order
/// (see `target_patterns`).
pub fn patterns_of(entries: &Vec<TKapeEntry>) -> (res: Vec<Pattern>)
    ensures
        res@.map_values(|p: Pattern| pattern_view(p)) == target_patterns(entries@),
{
    let mut res: Vec<Pattern> = Vec::new();
    let mut i: usize = 0;
    while i < entries.len()
        invariant
            i <= entries.len(),
            res@.map_values(|p: Pattern| pattern_view(p)) == target_patterns(entries@.take(i as int)),
        decreases entries.len() - i,
    {
        let targets = &entries[i].targets;
        let ghost base = res@.map_values(|p: Pattern| pattern_view(p));
        let mut j: usize = 0;
        while j < targets.len()
            invariant
                j <= targets.len(),
                res@.map_values(|p: Pattern| pattern_view(p))
                    == base + targets@.take(j as int).map_values(|t: JSONTarget| pattern_of_target(t)),
            decreases targets.len() - j,
        {
            let t = &targets[j];
            let p = Pattern::new(t.path.as_str(), t.file_mask.as_str(), t.recursive);
            let ghost pv = pattern_view(p);
            assert(pv == pattern_of_target(*t));
            let ghost before = res@;
            res.push(p);
            assert(res@.map_values(|p: Pattern| pattern_view(p)) =~= before.map_values(|p: Pattern| pattern_view(p)).push(pv));
            assert(targets@.take(j + 1).map_values(|t: JSONTarget| pattern_of_target(t))
                =~= targets@.take(j as int).map_values(|t: JSONTarget| pattern_of_target(t)).push(pattern_of_target(targets@[j as int])));
            j = j + 1;
        }
        assert(targets@.take(targets.len() as int) =~= targets@);
        assert(entries@.take(i + 1).drop_last() =~= entries@.take(i as int));
        assert(entries@.take(i + 1).last() == entries@[i as int]);
        i = i + 1;
    }
    assert(entries@.take(entries.len() as int) =~= entries@);
    res
}

proof fn lemma_roots_after_distinct(roots: Seq<Seq<char>>, ms: Seq<MatchModel>)
    requires
        roots.no_duplicates(),
    ensures
        roots_after(roots, ms).no_duplicates(),
    decreases ms.len(),
{
    if ms.len() > 0 {
        lemma_roots_after_distinct(roots, ms.drop_last());
        let prev = roots_after(roots, ms.drop_last());
        match ms.last() {
            MatchModel::Exact(x) => {
                let r = unicode_uppered(x) + "\\"@;
                if !prev.contains(r) {
                    assert forall|i: int, j: int| 0 <= i < j < prev.push(r).len() implies prev.push(r)[i] != prev.push(r)[j] by {
                        if j == prev.len() {
                            assert(prev.push(r)[i] == prev[i]);
                        } else {
                            assert(prev.push(r)[i] == prev[i]);
                            assert(prev.push(r)[j] == prev[j]);
                        }
                    }
                }
            },
            _ => {},
        }
    }
}

/// The roots at which the walk starts never repeat, so no directory tree is
/// walked twice from the top.
pub proof fn law_search_roots_are_distinct(ps: Seq<Seq<MatchModel>>)
    ensures
        roots_of(Seq::empty(), ps).no_duplicates(),
    decreases ps.len(),
{
    if ps.len() > 0 {
        law_search_roots_are_distinct(ps.drop_last());
        lemma_roots_after_distinct(roots_of(Seq::empty(), ps.drop_last()), ps.last());
    }
}

/// A file that a non-recursive pattern selects is also selected by the
/// recursive pattern of the same path and mask; and the directory of a
/// selected file (the path without its last component) is one the pattern
/// may select files under, so the walk reaches it.
pub proof fn law_file_match_implies_parent_match(
    ms: Seq<MatchModel>,
    mask: Seq<char>,
    recursive: bool,
    path: Seq<Seq<char>>,
)
    ensures
        matches_spec(ms, mask, false, path) ==> matches_spec(ms, mask, true, path),
        matches_spec(ms, mask, recursive, path) ==> parent_matches_spec(ms, recursive, path.drop_last()),
{
    if matches_spec(ms, mask, recursive, path) {
        assert forall|i: int| 0 <= i < ms.len() implies component_matches(#[trigger] ms[i], path.drop_last()[i]) by {
            assert(path.drop_last()[i] == path[i]);
        }
    }
}

/// The recursive flags of the targets of converted target files, in order.
pub open spec fn target_flags(entries: Seq<TKapeEntry>) -> Seq<bool>
    decreases entries.len(),
{
    if entries.len() == 0 {
        Seq::empty()
    } else {
        target_flags(entries.drop_last()) + entries.last().targets@.map_values(|t: JSONTarget| t.recursive)
    }
}

/// Every pattern keeps its target's recursive flag: the patterns of
/// converted target files are as many as their targets, and in order each
/// is recursive exactly when its target is.
pub proof fn law_patterns_keep_recursive_flags(entries: Seq<TKapeEntry>)
    ensures
        target_patterns(entries).len() == target_flags(entries).len(),
        forall|k: int| 0 <= k < target_flags(entries).len() ==> (#[trigger] target_patterns(entries)[k]).2 == target_flags(entries)[k],
    decreases entries.len(),
{
    if entries.len() > 0 {
        law_patterns_keep_recursive_flags(entries.drop_last());
        let a = target_patterns(entries.drop_last());
        let b = entries.last().targets@.map_values(|t: JSONTarget| pattern_of_target(t));
        let fa = target_flags(entries.drop_last());
        let fb = entries.last().targets@.map_values(|t: JSONTarget| t.recursive);
        assert forall|k: int| 0 <= k < target_flags(entries).len() implies (#[trigger] target_patterns(entries)[k]).2 == target_flags(entries)[k] by {
            if k < a.len() {
                assert(target_patterns(entries)[k] == a[k]);
                assert(target_flags(entries)[k] == fa[k]);
            } else {
                assert(target_patterns(entries)[k] == b[k - a.len()]);
                assert(target_flags(entries)[k] == fb[k - a.len()]);
            }
        }
    }
}

} // verus!
