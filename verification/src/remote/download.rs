//! Fetching a file from a remote computer again: whole, or part by part when
//! it is a split archive.

use vstd::prelude::*;
use crate::text::{concat2, parse_u32, parsed_u32, has_suffix, ends_with, chars_of, string_of_range};
use crate::winpath::{file_name_of, extension_of, stem_of, parent_part, path_joined, ext_dot, file_name, ext_dot_exec, parent_of, join_path};
use crate::remote::utils::{part_name, path_to_part};
use crate::remote::copier::{RemoteFileCopier, plans};
use crate::remote::connector::Invocation;

verus! {

/// What follows a fetch of one part of a split archive.
#[derive(PartialEq, Eq, Structural, Clone, Copy)]
pub enum SplitStep {
    /// The part arrived: pause, delete it on the remote side, and fetch the next part.
    Next,
    /// Nothing arrived: pause longer, then fetch the same part again.
    Retry,
    /// Nothing arrived for the second time in a row: the download is over.
    Stop,
}

/// The seconds to pause after a fetch, before the next step.
pub open spec fn step_pause(step: SplitStep) -> u64 {
    match step {
        SplitStep::Next => 10,
        SplitStep::Retry => 40,
        SplitStep::Stop => 0,
    }
}

/// The seconds to pause after a fetch (see `step_pause`).
pub fn pause_secs(step: SplitStep) -> (res: u64)
    ensures
        res == step_pause(step),
{
    match step {
        SplitStep::Next => 10,
        SplitStep::Retry => 40,
        SplitStep::Stop => 0,
    }
}

/// The next part to fetch, the count of empty fetches in a row, and the
/// step, after a fetch of part `part` that brought data or not.
pub open spec fn split_next(part: nat, failures: nat, got_data: bool) -> (nat, nat, SplitStep) {
    if got_data {
        (part + 1, 0, SplitStep::Next)
    } else if failures + 1 >= 2 {
        (part, failures + 1, SplitStep::Stop)
    } else {
        (part, failures + 1, SplitStep::Retry)
    }
}

/// The part-by-part download of a split archive.
pub struct SplitDownload {
    /// The archive's path without the part suffix.
    pub archive: String,
    /// The part to fetch next.
    pub part: usize,
    /// How many fetches in a row brought nothing.
    pub failures: u32,
}

impl SplitDownload {
    /// A download of `archive` that starts with part `first_part`.
    pub fn new(archive: String, first_part: usize) -> (res: SplitDownload)
        ensures
            res.archive@ == archive@,
            res.part == first_part,
            res.failures == 0,
    {
        SplitDownload { archive, part: first_part, failures: 0 }
    }

    /// The remote path of the part to fetch next.
    pub fn part_path(&self) -> (res: String)
        ensures
            res@ == part_name(self.archive@, self.part as nat),
    {
        path_to_part(self.archive.as_str(), self.part)
    }

    /// Records the outcome of a fetch of the current part (see `split_next`).
    pub fn after_fetch(&mut self, got_data: bool) -> (res: SplitStep)
        requires
            old(self).failures < 2,
            old(self).part < usize::MAX,
        ensures
            (final(self).part as nat, final(self).failures as nat, res)
                == split_next(old(self).part as nat, old(self).failures as nat, got_data),
            final(self).archive == old(self).archive,
    {
        if got_data {
            self.part = self.part + 1;
            self.failures = 0;
            SplitStep::Next
        } else {
            self.failures = self.failures + 1;
            if self.failures >= 2 {
                SplitStep::Stop
            } else {
                SplitStep::Retry
            }
        }
    }
}

/// Two empty fetches in a row end a split download, and one does not: from
/// any state before the end, a first empty fetch asks to retry the same part
/// unless one had failed just before.
pub proof fn law_two_empty_fetches_stop(part: nat)
    ensures
        split_next(part, 0, false) == (part, 1nat, SplitStep::Retry),
        split_next(part, 1, false).2 == SplitStep::Stop,
        split_next(split_next(part, 0, false).0, split_next(part, 0, false).1, false).2 == SplitStep::Stop,
{
}

/// A fetch that brings data moves on to the next part and forgets earlier
/// empty fetches, so the download goes on with the parts that follow.
pub proof fn law_fetched_part_advances(part: nat, failures: nat)
    ensures
        split_next(part, failures, true) == (part + 1, 0nat, SplitStep::Next),
{
}

/// The file name of a remote path (a remote path without one is not accepted).
pub open spec fn remote_name(p: Seq<char>) -> Seq<char> {
    file_name_of(p)->Some_0
}

/// The extension of the file name of a remote path.
pub open spec fn remote_ext(p: Seq<char>) -> Seq<char> {
    extension_of(remote_name(p))->Some_0
}

/// Whether a remote path can be fetched again: its file name has an
/// extension, and that extension is not the number 0.
pub open spec fn retry_accepts(p: Seq<char>) -> bool {
    &&& file_name_of(p) is Some
    &&& extension_of(remote_name(p)) is Some
    &&& parsed_u32(remote_ext(p)) != Some(0u32)
}

/// The archive path (without part suffix) that a part path belongs to.
pub open spec fn split_archive(p: Seq<char>) -> Seq<char> {
    path_joined(parent_part(p), stem_of(remote_name(p)))
}

/// The path of the whole archive that holds a file fetched whole, with `.7z`
/// added to its name.
pub open spec fn archive_of_whole(p: Seq<char>) -> Seq<char> {
    path_joined(parent_part(p), remote_name(p) + ".7z"@)
}

/// The split archive to fetch when a file could not be fetched whole: the
/// name itself when its extension ends with `7z`, else the name with `.7z`.
pub open spec fn fallback_archive(p: Seq<char>) -> Seq<char> {
    if has_suffix(remote_ext(p), "7z"@) {
        path_joined(parent_part(p), remote_name(p))
    } else {
        path_joined(parent_part(p), remote_name(p) + ".7z"@)
    }
}

/// How a file is fetched again.
pub enum RetryPlan {
    /// The path names part `part` of a split archive: fetch part by part from there.
    Split(SplitDownload),
    /// Fetch the candidates in order until one arrives (see `next_trial`),
    /// then run its `deletes` (the same index) to delete it remotely; when
    /// none arrives, fetch `fallback` part by part from its first part.
    Whole { candidates: Vec<String>, deletes: Vec<Vec<Invocation>>, fallback: SplitDownload },
}

/// The split download of `archive` from part `part` with no failure yet.
pub open spec fn fresh_split(d: SplitDownload, archive: Seq<char>, part: nat) -> bool {
    d.archive@ == archive && d.part as nat == part && d.failures == 0
}

/// The fetching of a file again from a remote computer into `target_dir`.
pub struct ReDownloader<'a, C: RemoteFileCopier> {
    pub copier: &'a C,
    pub target_dir: String,
}

impl<'a, C: RemoteFileCopier> ReDownloader<'a, C> {
    /// How `remote_path` is fetched again and deleted: part by part when its
    /// extension is a number (each part deleted once it arrived, see
    /// `SplitStep::Next`), else whole (as it is, then with `.7z`), the one that
    /// arrives deleted, and part by part when neither arrives.
    pub fn retry_download(&self, remote_path: &str) -> (res: RetryPlan)
        requires
            retry_accepts(remote_path@),
        ensures
            match parsed_u32(remote_ext(remote_path@)) {
                Some(n) => res matches RetryPlan::Split(d) && fresh_split(d, split_archive(remote_path@), n as nat),
                None => res matches RetryPlan::Whole { candidates, deletes, fallback }
                    && crate::text::views(candidates@) == seq![remote_path@, archive_of_whole(remote_path@)]
                    && deletes@.len() == 2
                    && plans(deletes@[0]@) == self.copier.delete_steps(remote_path@)
                    && plans(deletes@[1]@) == self.copier.delete_steps(archive_of_whole(remote_path@))
                    && fresh_split(fallback, fallback_archive(remote_path@), 1),
            },
    {
        let name = match file_name(remote_path) {
            Some(f) => f,
            None => {
                proof {
                    assert(false);
                }
                String::new()
            },
        };
        let k = match ext_dot_exec(name.as_str()) {
            Some(k) => k,
            None => {
                proof {
                    assert(false);
                }
                0
            },
        };
        let cs = chars_of(name.as_str());
        let ext = string_of_range(&cs, k + 1, cs.len());
        let stem = string_of_range(&cs, 0, k);
        assert(name@.subrange(k + 1, cs.len() as int) =~= name@.skip(k + 1));
        assert(name@.subrange(0, k as int) =~= name@.take(k as int));
        let parent = parent_of(remote_path);
        match parse_u32(ext.as_str()) {
            Some(n) => {
                let archive = join_path(parent.as_str(), stem.as_str());
                RetryPlan::Split(SplitDownload::new(archive, n as usize))
            },
            None => {
                let with_7z = concat2(name.as_str(), ".7z");
                let whole_7z = join_path(parent.as_str(), with_7z.as_str());
                let mut candidates: Vec<String> = Vec::new();
                crate::text::push_str(&mut candidates, remote_path);
                crate::text::push_str(&mut candidates, whole_7z.as_str());
                let fallback = if ends_with(ext.as_str(), "7z") {
                    join_path(parent.as_str(), name.as_str())
                } else {
                    join_path(parent.as_str(), with_7z.as_str())
                };
                let mut deletes: Vec<Vec<Invocation>> = Vec::new();
                deletes.push(self.copier.delete_remote_file(remote_path));
                deletes.push(self.copier.delete_remote_file(whole_7z.as_str()));
                proof {
                    assert(crate::text::views(candidates@) =~= seq![remote_path@, archive_of_whole(remote_path@)]);
                }
                RetryPlan::Whole { candidates, deletes, fallback: SplitDownload::new(fallback, 1) }
            },
        }
    }

    /// The processes that fetch the remote `remote_path` into the target directory.
    pub fn fetch(&self, remote_path: &str) -> (res: Vec<Invocation>)
        ensures
            plans(res@) == self.copier.from_remote_steps(remote_path@, self.target_dir@),
    {
        self.copier.copy_from_remote(remote_path, self.target_dir.as_str())
    }

    /// The processes that delete the remote `remote_path`.
    pub fn delete_remote(&self, remote_path: &str) -> (res: Vec<Invocation>)
        ensures
            plans(res@) == self.copier.delete_steps(remote_path@),
    {
        self.copier.delete_remote_file(remote_path)
    }

    /// The local path at which the fetched `remote_path` arrives.
    pub fn downloaded_path(&self, remote_path: &str) -> (res: String)
        requires
            file_name_of(remote_path@) is Some,
        ensures
            res@ == path_joined(self.target_dir@, remote_name(remote_path@)),
    {
        let name = match file_name(remote_path) {
            Some(f) => f,
            None => {
                proof {
                    assert(false);
                }
                String::new()
            },
        };
        join_path(self.target_dir.as_str(), name.as_str())
    }
}

} // verus!
