//! Downloading listed files from a remote computer.

use vstd::prelude::*;
use crate::text::{views, owned, replace_all, replaced, lemma_replaced_removes, lemma_replaced_keeps_out, has_prefix, has_suffix, starts_with, ends_with, same_text};
use crate::winpath::{path_joined, join_path};
use crate::remote::copier::{RemoteFileCopier, plans};
use crate::remote::connector::{Invocation, Plan};
use crate::embedded_search_list::{embedded_search_list, embedded_paths};
use crate::kape_handler::{TKapeEntry, JSONTarget};

verus! {

/// The name of the directory that keeps the files of one listed path apart:
/// `\` and `/` become `-`, spaces are dropped, `*` becomes `--S--`, `?`
/// becomes `--Q--`, and `:` is dropped.
pub open spec fn store_dir_name(path: Seq<char>) -> Seq<char> {
    replaced(
        replaced(
            replaced(
                replaced(replaced(replaced(path, "\\"@, "-"@), "/"@, "-"@), " "@, ""@),
                "*"@,
                "--S--"@,
            ),
            "?"@,
            "--Q--"@,
        ),
        ":"@,
        ""@,
    )
}

/// The directory named after a listed path (see `store_dir_name`).
pub fn separate_store_name(path: &str) -> (res: String)
    ensures
        res@ == store_dir_name(path@),
{
    proof {
        reveal_strlit("\\");
        reveal_strlit("/");
        reveal_strlit(" ");
        reveal_strlit("*");
        reveal_strlit("?");
        reveal_strlit(":");
    }
    let a = replace_all(path, "\\", "-");
    let b = replace_all(a.as_str(), "/", "-");
    let c = replace_all(b.as_str(), " ", "");
    let d = replace_all(c.as_str(), "*", "--S--");
    let e = replace_all(d.as_str(), "?", "--Q--");
    replace_all(e.as_str(), ":", "")
}

/// The download of one remote path: the path, into which local directory,
/// whether that directory is created first, and the processes that copy it there.
pub struct FileDownload {
    pub source: String,
    pub store_directory: String,
    pub create_store: bool,
    pub steps: Vec<Invocation>,
}

/// The local directory that a remote path is downloaded into: a directory of
/// its own under `local_store` when stores are kept apart.
pub open spec fn download_store(path: Seq<char>, local_store: Seq<char>, separate_stores: bool) -> Seq<char> {
    if separate_stores {
        path_joined(local_store, store_dir_name(path))
    } else {
        local_store
    }
}

/// Whether a listed path is a comment, which is not downloaded.
pub open spec fn commented(path: Seq<char>) -> bool {
    has_prefix(path, "#"@)
}

/// Whether `d` is the download of `path` into `local_store` with `downloader`.
pub open spec fn is_download<C: RemoteFileCopier>(
    d: FileDownload,
    path: Seq<char>,
    local_store: Seq<char>,
    downloader: C,
    separate_stores: bool,
) -> bool {
    &&& d.source@ == path
    &&& d.store_directory@ == download_store(path, local_store, separate_stores)
    &&& d.create_store == separate_stores
    &&& plans(d.steps@) == downloader.from_remote_steps(path, download_store(path, local_store, separate_stores))
}

/// The download of the remote `path` into `local_store_directory` (or a
/// directory of its own under it, when `separate_stores` is set); `None` for
/// a commented path.
pub fn download_file<C: RemoteFileCopier>(
    path: &str,
    local_store_directory: &str,
    downloader: &C,
    separate_stores: bool,
) -> (res: Option<FileDownload>)
    ensures
        res is None <==> commented(path@),
        res matches Some(d) ==> is_download(d, path@, local_store_directory@, *downloader, separate_stores),
{
    if starts_with(path, "#") {
        return None;
    }
    let store = if separate_stores {
        let name = separate_store_name(path);
        join_path(local_store_directory, name.as_str())
    } else {
        owned(local_store_directory)
    };
    let steps = downloader.copy_from_remote(path, store.as_str());
    Some(FileDownload { source: owned(path), store_directory: store, create_store: separate_stores, steps })
}

/// The downloads of the paths of `paths` that are not commented, in order.
pub open spec fn downloads_of<C: RemoteFileCopier>(
    ds: Seq<FileDownload>,
    paths: Seq<Seq<char>>,
    local_store: Seq<char>,
    downloader: C,
    separate_stores: bool,
) -> bool {
    let kept = paths.filter(|p: Seq<char>| !commented(p));
    &&& ds.len() == kept.len()
    &&& forall|i: int| 0 <= i < ds.len() ==> is_download(#[trigger] ds[i], kept[i], local_store, downloader, separate_stores)
}

/// The downloads of the paths of `paths` that are not commented, in order.
pub fn download_all<C: RemoteFileCopier>(
    paths: &Vec<String>,
    local_store_directory: &str,
    downloader: &C,
    separate_stores: bool,
) -> (res: Vec<FileDownload>)
    ensures
        downloads_of(res@, views(paths@), local_store_directory@, *downloader, separate_stores),
{
    let ghost ps = views(paths@);
    let mut res: Vec<FileDownload> = Vec::new();
    let mut i: usize = 0;
    while i < paths.len()
        invariant
            i <= paths.len(),
            ps == views(paths@),
            downloads_of(res@, ps.take(i as int), local_store_directory@, *downloader, separate_stores),
        decreases paths.len() - i,
    {
        let ghost before = res@;
        let ghost kept_before = ps.take(i as int).filter(|p: Seq<char>| !commented(p));
        assert(ps.take(i + 1).drop_last() =~= ps.take(i as int));
        assert(ps.take(i + 1).last() == paths@[i as int]@);
        match download_file(paths[i].as_str(), local_store_directory, downloader, separate_stores) {
            Some(d) => {
                res.push(d);
                proof {
                    reveal(Seq::filter);
                    let kept = ps.take(i + 1).filter(|p: Seq<char>| !commented(p));
                    assert(kept =~= kept_before.push(paths@[i as int]@));
                    assert forall|j: int| 0 <= j < res@.len() implies is_download(
                        #[trigger] res@[j],
                        kept[j],
                        local_store_directory@,
                        *downloader,
                        separate_stores,
                    ) by {
                        if j < before.len() {
                            assert(res@[j] == before[j]);
                        }
                    }
                }
            },
            None => {
                proof {
                    reveal(Seq::filter);
                    let kept = ps.take(i + 1).filter(|p: Seq<char>| !commented(p));
                    assert(kept =~= kept_before);
                }
            },
        }
        i = i + 1;
    }
    assert(ps.take(paths.len() as int) =~= ps);
    res
}

/// The downloads of the built-in search list.
pub fn download_files_from_embedded<C: RemoteFileCopier>(
    local_store_directory: &str,
    downloader: &C,
    separate_stores: bool,
) -> (res: Vec<FileDownload>)
    ensures
        downloads_of(res@, embedded_paths(), local_store_directory@, *downloader, separate_stores),
{
    let list = embedded_search_list();
    download_all(&list, local_store_directory, downloader, separate_stores)
}

/// What a line of a search list asks for.
pub enum ListEntry {
    /// A remote path to download.
    Remote(String),
    /// A KAPE target file (a name ending with `tkape`) whose targets' paths are downloaded.
    TargetFile(String),
}

/// What each line of a search list asks for: a line ending with `tkape`
/// names a KAPE target file, any other names a remote path.
pub fn download_files_from_path(lines: &Vec<String>) -> (res: Vec<ListEntry>)
    ensures
        res@.len() == lines@.len(),
        forall|i: int| 0 <= i < lines@.len() ==> match #[trigger] res@[i] {
            ListEntry::TargetFile(p) => p@ == lines@[i]@ && has_suffix(lines@[i]@, "tkape"@),
            ListEntry::Remote(p) => p@ == lines@[i]@ && !has_suffix(lines@[i]@, "tkape"@),
        },
{
    let mut res: Vec<ListEntry> = Vec::new();
    let mut i: usize = 0;
    while i < lines.len()
        invariant
            i <= lines.len(),
            res@.len() == i,
            forall|k: int| 0 <= k < i ==> match #[trigger] res@[k] {
                ListEntry::TargetFile(p) => p@ == lines@[k]@ && has_suffix(lines@[k]@, "tkape"@),
                ListEntry::Remote(p) => p@ == lines@[k]@ && !has_suffix(lines@[k]@, "tkape"@),
            },
        decreases lines.len() - i,
    {
        let line = lines[i].clone();
        if ends_with(lines[i].as_str(), "tkape") {
            res.push(ListEntry::TargetFile(line));
        } else {
            res.push(ListEntry::Remote(line));
        }
        i = i + 1;
    }
    res
}

/// The paths of the targets of a KAPE target file, in order.
pub open spec fn target_paths(targets: Seq<JSONTarget>) -> Seq<Seq<char>> {
    targets.map_values(|t: JSONTarget| t.path@)
}

/// The downloads of the targets' paths of a KAPE target file.
pub fn download_targets<C: RemoteFileCopier>(
    tkape: &TKapeEntry,
    local_store_directory: &str,
    downloader: &C,
    separate_stores: bool,
) -> (res: Vec<FileDownload>)
    ensures
        downloads_of(res@, target_paths(tkape.targets@), local_store_directory@, *downloader, separate_stores),
{
    let mut paths: Vec<String> = Vec::new();
    let mut i: usize = 0;
    while i < tkape.targets.len()
        invariant
            i <= tkape.targets.len(),
            views(paths@) == target_paths(tkape.targets@).take(i as int),
        decreases tkape.targets.len() - i,
    {
        let ghost before = views(paths@);
        let p = tkape.targets[i].path.clone();
        paths.push(p);
        assert(views(paths@) =~= before.push(tkape.targets@[i as int].path@));
        assert(views(paths@) =~= target_paths(tkape.targets@).take(i + 1));
        i = i + 1;
    }
    assert(target_paths(tkape.targets@).take(tkape.targets.len() as int) =~= target_paths(tkape.targets@));
    download_all(&paths, local_store_directory, downloader, separate_stores)
}

/// Where the list of files to download comes from.
pub enum FileList {
    /// The built-in search list.
    Embedded,
    /// The lines of the file at this path.
    ListFile(String),
}

/// The source of the list of files to download: the built-in list for the
/// word `EMBEDDED`, else the file at `file_list`.
pub fn download_files(file_list: &str) -> (res: FileList)
    ensures
        file_list@ == "EMBEDDED"@ ==> res is Embedded,
        file_list@ != "EMBEDDED"@ ==> (res matches FileList::ListFile(p) && p@ == file_list@),
{
    if same_text(file_list, "EMBEDDED") {
        FileList::Embedded
    } else {
        FileList::ListFile(owned(file_list))
    }
}

/// The directory that keeps a listed path's files apart is one plain name:
/// it holds no `\`, `/`, space, `*`, `?` or `:`.
pub proof fn law_store_dir_is_plain_name(path: Seq<char>)
    ensures
        !store_dir_name(path).contains('\\'),
        !store_dir_name(path).contains('/'),
        !store_dir_name(path).contains(' '),
        !store_dir_name(path).contains('*'),
        !store_dir_name(path).contains('?'),
        !store_dir_name(path).contains(':'),
{
    reveal_strlit("\\");
    reveal_strlit("/");
    reveal_strlit(" ");
    reveal_strlit("*");
    reveal_strlit("?");
    reveal_strlit(":");
    reveal_strlit("--S--");
    reveal_strlit("--Q--");
    reveal_strlit("");
    reveal_strlit("-");
    let s_sub = "--S--"@;
    let q_sub = "--Q--"@;
    let dash = "-"@;
    let none = ""@;
    assert(none.len() == 0);
    assert forall|c: char| c != '-' && c != 'S' implies !s_sub.contains(c) by {
        assert forall|i: int| 0 <= i < s_sub.len() implies s_sub[i] != c by {}
    }
    assert forall|c: char| c != '-' && c != 'Q' implies !q_sub.contains(c) by {
        assert forall|i: int| 0 <= i < q_sub.len() implies q_sub[i] != c by {}
    }
    assert forall|c: char| c != '-' implies !dash.contains(c) by {
        assert forall|i: int| 0 <= i < dash.len() implies dash[i] != c by {}
    }
    let a = replaced(path, seq!['\\'], dash);
    lemma_replaced_removes(path, '\\', dash);
    let b = replaced(a, seq!['/'], dash);
    lemma_replaced_removes(a, '/', dash);
    lemma_replaced_keeps_out(a, seq!['/'], dash, '\\');
    let c = replaced(b, seq![' '], none);
    lemma_replaced_removes(b, ' ', none);
    lemma_replaced_keeps_out(b, seq![' '], none, '\\');
    lemma_replaced_keeps_out(b, seq![' '], none, '/');
    let d = replaced(c, seq!['*'], s_sub);
    lemma_replaced_removes(c, '*', s_sub);
    lemma_replaced_keeps_out(c, seq!['*'], s_sub, '\\');
    lemma_replaced_keeps_out(c, seq!['*'], s_sub, '/');
    lemma_replaced_keeps_out(c, seq!['*'], s_sub, ' ');
    let e = replaced(d, seq!['?'], q_sub);
    lemma_replaced_removes(d, '?', q_sub);
    lemma_replaced_keeps_out(d, seq!['?'], q_sub, '\\');
    lemma_replaced_keeps_out(d, seq!['?'], q_sub, '/');
    lemma_replaced_keeps_out(d, seq!['?'], q_sub, ' ');
    lemma_replaced_keeps_out(d, seq!['?'], q_sub, '*');
    lemma_replaced_removes(e, ':', none);
    lemma_replaced_keeps_out(e, seq![':'], none, '\\');
    lemma_replaced_keeps_out(e, seq![':'], none, '/');
    lemma_replaced_keeps_out(e, seq![':'], none, ' ');
    lemma_replaced_keeps_out(e, seq![':'], none, '*');
    lemma_replaced_keeps_out(e, seq![':'], none, '?');
    assert("\\"@ == seq!['\\']);
    assert("/"@ == seq!['/']);
    assert(" "@ == seq![' ']);
    assert("*"@ == seq!['*']);
    assert("?"@ == seq!['?']);
    assert(":"@ == seq![':']);
}

} // verus!
