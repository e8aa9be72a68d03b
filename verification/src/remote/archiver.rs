//! Packing files with 7-Zip before they are moved, and unpacking them after.

use vstd::prelude::*;
use crate::remote::shadow_copier::StepOutcome;
use crate::text::{views, owned, concat2, concat3, push_str, replace_all, replaced, has_infix, contains, lemma_replaced_removes};
use crate::winpath::{file_name_of, file_name, path_joined, join_path, parent_part, parent_of};
use crate::utils::{ntfs_name, path_join_to_string_ntfs};
use crate::remote::connector::{Computer, Connector, LocalProgramRun, LocalProgramPlan, runnable, program_in, program_in_dir, new_uuid, uuid_text};
use crate::remote::local::Local;
use crate::remote::copier::{RemoteFileCopier, plans};
use crate::remote::connector::Invocation;
use crate::remote::download::SplitDownload;
use crate::remote::utils::{part_name, path_to_part};

verus! {

/// Whether files are packed before they are moved, and whether the archive
/// is split into parts.
#[derive(Clone, Copy, PartialEq, Eq, Structural)]
pub enum Compression {
    No,
    Yes,
    YesSplit,
}

/// The 7-Zip switches that split an archive into parts of 2 MB.
pub open spec fn split_flags(split: bool) -> Seq<Seq<char>> {
    if split {
        seq!["-bd"@, "-mx5"@, "-t7z"@, "-v2m"@]
    } else {
        Seq::empty()
    }
}

/// The switch that makes 7-Zip recurse: given when the file name of `path`
/// holds a `*`.
pub open spec fn recursive_flag(path: Seq<char>) -> Seq<Seq<char>> {
    match file_name_of(path) {
        Some(f) => if has_infix(f, "*"@) {
            seq!["-r"@]
        } else {
            Seq::empty()
        },
        None => Seq::empty(),
    }
}

/// The name of the archive of `path` packed on the computer at `address`,
/// made unique by the UUID `id`: the address with `-` for `.`, `_`, the path
/// as a file name, `__`, the UUID without `-`, and `.7z`; spaces removed.
pub open spec fn archive_name(address: Seq<char>, path: Seq<char>, id: Seq<char>) -> Seq<char> {
    replaced(
        replaced(address, "."@, "-"@) + "_"@ + ntfs_name(path) + "__"@ + replaced(id, "-"@, ""@) + ".7z"@,
        " "@,
        ""@,
    )
}

/// The 7-Zip command that packs `path` into `archive`.
pub open spec fn compress_args(archive: Seq<char>, path: Seq<char>, split: bool) -> Seq<Seq<char>> {
    seq!["7za.exe"@] + split_flags(split) + seq!["a"@, archive, path] + recursive_flag(path)
}

/// The 7-Zip command that unpacks the archive `path` next to it, overwriting
/// what is there.
pub open spec fn uncompress_args(path: Seq<char>) -> Seq<Seq<char>> {
    seq!["7za.exe"@, "-aoa"@, "-bd"@, "e"@, path, "-o"@ + parent_part(path)]
}

/// A way of packing files into archives and unpacking them.
pub trait Archiver {
    /// The archive path of `path` when the UUID `id` is drawn.
    spec fn archive_path_view(&self, path: Seq<char>, id: Seq<char>) -> Seq<char>;

    /// How the packing of `path` into `archive` is run.
    spec fn compress_view(&self, archive: Seq<char>, path: Seq<char>, split: bool) -> LocalProgramPlan;

    /// How the unpacking of the archive `path` is run.
    spec fn uncompress_view(&self, path: Seq<char>) -> LocalProgramPlan;

    /// The archive that `path` is packed into, named with a fresh random
    /// UUID, and how the packing is run.
    fn compress(&self, path: &str, split: bool) -> (res: (String, LocalProgramRun))
        ensures
            exists|id: Seq<char>| uuid_text(id) && res.0@ == #[trigger] self.archive_path_view(path@, id),
            res.1@ == self.compress_view(res.0@, path@, split),
    ;

    /// How the archive `path` is unpacked.
    fn uncompress(&self, path: &str) -> (res: LocalProgramRun)
        requires
            file_name_of(path@) is Some,
        ensures
            res@ == self.uncompress_view(path@),
    ;
}

/// Packing with the `7za.exe` program, started through a connector from the
/// directory `program_dir` of this computer.
pub struct SevenZipArchiver<'a, C: Connector> {
    pub connector: &'a C,
    pub timeout: Option<u64>,
    pub program_dir: String,
}

impl<'a, C: Connector> SevenZipArchiver<'a, C> {
    /// An archiver that packs on the computer that `connector` reaches; the
    /// program is taken from `program_dir`, and runs for at most `timeout` seconds.
    pub fn remote(connector: &'a C, timeout: Option<u64>, program_dir: String) -> (res: SevenZipArchiver<'a, C>)
        ensures
            res.connector == connector,
            res.timeout == timeout,
            res.program_dir == program_dir,
    {
        SevenZipArchiver { connector, timeout, program_dir }
    }

    /// The archive path of `path` when the UUID `id` is drawn: the archive
    /// name (see `archive_name`) in the connector's temporary directory.
    pub fn archive_path_with(&self, path: &str, id: &str) -> (res: String)
        ensures
            res@ == path_joined(
                self.connector.temp_storage_view(),
                archive_name(self.connector.target().address@, path@, id@),
            ),
    {
        proof {
            reveal_strlit(".");
            reveal_strlit("-");
            reveal_strlit(" ");
        }
        let computer = self.connector.computer();
        let address = replace_all(computer.address.as_str(), ".", "-");
        let id_plain = replace_all(id, "-", "");
        let mut name = concat3(address.as_str(), "_", path_join_to_string_ntfs(path).as_str());
        name.append("__");
        name.append(id_plain.as_str());
        name.append(".7z");
        let name = replace_all(name.as_str(), " ", "");
        join_path(self.connector.remote_temp_storage(), name.as_str())
    }

    /// The 7-Zip command that packs `path` into `archive` (see `compress_args`).
    pub fn compress_command(archive: &str, path: &str, split: bool) -> (res: Vec<String>)
        ensures
            views(res@) == compress_args(archive@, path@, split),
    {
        let mut params: Vec<String> = Vec::new();
        push_str(&mut params, "7za.exe");
        if split {
            push_str(&mut params, "-bd");
            push_str(&mut params, "-mx5");
            push_str(&mut params, "-t7z");
            push_str(&mut params, "-v2m");
        }
        push_str(&mut params, "a");
        push_str(&mut params, archive);
        push_str(&mut params, path);
        let recursive = match file_name(path) {
            Some(f) => contains(f.as_str(), "*"),
            None => false,
        };
        if recursive {
            push_str(&mut params, "-r");
        }
        assert(views(params@) =~= compress_args(archive@, path@, split));
        params
    }

    /// The 7-Zip command that unpacks `path` (see `uncompress_args`).
    pub fn uncompress_command(path: &str) -> (res: Vec<String>)
        ensures
            views(res@) == uncompress_args(path@),
    {
        let mut params: Vec<String> = Vec::new();
        push_str(&mut params, "7za.exe");
        push_str(&mut params, "-aoa");
        push_str(&mut params, "-bd");
        push_str(&mut params, "e");
        push_str(&mut params, path);
        let out = concat2("-o", parent_of(path).as_str());
        push_str(&mut params, out.as_str());
        assert(views(params@) =~= uncompress_args(path@));
        params
    }

    /// How a 7-Zip command is run: with the program taken from
    /// `program_dir`, through the connector.
    pub fn run_in_program_dir(&self, command: Vec<String>) -> (res: LocalProgramRun)
        requires
            runnable(views(command@)),
        ensures
            res@ == self.connector.local_program_view(program_in(views(command@), self.program_dir@)),
    {
        let ghost before = views(command@);
        proof {
            crate::winpath::lemma_file_name_plain(before[0]);
            crate::winpath::lemma_joined_file_name(self.program_dir@, file_name_of(before[0])->Some_0);
        }
        let command = program_in_dir(command, self.program_dir.as_str());
        assert(views(command@).len() == command@.len());
        assert(views(command@)[0] == command@[0]@);
        self.connector.local_program_run(command)
    }
}

/// `7za.exe` has a file name, so a command that starts with it can be run.
proof fn lemma_seven_zip_runnable(command: Seq<Seq<char>>)
    requires
        command.len() > 0,
        command[0] == "7za.exe"@,
    ensures
        runnable(command),
{
    reveal_strlit("7za.exe");
    let s = "7za.exe"@;
    assert forall|i: int| 0 <= i < s.len() implies !crate::winpath::is_sep(#[trigger] s[i]) by {}
    crate::winpath::lemma_no_sep_component(s);
}

impl<'a, C: Connector> Archiver for SevenZipArchiver<'a, C> {
    open spec fn archive_path_view(&self, path: Seq<char>, id: Seq<char>) -> Seq<char> {
        path_joined(self.connector.temp_storage_view(), archive_name(self.connector.target().address@, path, id))
    }

    open spec fn compress_view(&self, archive: Seq<char>, path: Seq<char>, split: bool) -> LocalProgramPlan {
        self.connector.local_program_view(program_in(compress_args(archive, path, split), self.program_dir@))
    }

    open spec fn uncompress_view(&self, path: Seq<char>) -> LocalProgramPlan {
        self.connector.local_program_view(program_in(uncompress_args(path), self.program_dir@))
    }

    fn compress(&self, path: &str, split: bool) -> (res: (String, LocalProgramRun)) {
        let id = new_uuid();
        let archive = self.archive_path_with(path, id.as_str());
        let command = Self::compress_command(archive.as_str(), path, split);
        proof {
            lemma_seven_zip_runnable(views(command@));
        }
        let run = self.run_in_program_dir(command);
        assert(uuid_text(id@) && archive@ == self.archive_path_view(path@, id@));
        (archive, run)
    }

    fn uncompress(&self, path: &str) -> (res: LocalProgramRun) {
        let command = Self::uncompress_command(path);
        proof {
            lemma_seven_zip_runnable(views(command@));
        }
        self.run_in_program_dir(command)
    }
}

/// An archiver that packs on this computer: the local connector of `local`.
pub fn local_archiver<'a>(local: &'a Local, program_dir: String) -> (res: SevenZipArchiver<'a, Local>)
    ensures
        res.connector == local,
        res.timeout is None,
        res.program_dir == program_dir,
{
    SevenZipArchiver::remote(local, None, program_dir)
}

/// Copying through 7-Zip archives: a file is packed where it is, the archive
/// (or each of its parts) is moved with the connector's own copying, and it is
/// unpacked at the other end.
pub struct SevenZipCompressCopier<'a, C: Connector + RemoteFileCopier> {
    pub archiver: SevenZipArchiver<'a, C>,
    pub split: bool,
    pub uncompress_downloaded: bool,
}

/// The local path at which the archive `archive` arrives in `target`.
pub open spec fn arrived_copy(target: Seq<char>, archive: Seq<char>) -> Seq<char> {
    path_joined(target, file_name_of(archive)->Some_0)
}

/// The parts `count`, `count - 1`, ..., `1` of the archive `archive`: the
/// parts of a downloaded archive, deleted last part first once unpacked.
pub open spec fn parts_downward(archive: Seq<char>, count: nat) -> Seq<Seq<char>>
    decreases count,
{
    if count == 0 {
        Seq::empty()
    } else {
        seq![part_name(archive, count)] + parts_downward(archive, (count - 1) as nat)
    }
}

impl<'a, C: Connector + RemoteFileCopier> SevenZipCompressCopier<'a, C> {
    /// Copying through the computer that `connector` reaches; archives are
    /// split when `split` is set, and unpacked after a download when
    /// `uncompress_downloaded` is set.
    pub fn new(
        connector: &'a C,
        split: bool,
        timeout: Option<u64>,
        uncompress_downloaded: bool,
        program_dir: String,
    ) -> (res: SevenZipCompressCopier<'a, C>)
        ensures
            res.archiver.connector == connector,
            res.archiver.timeout == timeout,
            res.archiver.program_dir == program_dir,
            res.split == split,
            res.uncompress_downloaded == uncompress_downloaded,
    {
        SevenZipCompressCopier {
            archiver: SevenZipArchiver::remote(connector, timeout, program_dir),
            split,
            uncompress_downloaded,
        }
    }

    /// The remote computer.
    pub fn remote_computer(&self) -> (res: &Computer)
        ensures
            *res == self.archiver.connector.target(),
    {
        self.archiver.connector.computer()
    }

    /// How the remote `path` is reached from this computer, as the connector reaches it.
    pub fn path_to_remote_form(&self, path: &str) -> (res: String)
        ensures
            res@ == self.archiver.connector.remote_form(path@),
    {
        self.archiver.connector.path_to_remote_form(path)
    }

    /// The processes that delete the remote `target`, as the connector deletes it.
    pub fn delete_remote_file(&self, target: &str) -> (res: Vec<Invocation>)
        ensures
            plans(res@) == self.archiver.connector.delete_steps(target@),
    {
        self.archiver.connector.delete_remote_file(target)
    }

    /// The processes that move the archive (or part) `path` from the remote
    /// computer into `target`.
    pub fn fetch_archive(&self, path: &str, target: &str) -> (res: Vec<Invocation>)
        ensures
            plans(res@) == self.archiver.connector.from_remote_steps(path@, target@),
    {
        self.archiver.connector.copy_from_remote(path, target)
    }

    /// The processes that move the local archive (or part) `path` into the
    /// remote directory `target`.
    pub fn send_archive(&self, path: &str, target: &str) -> (res: Vec<Invocation>)
        ensures
            plans(res@) == self.archiver.connector.to_remote_steps(path@, target@),
    {
        self.archiver.connector.copy_to_remote(path, target)
    }

    /// The remote archive that `source` is packed into, and how it is packed
    /// there: the first step of a copy from the remote computer.
    pub fn pack_remote(&self, source: &str) -> (res: (String, LocalProgramRun))
        ensures
            exists|id: Seq<char>| uuid_text(id) && res.0@ == #[trigger] self.archiver.archive_path_view(source@, id),
            res.1@ == self.archiver.compress_view(res.0@, source@, self.split),
    {
        self.archiver.compress(source, self.split)
    }

    /// How the remote archive `path` is unpacked next to itself.
    pub fn unpack_remote(&self, path: &str) -> (res: LocalProgramRun)
        requires
            file_name_of(path@) is Some,
        ensures
            res@ == self.archiver.uncompress_view(path@),
    {
        self.archiver.uncompress(path)
    }

    /// The part-by-part download of the remote split archive `archive`, from its first part.
    pub fn split_download(&self, archive: &str) -> (res: SplitDownload)
        ensures
            res.archive@ == archive@,
            res.part == 1,
            res.failures == 0,
    {
        SplitDownload::new(owned(archive), 1)
    }

    /// The local computer's side of the copy: the local connector for the
    /// remote user name, with the default temporary directory.
    pub fn local_side(&self) -> (res: Local)
        ensures
            res.localhost.username@ == self.archiver.connector.target().username@,
            res.localhost.address@ == "127.0.0.1"@,
            res.temp_storage@ == crate::remote::local::DEFAULT_REMOTE_PATH_STORAGE@,
    {
        Local::new_default(self.archiver.connector.computer().username.clone())
    }
}

/// The local path at which the archive `archive` arrives in `target` (see `arrived_copy`).
pub fn arrived_copy_path(target: &str, archive: &str) -> (res: String)
    requires
        file_name_of(archive@) is Some,
    ensures
        res@ == arrived_copy(target@, archive@),
{
    let name = match file_name(archive) {
        Some(n) => n,
        None => {
            proof {
                assert(false);
            }
            String::new()
        },
    };
    join_path(target, name.as_str())
}

/// The parts of a downloaded archive to delete once it is unpacked (see `parts_downward`).
pub fn downloaded_parts(archive: &str, count: usize) -> (res: Vec<String>)
    ensures
        views(res@) == parts_downward(archive@, count as nat),
{
    let mut res: Vec<String> = Vec::new();
    let mut i = count;
    while i > 0
        invariant
            i <= count,
            views(res@) + parts_downward(archive@, i as nat) == parts_downward(archive@, count as nat),
        decreases i,
    {
        let p = path_to_part(archive, i);
        let ghost before = views(res@);
        res.push(p);
        assert(views(res@) =~= before.push(part_name(archive@, i as nat)));
        assert(views(res@) + parts_downward(archive@, (i - 1) as nat) =~= before + parts_downward(archive@, i as nat));
        i = i - 1;
    }
    assert(views(res@) + parts_downward(archive@, 0) =~= views(res@));
    res
}

/// The remote copies deleted after an upload of `uploaded` parts of the
/// archive `archive` into `target` is unpacked: the path of the first part
/// in `target`, once per uploaded part.
pub open spec fn uploaded_cleanup(target: Seq<char>, archive: Seq<char>, uploaded: nat) -> Seq<Seq<char>> {
    Seq::new(uploaded, |i: int| arrived_copy(target, part_name(archive, 1)))
}

/// The remote copies deleted after an upload of parts (see `uploaded_cleanup`).
pub fn uploaded_parts_cleanup(target: &str, archive: &str, uploaded: usize) -> (res: Vec<String>)
    ensures
        views(res@) == uploaded_cleanup(target@, archive@, uploaded as nat),
{
    proof {
        reveal_strlit(".00");
        let y = ".00"@ + crate::text::decimal(1);
        assert(crate::text::decimal(1) =~= seq!['1']);
        assert(y =~= seq!['.', '0', '0', '1']);
        assert forall|i: int| 0 <= i < y.len() implies !crate::winpath::is_sep(#[trigger] y[i]) by {}
        crate::winpath::lemma_file_name_with_suffix(archive@, y);
        assert(part_name(archive@, 1) =~= archive@ + y);
    }
    let first = path_to_part(archive, 1);
    let remote = arrived_copy_path(target, first.as_str());
    let mut res: Vec<String> = Vec::new();
    let mut i: usize = 0;
    while i < uploaded
        invariant
            i <= uploaded,
            remote@ == arrived_copy(target@, part_name(archive@, 1)),
            views(res@) =~= Seq::new(i as nat, |k: int| arrived_copy(target@, part_name(archive@, 1))),
        decreases uploaded - i,
    {
        push_str(&mut res, remote.as_str());
        i = i + 1;
    }
    res
}

/// An archive name holds no space, so it stays one argument of the 7-Zip command.
pub proof fn law_archive_name_has_no_space(address: Seq<char>, path: Seq<char>, id: Seq<char>)
    ensures
        !archive_name(address, path, id).contains(' '),
{
    reveal_strlit(" ");
    reveal_strlit("");
    let x = replaced(address, "."@, "-"@) + "_"@ + ntfs_name(path) + "__"@ + replaced(id, "-"@, ""@) + ".7z"@;
    assert(" "@ == seq![' ']);
    lemma_replaced_removes(x, ' ', ""@);
}

/// A phase of copying a remote file here through a 7-Zip archive.
#[derive(PartialEq, Eq, Structural, Clone, Copy)]
pub enum CompressedPhase {
    /// Pack the file into an archive on the remote side (`pack_remote`).
    Pack,
    /// Fetch the archive's parts one by one (`split_download`).
    FetchParts,
    /// Fetch the whole archive (`fetch_archive`).
    FetchWhole,
    /// Delete the archive on the remote side (`delete_remote_file`).
    DeleteRemote,
    /// Unpack the downloaded archive here (its first part when split).
    Unpack,
    /// Remove the downloaded archive (or its parts, see `downloaded_parts`).
    RemoveDownloaded,
    /// Done.
    Done,
}

/// The phase that follows `phase` given its outcome, for a split archive or
/// not, unpacked here or not: packing is followed by the fetch whatever came
/// of it; the remote archive is deleted only after a fetch of the whole
/// archive succeeded (split parts are deleted one by one as they arrive,
/// see `SplitStep::Next`); the download is unpacked when asked, and removed
/// only after the unpacking succeeded.
pub open spec fn compressed_fetch_next(phase: CompressedPhase, outcome: StepOutcome, split: bool, uncompress: bool) -> CompressedPhase {
    let after_fetch = if uncompress { CompressedPhase::Unpack } else { CompressedPhase::Done };
    match phase {
        CompressedPhase::Pack => if split { CompressedPhase::FetchParts } else { CompressedPhase::FetchWhole },
        CompressedPhase::FetchParts => after_fetch,
        CompressedPhase::FetchWhole => if outcome == StepOutcome::Succeeded { CompressedPhase::DeleteRemote } else { after_fetch },
        CompressedPhase::DeleteRemote => after_fetch,
        CompressedPhase::Unpack => if outcome == StepOutcome::Succeeded { CompressedPhase::RemoveDownloaded } else { CompressedPhase::Done },
        _ => CompressedPhase::Done,
    }
}

/// The phase that follows `phase` (see `compressed_fetch_next`).
pub fn compressed_fetch_step(phase: CompressedPhase, outcome: StepOutcome, split: bool, uncompress: bool) -> (res: CompressedPhase)
    ensures
        res == compressed_fetch_next(phase, outcome, split, uncompress),
{
    let after_fetch = if uncompress { CompressedPhase::Unpack } else { CompressedPhase::Done };
    match phase {
        CompressedPhase::Pack => if split { CompressedPhase::FetchParts } else { CompressedPhase::FetchWhole },
        CompressedPhase::FetchParts => after_fetch,
        CompressedPhase::FetchWhole => if outcome == StepOutcome::Succeeded { CompressedPhase::DeleteRemote } else { after_fetch },
        CompressedPhase::DeleteRemote => after_fetch,
        CompressedPhase::Unpack => if outcome == StepOutcome::Succeeded { CompressedPhase::RemoveDownloaded } else { CompressedPhase::Done },
        _ => CompressedPhase::Done,
    }
}

/// The seconds to pause after a phase: 10 after packing, 10 after a whole
/// archive arrived (before it is deleted remotely), 10 after a whole archive
/// was unpacked (before it is removed here), none otherwise.
pub open spec fn compressed_pause_of(phase: CompressedPhase, outcome: StepOutcome, split: bool) -> u64 {
    match phase {
        CompressedPhase::Pack => 10,
        CompressedPhase::FetchWhole => if outcome == StepOutcome::Succeeded { 10 } else { 0 },
        CompressedPhase::Unpack => if outcome == StepOutcome::Succeeded && !split { 10 } else { 0 },
        _ => 0,
    }
}

/// The seconds to pause after a phase (see `compressed_pause_of`).
pub fn compressed_pause(phase: CompressedPhase, outcome: StepOutcome, split: bool) -> (res: u64)
    ensures
        res == compressed_pause_of(phase, outcome, split),
{
    match phase {
        CompressedPhase::Pack => 10,
        CompressedPhase::FetchWhole => if outcome == StepOutcome::Succeeded { 10 } else { 0 },
        CompressedPhase::Unpack => if outcome == StepOutcome::Succeeded && !split { 10 } else { 0 },
        _ => 0,
    }
}

/// Nothing is deleted on a failure: the remote whole archive is deleted
/// only right after it was fetched, and the download is removed only right
/// after it was unpacked.
pub proof fn law_compressed_deletes_follow_success(phase: CompressedPhase, outcome: StepOutcome, split: bool, uncompress: bool)
    ensures
        compressed_fetch_next(phase, outcome, split, uncompress) == CompressedPhase::DeleteRemote
            ==> phase == CompressedPhase::FetchWhole && outcome == StepOutcome::Succeeded,
        compressed_fetch_next(phase, outcome, split, uncompress) == CompressedPhase::RemoveDownloaded
            ==> phase == CompressedPhase::Unpack && outcome == StepOutcome::Succeeded,
{
}

} // verus!
