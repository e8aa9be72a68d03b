//! Which connection methods each acquisition step uses, and which steps run.

use vstd::prelude::*;
use crate::text::{same_text, owned};
use crate::arg_parser::Opts;

verus! {

/// A way of reaching the target computer.
#[derive(PartialEq, Eq, Structural, Clone, Copy)]
pub enum Method {
    /// PsExec, in the flavour that the step itself chooses.
    PsExec,
    /// 32-bit PsExec.
    PsExec32,
    /// 64-bit PsExec.
    PsExec64,
    /// PowerShell remoting.
    PsRemote,
    /// Remote desktop.
    Rdp,
    /// Windows Management Instrumentation.
    Wmi,
    /// Secure shell (Linux targets).
    Ssh,
    /// This computer.
    Local,
}

/// The method `m` when `flag` holds, else nothing.
pub open spec fn when(flag: bool, m: Method) -> Seq<Method> {
    if flag {
        seq![m]
    } else {
        Seq::empty()
    }
}

/// Whether the target named by `computer` is this computer.
pub open spec fn local_target(computer: Seq<char>) -> bool {
    computer == "127.0.0.1"@ || computer == "localhost"@
}

/// Whether the target named by `computer` is this computer (see `local_target`).
pub fn is_local_target(computer: &str) -> (res: bool)
    ensures
        res == local_target(computer@),
{
    same_text(computer, "127.0.0.1") || same_text(computer, "localhost")
}

/// The methods of the quick evidence acquisition: PsExec, WMI, PowerShell
/// remoting, SSH, RDP and this computer, as selected; only this computer
/// when it is the target.
pub open spec fn evidence_methods_of(o: Opts, local: bool) -> Seq<Method> {
    if local {
        seq![Method::Local]
    } else {
        when(o.psexec64 || o.psexec32 || o.all, Method::PsExec) + when(o.wmi || o.all, Method::Wmi)
            + when(o.psrem || o.all, Method::PsRemote) + when(o.ssh, Method::Ssh)
            + when(o.rdp || o.all, Method::Rdp) + when(o.local, Method::Local)
    }
}

/// The methods of the memory image and of the System Volume Information
/// acquisition: 32-bit then 64-bit PsExec, PowerShell remoting, RDP, WMI and
/// this computer, as selected; only this computer when it is the target.
pub open spec fn image_methods_of(o: Opts, local: bool) -> Seq<Method> {
    if local {
        seq![Method::Local]
    } else {
        when(o.psexec32, Method::PsExec32) + when(o.psexec64 || o.all, Method::PsExec64)
            + when(o.psrem || o.all, Method::PsRemote) + when(o.rdp || o.all, Method::Rdp)
            + when(o.wmi || o.all, Method::Wmi) + when(o.local, Method::Local)
    }
}

/// The methods of the registry and event log acquisitions: 32-bit then
/// 64-bit PsExec, PowerShell remoting, WMI, RDP and this computer, as
/// selected; only this computer when it is the target.
pub open spec fn log_methods_of(o: Opts, local: bool) -> Seq<Method> {
    if local {
        seq![Method::Local]
    } else {
        when(o.psexec32, Method::PsExec32) + when(o.psexec64 || o.all, Method::PsExec64)
            + when(o.psrem || o.all, Method::PsRemote) + when(o.wmi || o.all, Method::Wmi)
            + when(o.rdp || o.all, Method::Rdp) + when(o.local, Method::Local)
    }
}

/// The methods that run custom commands: PsExec, PowerShell remoting, SSH,
/// WMI, RDP and this computer, as selected; only this computer when it is
/// the target.
pub open spec fn command_methods_of(o: Opts, local: bool) -> Seq<Method> {
    if local {
        seq![Method::Local]
    } else {
        when(o.psexec64 || o.psexec32 || o.all, Method::PsExec) + when(o.psrem || o.all, Method::PsRemote)
            + when(o.ssh, Method::Ssh) + when(o.wmi || o.all, Method::Wmi)
            + when(o.rdp || o.all, Method::Rdp) + when(o.local, Method::Local)
    }
}

/// The connectors that copy files: 32-bit then 64-bit PsExec, PowerShell
/// remoting, RDP, WMI, SSH (where allowed) and this computer, as selected;
/// only this computer when it is the target.
pub open spec fn connector_methods_of(o: Opts, allowed_ssh: bool, local: bool) -> Seq<Method> {
    if local {
        seq![Method::Local]
    } else {
        when(o.psexec32, Method::PsExec32) + when(o.psexec64 || o.all, Method::PsExec64)
            + when(o.psrem || o.all, Method::PsRemote) + when(o.rdp || o.all, Method::Rdp)
            + when(o.wmi || o.all, Method::Wmi) + when(o.ssh && allowed_ssh, Method::Ssh)
            + when(o.local, Method::Local)
    }
}

/// Appends `m` to `v` when `flag` holds.
fn push_when(v: &mut Vec<Method>, flag: bool, m: Method)
    ensures
        final(v)@ == old(v)@ + when(flag, m),
{
    if flag {
        v.push(m);
    }
    assert(v@ =~= old(v)@ + when(flag, m));
}

/// The methods of the quick evidence acquisition (see `evidence_methods_of`).
pub fn evidence_methods(opts: &Opts, local: bool) -> (res: Vec<Method>)
    ensures
        res@ == evidence_methods_of(*opts, local),
{
    let mut v: Vec<Method> = Vec::new();
    if local {
        v.push(Method::Local);
        assert(v@ =~= seq![Method::Local]);
        return v;
    }
    push_when(&mut v, opts.psexec64 || opts.psexec32 || opts.all, Method::PsExec);
    push_when(&mut v, opts.wmi || opts.all, Method::Wmi);
    push_when(&mut v, opts.psrem || opts.all, Method::PsRemote);
    push_when(&mut v, opts.ssh, Method::Ssh);
    push_when(&mut v, opts.rdp || opts.all, Method::Rdp);
    push_when(&mut v, opts.local, Method::Local);
    assert(v@ =~= evidence_methods_of(*opts, local));
    v
}

/// The methods of the memory image and System Volume Information
/// acquisitions (see `image_methods_of`).
pub fn image_methods(opts: &Opts, local: bool) -> (res: Vec<Method>)
    ensures
        res@ == image_methods_of(*opts, local),
{
    let mut v: Vec<Method> = Vec::new();
    if local {
        v.push(Method::Local);
        assert(v@ =~= seq![Method::Local]);
        return v;
    }
    push_when(&mut v, opts.psexec32, Method::PsExec32);
    push_when(&mut v, opts.psexec64 || opts.all, Method::PsExec64);
    push_when(&mut v, opts.psrem || opts.all, Method::PsRemote);
    push_when(&mut v, opts.rdp || opts.all, Method::Rdp);
    push_when(&mut v, opts.wmi || opts.all, Method::Wmi);
    push_when(&mut v, opts.local, Method::Local);
    assert(v@ =~= image_methods_of(*opts, local));
    v
}

/// The methods of the registry and event log acquisitions (see `log_methods_of`).
pub fn log_methods(opts: &Opts, local: bool) -> (res: Vec<Method>)
    ensures
        res@ == log_methods_of(*opts, local),
{
    let mut v: Vec<Method> = Vec::new();
    if local {
        v.push(Method::Local);
        assert(v@ =~= seq![Method::Local]);
        return v;
    }
    push_when(&mut v, opts.psexec32, Method::PsExec32);
    push_when(&mut v, opts.psexec64 || opts.all, Method::PsExec64);
    push_when(&mut v, opts.psrem || opts.all, Method::PsRemote);
    push_when(&mut v, opts.wmi || opts.all, Method::Wmi);
    push_when(&mut v, opts.rdp || opts.all, Method::Rdp);
    push_when(&mut v, opts.local, Method::Local);
    assert(v@ =~= log_methods_of(*opts, local));
    v
}

/// The methods that run custom commands (see `command_methods_of`).
pub fn command_methods(opts: &Opts, local: bool) -> (res: Vec<Method>)
    ensures
        res@ == command_methods_of(*opts, local),
{
    let mut v: Vec<Method> = Vec::new();
    if local {
        v.push(Method::Local);
        assert(v@ =~= seq![Method::Local]);
        return v;
    }
    push_when(&mut v, opts.psexec64 || opts.psexec32 || opts.all, Method::PsExec);
    push_when(&mut v, opts.psrem || opts.all, Method::PsRemote);
    push_when(&mut v, opts.ssh, Method::Ssh);
    push_when(&mut v, opts.wmi || opts.all, Method::Wmi);
    push_when(&mut v, opts.rdp || opts.all, Method::Rdp);
    push_when(&mut v, opts.local, Method::Local);
    assert(v@ =~= command_methods_of(*opts, local));
    v
}

/// The connectors that copy files (see `connector_methods_of`).
pub fn connector_methods(opts: &Opts, allowed_ssh: bool, local: bool) -> (res: Vec<Method>)
    ensures
        res@ == connector_methods_of(*opts, allowed_ssh, local),
{
    let mut v: Vec<Method> = Vec::new();
    if local {
        v.push(Method::Local);
        assert(v@ =~= seq![Method::Local]);
        return v;
    }
    push_when(&mut v, opts.psexec32, Method::PsExec32);
    push_when(&mut v, opts.psexec64 || opts.all, Method::PsExec64);
    push_when(&mut v, opts.psrem || opts.all, Method::PsRemote);
    push_when(&mut v, opts.rdp || opts.all, Method::Rdp);
    push_when(&mut v, opts.wmi || opts.all, Method::Wmi);
    push_when(&mut v, opts.ssh && allowed_ssh, Method::Ssh);
    push_when(&mut v, opts.local, Method::Local);
    assert(v@ =~= connector_methods_of(*opts, allowed_ssh, local));
    v
}

/// Whether a connector of method `m` reaches the target through a share of
/// this computer: PsExec and PowerShell remoting do when a reverse share is asked for.
pub open spec fn through_reverse_share(m: Method, reverse_share: bool) -> bool {
    reverse_share && (m == Method::PsExec32 || m == Method::PsExec64 || m == Method::PsRemote)
}

/// Whether a connector of method `m` goes through a reverse share (see `through_reverse_share`).
pub fn uses_reverse_share(m: Method, reverse_share: bool) -> (res: bool)
    ensures
        res == through_reverse_share(m, reverse_share),
{
    reverse_share && (m == Method::PsExec32 || m == Method::PsExec64 || m == Method::PsRemote)
}

/// With `--all`, and a remote target, PsExec (64-bit), PowerShell remoting,
/// WMI and RDP are all used to copy files, whatever the other switches say;
/// and every acquisition step uses them too.
pub proof fn law_all_selects_windows_methods(o: Opts, allowed_ssh: bool)
    requires
        o.all,
    ensures
        connector_methods_of(o, allowed_ssh, false).contains(Method::PsExec64),
        connector_methods_of(o, allowed_ssh, false).contains(Method::PsRemote),
        connector_methods_of(o, allowed_ssh, false).contains(Method::Rdp),
        connector_methods_of(o, allowed_ssh, false).contains(Method::Wmi),
        evidence_methods_of(o, false).contains(Method::PsExec),
        evidence_methods_of(o, false).contains(Method::Wmi),
        evidence_methods_of(o, false).contains(Method::PsRemote),
        evidence_methods_of(o, false).contains(Method::Rdp),
        log_methods_of(o, false).contains(Method::PsExec64),
        log_methods_of(o, false).contains(Method::PsRemote),
        log_methods_of(o, false).contains(Method::Wmi),
        log_methods_of(o, false).contains(Method::Rdp),
{
    let c = connector_methods_of(o, allowed_ssh, false);
    let k = when(o.psexec32, Method::PsExec32).len() as int;
    assert(c[k] == Method::PsExec64);
    assert(c[k + 1] == Method::PsRemote);
    assert(c[k + 2] == Method::Rdp);
    assert(c[k + 3] == Method::Wmi);
    let e = evidence_methods_of(o, false);
    assert(e[0] == Method::PsExec);
    assert(e[1] == Method::Wmi);
    assert(e[2] == Method::PsRemote);
    let m = when(o.ssh, Method::Ssh).len() as int;
    assert(e[3 + m] == Method::Rdp);
    let l = log_methods_of(o, false);
    assert(l[k] == Method::PsExec64);
    assert(l[k + 1] == Method::PsRemote);
    assert(l[k + 2] == Method::Wmi);
    assert(l[k + 3] == Method::Rdp);
}

/// When the target is this computer, every step uses this computer alone,
/// whatever the switches say.
pub proof fn law_local_target_is_local_only(o: Opts, allowed_ssh: bool)
    ensures
        evidence_methods_of(o, true) == seq![Method::Local],
        image_methods_of(o, true) == seq![Method::Local],
        log_methods_of(o, true) == seq![Method::Local],
        command_methods_of(o, true) == seq![Method::Local],
        connector_methods_of(o, allowed_ssh, true) == seq![Method::Local],
{
}

/// A step of the acquisition from one computer.
pub enum Stage {
    /// Download this remote file again and delete it.
    ReDownload(String),
    /// Quick evidence: network state, firewall, users, processes.
    Evidence,
    /// Event logs.
    Events,
    /// The custom commands of this file.
    CustomCommands(String),
    /// Registry hives.
    Registry,
    /// The files listed in this file (or the built-in list).
    SearchFiles(String),
    /// A memory image, with the first method that succeeds.
    MemoryImage,
    /// System Volume Information data, with the first method that succeeds.
    SviData,
}

/// The content of a stage.
pub enum StageModel {
    ReDownload(Seq<char>),
    Evidence,
    Events,
    CustomCommands(Seq<char>),
    Registry,
    SearchFiles(Seq<char>),
    MemoryImage,
    SviData,
}

impl View for Stage {
    type V = StageModel;

    open spec fn view(&self) -> StageModel {
        match self {
            Stage::ReDownload(p) => StageModel::ReDownload(p@),
            Stage::Evidence => StageModel::Evidence,
            Stage::Events => StageModel::Events,
            Stage::CustomCommands(p) => StageModel::CustomCommands(p@),
            Stage::Registry => StageModel::Registry,
            Stage::SearchFiles(p) => StageModel::SearchFiles(p@),
            Stage::MemoryImage => StageModel::MemoryImage,
            Stage::SviData => StageModel::SviData,
        }
    }
}

/// The stage `s` when `flag` holds, else nothing.
pub open spec fn stage_when(flag: bool, s: StageModel) -> Seq<StageModel> {
    if flag {
        seq![s]
    } else {
        Seq::empty()
    }
}

/// The stage built from an optional path.
pub open spec fn stage_of_path(p: Option<String>, f: spec_fn(Seq<char>) -> StageModel) -> Seq<StageModel> {
    match p {
        Some(x) => seq![f(x@)],
        None => Seq::empty(),
    }
}

/// The steps of the acquisition from one computer, in order: the download
/// again of a file, quick evidence, event logs, custom commands, registry,
/// listed files, memory image and System Volume Information; the predefined
/// ones (evidence, events, registry) unless switched off.
pub open spec fn stages_of(o: Opts) -> Seq<StageModel> {
    stage_of_path(o.re_download, |p: Seq<char>| StageModel::ReDownload(p))
        + stage_when(!o.disable_evidence_download && !o.disable_predefined_download, StageModel::Evidence)
        + stage_when(!o.disable_event_download && !o.disable_predefined_download, StageModel::Events)
        + stage_of_path(o.custom_command_path, |p: Seq<char>| StageModel::CustomCommands(p))
        + stage_when(!o.disable_registry_download && !o.disable_predefined_download, StageModel::Registry)
        + stage_of_path(o.search_files_path, |p: Seq<char>| StageModel::SearchFiles(p))
        + stage_when(o.image_memory, StageModel::MemoryImage)
        + stage_when(o.acquire_svi_data, StageModel::SviData)
}

/// The views of a sequence of stages.
pub open spec fn stage_views(v: Seq<Stage>) -> Seq<StageModel> {
    v.map_values(|s: Stage| s@)
}

fn push_stage(v: &mut Vec<Stage>, flag: bool, s: Stage)
    ensures
        stage_views(final(v)@) == stage_views(old(v)@) + stage_when(flag, s@),
{
    let ghost sv = s@;
    if flag {
        v.push(s);
    }
    assert(stage_views(v@) =~= stage_views(old(v)@) + stage_when(flag, sv));
}

/// The steps of the acquisition from one computer (see `stages_of`).
pub fn acquisition_stages(opts: &Opts) -> (res: Vec<Stage>)
    ensures
        stage_views(res@) == stages_of(*opts),
{
    let mut v: Vec<Stage> = Vec::new();
    match &opts.re_download {
        Some(p) => push_stage(&mut v, true, Stage::ReDownload(p.clone())),
        None => {},
    }
    push_stage(&mut v, !opts.disable_evidence_download && !opts.disable_predefined_download, Stage::Evidence);
    push_stage(&mut v, !opts.disable_event_download && !opts.disable_predefined_download, Stage::Events);
    match &opts.custom_command_path {
        Some(p) => push_stage(&mut v, true, Stage::CustomCommands(p.clone())),
        None => {},
    }
    push_stage(&mut v, !opts.disable_registry_download && !opts.disable_predefined_download, Stage::Registry);
    match &opts.search_files_path {
        Some(p) => push_stage(&mut v, true, Stage::SearchFiles(p.clone())),
        None => {},
    }
    push_stage(&mut v, opts.image_memory, Stage::MemoryImage);
    push_stage(&mut v, opts.acquire_svi_data, Stage::SviData);
    assert(stage_views(v@) =~= stages_of(*opts));
    v
}

/// Which copier moves downloaded files.
#[derive(PartialEq, Eq, Structural, Clone, Copy)]
pub enum CopierChoice {
    /// Copy from a shadow copy, through 7-Zip archives.
    ShadowCompressed,
    /// Copy through 7-Zip archives.
    Compressed,
    /// Copy from a shadow copy.
    Shadow,
    /// The connector's own copying.
    Plain,
}

/// The copier for downloads: archives unless compression is off, and a
/// shadow copy when one is asked for.
pub open spec fn copier_choice_of(no_compression: bool, shadow: bool) -> CopierChoice {
    if !no_compression && shadow {
        CopierChoice::ShadowCompressed
    } else if !no_compression {
        CopierChoice::Compressed
    } else if shadow {
        CopierChoice::Shadow
    } else {
        CopierChoice::Plain
    }
}

/// The copier for downloads (see `copier_choice_of`).
pub fn download_copier(no_compression: bool, shadow: bool) -> (res: CopierChoice)
    ensures
        res == copier_choice_of(no_compression, shadow),
{
    if !no_compression && shadow {
        CopierChoice::ShadowCompressed
    } else if !no_compression {
        CopierChoice::Compressed
    } else if shadow {
        CopierChoice::Shadow
    } else {
        CopierChoice::Plain
    }
}

/// With the predefined acquisition switched off, neither quick evidence,
/// nor event logs, nor registry hives are acquired.
pub proof fn law_predefined_off(o: Opts)
    requires
        o.disable_predefined_download,
    ensures
        !stages_of(o).contains(StageModel::Evidence),
        !stages_of(o).contains(StageModel::Events),
        !stages_of(o).contains(StageModel::Registry),
{
    let s = stages_of(o);
    assert forall|i: int| 0 <= i < s.len() implies s[i] != StageModel::Evidence && s[i] != StageModel::Events
        && s[i] != StageModel::Registry by {
        let a = stage_of_path(o.re_download, |p: Seq<char>| StageModel::ReDownload(p));
        let b = stage_of_path(o.custom_command_path, |p: Seq<char>| StageModel::CustomCommands(p));
        let c = stage_of_path(o.search_files_path, |p: Seq<char>| StageModel::SearchFiles(p));
        let m = stage_when(o.image_memory, StageModel::MemoryImage);
        let v = stage_when(o.acquire_svi_data, StageModel::SviData);
        assert(s =~= a + b + c + m + v);
        if i < a.len() {
        } else if i < a.len() + b.len() {
        } else if i < a.len() + b.len() + c.len() {
        } else if i < a.len() + b.len() + c.len() + m.len() {
        } else {
        }
    }
}

/// What follows the trial of way `index` of `count` ways tried in order
/// (the selected methods of a memory image, of System Volume Information data
/// or of a file search; the candidates of a file fetched again whole).
#[derive(PartialEq, Eq, Structural, Clone, Copy)]
pub enum Trial {
    /// The trial succeeded: try no other way.
    Done,
    /// The trial failed: try the way of this index.
    Next(usize),
    /// The trial failed and no way is left.
    Exhausted,
}

/// The first success ends the trials; a failure moves to the next way, and
/// after the last way to `Exhausted`.
pub open spec fn trial_after(index: nat, succeeded: bool, count: nat) -> Trial {
    if succeeded {
        Trial::Done
    } else if index + 1 < count {
        Trial::Next((index + 1) as usize)
    } else {
        Trial::Exhausted
    }
}

/// What follows the trial of way `index` of `count` (see `trial_after`).
pub fn next_trial(index: usize, succeeded: bool, count: usize) -> (res: Trial)
    requires
        index < count,
    ensures
        res == trial_after(index as nat, succeeded, count as nat),
{
    if succeeded {
        Trial::Done
    } else if index + 1 < count {
        Trial::Next(index + 1)
    } else {
        Trial::Exhausted
    }
}

/// Ways are tried in order until the first success: a success ends the
/// trials, and a failure leads to the next way while one is left, so every
/// way before the first success has been tried and none after it.
pub proof fn law_first_success_ends_trials(index: nat, count: nat)
    requires
        index < count,
    ensures
        trial_after(index, true, count) == Trial::Done,
        index + 1 < count ==> trial_after(index, false, count) == Trial::Next((index + 1) as usize),
        index + 1 == count ==> trial_after(index, false, count) == Trial::Exhausted,
{
}

} // verus!
