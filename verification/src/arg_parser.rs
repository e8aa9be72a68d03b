//! The options of the acquisition tool.

use vstd::prelude::*;

verus! {

/// The options of an acquisition run.
pub struct Opts {
    /// Remote computer address or name, or a file listing them one per line.
    pub computer: String,
    /// Remote user name.
    pub user: Option<String>,
    /// Remote Windows domain.
    pub domain: Option<String>,
    /// Remote user password; an empty one means none.
    pub password: Option<String>,
    /// Local directory that stores the evidence.
    pub local_store_directory: String,
    /// Remote directory used as temporary storage (Windows targets only).
    pub remote_store_directory: String,
    /// File with custom commands to run on the remote computer.
    pub custom_command_path: Option<String>,
    /// File with the names of files to search for on the remote computer.
    pub search_files_path: Option<String>,
    /// No acquisition of quick evidence (network state, firewall, ...).
    pub disable_evidence_download: bool,
    /// No registry acquisition.
    pub disable_registry_download: bool,
    /// No event log acquisition.
    pub disable_event_download: bool,
    /// No predefined acquisition at all (evidence, events, registry).
    pub disable_predefined_download: bool,
    /// Every Windows method: PsExec, PowerShell remoting, WMI and RDP.
    pub all: bool,
    /// Acquisition through WMI.
    pub wmi: bool,
    /// Acquisition through RDP.
    pub rdp: bool,
    /// Acquisition through 64-bit PsExec.
    pub psexec64: bool,
    /// Acquisition through 32-bit PsExec.
    pub psexec32: bool,
    /// Acquisition through PowerShell remoting.
    pub psrem: bool,
    /// Acquisition from a Linux computer through SSH.
    pub ssh: bool,
    /// Acquisition on the local computer as well.
    pub local: bool,
    /// A memory image of the target.
    pub image_memory: bool,
    /// Acquisition of the System Volume Information data.
    pub acquire_svi_data: bool,
    /// Timeout in seconds for long-running operations.
    pub timeout: u64,
    /// Directory of KAPE configuration files to convert.
    pub kape_config_path: Option<String>,
    /// SSH private key file (Linux targets only).
    pub ssh_key: Option<String>,
    /// Network level authentication for RDP.
    pub nla: bool,
    /// No 7-Zip compression of what is downloaded.
    pub no_compression: bool,
    /// A remote file to download again and delete.
    pub re_download: Option<String>,
    /// Several computers at the same time.
    pub par: bool,
    /// A share folder of the remote computer to copy through.
    pub share: Option<String>,
    /// Copying through a share of this computer that the remote one opens.
    pub reverse_share: bool,
    /// Copying locked files from a shadow copy.
    pub shadow: bool,
    /// No colors in the log on the terminal.
    pub disable_log_colors: bool,
}

} // verus!
