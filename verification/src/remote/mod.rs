pub mod connector;
pub mod copier;
pub mod local;
pub mod psexec;
pub mod psremote;
pub mod rdp;
pub mod ssh;
pub mod wmi;
pub mod reverse_share_connector;
pub mod utils;
pub mod download;
pub mod archiver;
pub mod powershell;
pub mod shadow_copier;
