//! Running commands with PowerShell remoting, given the computer at each call.

use vstd::prelude::*;
use crate::text::views;
use crate::remote::connector::{Computer, opt_str_view};
use crate::remote::psremote::{psremote_prepared, powershell_command};

verus! {

/// PowerShell remoting as a stand-alone way of running commands: the
/// computer is given with each command.
pub struct PowerShell {}

impl PowerShell {
    /// The name of the method.
    pub fn connect_method_name(&self) -> (res: &'static str)
        ensures
            res@ == "PSREM"@,
    {
        "PSREM"
    }

    /// The PowerShell command line that runs `command` on `remote_computer`,
    /// its output going to `output_file_path` when one is given.
    pub fn prepare_command(
        &self,
        remote_computer: &Computer,
        command: Vec<String>,
        output_file_path: Option<&str>,
    ) -> (res: Vec<String>)
        ensures
            views(res@) == psremote_prepared(*remote_computer, views(command@), opt_str_view(output_file_path)),
    {
        powershell_command(remote_computer, command, output_file_path)
    }
}

} // verus!
