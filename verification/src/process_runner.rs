//! The processes that the acquisition starts, and where their reports go.

use vstd::prelude::*;
use crate::text::{views, owned};
use crate::winpath::{path_joined, join_path};
use crate::remote::connector::{Computer, Invocation, Plan, report_name, report_file_name};

verus! {

/// How `command_name` is started: waited for, or for at most `wait_for` seconds.
pub open spec fn maybe_timed(command_name: Seq<char>, command_args: Seq<Seq<char>>, wait_for: Option<u64>) -> Plan {
    match wait_for {
        None => Plan::Run { program: command_name, args: command_args },
        Some(t) => Plan::RunTimed { program: command_name, args: command_args, timeout_secs: t },
    }
}

/// The start of `command_name` with `command_args`, waited for until it ends,
/// or for at most `wait_for` seconds (see `maybe_timed`).
pub fn run_process_blocking_maybe_timed(command_name: &str, command_args: Vec<String>, wait_for: Option<u64>) -> (res: Invocation)
    ensures
        res@ == maybe_timed(command_name@, views(command_args@), wait_for),
{
    match wait_for {
        None => Invocation::Run { program: owned(command_name), args: command_args },
        Some(t) => Invocation::RunTimed { program: owned(command_name), args: command_args, timeout_secs: t },
    }
}

/// The path of the text report of a command run on `remote_computer` with the
/// method `method_name`: the report name (see `report_name`) with extension
/// `txt`, in `store_directory`.
pub fn create_report_path(
    remote_computer: &Computer,
    store_directory: &str,
    filename_prefix: &str,
    method_name: &str,
) -> (res: String)
    ensures
        res@ == path_joined(store_directory@, report_name(*remote_computer, filename_prefix@, method_name@, "txt"@)),
{
    let name = report_file_name(remote_computer, filename_prefix, method_name, "txt");
    join_path(store_directory, name.as_str())
}

} // verus!
