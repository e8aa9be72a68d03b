use gargamel::remote_computer::{Local, PsExec, RemoteComputer, RemoteComputerConnector, Wmi};

fn rc() -> RemoteComputer {
    RemoteComputer { address: "10.0.0.1".to_string(), username: "u".to_string(), password: "p".to_string() }
}

#[test]
fn paexec_runs_the_command_with_a_redirect() {
    let c = PsExec {};
    assert_eq!(c.connect_method_name(), "PAEXEC");
    let prepared = c.connect_and_run_command(&rc(), "out.txt".to_string(), vec!["ipconfig".to_string()]);
    assert_eq!(prepared.program_path, "cmd.exe");
    assert_eq!(
        prepared.all_program_args,
        vec!["/c", "paexec.exe", "\\\\10.0.0.1", "-u", "u", "-p", "p", "ipconfig", ">", "out.txt"]
    );
}

#[test]
fn wmic_takes_options_before_the_command() {
    let c = Wmi {};
    assert_eq!(c.connect_method_name(), "WMI");
    let prepared = c.connect_and_run_command(&rc(), "out.txt".to_string(), vec!["os".to_string(), "get".to_string()]);
    assert_eq!(
        prepared.all_program_args,
        vec!["/c", "wmic.exe", "/OUTPUT:out.txt", "/NODE:10.0.0.1", "/USER:u", "/PASSWORD:p", "os", "get"]
    );
}

#[test]
fn local_has_no_prefix() {
    let c = Local {};
    assert_eq!(c.connect_method_name(), "LOCAL");
    assert!(c.prefix_connector_arguments(&rc(), "x".to_string()).is_empty());
    let prepared = c.prepare_remote_process(vec![], vec!["dir".to_string()], vec![]);
    assert_eq!(prepared.all_program_args, vec!["/c", "dir"]);
}
