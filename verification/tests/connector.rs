use gargamel::arg_parser::Opts;
use gargamel::remote::connector::{
    acquire_perms_command, list_dirs_command, mkdir_command, parse_dir_listing, release_perms_command,
    report_file_name, Answers, Computer, Invocation,
};
use gargamel::remote::copier::RemoteFileCopier;
use gargamel::remote::psexec::PsExec;

fn opts() -> Opts {
    Opts {
        computer: "10.0.0.1".to_string(),
        user: None,
        domain: None,
        password: None,
        local_store_directory: "evidence-output".to_string(),
        remote_store_directory: "C:\\Users\\Public".to_string(),
        custom_command_path: None,
        search_files_path: None,
        disable_evidence_download: false,
        disable_registry_download: false,
        disable_event_download: false,
        disable_predefined_download: false,
        all: false,
        wmi: false,
        rdp: false,
        psexec64: false,
        psexec32: false,
        psrem: false,
        ssh: false,
        local: false,
        image_memory: false,
        acquire_svi_data: false,
        timeout: 300,
        kape_config_path: None,
        ssh_key: None,
        nla: false,
        no_compression: false,
        re_download: None,
        par: false,
        share: None,
        reverse_share: false,
        shadow: false,
        disable_log_colors: false,
    }
}

fn no_answers() -> Answers {
    Answers { domain: String::new(), user: String::new(), password: None }
}

#[test]
fn computer_from_options() {
    let o = Opts {
        user: Some("alice".to_string()),
        domain: Some("CORP".to_string()),
        password: Some("pw".to_string()),
        ..opts()
    };
    let p = Computer::opts_prompts(&o);
    assert!(!p.domain && !p.user && !p.password);
    let c = Computer::from_opts(&o, &no_answers());
    assert_eq!(c.address, "10.0.0.1");
    assert_eq!(c.username, "alice");
    assert_eq!(c.domain, Some("CORP".to_string()));
    assert_eq!(c.password, Some("pw".to_string()));
    assert_eq!(c.domain_username(), "CORP\\alice");
}

#[test]
fn empty_user_and_password_mean_none() {
    let o = Opts { user: Some(String::new()), domain: Some("CORP".to_string()), password: Some(String::new()), ..opts() };
    let c = Computer::from_opts(&o, &no_answers());
    assert_eq!(c.username, "");
    assert_eq!(c.domain, None);
    assert_eq!(c.password, None);
}

#[test]
fn this_computer_needs_no_password() {
    let o = Opts { computer: "localhost".to_string(), user: Some("bob".to_string()), ..opts() };
    let p = Computer::opts_prompts(&o);
    assert!(!p.password);
    let c = Computer::from_opts(&o, &no_answers());
    assert_eq!(c.address, "127.0.0.1");
    assert_eq!(c.password, None);
    assert_eq!(c.domain, None);
}

#[test]
fn answers_fill_what_was_asked() {
    let o = opts();
    let p = Computer::opts_prompts(&o);
    assert!(p.domain && p.user && p.password);
    let a = Answers { domain: " \n".to_string(), user: "eve\n".to_string(), password: Some("s".to_string()) };
    let c = Computer::from_opts(&o, &a);
    assert_eq!(c.domain, None);
    assert_eq!(c.username, "eve\n");
    assert_eq!(c.password, Some("s".to_string()));
}

#[test]
fn computer_list_lines() {
    let o = opts();
    assert!(Computer::is_listed(" 10.0.0.5 "));
    assert!(!Computer::is_listed("  \t"));
    let c = Computer::from_line(&o, "10.0.0.5 CORP\\bob secret", &no_answers());
    assert_eq!(c.address, "10.0.0.5");
    assert_eq!(c.domain, Some("CORP".to_string()));
    assert_eq!(c.username, "bob");
    assert_eq!(c.password, Some("secret".to_string()));
    let o2 = Opts { domain: Some("D".to_string()), password: Some("  ".to_string()), ..opts() };
    let p = Computer::line_prompts(&o2, "10.0.0.6 carol");
    assert!(!p.domain && !p.user && !p.password);
    let c = Computer::from_line(&o2, "10.0.0.6 carol", &no_answers());
    assert_eq!(c.domain, Some("D".to_string()));
    assert_eq!(c.username, "carol");
    assert_eq!(c.password, None);
    let p = Computer::line_prompts(&o, "10.0.0.7");
    assert!(p.domain && p.user && p.password);
}

#[test]
fn report_names_and_commands() {
    let c = Computer {
        address: "10.0.0.1".to_string(),
        username: "bob smith".to_string(),
        domain: None,
        password: None,
    };
    assert_eq!(report_file_name(&c, "firewall-status", "WMI", "txt"), "WMI-firewall-status-10-0-0-1-bobsmith.txt");
    assert_eq!(mkdir_command("C:\\x"), vec!["cmd.exe", "/c", "md", "C:\\x"]);
    assert_eq!(list_dirs_command("C:\\x"), vec!["cmd.exe", "/c", "dir", "C:\\x", "/Ad", "/B"]);
    assert_eq!(acquire_perms_command("bob", "C:\\x"), vec!["cmd.exe", "/c", "icacls.exe", "C:\\x", "/grant", "bob:F"]);
    assert_eq!(release_perms_command("bob", "C:\\x"), vec!["cmd.exe", "/c", "icacls.exe", "C:\\x", "/deny", "bob:F"]);
    let listed = parse_dir_listing(&vec![" a ".to_string(), "".to_string(), "b".to_string()]);
    assert_eq!(listed, vec!["a", "b"]);
}

fn args_of(i: &Invocation) -> (String, Vec<String>) {
    match i {
        Invocation::Run { program, args } => (program.clone(), args.clone()),
        _ => panic!("expected a plain run"),
    }
}

#[test]
fn share_connection_is_opened_once_and_closed() {
    let computer = Computer {
        address: "10.0.0.5".to_string(),
        username: "bob".to_string(),
        domain: Some("CORP".to_string()),
        password: Some("pw".to_string()),
    };
    let p = PsExec::psexec64(computer.duplicate(), "C:\\Temp".to_string(), None);
    let open = p.open_session();
    assert_eq!(open.len(), 1);
    assert_eq!(
        args_of(&open[0]),
        ("NET".to_string(), vec!["USE".to_string(), "\\\\10.0.0.5".to_string(), "/u:CORP\\bob".to_string(), "pw".to_string()])
    );
    let close = p.close_session();
    assert_eq!(args_of(&close[0]), ("NET".to_string(), vec!["USE".to_string(), "\\\\10.0.0.5".to_string(), "/D".to_string()]));
    assert_eq!(p.copy_from_remote("C:\\a.txt", "out").len(), 1);
    assert_eq!(p.delete_remote_file("C:\\a.txt").len(), 1);
    let shared = PsExec::psexec64(computer, "C:\\Temp".to_string(), Some("D".to_string()));
    assert!(shared.open_session().is_empty());
    assert!(shared.close_session().is_empty());
}
