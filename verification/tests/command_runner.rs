use gargamel::command_runner::{command_line, report_prefix, CommandLine, CommandRunner};
use gargamel::remote::connector::Computer;

fn run_of(line: CommandLine) -> (Vec<String>, bool, String) {
    match line {
        CommandLine::Run { command, elevated, report_prefix } => (command, elevated, report_prefix),
        _ => panic!("expected a command to run"),
    }
}

#[test]
fn selector_limits_a_command_to_the_methods_it_names() {
    let (command, elevated, prefix) = run_of(command_line(":psexec:wmi ipconfig -all", "wmi", true));
    assert_eq!(command, vec!["ipconfig -all".to_string()]);
    assert!(!elevated);
    assert_eq!(prefix, "custom-ipconfig--all");
    assert!(matches!(command_line(":psexec:wmi ipconfig -all", "rdp", true), CommandLine::Skipped));
    assert!(matches!(command_line(":PSEXEC ipconfig", "psexec", false), CommandLine::Run { .. }));
}

#[test]
fn admin_and_sudo_selectors_elevate() {
    let (command, elevated, prefix) = run_of(command_line(":admin:wmi net session", "wmi", true));
    assert_eq!(command, vec!["net session".to_string()]);
    assert!(elevated);
    assert_eq!(prefix, "custom-net-session");
    let (_, elevated, _) = run_of(command_line("  :sudo:ssh ls", "ssh", false));
    assert!(elevated);
}

#[test]
fn comments_and_empty_lines_are_skipped() {
    assert!(matches!(command_line("# ipconfig", "wmi", true), CommandLine::Skipped));
    assert!(matches!(command_line("", "wmi", true), CommandLine::Skipped));
}

#[test]
fn blank_line_names_no_command() {
    assert!(matches!(command_line("   ", "wmi", true), CommandLine::NoCommand));
}

#[test]
fn lines_without_selector_run_only_where_implicit() {
    let (command, elevated, prefix) = run_of(command_line("whoami", "wmi", true));
    assert_eq!(command, vec!["whoami".to_string()]);
    assert!(!elevated);
    assert_eq!(prefix, "custom-whoami");
    let (command, _, _) = run_of(command_line("whoami", "ssh", true));
    assert_eq!(command, vec!["whoami".to_string()]);
}

#[test]
fn report_prefix_is_cleaned_and_cut() {
    let words = vec!["\"C:\\a b\"".to_string(), "x/y:z".to_string()];
    assert_eq!(report_prefix(&words), Some("custom-C-a-b-xy-z".to_string()));
    let long = vec!["a".repeat(150)];
    assert_eq!(report_prefix(&long), Some(format!("custom-{}", "a".repeat(100))));
    let exact = vec!["a".repeat(100)];
    assert_eq!(report_prefix(&exact), Some(format!("custom-{}", "a".repeat(100))));
    let p = report_prefix(&vec!["a b:c\\d/e\"f".to_string()]).unwrap();
    assert!(!p.contains(' ') && !p.contains(':') && !p.contains('\\') && !p.contains('/') && !p.contains('"'));
}

#[test]
fn runner_reads_a_command_file() {
    let computer = Computer {
        address: "10.0.0.1".to_string(),
        username: "bob".to_string(),
        domain: None,
        password: Some("pw".to_string()),
    };
    let runner = CommandRunner::wmi(computer, "E:\\out".to_string(), "C:\\Temp".to_string());
    let lines = vec!["# c".to_string(), ":wmi hostname".to_string(), ":rdp dir".to_string(), "ver".to_string()];
    let plan = runner.run_commands(&lines);
    assert_eq!(plan.len(), 4);
    assert!(matches!(plan[0], CommandLine::Skipped));
    assert!(matches!(plan[1], CommandLine::Run { .. }));
    assert!(matches!(plan[2], CommandLine::Skipped));
    assert!(matches!(plan[3], CommandLine::Run { .. }));
    assert_eq!(runner.report_path("custom-ver"), "E:\\out\\WMI-custom-ver-10-0-0-1-bob.txt");
}

#[test]
fn report_prefix_is_cut_at_one_hundred_bytes() {
    let two_byte = vec!["\u{e9}".repeat(60)];
    assert_eq!(report_prefix(&two_byte), Some(format!("custom-{}", "\u{e9}".repeat(50))));
    let shifted = vec![format!("a{}", "\u{e9}".repeat(60))];
    assert_eq!(report_prefix(&shifted), None);
    assert!(matches!(
        command_line(&format!(":wmi a{}", "\u{e9}".repeat(60)), "wmi", true),
        CommandLine::BadReportName
    ));
}

#[test]
fn ssh_runner_runs_untagged_commands() {
    let computer = Computer {
        address: "10.0.0.2".to_string(),
        username: "alice".to_string(),
        domain: None,
        password: None,
    };
    let runner = CommandRunner::ssh(computer, "out".to_string(), None);
    let lines = vec!["# Will be run using any method".to_string(), "ipconfig".to_string()];
    let plan = runner.run_commands(&lines);
    assert!(matches!(plan[0], CommandLine::Skipped));
    let (command, elevated, _) = run_of(plan.into_iter().nth(1).unwrap());
    assert_eq!(command, vec!["ipconfig".to_string()]);
    assert!(!elevated);
}
