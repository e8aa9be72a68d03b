use gargamel::process_runner::{create_report_path, run_process_blocking_maybe_timed};
use gargamel::remote::connector::{Computer, Invocation};
use gargamel::remote::utils::path_to_part;
use gargamel::utils::{path_join_to_string_ntfs, Quoted};

#[test]
fn paths_become_single_file_names() {
    assert_eq!(path_join_to_string_ntfs("C:\\Users\\*\\NTUSER.DAT"), "C-Users---S---NTUSER.DAT");
    assert_eq!(path_join_to_string_ntfs("C:/a?b"), "C-a--Q--b");
    let n = path_join_to_string_ntfs("C:\\a/b*c?d:e");
    assert!(!n.contains('\\') && !n.contains('/') && !n.contains('*') && !n.contains('?') && !n.contains(':'));
}

#[test]
fn text_is_quoted() {
    assert_eq!("a b".quoted(), "\"a b\"");
}

#[test]
fn parts_have_three_digits_at_least() {
    assert_eq!(path_to_part("x.7z", 1), "x.7z.001");
    assert_eq!(path_to_part("x.7z", 42), "x.7z.042");
    assert_eq!(path_to_part("x.7z", 123), "x.7z.123");
    assert_eq!(path_to_part("x.7z", 1234), "x.7z.1234");
}

#[test]
fn processes_wait_or_time_out() {
    match run_process_blocking_maybe_timed("ping", vec!["x".to_string()], Some(5)) {
        Invocation::RunTimed { program, args, timeout_secs } => {
            assert_eq!(program, "ping");
            assert_eq!(args, vec!["x"]);
            assert_eq!(timeout_secs, 5);
        }
        _ => panic!("expected a timed run"),
    }
    assert!(matches!(run_process_blocking_maybe_timed("ping", vec![], None), Invocation::Run { .. }));
}

#[test]
fn report_paths() {
    let c = Computer { address: "10.0.0.1".to_string(), username: "bob".to_string(), domain: None, password: None };
    assert_eq!(create_report_path(&c, "E:\\out", "mem", "WMI"), "E:\\out\\WMI-mem-10-0-0-1-bob.txt");
    assert_eq!(create_report_path(&c, "E:\\out\\", "mem", "WMI"), "E:\\out\\WMI-mem-10-0-0-1-bob.txt");
}
