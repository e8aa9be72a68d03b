use gargamel::embedded_search_list::embedded_search_list;
use gargamel::file_acquirer::{
    download_all, download_file, download_files, download_files_from_embedded, download_files_from_path,
    download_targets, separate_store_name, FileList, ListEntry,
};
use gargamel::kape_handler::{JSONTarget, TKapeEntry};
use gargamel::remote::connector::Invocation;
use gargamel::remote::local::Local;

fn local() -> Local {
    Local::new("bob".to_string(), "C:\\Temp".to_string())
}

#[test]
fn embedded_list_has_eighteen_paths() {
    let list = embedded_search_list();
    assert_eq!(list.len(), 18);
    assert_eq!(list[0], "C:\\Windows\\System32\\winevt\\Logs\\*.evtx");
    assert_eq!(list[17], "C:\\ProgramData\\Microsoft\\Search\\Data\\Applications\\Windows\\Windows.edb");
}

#[test]
fn separate_store_names_are_plain() {
    assert_eq!(separate_store_name("C:\\Users\\*\\NTUSER.DAT"), "C-Users---S---NTUSER.DAT");
    assert_eq!(separate_store_name("C:/Program Files/a?.txt"), "C-ProgramFiles-a--Q--.txt");
}

#[test]
fn commented_paths_are_not_downloaded() {
    let l = local();
    assert!(download_file("# C:\\x", "E:\\out", &l, false).is_none());
}

#[test]
fn download_goes_to_own_directory_when_stores_are_separate() {
    let l = local();
    let d = download_file("C:\\a\\b.txt", "E:\\out", &l, true).expect("not a comment");
    assert_eq!(d.store_directory, "E:\\out\\C-a-b.txt");
    assert!(d.create_store);
    assert_eq!(d.steps.len(), 1);
    match &d.steps[0] {
        Invocation::Run { program, args } => {
            assert_eq!(program, "xcopy");
            assert_eq!(args[5], "C:\\a\\b.txt");
            assert_eq!(args[6], "E:\\out\\C-a-b.txt");
        }
        _ => panic!("expected a plain run"),
    }
    let d = download_file("C:\\a\\b.txt", "E:\\out", &l, false).expect("not a comment");
    assert_eq!(d.store_directory, "E:\\out");
    assert!(!d.create_store);
}

#[test]
fn lists_keep_order_and_drop_comments() {
    let l = local();
    let paths = vec!["C:\\a".to_string(), "#C:\\b".to_string(), "C:\\c".to_string()];
    let ds = download_all(&paths, "E:\\out", &l, false);
    assert_eq!(ds.len(), 2);
    assert_eq!(download_files_from_embedded("E:\\out", &l, false).len(), 18);
}

#[test]
fn list_source_and_entries() {
    assert!(matches!(download_files("EMBEDDED"), FileList::Embedded));
    assert!(matches!(download_files("list.txt"), FileList::ListFile(p) if p == "list.txt"));
    let entries = download_files_from_path(&vec!["C:\\x".to_string(), "t\\a.tkape".to_string()]);
    assert!(matches!(&entries[0], ListEntry::Remote(p) if p == "C:\\x"));
    assert!(matches!(&entries[1], ListEntry::TargetFile(p) if p == "t\\a.tkape"));
}

#[test]
fn targets_of_a_target_file_are_downloaded() {
    let l = local();
    let target = |path: &str| JSONTarget {
        name: String::new(),
        comment: String::new(),
        category: String::new(),
        path: path.to_string(),
        file_mask: String::new(),
        recursive: false,
    };
    let entry = TKapeEntry {
        description: String::new(),
        recreate_directories: false,
        targets: vec![target("C:\\a"), target("# skip"), target("C:\\b")],
    };
    let ds = download_targets(&entry, "E:\\out", &l, false);
    assert_eq!(ds.len(), 2);
}
