use gargamel::remote::archiver::{
    arrived_copy_path, downloaded_parts, local_archiver, uploaded_parts_cleanup, Archiver, SevenZipArchiver,
    SevenZipCompressCopier,
};
use gargamel::remote::connector::LocalProgramRun;
use gargamel::remote::local::Local;

fn local() -> Local {
    Local::new("bob".to_string(), "C:\\Users\\Public".to_string())
}

#[test]
fn archive_names_are_unique_and_without_spaces() {
    let l = local();
    let a = local_archiver(&l, "D:\\tools".to_string());
    let (archive, run) = a.compress("C:\\a b\\x.txt", false);
    let head = "C:\\Users\\Public\\127-0-0-1_C-ab-x.txt__";
    assert!(archive.starts_with(head));
    assert!(archive.ends_with(".7z"));
    let id = &archive[head.len()..archive.len() - 3];
    assert_eq!(id.len(), 32);
    assert!(id.chars().all(|c| c.is_ascii_hexdigit() && !c.is_ascii_uppercase()));
    assert!(!archive.contains(' '));
    match run {
        LocalProgramRun::Direct { command } => {
            assert_eq!(command, vec!["D:\\tools\\7za.exe".to_string(), "a".to_string(), archive.clone(), "C:\\a b\\x.txt".to_string()]);
        }
        _ => panic!("expected a direct run"),
    }
    let (other, _) = a.compress("C:\\a b\\x.txt", false);
    assert_ne!(archive, other);
}

#[test]
fn archive_path_with_a_given_uuid() {
    let l = local();
    let a = local_archiver(&l, "D:\\tools".to_string());
    assert_eq!(
        a.archive_path_with("C:\\Windows\\*.evtx", "12345678-aaaa-bbbb-cccc-1234567890ab"),
        "C:\\Users\\Public\\127-0-0-1_C-Windows---S--.evtx__12345678aaaabbbbcccc1234567890ab.7z"
    );
}

#[test]
fn seven_zip_commands() {
    assert_eq!(
        SevenZipArchiver::<Local>::compress_command("A.7z", "C:\\logs\\*.evtx", true),
        vec!["7za.exe", "-bd", "-mx5", "-t7z", "-v2m", "a", "A.7z", "C:\\logs\\*.evtx", "-r"]
    );
    assert_eq!(SevenZipArchiver::<Local>::compress_command("A.7z", "C:\\x", false), vec!["7za.exe", "a", "A.7z", "C:\\x"]);
    assert_eq!(
        SevenZipArchiver::<Local>::uncompress_command("E:\\out\\A.7z.001"),
        vec!["7za.exe", "-aoa", "-bd", "e", "E:\\out\\A.7z.001", "-oE:\\out"]
    );
}

#[test]
fn parts_are_cleaned_up_after_unpacking() {
    assert_eq!(downloaded_parts("E:\\out\\A.7z", 3), vec!["E:\\out\\A.7z.003", "E:\\out\\A.7z.002", "E:\\out\\A.7z.001"]);
    assert!(downloaded_parts("E:\\out\\A.7z", 0).is_empty());
    assert_eq!(uploaded_parts_cleanup("C:\\T", "D:\\tmp\\A.7z", 2), vec!["C:\\T\\A.7z.001", "C:\\T\\A.7z.001"]);
    assert_eq!(arrived_copy_path("E:\\out", "C:\\T\\A.7z"), "E:\\out\\A.7z");
}

#[test]
fn compress_copier_delegates_to_its_connector() {
    let l = local();
    let c = SevenZipCompressCopier::new(&l, true, Some(30), false, "D:\\tools".to_string());
    assert_eq!(c.remote_computer().address, "127.0.0.1");
    let d = c.split_download("C:\\T\\A.7z");
    assert_eq!(d.part, 1);
    assert_eq!(c.fetch_archive("C:\\T\\A.7z.001", "E:\\out").len(), 1);
    assert_eq!(c.local_side().localhost.username, "bob");
}
