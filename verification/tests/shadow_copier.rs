use gargamel::remote::local::Local;
use gargamel::remote::shadow_copier::{
    create_shadow_command, link_command, list_shadows_command, shadow_link_with, shadow_volume, unlink_command,
    ShadowCopier, VolumeLookup,
};

fn lines(v: &[&str]) -> Vec<String> {
    v.iter().map(|s| s.to_string()).collect()
}

#[test]
fn newest_volume_is_found() {
    let listing = lines(&[
        "Contents of shadow copy set ID: {1}",
        "   Shadow Copy Volume: \\\\?\\GLOBALROOT\\Device\\HarddiskVolumeShadowCopy1",
        "Contents of shadow copy set ID: {2}",
        "   Shadow Copy Volume: \\\\?\\GLOBALROOT\\Device\\HarddiskVolumeShadowCopy2",
        "   Originating Machine: host",
    ]);
    match shadow_volume(&listing) {
        VolumeLookup::Found(v) => assert_eq!(v, "\\\\?\\GLOBALROOT\\Device\\HarddiskVolumeShadowCopy2"),
        _ => panic!("expected a volume"),
    }
    assert!(matches!(shadow_volume(&lines(&["nothing here"])), VolumeLookup::Missing));
    assert!(matches!(shadow_volume(&Vec::new()), VolumeLookup::Missing));
    assert!(matches!(shadow_volume(&lines(&["Shadow Copy Volume:"])), VolumeLookup::Malformed));
    assert!(matches!(shadow_volume(&lines(&["Shadow Copy Volume"])), VolumeLookup::Found(v) if v == "adow Copy Volume"));
}

#[test]
fn shadow_commands() {
    assert_eq!(
        create_shadow_command(),
        vec!["cmd.exe", "/c", "powershell.exe", "-Command", "(gwmi -list win32_shadowcopy).Create('C:\\','ClientAccessible')"]
    );
    assert_eq!(list_shadows_command(), vec!["cmd.exe", "/c", "vssadmin", "list", "shadows"]);
    assert_eq!(link_command("L", "V\\"), vec!["cmd.exe", "/c", "mklink", "/d", "L", "V\\"]);
    assert_eq!(unlink_command("L"), vec!["cmd.exe", "/c", "rmdir", "L"]);
    assert_eq!(shadow_link_with("C:\\Temp", "12345678-aaaa-bbbb-cccc-1234567890ab"), "C:\\Temp\\12345678aaaabbbbcccc1234567890ab");
}

#[test]
fn files_under_c_are_read_from_the_link() {
    let l = Local::new("bob".to_string(), "C:\\Temp".to_string());
    let s = ShadowCopier::new(&l, "C:\\Temp\\abc".to_string());
    assert_eq!(s.shadow_source("C:\\Windows\\x.dat"), "C:\\Temp\\abc\\Windows\\x.dat");
    assert_eq!(s.shadow_source("D:\\x.dat"), "D:\\x.dat");
}
