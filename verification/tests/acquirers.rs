use gargamel::edb_acquirer::EdbAcquirer;
use gargamel::events_acquirer::EventsAcquirer;
use gargamel::evidence_acquirer::EvidenceAcquirer;
use gargamel::large_evidence_acquirer::FetchHow;
use gargamel::memory_acquirer::MemoryAcquirer;
use gargamel::registry_acquirer::RegistryAcquirer;
use gargamel::remote::archiver::Compression;
use gargamel::remote::connector::{Computer, Invocation, LocalProgramRun};
use gargamel::svi_data_acquirer::SystemVolumeInformationAcquirer;

fn computer() -> Computer {
    Computer {
        address: "10.0.0.1".to_string(),
        username: "bob".to_string(),
        domain: None,
        password: Some("pw".to_string()),
    }
}

fn run_args(i: &Invocation) -> Vec<String> {
    match i {
        Invocation::Run { program, args } => {
            assert_eq!(program, "cmd.exe");
            args.clone()
        }
        _ => panic!("expected a run"),
    }
}

#[test]
fn quick_evidence_steps_in_order() {
    let a = EvidenceAcquirer::wmi(computer(), "E:\\out".to_string(), "C:\\Temp".to_string());
    let steps = a.run_all();
    let prefixes: Vec<&str> = steps.iter().map(|s| s.report_prefix.as_str()).collect();
    assert_eq!(
        prefixes,
        vec!["firewall-status", "network-status", "active-network-connections", "running-processes", "logged-users"]
    );
    assert_eq!(steps[0].command, vec!["netsh", "advfirewall", "show", "allprofiles", "state"]);
    assert_eq!(steps[1].command, vec!["ipconfig", "/all"]);
    assert_eq!(a.report_path("network-status"), "E:\\out\\WMI-network-status-10-0-0-1-bob.txt");
}

#[test]
fn linux_evidence_commands() {
    let a = EvidenceAcquirer::ssh(computer(), "E:\\out".to_string(), None);
    assert_eq!(a.firewall_state_command, Some(vec!["echo pw | sudo -S iptables -L".to_string()]));
    let steps = a.run_all();
    assert_eq!(steps.len(), 5);
    assert_eq!(steps[3].command, vec!["ps aux"]);
}

#[test]
fn empty_commands_are_left_out() {
    let mut a = EvidenceAcquirer::local("bob".to_string(), "E:\\out".to_string(), "C:\\Temp".to_string());
    a.network_state_command = Some(vec![]);
    a.logged_users_command = None;
    assert_eq!(a.run_all().len(), 3);
    assert!(a.network_state().is_none());
}

#[test]
fn event_logs_are_exported_and_fetched() {
    let a = EventsAcquirer::local("bob".to_string(), "E:\\out".to_string(), "C:\\Temp".to_string());
    let (system, application) = a.acquire();
    let system = system.expect("system log");
    assert_eq!(system.report_path, "E:\\out\\LOCAL-events-system-127-0-0-1-bob.evtx");
    assert_eq!(system.remote_report_path, "C:\\Temp\\LOCAL-events-system-127-0-0-1-bob.evtx");
    assert_eq!(
        run_args(&system.run),
        vec!["/c", "wevtutil", "epl", "system", "C:\\Temp\\LOCAL-events-system-127-0-0-1-bob.evtx", "/ow:true"]
    );
    assert_eq!(system.pause_after_run_secs, 10);
    assert_eq!(system.pause_after_fetch_secs, 2);
    assert!(matches!(system.fetch, FetchHow::Plain(_)));
    assert_eq!(system.delete.len(), 1);
    assert!(application.is_some());
    let w = EventsAcquirer::wmi("E:\\out".to_string(), computer(), 300, false, "C:\\Temp".to_string());
    assert!(w.compression == Compression::YesSplit);
    assert!(matches!(w.acquire().0.unwrap().fetch, FetchHow::Compressed { split: true }));
}

#[test]
fn registry_hives_in_order() {
    let a = RegistryAcquirer::local("bob".to_string(), "E:\\out".to_string(), "C:\\Temp".to_string());
    let runs = a.acquire();
    assert_eq!(runs.len(), 5);
    let first = runs[0].as_ref().unwrap();
    assert_eq!(
        run_args(&first.run),
        vec!["/c", "reg", "export", "HKLM", "C:\\Temp\\LOCAL-registry-hklm-127-0-0-1-bob.txt", "/y"]
    );
    let second = runs[1].as_ref().unwrap();
    assert_eq!(second.report_path, "E:\\out\\LOCAL-registry-hku-127-0-0-1-bob.txt");
    let p = RegistryAcquirer::psexec64("E:\\out".to_string(), computer(), true, "C:\\Temp".to_string(), None);
    assert!(p.compression == Compression::No);
}

#[test]
fn memory_image_plan() {
    let a = MemoryAcquirer::local("bob".to_string(), "E:\\out".to_string(), "C:\\Temp".to_string());
    let plan = a.image_memory("D:\\tools");
    assert_eq!(plan.target, "C:\\Temp\\LOCAL-mem-image-127-0-0-1-bob.aff4");
    match plan.image {
        LocalProgramRun::Direct { command } => assert_eq!(
            command,
            vec!["D:\\tools\\winpmem.exe", "--format", "map", "-t", "-o", "C:\\Temp\\LOCAL-mem-image-127-0-0-1-bob.aff4"]
        ),
        _ => panic!("expected a direct run"),
    }
    assert_eq!(plan.pause_secs, 1);
    assert_eq!(plan.delete_program.len(), 1);
    assert_eq!(plan.delete_image.len(), 1);
}

#[test]
fn system_volume_information_plan() {
    let a = SystemVolumeInformationAcquirer::local("bob".to_string(), "E:\\out".to_string(), "C:\\Temp".to_string());
    let plan = a.download_data();
    assert_eq!(
        run_args(&plan.grant),
        vec!["/c", "cmd.exe", "/c", "icacls.exe", "C:\\System Volume Information", "/grant", "bob:F"]
    );
    assert_eq!(plan.pause_after_grant_secs, 5);
    assert_eq!(plan.pause_after_fetch_secs, 25);
    assert_eq!(
        run_args(&plan.deny),
        vec!["/c", "cmd.exe", "/c", "icacls.exe", "C:\\System Volume Information", "/deny", "bob:F"]
    );
}

#[test]
fn search_index_steps() {
    let a = EdbAcquirer::local("bob".to_string(), "E:\\out".to_string(), "C:\\Temp".to_string());
    let link = a.new_link();
    assert!(link.starts_with("C:\\"));
    assert_eq!(link.len(), 3 + 32);
    assert!(link[3..].chars().all(|c| c.is_ascii_hexdigit() && !c.is_ascii_uppercase()));
    assert_ne!(a.new_link(), link);
    assert_eq!(
        EdbAcquirer::<gargamel::remote::local::Local>::edb_path("C:\\x"),
        "C:\\x\\ProgramData\\Microsoft\\Search\\Data\\Applications\\Windows\\Windows.edb"
    );
    assert_eq!(a.step_report("VSS_RESULT"), "E:\\out\\LOCAL-VSS_RESULT-127-0-0-1-bob.txt");
    match a.create_shadow("D:\\tools") {
        LocalProgramRun::Direct { command } => assert_eq!(command[0], "D:\\tools\\cmd.exe"),
        _ => panic!("expected a direct run"),
    }
}
