use gargamel::arg_parser::Opts;
use gargamel::methods::{
    acquisition_stages, command_methods, connector_methods, download_copier, evidence_methods, image_methods,
    is_local_target, log_methods, uses_reverse_share, CopierChoice, Method, Stage,
};

fn opts() -> Opts {
    Opts {
        computer: "10.0.0.1".to_string(),
        user: None,
        domain: None,
        password: None,
        local_store_directory: "evidence-output".to_string(),
        remote_store_directory: "C:\\Users\\Public".to_string(),
        custom_command_path: None,
        search_files_path: None,
        disable_evidence_download: false,
        disable_registry_download: false,
        disable_event_download: false,
        disable_predefined_download: false,
        all: false,
        wmi: false,
        rdp: false,
        psexec64: false,
        psexec32: false,
        psrem: false,
        ssh: false,
        local: false,
        image_memory: false,
        acquire_svi_data: false,
        timeout: 300,
        kape_config_path: None,
        ssh_key: None,
        nla: false,
        no_compression: false,
        re_download: None,
        par: false,
        share: None,
        reverse_share: false,
        shadow: false,
        disable_log_colors: false,
    }
}

#[test]
fn all_means_psexec_psremote_rdp_and_wmi() {
    let o = Opts { all: true, ..opts() };
    assert!(connector_methods(&o, true, false) == vec![Method::PsExec64, Method::PsRemote, Method::Rdp, Method::Wmi]);
    assert!(evidence_methods(&o, false) == vec![Method::PsExec, Method::Wmi, Method::PsRemote, Method::Rdp]);
    assert!(log_methods(&o, false) == vec![Method::PsExec64, Method::PsRemote, Method::Wmi, Method::Rdp]);
    assert!(image_methods(&o, false) == vec![Method::PsExec64, Method::PsRemote, Method::Rdp, Method::Wmi]);
    assert!(command_methods(&o, false) == vec![Method::PsExec, Method::PsRemote, Method::Wmi, Method::Rdp]);
}

#[test]
fn single_switches_select_single_methods() {
    let o = Opts { psexec32: true, ssh: true, local: true, ..opts() };
    assert!(connector_methods(&o, true, false) == vec![Method::PsExec32, Method::Ssh, Method::Local]);
    assert!(connector_methods(&o, false, false) == vec![Method::PsExec32, Method::Local]);
    assert!(evidence_methods(&o, false) == vec![Method::PsExec, Method::Ssh, Method::Local]);
    assert!(image_methods(&o, false) == vec![Method::PsExec32, Method::Local]);
}

#[test]
fn local_target_uses_this_computer_only() {
    let o = Opts { all: true, ssh: true, ..opts() };
    assert!(is_local_target("127.0.0.1"));
    assert!(is_local_target("localhost"));
    assert!(!is_local_target("10.0.0.1"));
    assert!(connector_methods(&o, true, true) == vec![Method::Local]);
    assert!(evidence_methods(&o, true) == vec![Method::Local]);
    assert!(log_methods(&o, true) == vec![Method::Local]);
}

#[test]
fn reverse_share_wraps_psexec_and_psremote() {
    assert!(uses_reverse_share(Method::PsExec64, true));
    assert!(uses_reverse_share(Method::PsRemote, true));
    assert!(!uses_reverse_share(Method::Wmi, true));
    assert!(!uses_reverse_share(Method::PsExec32, false));
}

#[test]
fn stages_follow_the_switches() {
    let plain = acquisition_stages(&opts());
    assert_eq!(plain.len(), 3);
    assert!(matches!(plain[0], Stage::Evidence));
    assert!(matches!(plain[1], Stage::Events));
    assert!(matches!(plain[2], Stage::Registry));
    let o = Opts {
        re_download: Some("C:\\x.7z.003".to_string()),
        custom_command_path: Some("cmds.txt".to_string()),
        search_files_path: Some("EMBEDDED".to_string()),
        image_memory: true,
        acquire_svi_data: true,
        disable_predefined_download: true,
        ..opts()
    };
    let all = acquisition_stages(&o);
    assert_eq!(all.len(), 5);
    assert!(matches!(&all[0], Stage::ReDownload(p) if p == "C:\\x.7z.003"));
    assert!(matches!(&all[1], Stage::CustomCommands(p) if p == "cmds.txt"));
    assert!(matches!(&all[2], Stage::SearchFiles(p) if p == "EMBEDDED"));
    assert!(matches!(all[3], Stage::MemoryImage));
    assert!(matches!(all[4], Stage::SviData));
}

#[test]
fn copier_choice() {
    assert!(download_copier(false, true) == CopierChoice::ShadowCompressed);
    assert!(download_copier(false, false) == CopierChoice::Compressed);
    assert!(download_copier(true, true) == CopierChoice::Shadow);
    assert!(download_copier(true, false) == CopierChoice::Plain);
}
