use gargamel::remote::download::{pause_secs, ReDownloader, RetryPlan, SplitDownload, SplitStep};
use gargamel::remote::connector::Invocation;
use gargamel::remote::local::Local;

fn local() -> Local {
    Local::new("bob".to_string(), "C:\\Temp".to_string())
}

#[test]
fn numbered_part_is_fetched_part_by_part_from_there() {
    let l = local();
    let d = ReDownloader { copier: &l, target_dir: "E:\\out".to_string() };
    match d.retry_download("C:\\data\\dump.7z.004") {
        RetryPlan::Split(s) => {
            assert_eq!(s.archive, "C:\\data\\dump.7z");
            assert_eq!(s.part, 4);
            assert_eq!(s.failures, 0);
            assert_eq!(s.part_path(), "C:\\data\\dump.7z.004");
        }
        _ => panic!("expected a split download"),
    }
}

#[test]
fn other_file_is_tried_whole_then_as_archive() {
    let l = local();
    let d = ReDownloader { copier: &l, target_dir: "E:\\out".to_string() };
    match d.retry_download("C:\\data\\dump.bin") {
        RetryPlan::Whole { candidates, deletes, fallback } => {
            assert_eq!(candidates, vec!["C:\\data\\dump.bin".to_string(), "C:\\data\\dump.bin.7z".to_string()]);
            assert_eq!(deletes.len(), 2);
            for (candidate, delete) in candidates.iter().zip(deletes.iter()) {
                assert_eq!(delete.len(), 1);
                match &delete[0] {
                    Invocation::Run { args, .. } | Invocation::RunTimed { args, .. } | Invocation::RunThenPause { args, .. } => {
                        assert!(args.iter().any(|a| a.contains(candidate.as_str())))
                    }
                    Invocation::Piped { .. } => panic!("expected a deletion"),
                }
            }
            assert_eq!(fallback.archive, "C:\\data\\dump.bin.7z");
            assert_eq!(fallback.part, 1);
            assert_eq!(fallback.part_path(), "C:\\data\\dump.bin.7z.001");
        }
        _ => panic!("expected a whole download"),
    }
    match d.retry_download("C:\\data\\dump.7z") {
        RetryPlan::Whole { fallback, .. } => assert_eq!(fallback.archive, "C:\\data\\dump.7z"),
        _ => panic!("expected a whole download"),
    }
}

#[test]
fn split_download_goes_on_and_stops_after_two_empty_fetches() {
    let mut s = SplitDownload::new("x.7z".to_string(), 4);
    assert!(s.after_fetch(true) == SplitStep::Next);
    assert_eq!(s.part, 5);
    assert!(s.after_fetch(false) == SplitStep::Retry);
    assert_eq!(s.part, 5);
    assert!(s.after_fetch(true) == SplitStep::Next);
    assert_eq!(s.part, 6);
    assert_eq!(s.failures, 0);
    assert!(s.after_fetch(false) == SplitStep::Retry);
    assert!(s.after_fetch(false) == SplitStep::Stop);
    assert_eq!(s.part, 6);
}

#[test]
fn pauses_between_fetches() {
    assert_eq!(pause_secs(SplitStep::Next), 10);
    assert_eq!(pause_secs(SplitStep::Retry), 40);
    assert_eq!(pause_secs(SplitStep::Stop), 0);
}

#[test]
fn fetched_file_arrives_in_target_directory() {
    let l = local();
    let d = ReDownloader { copier: &l, target_dir: "E:\\out".to_string() };
    assert_eq!(d.downloaded_path("C:\\data\\dump.7z.004"), "E:\\out\\dump.7z.004");
    assert_eq!(d.fetch("C:\\data\\x").len(), 1);
    assert_eq!(d.delete_remote("C:\\data\\x").len(), 1);
}
