use gargamel::edb_acquirer::{edb_pause, edb_step, EdbPhase};
use gargamel::methods::{next_trial, Trial};
use gargamel::path_retriever::Pattern;
use gargamel::remote::archiver::{compressed_fetch_step, compressed_pause, CompressedPhase};
use gargamel::remote::connector::Invocation;
use gargamel::remote::copier::{copy_from_local_wildcards, split_wildcards};
use gargamel::remote::local::Local;
use gargamel::remote::shadow_copier::{
    shadow_copy_step, shadow_delete_plan, shadow_drive, shadow_step_plan, ShadowPhase, StepOutcome,
};
use gargamel::remote::utils::path_to_part;

#[test]
fn first_success_ends_the_trials() {
    assert!(next_trial(0, true, 3) == Trial::Done);
    assert!(next_trial(0, false, 3) == Trial::Next(1));
    assert!(next_trial(1, false, 3) == Trial::Next(2));
    assert!(next_trial(2, false, 3) == Trial::Exhausted);
}

#[test]
fn shadow_copy_goes_create_list_read_grant_link() {
    let mut phase = ShadowPhase::Create;
    for expected in [ShadowPhase::List, ShadowPhase::Read, ShadowPhase::Grant, ShadowPhase::Link, ShadowPhase::Linked] {
        phase = shadow_copy_step(phase, StepOutcome::Succeeded);
        assert!(phase == expected);
    }
    assert!(shadow_copy_step(ShadowPhase::Grant, StepOutcome::Failed) == ShadowPhase::Link);
    assert!(shadow_copy_step(ShadowPhase::Create, StepOutcome::Failed) == ShadowPhase::Unavailable);
    assert!(shadow_copy_step(ShadowPhase::Read, StepOutcome::Malformed) == ShadowPhase::Malformed);
    assert_eq!(shadow_drive(ShadowPhase::Unavailable, "C:\\Temp\\abc"), Some("C:\\".to_string()));
    assert_eq!(shadow_drive(ShadowPhase::Linked, "C:\\Temp\\abc"), Some("C:\\Temp\\abc".to_string()));
    assert_eq!(shadow_drive(ShadowPhase::Grant, "C:\\Temp\\abc"), None);
}

#[test]
fn shadow_copy_grants_before_linking_and_denies_before_removing() {
    let l = Local::new("bob".to_string(), "C:\\Temp".to_string());
    let (_, grant_pause) = shadow_step_plan(&l, ShadowPhase::Grant, "r.txt", "C:\\Temp\\abc", "vol").unwrap();
    assert_eq!(grant_pause, 5);
    assert!(shadow_step_plan(&l, ShadowPhase::Read, "r.txt", "C:\\Temp\\abc", "vol").is_none());
    let (secs, steps) = shadow_delete_plan(&l, "C:\\Temp\\abc");
    assert_eq!(secs, 5);
    assert_eq!(steps.len(), 2);
}

#[test]
fn search_index_link_is_always_removed() {
    assert!(edb_step(EdbPhase::Link, StepOutcome::Succeeded) == EdbPhase::Fetch);
    assert!(edb_step(EdbPhase::Fetch, StepOutcome::Failed) == EdbPhase::Unlink);
    assert!(edb_step(EdbPhase::Unlink, StepOutcome::Succeeded) == EdbPhase::Done);
    assert!(edb_step(EdbPhase::List, StepOutcome::Failed) == EdbPhase::Failed);
    assert_eq!(edb_pause(EdbPhase::Fetch), 20);
    assert_eq!(edb_pause(EdbPhase::Link), 0);
}

#[test]
fn part_path_gives_back_its_number_stem_and_parent() {
    let q = path_to_part("C:\\data\\dump.7z", 4);
    assert_eq!(q, "C:\\data\\dump.7z.004");
    let (rest, ext) = q.rsplit_once('.').unwrap();
    assert_eq!(ext.parse::<usize>(), Ok(4));
    assert_eq!(rest, "C:\\data\\dump.7z");
    assert_eq!(path_to_part("x", 123), "x.123");
}

#[test]
fn file_match_implies_recursive_and_parent_match() {
    let flat = Pattern::new("C:\\Users", "*.txt", false);
    let deep = Pattern::new("C:\\Users", "*.txt", true);
    let path = vec!["c:".to_string(), "users".to_string(), "a.txt".to_string()];
    assert!(flat.matches(&path));
    assert!(deep.matches(&path));
    assert!(flat.parent_matches(&path[..path.len() - 1].to_vec()));
}

#[test]
fn compressed_fetch_deletes_only_after_success() {
    let ok = StepOutcome::Succeeded;
    let bad = StepOutcome::Failed;
    assert!(compressed_fetch_step(CompressedPhase::Pack, bad, false, true) == CompressedPhase::FetchWhole);
    assert!(compressed_fetch_step(CompressedPhase::Pack, ok, true, true) == CompressedPhase::FetchParts);
    assert!(compressed_fetch_step(CompressedPhase::FetchWhole, ok, false, true) == CompressedPhase::DeleteRemote);
    assert!(compressed_fetch_step(CompressedPhase::FetchWhole, bad, false, true) == CompressedPhase::Unpack);
    assert!(compressed_fetch_step(CompressedPhase::FetchWhole, bad, false, false) == CompressedPhase::Done);
    assert!(compressed_fetch_step(CompressedPhase::Unpack, ok, false, true) == CompressedPhase::RemoveDownloaded);
    assert!(compressed_fetch_step(CompressedPhase::Unpack, bad, true, true) == CompressedPhase::Done);
    assert_eq!(compressed_pause(CompressedPhase::Pack, bad, true), 10);
    assert_eq!(compressed_pause(CompressedPhase::Unpack, ok, true), 0);
    assert_eq!(compressed_pause(CompressedPhase::Unpack, ok, false), 10);
}

#[test]
fn local_wildcard_copy_makes_each_target_directory_first() {
    let l = Local::new("bob".to_string(), "C:\\Temp".to_string());
    let split = split_wildcards("C:\\Users\\*\\Desktop");
    let names = vec!["alice".to_string(), "carol".to_string()];
    let uploads = copy_from_local_wildcards(&l, &split, &names, "D:\\out");
    assert_eq!(uploads.len(), 2);
    assert_eq!(uploads[0].source, "C:\\Users\\alice\\Desktop");
    assert_eq!(uploads[0].target, "D:\\out\\alice");
    assert_eq!(uploads[1].target, "D:\\out\\carol");
    let args = match &uploads[1].make_dir {
        Invocation::Run { args, .. } | Invocation::RunTimed { args, .. } | Invocation::RunThenPause { args, .. } => args.clone(),
        Invocation::Piped { .. } => panic!("expected a single process"),
    };
    assert!(args.iter().any(|a| a == "md"));
    assert!(args.iter().any(|a| a.contains("D:\\out\\carol")));
}
