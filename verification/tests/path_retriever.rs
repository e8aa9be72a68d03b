use gargamel::path_retriever::{convert_path_for_matching, descend_into, search_roots, selected, MatchType, Pattern};

fn words(v: &[&str]) -> Vec<String> {
    v.iter().map(|s| s.to_string()).collect()
}

#[test]
fn pattern_components_are_lower_case_matches() {
    let p = Pattern::new("C:\\Users\\%user%\\Desktop", "*.lnk", false);
    assert_eq!(p.components.len(), 4);
    assert!(matches!(&p.components[0], MatchType::ExactMatch(x) if x == "c:"));
    assert!(matches!(&p.components[1], MatchType::ExactMatch(x) if x == "users"));
    assert!(matches!(p.components[2], MatchType::Anything));
    assert!(matches!(&p.components[3], MatchType::ExactMatch(x) if x == "desktop"));
    assert_eq!(p.file_mask, "*.lnk");
    let w = Pattern::new("C:\\Users\\*\\App*", "", true);
    assert!(matches!(w.components[2], MatchType::Anything));
    assert!(matches!(&w.components[3], MatchType::WildcardMatch(x) if x == "app*"));
    assert_eq!(w.file_mask, "*");
}

#[test]
fn files_and_directories_are_selected() {
    let p = Pattern::new("C:\\Users\\%user%\\Desktop", "*.lnk", false);
    assert!(p.matches(&words(&["c:", "users", "bob", "desktop", "x.lnk"])));
    assert!(!p.matches(&words(&["c:", "users", "bob", "desktop", "x.txt"])));
    assert!(!p.matches(&words(&["c:", "users", "bob", "desktop", "sub", "x.lnk"])));
    assert!(p.parent_matches(&words(&["c:", "users", "bob", "desktop"])));
    assert!(!p.parent_matches(&words(&["c:", "users"])));
    let r = Pattern::new("C:\\Users\\*\\App*", "", true);
    assert!(r.matches(&words(&["c:", "users", "x", "appdata", "deep", "f.txt"])));
    assert!(!r.matches(&words(&["c:", "users", "x", "documents", "f.txt"])));
    let q = Pattern::new("C:\\Logs", "?.log", false);
    assert!(q.matches(&words(&["c:", "logs", "a.log"])));
    assert!(!q.matches(&words(&["c:", "logs", "ab.log"])));
    let patterns = vec![p, r];
    assert!(descend_into(&patterns, &words(&["c:", "users", "x", "appdata"])));
    assert!(!descend_into(&patterns, &words(&["d:", "users"])));
    assert!(selected(&patterns, &words(&["c:", "users", "bob", "desktop", "y.lnk"])));
}

#[test]
fn walked_paths_are_compared_in_lower_case() {
    assert_eq!(
        convert_path_for_matching("C:\\Users\\Bob\\Desktop\\X.LNK"),
        words(&["c:", "users", "bob", "desktop", "x.lnk"])
    );
}

#[test]
fn roots_are_exact_components_in_upper_case_once() {
    let patterns = vec![
        Pattern::new("C:\\Users\\%user%\\Desktop", "", false),
        Pattern::new("C:\\Windows", "", false),
    ];
    assert_eq!(search_roots(&patterns), words(&["C:\\", "USERS\\", "DESKTOP\\", "WINDOWS\\"]));
}
