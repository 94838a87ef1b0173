use oracle::hypothesis::{
    compose_hypothesis_id, hypothesis_file_name, hypothesis_id, is_hypothesis_extension,
    is_hypothesis_file, newest_first, slug,
};

#[test]
fn slug_lowercases_and_collapses_separators() {
    assert_eq!(slug("Hello, World!!"), "hello-world");
    assert_eq!(slug("  Toroid  AB test "), "toroid-ab-test");
    assert_eq!(slug("a--b"), "a-b");
    assert_eq!(slug("---"), "");
    assert_eq!(slug(""), "");
    assert_eq!(slug("Ünïcode Ω"), "ünïcode-ω");
}

#[test]
fn slug_never_has_edge_or_double_dashes() {
    for name in ["-x-", "__a__b__", "  ", "x", "A1 b2--C3!"] {
        let s = slug(name);
        assert!(!s.starts_with('-') && !s.ends_with('-') && !s.contains("--"), "{s}");
    }
}

#[test]
fn id_joins_stamp_and_slug() {
    assert_eq!(
        compose_hypothesis_id("20240102T030405", "My Run #3"),
        "20240102T030405-my-run-3"
    );
}

#[test]
fn id_formats_utc_stamp() {
    assert_eq!(hypothesis_id(0, "First"), Some("19700101T000000-first".to_string()));
    assert_eq!(
        hypothesis_id(1_704_164_645, "x"),
        Some("20240102T030405-x".to_string())
    );
    assert_eq!(hypothesis_id(i64::MAX, "x"), None);
}

#[test]
fn file_name_appends_json() {
    assert_eq!(hypothesis_file_name("20240102T030405-x"), "20240102T030405-x.json");
}

#[test]
fn only_json_files_are_hypotheses() {
    assert!(is_hypothesis_extension(&Some("json".to_string())));
    assert!(!is_hypothesis_extension(&Some("txt".to_string())));
    assert!(!is_hypothesis_extension(&None));
    assert!(is_hypothesis_file("/home/u/.oracle/hypotheses/a.json"));
    assert!(!is_hypothesis_file("/home/u/.oracle/hypotheses/a.json.bak"));
}

#[test]
fn newest_first_is_stable() {
    let times = vec![(10, 0), (30, 5), (10, 0), (30, 7), (20, 0)];
    assert_eq!(newest_first(&times), vec![3, 1, 4, 0, 2]);
    assert_eq!(newest_first(&vec![]), Vec::<usize>::new());
}

#[test]
fn slug_of_a_slug_is_itself() {
    for name in ["Hello, World!  2024", "", "Toroid AB", "x--y", "ÄÖÜ ß 42"] {
        let s = slug(name);
        assert_eq!(slug(&s), s);
    }
    assert_eq!(slug("Hello, World!  2024"), "hello-world-2024");
}

#[test]
fn slug_keeps_alphanumerics_in_order() {
    let s = slug("a1-B2 c3");
    let kept: String = s.chars().filter(|&c| c != '-').collect();
    assert_eq!(kept, "a1b2c3");
}

#[test]
fn hypothesis_files_by_final_extension() {
    assert!(!is_hypothesis_file("a.json.bak"));
    assert!(!is_hypothesis_file("dir/.json"));
    assert!(!is_hypothesis_file("a.json/b"));
    assert!(!is_hypothesis_file("a/b.JSON"));
    assert!(is_hypothesis_file("dir/x.json/"));
    assert!(is_hypothesis_file("20240102T030405-x.json"));
}
