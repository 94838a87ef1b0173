use oracle::gruve::{
    announce_step, mime_for_extension, mime_for_path, safe_dist_path, safe_parts,
    static_relative_path, AnnounceLog, PathPart,
};

#[test]
fn bare_root_and_empty_paths_serve_index() {
    assert_eq!(static_relative_path("/"), "index.html");
    assert_eq!(static_relative_path(""), "index.html");
    assert_eq!(static_relative_path("///"), "index.html");
}

#[test]
fn leading_slashes_are_trimmed() {
    assert_eq!(static_relative_path("///assets/app.js"), "assets/app.js");
    assert_eq!(static_relative_path("favicon.svg"), "favicon.svg");
}

#[test]
fn first_app_prefix_wins() {
    assert_eq!(
        static_relative_path("/x/apps/oracle/apps/oracle/y.js"),
        "apps/oracle/y.js"
    );
    assert_eq!(static_relative_path("/apps/oracle//x"), "/x");
    assert_eq!(static_relative_path("/apps/oraclex"), "apps/oraclex");
}

#[test]
fn safe_paths_keep_names_and_skip_current_dir() {
    assert_eq!(
        safe_dist_path("./assets/app.js"),
        Some(vec!["assets".to_string(), "app.js".to_string()])
    );
    assert_eq!(
        safe_dist_path("assets//index.css"),
        Some(vec!["assets".to_string(), "index.css".to_string()])
    );
}

#[test]
fn traversal_and_absolute_paths_are_refused() {
    assert_eq!(safe_dist_path("assets/../../etc/passwd"), None);
    assert_eq!(safe_dist_path(".."), None);
    assert_eq!(safe_dist_path("/etc/passwd"), None);
}

#[test]
fn safe_parts_on_given_components() {
    let parts = vec![
        PathPart::CurDir,
        PathPart::Normal("a".to_string()),
        PathPart::Normal("b.js".to_string()),
    ];
    assert_eq!(
        safe_parts(&parts),
        Some(vec!["a".to_string(), "b.js".to_string()])
    );
    let bad = vec![PathPart::Normal("a".to_string()), PathPart::ParentDir];
    assert_eq!(safe_parts(&bad), None);
    assert_eq!(safe_parts(&vec![PathPart::RootDir]), None);
    assert_eq!(safe_parts(&vec![PathPart::Prefix]), None);
    assert_eq!(safe_parts(&vec![]), Some(vec![]));
}

#[test]
fn content_types_by_extension() {
    assert_eq!(mime_for_path("dist/assets/index.css"), "text/css; charset=utf-8");
    assert_eq!(mime_for_path("dist/index.html"), "text/html; charset=utf-8");
    assert_eq!(mime_for_path("dist/assets/index.js"), "text/javascript; charset=utf-8");
    assert_eq!(mime_for_path("data.json"), "application/json; charset=utf-8");
    assert_eq!(mime_for_path("logo.png"), "image/png");
    assert_eq!(mime_for_path("logo.svg"), "image/svg+xml");
    assert_eq!(mime_for_path("solver.wasm"), "application/wasm");
    assert_eq!(mime_for_path("README"), "application/octet-stream");
    assert_eq!(mime_for_path("archive.tar.gz"), "application/octet-stream");
    assert_eq!(mime_for_path("dist/.css"), "application/octet-stream");
}

#[test]
fn content_type_of_given_extension() {
    assert_eq!(mime_for_extension(&Some("css".to_string())), "text/css; charset=utf-8");
    assert_eq!(mime_for_extension(&Some("CSS".to_string())), "application/octet-stream");
    assert_eq!(mime_for_extension(&None), "application/octet-stream");
}

#[test]
fn announce_logs_only_changes() {
    assert_eq!(announce_step(false, true), (true, Some(AnnounceLog::Announced)));
    assert_eq!(announce_step(true, true), (true, None));
    assert_eq!(announce_step(true, false), (false, Some(AnnounceLog::Waiting)));
    assert_eq!(announce_step(false, false), (false, None));
}

#[test]
fn content_type_of_plain_file_names() {
    assert_eq!(mime_for_path("app.js"), "text/javascript; charset=utf-8");
    assert_eq!(mime_for_path("a/b/..js"), "text/javascript; charset=utf-8");
    assert_eq!(mime_for_path("a/.js"), "application/octet-stream");
}

#[test]
fn dotted_pieces_of_a_relative_path() {
    assert_eq!(safe_dist_path(""), Some(vec![]));
    assert_eq!(safe_dist_path("./."), Some(vec![]));
    assert_eq!(safe_dist_path("a/./b/"), Some(vec!["a".to_string(), "b".to_string()]));
    assert_eq!(safe_dist_path("a/b/.."), None);
    assert_eq!(safe_dist_path("...js"), Some(vec!["...js".to_string()]));
}

#[test]
fn content_type_follows_the_final_name() {
    assert_eq!(mime_for_path(".css"), "application/octet-stream");
    assert_eq!(mime_for_path("a/b.js/"), "text/javascript; charset=utf-8");
    assert_eq!(mime_for_path("a/b.js/."), "text/javascript; charset=utf-8");
    assert_eq!(mime_for_path("a.css/b"), "application/octet-stream");
    assert_eq!(mime_for_path("a/b.css/.."), "application/octet-stream");
    assert_eq!(mime_for_path("/srv/dist/index.html"), "text/html; charset=utf-8");
    assert_eq!(mime_for_path("a/b."), "application/octet-stream");
}

#[test]
fn rooted_paths_are_refused() {
    assert_eq!(safe_dist_path("/"), None);
    assert_eq!(safe_dist_path("/x"), None);
    assert_eq!(safe_dist_path("/assets/app.js"), None);
}
