use oracle::gruve::static_relative_path;

#[test]
fn strips_local_gruve_app_prefix() {
    assert_eq!(
        static_relative_path("/apps/oracle/assets/index.js"),
        "assets/index.js"
    );
    assert_eq!(static_relative_path("/apps/oracle/"), "index.html");
    assert_eq!(static_relative_path("/apps/oracle"), "index.html");
}

#[test]
fn strips_peer_gruve_app_prefix() {
    assert_eq!(
        static_relative_path("/peer/demo/node/apps/oracle/assets/index.css"),
        "assets/index.css"
    );
}
