use edge_server::handlers::WAIT_DELAY_SECONDS;
use edge_server::handlers::json_handler;
use edge_server::handlers::path_handler;
use edge_server::routing::Method;
use edge_server::routing::Step;
use edge_server::routing::resolve_dir_probe;
use edge_server::routing::routers;

fn expect_reply(step: Step) -> (u16, String) {
    match step {
        Step::Reply(r) => (r.status, r.body),
        other => panic!("expected an immediate reply, got {:?}", other),
    }
}

#[test]
fn healthcheck_exact_path() {
    let (status, body) = expect_reply(routers(&Method::Get, "/service/healthcheck", false));
    assert_eq!(status, 200);
    assert_eq!(body, "Success");
}

#[test]
fn healthcheck_any_method() {
    let (status, body) = expect_reply(routers(&Method::Post, "/service/healthcheck", false));
    assert_eq!(status, 200);
    assert_eq!(body, "Success");
    let (status, body) = expect_reply(routers(&Method::Other, "/service/healthcheck", true));
    assert_eq!(status, 200);
    assert_eq!(body, "Success");
}

#[test]
fn healthcheck_subpath_is_group_not_found() {
    let (status, body) = expect_reply(routers(&Method::Get, "/service/healthcheck/extra", false));
    assert_eq!(status, 404);
    assert_eq!(body, "");
}

#[test]
fn hello_route() {
    let (status, body) = expect_reply(routers(&Method::Get, "/service/manage/other/hello", false));
    assert_eq!(status, 200);
    assert_eq!(body, "{\"message\":\"Hello,World!\"}");
}

#[test]
fn wait_route_is_delayed_three_seconds() {
    match routers(&Method::Get, "/service/manage/other/wait", false) {
        Step::DelayedReply(secs, r) => {
            assert_eq!(secs, 3);
            assert_eq!(secs, WAIT_DELAY_SECONDS);
            assert_eq!(r.status, 200);
            assert_eq!(r.body, "{\"message\":\"wait mow!\"}");
        }
        other => panic!("expected a delayed reply, got {:?}", other),
    }
}

#[test]
fn json_route_post_asks_for_body() {
    match routers(&Method::Post, "/service/manage/other/json", false) {
        Step::NeedsJsonBody => {}
        other => panic!("expected a body decode, got {:?}", other),
    }
}

#[test]
fn json_route_other_method_folds_to_not_found() {
    let (status, body) = expect_reply(routers(&Method::Get, "/service/manage/other/json", false));
    assert_eq!(status, 404);
    assert_eq!(body, "");
}

#[test]
fn json_echo_round_trip() {
    let text = "{\"a\":1,\"b\":[2,3]}";
    let value: serde_json::Value = serde_json::from_str(text).unwrap();
    let echoed = json_handler(value.clone());
    assert_eq!(echoed, value);
    assert_eq!(serde_json::to_string(&echoed).unwrap(), text);
}

#[test]
fn path_echo_route() {
    let (status, body) = expect_reply(routers(
        &Method::Get,
        "/service/manage/other/path/x/y",
        false,
    ));
    assert_eq!(status, 200);
    assert_eq!(body, "{\"fullPath\":\"/service/manage/other/path/x/y\"}");
}

#[test]
fn path_echo_matches_its_own_root() {
    let (status, body) = expect_reply(routers(&Method::Get, "/service/manage/other/path", false));
    assert_eq!(status, 200);
    assert_eq!(body, "{\"fullPath\":\"/service/manage/other/path\"}");
}

#[test]
fn path_handler_escapes_like_a_json_serializer() {
    for path in [
        "/service/manage/other/path/x/y",
        "/odd\"quote",
        "/back\\slash",
        "/ctrl\u{1f}\u{8}\t\n\u{c}\rend",
    ] {
        let r = path_handler(path);
        let lit = serde_json::to_string(&serde_json::Value::String(path.to_string())).unwrap();
        assert_eq!(r.status, 200);
        assert_eq!(r.body, format!("{{\"fullPath\":{}}}", lit));
    }
}

#[test]
fn reserved_prefix_unmatched_is_404_empty() {
    for path in [
        "/service",
        "/service/",
        "/service/xyz",
        "/service/manage",
        "/service/manage/unknown",
        "/service/manage/other/unknown",
    ] {
        let (status, body) = expect_reply(routers(&Method::Get, path, false));
        assert_eq!(status, 404, "path {}", path);
        assert_eq!(body, "", "path {}", path);
    }
}

#[test]
fn reserved_prefix_never_probes_the_filesystem() {
    match routers(&Method::Get, "/service/manage/static-looking", false) {
        Step::Reply(r) => {
            assert_eq!(r.status, 404);
            assert_eq!(r.body, "");
        }
        other => panic!("reserved path must be answered directly, got {:?}", other),
    }
}

#[test]
fn directory_probe_for_path_without_trailing_slash() {
    match routers(&Method::Get, "/docs", false) {
        Step::ProbeDir(target) => assert_eq!(target, "public_html/docs"),
        other => panic!("expected a directory probe, got {:?}", other),
    }
}

#[test]
fn directory_probe_strips_leading_slashes() {
    match routers(&Method::Get, "//x", false) {
        Step::ProbeDir(target) => assert_eq!(target, "public_html/x"),
        other => panic!("expected a directory probe, got {:?}", other),
    }
}

#[test]
fn directory_redirect_appends_slash() {
    match resolve_dir_probe("/docs", true) {
        Step::Redirect(loc) => assert_eq!(loc, "/docs/"),
        other => panic!("expected a redirect, got {:?}", other),
    }
}

#[test]
fn non_directory_passes_to_file_server() {
    match resolve_dir_probe("/docs", false) {
        Step::Serve => {}
        other => panic!("expected static serving, got {:?}", other),
    }
}

#[test]
fn trailing_slash_passes_to_file_server() {
    match routers(&Method::Get, "/docs/", false) {
        Step::Serve => {}
        other => panic!("expected static serving, got {:?}", other),
    }
}

#[test]
fn unmatched_path_outside_prefix_reaches_static_chain() {
    match routers(&Method::Get, "/no/such/file", false) {
        Step::ProbeDir(target) => assert_eq!(target, "public_html/no/such/file"),
        other => panic!("expected a directory probe, got {:?}", other),
    }
    match routers(&Method::Get, "/no/such/dir/", false) {
        Step::Serve => {}
        other => panic!("expected static serving, got {:?}", other),
    }
}
