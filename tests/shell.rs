use ctxc_desktop::backend::{
    backend_url, build_request, parse_method, prepare_request, request_outcome, resolve_host,
    IngestPayload, Method, DEFAULT_HOST, HOST_VARIABLE,
};
use ctxc_desktop::error::ShellError;
use ctxc_desktop::text::same_text;
use ctxc_desktop::tray::{
    after_ingest, dispatch, ingest_call, ingest_notification, menu_actions,
    notification_outcome, Dispatch, FollowUp, MenuAction,
};
use ctxc_desktop::window::{next_window_command, WindowCommand, WindowEvent, MAIN_WINDOW};

#[test]
fn unset_host_resolves_to_default() {
    assert_eq!(resolve_host(None), "http://127.0.0.1:5173");
    assert_eq!(DEFAULT_HOST, "http://127.0.0.1:5173");
    assert_eq!(HOST_VARIABLE, "CTXC_HOST");
}

#[test]
fn empty_host_resolves_to_default() {
    assert_eq!(resolve_host(Some("")), "http://127.0.0.1:5173");
}

#[test]
fn configured_host_is_kept() {
    assert_eq!(resolve_host(Some("https://backend:9000/")), "https://backend:9000/");
}

#[test]
fn url_strips_trailing_slashes() {
    assert_eq!(backend_url("http://h:1", "/ingest"), "http://h:1/ingest");
    assert_eq!(backend_url("http://h:1/", "/ingest"), "http://h:1/ingest");
    assert_eq!(backend_url("http://h:1///", "/ingest"), "http://h:1/ingest");
    assert_eq!(backend_url("///", "/ingest"), "/ingest");
    assert_eq!(backend_url("", "/x"), "/x");
}

#[test]
fn url_keeps_inner_slashes_and_non_ascii() {
    assert_eq!(backend_url("http://h/api/", "/ingest"), "http://h/api/ingest");
    assert_eq!(backend_url("http://hé/ü/", "/ingest"), "http://hé/ü/ingest");
}

#[test]
fn ingest_url_for_each_host() {
    assert_eq!(ingest_call(None).url, "http://127.0.0.1:5173/ingest");
    assert_eq!(ingest_call(Some("")).url, "http://127.0.0.1:5173/ingest");
    assert_eq!(ingest_call(Some("http://example.com//")).url, "http://example.com/ingest");
    assert_eq!(ingest_call(Some("http://example.com")).url, "http://example.com/ingest");
}

#[test]
fn ingest_click_posts_all() {
    match dispatch("ingest", None) {
        Dispatch::Ingest(req) => {
            assert_eq!(req.method, Method::Post);
            assert_eq!(req.body, Some(IngestPayload { all: true }));
            assert_eq!(req.url, "http://127.0.0.1:5173/ingest");
        }
        other => panic!("unexpected dispatch {:?}", other),
    }
}

#[test]
fn ingest_click_uses_configured_host() {
    match dispatch("ingest", Some("http://10.0.0.2:8080/")) {
        Dispatch::Ingest(req) => {
            assert_eq!(req.url, "http://10.0.0.2:8080/ingest");
            assert_eq!(req.method, Method::Post);
            assert_eq!(req.body, Some(IngestPayload { all: true }));
        }
        other => panic!("unexpected dispatch {:?}", other),
    }
}

#[test]
fn open_and_quit_clicks() {
    assert!(matches!(dispatch("open", None), Dispatch::OpenWindow));
    assert!(matches!(dispatch("quit", None), Dispatch::Exit(0)));
}

#[test]
fn unknown_ids_are_ignored() {
    for id in ["", "Open", "QUIT", "ingest ", "help", "opens"] {
        assert!(matches!(dispatch(id, Some("http://h")), Dispatch::Ignore), "id {:?}", id);
    }
}

#[test]
fn menu_entries_ids_and_labels() {
    let actions = menu_actions();
    assert_eq!(actions, vec![MenuAction::Open, MenuAction::Ingest, MenuAction::Quit]);
    let ids: Vec<&str> = actions.iter().map(|a| a.id()).collect();
    assert_eq!(ids, vec!["open", "ingest", "quit"]);
    let labels: Vec<&str> = actions.iter().map(|a| a.label()).collect();
    assert_eq!(labels, vec!["Open UI", "Ingest Now", "Quit"]);
    for a in actions {
        assert_eq!(MenuAction::from_id(a.id()), Some(a));
    }
    assert_eq!(MenuAction::from_id("close"), None);
}

#[test]
fn methods_are_parsed() {
    assert_eq!(parse_method("GET"), Ok(Method::Get));
    assert_eq!(parse_method("POST"), Ok(Method::Post));
    assert_eq!(parse_method("PUT"), Err(ShellError::UnsupportedMethod("PUT".to_string())));
    assert_eq!(parse_method("post"), Err(ShellError::UnsupportedMethod("post".to_string())));
}

#[test]
fn body_goes_with_post_only() {
    let body = Some(IngestPayload { all: true });
    let get = build_request(Some("http://h/"), "/status", Method::Get, body);
    assert_eq!(get.url, "http://h/status");
    assert_eq!(get.body, None);
    let post = prepare_request(Some("http://h/"), "/ingest", "POST", body).unwrap();
    assert_eq!(post.body, body);
    assert_eq!(post.method, Method::Post);
    let bare = prepare_request(None, "/ingest", "POST", None).unwrap();
    assert_eq!(bare.body, None);
}

#[test]
fn unsupported_method_is_refused() {
    let r = prepare_request(None, "/ingest", "DELETE", None);
    let e = r.unwrap_err();
    assert_eq!(e, ShellError::UnsupportedMethod("DELETE".to_string()));
    assert_eq!(e.message(), "Unsupported method DELETE");
}

#[test]
fn failed_request_names_url_and_cause() {
    assert_eq!(request_outcome("http://h/ingest", Ok(())), Ok(()));
    let e = request_outcome("http://h/ingest", Err("connection refused".to_string())).unwrap_err();
    assert_eq!(
        e,
        ShellError::NetworkRequestFailed {
            url: "http://h/ingest".to_string(),
            cause: "connection refused".to_string(),
        }
    );
    assert_eq!(e.message(), "Request to http://h/ingest failed: connection refused");
}

#[test]
fn window_missing_fails_without_show_or_focus() {
    assert_eq!(MAIN_WINDOW, "main");
    assert!(matches!(next_window_command(&WindowEvent::Begin), WindowCommand::Lookup));
    match next_window_command(&WindowEvent::LookedUp(false)) {
        WindowCommand::Finish(Err(e)) => {
            assert_eq!(e, ShellError::WindowUnavailable("Main window not available".to_string()));
            assert_eq!(e.message(), "Main window not available");
        }
        other => panic!("unexpected command {:?}", other),
    }
}

#[test]
fn window_present_is_shown_then_focused() {
    assert!(matches!(next_window_command(&WindowEvent::LookedUp(true)), WindowCommand::Show));
    assert!(matches!(next_window_command(&WindowEvent::Shown(Ok(()))), WindowCommand::Focus));
    assert!(matches!(
        next_window_command(&WindowEvent::Focused(Ok(()))),
        WindowCommand::Finish(Ok(()))
    ));
}

#[test]
fn window_show_or_focus_failure_stops() {
    match next_window_command(&WindowEvent::Shown(Err("hidden".to_string()))) {
        WindowCommand::Finish(Err(e)) => {
            assert_eq!(e, ShellError::WindowUnavailable("hidden".to_string()))
        }
        other => panic!("unexpected command {:?}", other),
    }
    match next_window_command(&WindowEvent::Focused(Err("no focus".to_string()))) {
        WindowCommand::Finish(Err(e)) => {
            assert_eq!(e, ShellError::WindowUnavailable("no focus".to_string()))
        }
        other => panic!("unexpected command {:?}", other),
    }
}

#[test]
fn successful_ingest_notifies_once() {
    match after_ingest(Ok(())) {
        FollowUp::Notify(n) => {
            assert_eq!(n.event, "ingest-finished");
            assert_eq!(n.message, "Ingest triggered");
        }
        other => panic!("unexpected follow-up {:?}", other),
    }
    let n = ingest_notification();
    assert_eq!(n.event, "ingest-finished");
    assert_eq!(n.message, "Ingest triggered");
}

#[test]
fn failed_ingest_notifies_nothing() {
    let err = ShellError::NetworkRequestFailed {
        url: "http://h/ingest".to_string(),
        cause: "timeout".to_string(),
    };
    match after_ingest(Err(err.clone())) {
        FollowUp::Report(e) => assert_eq!(e, err),
        other => panic!("unexpected follow-up {:?}", other),
    }
}

#[test]
fn notification_delivery_outcome() {
    assert_eq!(notification_outcome(Ok(())), Ok(()));
    let e = notification_outcome(Err("no listener".to_string())).unwrap_err();
    assert_eq!(e, ShellError::NotificationDeliveryFailed("no listener".to_string()));
    assert_eq!(e.message(), "no listener");
    let t = ShellError::TrayInitializationFailed("tray refused".to_string());
    assert_eq!(t.message(), "tray refused");
}

#[test]
fn text_equality() {
    assert!(same_text("ingest", "ingest"));
    assert!(!same_text("ingest", "ingesT"));
    assert!(!same_text("ingest", "inges"));
    assert!(same_text("", ""));
    assert!(same_text("é", "é"));
}
