use chatto_shell::address::{validate_address, ConfigError};
use chatto_shell::config::{get_autostart_enabled, get_notifications_enabled, get_server, StoredValue};
use chatto_shell::probe::{classify_fault, describe_failure, ProbeFault, ProbeOutcome, TransportKind};
use chatto_shell::session::{
    configure_server, configure_with_probe, request_notification, set_autostart_enabled,
    set_notifications_enabled, Command, InitialView, Selection, Session, Visibility,
};
use chatto_shell::text::{frontend_url, landing_url, same_text, settings_url};

fn shown_session() -> Session {
    let mut s = Session::new(false);
    let start = s.startup(&None).unwrap();
    assert_eq!(start.len(), 2);
    s
}

#[test]
fn invalid_address_is_rejected_before_any_probe() {
    for candidate in ["", "not a url", "example.com", "://missing-scheme", "http://"] {
        let r = configure_server(candidate);
        assert!(matches!(r, Err(ConfigError::InvalidUrl(_))), "{candidate}");
    }
}

#[test]
fn validation_gives_the_serialized_address() {
    assert_eq!(validate_address("https://example.com").unwrap(), "https://example.com/");
    assert_eq!(validate_address("HTTP://Example.COM/a").unwrap(), "http://example.com/a");
    assert!(matches!(validate_address("no scheme"), Err(ConfigError::InvalidUrl(_))));
}

#[test]
fn invalid_url_message_names_the_fault() {
    let e = validate_address("example.com").unwrap_err();
    assert!(e.message().starts_with("Invalid URL: "));
    assert!(e.message().len() > "Invalid URL: ".len());
}

#[test]
fn any_http_response_configures_the_server() {
    let r = configure_with_probe("https://chat.example", "https://chat.example/".to_string(), &ProbeOutcome::Responded(200))
        .unwrap();
    assert_eq!(
        r,
        vec![
            Command::StoreServerUrl("https://chat.example".to_string()),
            Command::SaveStore,
            Command::Navigate("https://chat.example/".to_string()),
        ]
    );
    let navigations = r.iter().filter(|c| matches!(c, Command::Navigate(_))).count();
    assert_eq!(navigations, 1);
}

#[test]
fn error_statuses_count_as_reachable() {
    let ok = configure_with_probe("https://h", "https://h/".to_string(), &ProbeOutcome::Responded(200)).unwrap();
    for code in [201, 301, 401, 404, 500, 503] {
        let r = configure_with_probe("https://h", "https://h/".to_string(), &ProbeOutcome::Responded(code));
        assert_eq!(r.unwrap(), ok, "{code}");
    }
}

#[test]
fn transport_failures_give_distinct_reasons() {
    let outcome = |f| ProbeOutcome::TransportFailed(f, "detail".to_string());
    let msg = |f| configure_with_probe("http://h", "http://h/".to_string(), &outcome(f)).unwrap_err().message();
    assert_eq!(msg(ProbeFault::Dns), "Server not found — check the address (detail)");
    assert_eq!(msg(ProbeFault::ConnectionFailed), "Could not connect to server (detail)");
    assert_eq!(msg(ProbeFault::Io), "Connection error (detail)");
    assert_eq!(msg(ProbeFault::ProxyConnect), "Server unreachable (detail)");
    let e = configure_with_probe("http://h", "http://h/".to_string(), &outcome(ProbeFault::Dns)).unwrap_err();
    assert!(matches!(e, ConfigError::Unreachable(TransportKind::Dns, _)));
}

#[test]
fn faults_fall_into_four_classes() {
    assert_eq!(classify_fault(ProbeFault::Dns), TransportKind::Dns);
    assert_eq!(classify_fault(ProbeFault::ConnectionFailed), TransportKind::ConnectionFailed);
    assert_eq!(classify_fault(ProbeFault::Io), TransportKind::Io);
    for f in [
        ProbeFault::InvalidUrl,
        ProbeFault::UnknownScheme,
        ProbeFault::InsecureRequestHttpsOnly,
        ProbeFault::TooManyRedirects,
        ProbeFault::BadStatus,
        ProbeFault::BadHeader,
        ProbeFault::InvalidProxyUrl,
        ProbeFault::ProxyConnect,
        ProbeFault::ProxyUnauthorized,
        ProbeFault::Http,
    ] {
        assert_eq!(classify_fault(f), TransportKind::Other, "{f:?}");
    }
}

#[test]
fn refused_connection_is_reported_unreachable() {
    // Nothing can listen on port 0, so the connection always fails.
    let r = configure_server("http://127.0.0.1:0/");
    match r {
        Err(ConfigError::Unreachable(_, m)) => assert!(!m.is_empty()),
        other => panic!("unexpected {other:?}"),
    }
}

#[test]
fn failure_message_puts_detail_in_parentheses() {
    assert_eq!(describe_failure(TransportKind::Io, "reset"), "Connection error (reset)");
}

#[test]
fn server_read_twice_agrees() {
    let stored = Some(StoredValue::Text("https://a/".to_string()));
    assert_eq!(get_server(&stored), get_server(&stored));
    assert_eq!(get_server(&stored), Some("https://a/".to_string()));
    assert_eq!(get_server(&None), None);
    assert_eq!(get_server(&Some(StoredValue::Flag(true))), None);
    assert_eq!(get_server(&Some(StoredValue::Other)), None);
}

#[test]
fn notification_preference_defaults_to_on() {
    assert!(get_notifications_enabled(&None));
    assert!(get_notifications_enabled(&Some(StoredValue::Other)));
    assert!(get_notifications_enabled(&Some(StoredValue::Flag(true))));
    assert!(!get_notifications_enabled(&Some(StoredValue::Flag(false))));
}

#[test]
fn disabled_notifications_reach_nothing() {
    let writes = set_notifications_enabled(false);
    assert_eq!(writes, vec![Command::StoreNotificationsEnabled(false), Command::SaveStore]);
    let stored = Some(StoredValue::Flag(false));
    assert!(request_notification(&stored, "t", "b").is_empty());
}

#[test]
fn enabled_notifications_are_forwarded() {
    assert_eq!(
        request_notification(&None, "t", "b"),
        vec![Command::Notify("t".to_string(), "b".to_string())]
    );
}

#[test]
fn autostart_query_failure_counts_as_off() {
    assert!(get_autostart_enabled(&Ok(true)));
    assert!(!get_autostart_enabled(&Ok(false)));
    assert!(!get_autostart_enabled(&Err("denied".to_string())));
    assert_eq!(set_autostart_enabled(true), vec![Command::SetAutostart(true)]);
}

#[test]
fn close_request_before_window_does_nothing() {
    let mut s = Session::new(false);
    assert!(s.on_close_requested().is_empty());
    assert_eq!(s.window, None);
}

#[test]
fn close_request_hides_and_keeps_running() {
    let mut s = shown_session();
    let cs = s.on_close_requested();
    assert_eq!(s.window, Some(Visibility::Hidden));
    assert_eq!(cs, vec![Command::Hide]);
    assert!(!cs.contains(&Command::Exit));
}

#[test]
fn toggle_and_force_show() {
    let mut s = shown_session();
    assert_eq!(s.toggle(), vec![Command::Hide]);
    assert_eq!(s.window, Some(Visibility::Hidden));
    assert_eq!(s.toggle(), vec![Command::Unminimize, Command::Show, Command::Focus]);
    assert_eq!(s.window, Some(Visibility::Visible));
    s.toggle();
    let cs = s.force_show();
    assert_eq!(s.window, Some(Visibility::Visible));
    assert!(cs.contains(&Command::Focus));
}

#[test]
fn toggle_before_window_does_nothing() {
    let mut s = Session::new(false);
    assert!(s.toggle().is_empty());
    assert!(s.force_show().is_empty());
    assert_eq!(s.window, None);
}

#[test]
fn deep_link_navigates_to_first_url_only() {
    let mut s = shown_session();
    s.toggle();
    let cs = s.on_deep_link(&vec!["https://a/x".to_string(), "https://a/y".to_string()]);
    assert_eq!(
        cs,
        vec![Command::Navigate("https://a/x".to_string()), Command::Show, Command::Focus]
    );
    assert_eq!(cs.iter().filter(|c| matches!(c, Command::Navigate(_))).count(), 1);
    assert_eq!(s.window, Some(Visibility::Visible));
    assert!(s.on_deep_link(&vec![]).is_empty());
}

#[test]
fn deep_link_before_window_is_dropped() {
    let mut s = Session::new(false);
    assert!(s.on_deep_link(&vec!["https://a/x".to_string()]).is_empty());
    assert_eq!(s.window, None);
}

#[test]
fn startup_without_server_opens_landing_and_asks_once() {
    let mut s = Session::new(true);
    let cs = s.startup(&None).unwrap();
    assert_eq!(cs, vec![Command::CreateWindow(InitialView::Landing), Command::EmitOpenSettings]);
    assert_eq!(cs.iter().filter(|c| **c == Command::EmitOpenSettings).count(), 1);
    assert_eq!(s.window, Some(Visibility::Visible));
}

#[test]
fn startup_with_server_opens_it() {
    let mut s = Session::new(false);
    let cs = s.startup(&Some(StoredValue::Text("https://chat.example".to_string()))).unwrap();
    assert_eq!(cs, vec![Command::CreateWindow(InitialView::Remote("https://chat.example/".to_string()))]);
    let mut t = Session::new(false);
    assert!(t.startup(&Some(StoredValue::Text("bad".to_string()))).is_err());
    assert_eq!(t.window, None);
}

#[test]
fn selection_ids_map_to_selections() {
    assert_eq!(Selection::from_id("show_hide"), Selection::ShowHide);
    assert_eq!(Selection::from_id("settings"), Selection::Settings);
    assert_eq!(Selection::from_id("menu_settings"), Selection::Settings);
    assert_eq!(Selection::from_id("quit"), Selection::Quit);
    assert_eq!(Selection::from_id("autostart"), Selection::ToggleAutostart);
    assert_eq!(Selection::from_id("menu_back"), Selection::Back);
    assert_eq!(Selection::from_id("menu_forward"), Selection::Forward);
    assert_eq!(Selection::from_id("menu_reload"), Selection::Reload);
    assert_eq!(Selection::from_id("other"), Selection::Unrecognized("other".to_string()));
}

#[test]
fn selections_dispatch_commands() {
    let mut s = shown_session();
    assert_eq!(s.on_selection(&Selection::Quit, false), vec![Command::Exit]);
    assert_eq!(s.on_selection(&Selection::ToggleAutostart, true), vec![Command::SetAutostart(false)]);
    assert_eq!(
        s.on_selection(&Selection::Back, false),
        vec![Command::RunScript("history.back()".to_string())]
    );
    assert_eq!(
        s.on_selection(&Selection::Forward, false),
        vec![Command::RunScript("history.forward()".to_string())]
    );
    assert_eq!(
        s.on_selection(&Selection::Reload, false),
        vec![Command::RunScript("location.reload()".to_string())]
    );
    assert!(s.on_selection(&Selection::Unrecognized("x".to_string()), false).is_empty());
    assert_eq!(s.on_selection(&Selection::ShowHide, false), vec![Command::Hide]);
    assert_eq!(
        s.on_selection(&Selection::Settings, false),
        vec![
            Command::Navigate("tauri://localhost/?settings".to_string()),
            Command::Show,
            Command::Focus
        ]
    );
    assert_eq!(s.window, Some(Visibility::Visible));
}

#[test]
fn tray_click_toggles_on_left_release_only() {
    let mut s = shown_session();
    assert!(s.on_tray_click(true, false).is_empty());
    assert!(s.on_tray_click(false, true).is_empty());
    assert_eq!(s.on_tray_click(true, true), vec![Command::Hide]);
}

#[test]
fn clear_server_goes_to_landing() {
    let s = shown_session();
    assert_eq!(
        s.clear_server(),
        vec![
            Command::DeleteServerUrl,
            Command::SaveStore,
            Command::Navigate("tauri://localhost/".to_string())
        ]
    );
}

#[test]
fn shell_page_addresses() {
    assert_eq!(frontend_url(true, "/x"), "http://localhost:1420/x");
    assert_eq!(settings_url(false), "tauri://localhost/?settings");
    assert_eq!(landing_url(true), "http://localhost:1420/");
    assert!(same_text("abc", "abc"));
    assert!(!same_text("abc", "abd"));
    assert!(!same_text("ab", "abc"));
}
