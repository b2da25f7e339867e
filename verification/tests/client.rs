use rshare::agent::{Agent, AgentAction, AgentEvent, AgentPhase, RETRY_BACKOFF_MS};
use rshare::appstate::{App, AppMode, LOG_CAP};
use rshare::codec::{decode, encode};
use rshare::config::{Config, DEFAULT_LOCAL_PORT, DEFAULT_RELAY_PORT};
use rshare::msg::TunnelMessage;
use rshare::text::{find_https_url, parse_u16, u16_to_string};

fn fresh_agent() -> Agent {
    Agent::new("abc".to_string(), None)
}

#[test]
fn agent_connects_registers_and_activates() {
    let mut agent = fresh_agent();
    assert_eq!(agent.phase, AgentPhase::Disconnected);

    let actions = agent.step(AgentEvent::Start);
    assert_eq!(agent.phase, AgentPhase::Connecting);
    assert!(matches!(actions.as_slice(), [AgentAction::Connect]));

    let actions = agent.step(AgentEvent::ConnectSucceeded);
    assert_eq!(agent.phase, AgentPhase::Registering);
    match actions.as_slice() {
        [AgentAction::SendFrame { payload }] => {
            let frame = decode(payload).expect("registration must decode");
            assert_eq!(
                frame,
                TunnelMessage::Register { client_id: "abc".to_string(), domain: None }
            );
        },
        other => panic!("expected the registration frame, got {:?}", other),
    }

    let confirmation = encode(&TunnelMessage::Registered {
        url: "https://abc.public.dev.peril.lol".to_string(),
    });
    let actions = agent.step(AgentEvent::Frame { payload: confirmation });
    assert_eq!(agent.phase, AgentPhase::Active);
    match actions.as_slice() {
        [AgentAction::ReportUrl { url }] => {
            assert_eq!(url, "https://abc.public.dev.peril.lol");
        },
        other => panic!("expected the URL report, got {:?}", other),
    }
}

#[test]
fn agent_sends_domain_in_registration() {
    let mut agent = Agent::new("abc".to_string(), Some("my.host".to_string()));
    agent.step(AgentEvent::Start);
    let actions = agent.step(AgentEvent::ConnectSucceeded);
    match actions.as_slice() {
        [AgentAction::SendFrame { payload }] => {
            let frame = decode(payload).expect("registration must decode");
            assert_eq!(
                frame,
                TunnelMessage::Register {
                    client_id: "abc".to_string(),
                    domain: Some("my.host".to_string()),
                }
            );
        },
        other => panic!("expected the registration frame, got {:?}", other),
    }
}

#[test]
fn agent_connect_failure_backs_off() {
    let mut agent = fresh_agent();
    agent.step(AgentEvent::Start);
    let actions = agent.step(AgentEvent::ConnectFailed);
    assert_eq!(agent.phase, AgentPhase::Disconnected);
    assert!(matches!(
        actions.as_slice(),
        [AgentAction::Backoff { wait_ms }] if *wait_ms == RETRY_BACKOFF_MS
    ));
}

#[test]
fn agent_registration_timeout_is_fatal_for_the_attempt() {
    let mut agent = fresh_agent();
    agent.step(AgentEvent::Start);
    agent.step(AgentEvent::ConnectSucceeded);
    let actions = agent.step(AgentEvent::RegisterTimeout);
    assert_eq!(agent.phase, AgentPhase::Disconnected);
    assert!(matches!(actions.as_slice(), [AgentAction::ReportStartFailure]));
}

#[test]
fn agent_unexpected_registration_reply_is_fatal() {
    let mut agent = fresh_agent();
    agent.step(AgentEvent::Start);
    agent.step(AgentEvent::ConnectSucceeded);
    let wrong = encode(&TunnelMessage::KeepAlive);
    let actions = agent.step(AgentEvent::Frame { payload: wrong });
    assert_eq!(agent.phase, AgentPhase::Disconnected);
    assert!(matches!(actions.as_slice(), [AgentAction::ReportStartFailure]));
}

fn active_agent() -> Agent {
    let mut agent = fresh_agent();
    agent.step(AgentEvent::Start);
    agent.step(AgentEvent::ConnectSucceeded);
    let confirmation =
        encode(&TunnelMessage::Registered { url: "https://abc.public.dev.peril.lol".to_string() });
    agent.step(AgentEvent::Frame { payload: confirmation });
    agent
}

#[test]
fn agent_bridges_forwarded_requests() {
    let mut agent = active_agent();
    let request = encode(&TunnelMessage::HttpRequest { request_id: 5, data: vec![1, 2, 3] });
    let actions = agent.step(AgentEvent::Frame { payload: request });
    assert_eq!(agent.phase, AgentPhase::Active);
    match actions.as_slice() {
        [AgentAction::OpenBridge { request_id, data }] => {
            assert_eq!(*request_id, 5);
            assert_eq!(data, &vec![1, 2, 3]);
        },
        other => panic!("expected a bridge, got {:?}", other),
    }
}

#[test]
fn agent_returns_bridge_response_under_same_id() {
    let mut agent = active_agent();
    let actions = agent.step(AgentEvent::BridgeResponse { request_id: 5, data: vec![9, 8] });
    match actions.as_slice() {
        [AgentAction::SendFrame { payload }] => {
            let frame = decode(payload).expect("response must decode");
            assert_eq!(frame, TunnelMessage::HttpResponse { request_id: 5, data: vec![9, 8] });
        },
        other => panic!("expected the response frame, got {:?}", other),
    }
}

#[test]
fn agent_bridge_failure_keeps_tunnel_up() {
    let mut agent = active_agent();
    let actions = agent.step(AgentEvent::BridgeFailed { request_id: 5 });
    assert_eq!(agent.phase, AgentPhase::Active);
    assert!(actions.is_empty());
}

#[test]
fn agent_echoes_keep_alive() {
    let mut agent = active_agent();
    let ping = encode(&TunnelMessage::KeepAlive);
    let actions = agent.step(AgentEvent::Frame { payload: ping });
    match actions.as_slice() {
        [AgentAction::SendFrame { payload }] => {
            assert_eq!(decode(payload).expect("echo must decode"), TunnelMessage::KeepAlive);
        },
        other => panic!("expected the echo, got {:?}", other),
    }
}

#[test]
fn agent_drops_noise_while_active() {
    let mut agent = active_agent();
    let actions = agent.step(AgentEvent::Frame { payload: vec![250, 250] });
    assert_eq!(agent.phase, AgentPhase::Active);
    assert!(actions.is_empty());
}

#[test]
fn agent_reconnects_after_transport_loss() {
    let mut agent = active_agent();
    let actions = agent.step(AgentEvent::TransportLost);
    assert_eq!(agent.phase, AgentPhase::Disconnected);
    assert!(matches!(
        actions.as_slice(),
        [AgentAction::Backoff { wait_ms }] if *wait_ms == RETRY_BACKOFF_MS
    ));
    let actions = agent.step(AgentEvent::Start);
    assert_eq!(agent.phase, AgentPhase::Connecting);
    assert!(matches!(actions.as_slice(), [AgentAction::Connect]));
}

#[test]
fn config_default_values() {
    let c = Config::default();
    assert_eq!(c.port, 8080);
    assert_eq!(c.server_port, 8000);
    assert!(c.domain.is_none());
}

#[test]
fn config_merge_prefers_non_default_cli_values() {
    let loaded = Config { port: 3000, server_port: 4000, domain: Some("saved.host".to_string()) };
    let merged = Config::merged(9999, None, DEFAULT_RELAY_PORT, loaded);
    assert_eq!(merged.port, 9999);
    assert_eq!(merged.server_port, 4000);
    assert_eq!(merged.domain, Some("saved.host".to_string()));

    let loaded = Config { port: 3000, server_port: 4000, domain: Some("saved.host".to_string()) };
    let merged = Config::merged(DEFAULT_LOCAL_PORT, Some("cli.host".to_string()), 5000, loaded);
    assert_eq!(merged.port, 3000);
    assert_eq!(merged.server_port, 5000);
    assert_eq!(merged.domain, Some("cli.host".to_string()));
}

fn fresh_app() -> App {
    App::new(DEFAULT_LOCAL_PORT, None, DEFAULT_RELAY_PORT, Config::default())
}

#[test]
fn app_starts_clean_with_fresh_identity() {
    let app = fresh_app();
    assert_eq!(app.port, 8080);
    assert_eq!(app.server_port, 8000);
    assert!(!app.tunnel_active);
    assert!(app.tunnel_url.is_none());
    assert!(app.logs.is_empty());
    assert_eq!(app.client_id.len(), 36);
    assert_eq!(app.mode, AppMode::Normal);
}

#[test]
fn app_log_lines_carry_clock_stamp_and_message() {
    let mut app = fresh_app();
    app.add_log(&"hello tunnel".to_string());
    assert_eq!(app.logs.len(), 1);
    let line = &app.logs[0];
    assert_eq!(line.len(), "hello tunnel".len() + 11);
    assert!(line.starts_with('['));
    assert_eq!(&line[9..11], "] ");
    assert!(line.ends_with("hello tunnel"));
}

#[test]
fn app_log_ring_is_capped() {
    let mut app = fresh_app();
    app.add_log(&"first".to_string());
    for i in 0..LOG_CAP {
        app.add_log(&format!("line {}", i));
    }
    assert_eq!(app.logs.len(), LOG_CAP);
    assert!(app.logs[0].ends_with("line 0"));
    assert!(app.logs[LOG_CAP - 1].ends_with(&format!("line {}", LOG_CAP - 1)));
}

#[test]
fn app_scrolling_is_bounded() {
    let mut app = fresh_app();
    app.add_log(&"one".to_string());
    app.add_log(&"two".to_string());
    app.scroll_logs_up();
    app.scroll_logs_up();
    app.scroll_logs_up();
    assert_eq!(app.log_offset, 2);
    app.scroll_logs_down();
    app.scroll_logs_down();
    app.scroll_logs_down();
    assert_eq!(app.log_offset, 0);
}

#[test]
fn app_visible_logs_shows_scrolled_tail() {
    let mut app = fresh_app();
    app.add_log(&"one".to_string());
    app.add_log(&"two".to_string());
    app.add_log(&"three".to_string());
    assert!(app.visible_logs().is_empty());
    app.scroll_logs_up();
    app.scroll_logs_up();
    let seen = app.visible_logs();
    assert_eq!(seen.len(), 2);
    assert!(seen[0].ends_with("two"));
    assert!(seen[1].ends_with("three"));
}

#[test]
fn app_port_editor_applies_valid_value() {
    let mut app = fresh_app();
    app.enter_config_port_mode();
    assert_eq!(app.mode, AppMode::ConfigPort);
    assert_eq!(app.input_buffer, "8080");
    app.handle_key_input('\u{8}');
    app.handle_key_input('\u{8}');
    app.handle_key_input('\u{8}');
    app.handle_key_input('\u{8}');
    app.handle_key_input('3');
    app.handle_key_input('0');
    app.handle_key_input('0');
    app.handle_key_input('0');
    assert_eq!(app.input_buffer, "3000");
    let save = app.apply_config();
    assert!(save);
    assert_eq!(app.port, 3000);
    assert_eq!(app.config.port, 3000);
    assert_eq!(app.mode, AppMode::Normal);
    assert_eq!(app.input_buffer, "");
}

#[test]
fn app_server_port_editor_applies_valid_value() {
    let mut app = fresh_app();
    app.enter_config_server_port_mode();
    assert_eq!(app.input_buffer, "8000");
    for _ in 0..4 {
        app.handle_key_input('\u{7f}');
    }
    app.handle_key_input('4');
    app.handle_key_input('2');
    let save = app.apply_config();
    assert!(save);
    assert_eq!(app.server_port, 42);
    assert_eq!(app.config.server_port, 42);
}

#[test]
fn app_rejects_invalid_port_input() {
    let mut app = fresh_app();
    app.enter_config_port_mode();
    for _ in 0..4 {
        app.handle_key_input('\u{8}');
    }
    app.handle_key_input('0');
    let save = app.apply_config();
    assert!(!save);
    assert_eq!(app.port, 8080);
    assert_eq!(app.mode, AppMode::Normal);

    app.enter_config_port_mode();
    for _ in 0..4 {
        app.handle_key_input('\u{8}');
    }
    let save = app.apply_config();
    assert!(!save);
    assert_eq!(app.port, 8080);
}

#[test]
fn app_editor_ignores_non_digits_and_normal_mode_ignores_keys() {
    let mut app = fresh_app();
    app.handle_key_input('5');
    assert_eq!(app.input_buffer, "");
    app.enter_config_port_mode();
    app.handle_key_input('x');
    assert_eq!(app.input_buffer, "8080");
    let save = app.apply_config();
    assert!(save);
    assert_eq!(app.port, 8080);
}

#[test]
fn app_tunnel_lifecycle_updates_status() {
    let mut app = fresh_app();
    app.tunnel_starting();
    assert!(app.connection_error.is_none());
    app.tunnel_started("https://abc.public.dev.peril.lol".to_string());
    assert!(app.tunnel_active);
    assert_eq!(app.tunnel_url.as_deref(), Some("https://abc.public.dev.peril.lol"));
    app.tunnel_stopped();
    assert!(!app.tunnel_active);
    assert!(app.tunnel_url.is_none());
    assert!(app.connection_error.is_none());
}

#[test]
fn app_tunnel_failure_is_shown() {
    let mut app = fresh_app();
    app.tunnel_starting();
    app.tunnel_failed("Failed to start tunnel: refused".to_string());
    assert_eq!(app.connection_error.as_deref(), Some("Failed to start tunnel: refused"));
    assert!(!app.tunnel_active);
}

#[test]
fn decimal_formatting_is_exact() {
    assert_eq!(u16_to_string(0), "0");
    assert_eq!(u16_to_string(7), "7");
    assert_eq!(u16_to_string(8080), "8080");
    assert_eq!(u16_to_string(65535), "65535");
}

#[test]
fn url_scan_finds_leftmost_url() {
    let line = "t=tunnel https://abc123.tunnel.example started".to_string();
    assert_eq!(find_https_url(&line), Some("https://abc123.tunnel.example".to_string()));
    let line = "one https://first.example then https://second.example".to_string();
    assert_eq!(find_https_url(&line), Some("https://first.example".to_string()));
}

#[test]
fn url_scan_stops_at_slash_and_whitespace() {
    let line = "see https://host.example/path?x=1".to_string();
    assert_eq!(find_https_url(&line), Some("https://host.example".to_string()));
    let line = "see https://host.example\tmore".to_string();
    assert_eq!(find_https_url(&line), Some("https://host.example".to_string()));
}

#[test]
fn url_scan_misses_when_no_url_follows() {
    assert_eq!(find_https_url(&"no url in this line".to_string()), None);
    assert_eq!(find_https_url(&"https:// nothing".to_string()), None);
    assert_eq!(find_https_url(&"".to_string()), None);
}

#[test]
fn decimal_parsing_is_exact_and_total() {
    assert_eq!(parse_u16(&"0".to_string()), Some(0));
    assert_eq!(parse_u16(&"8080".to_string()), Some(8080));
    assert_eq!(parse_u16(&"65535".to_string()), Some(65535));
    assert_eq!(parse_u16(&"65536".to_string()), None);
    assert_eq!(parse_u16(&"".to_string()), None);
    assert_eq!(parse_u16(&"12a".to_string()), None);
    assert_eq!(parse_u16(&"-1".to_string()), None);
}
