use webrtc_direct::interop::harness::{
    asset_path, driver_is_ready, headless, index_html, is_warning, outcome, page_url, serve_asset,
    Config, Waited, BIND_ADDR, DRIVER_PORT_ARGUMENT, DRIVER_URL,
};
use webrtc_direct::interop::host_log::{
    append_field, event_line, host_of, log_url, next_flush, take_batch, FlushEvent, FlushStep, Level,
    FLUSH_INTERVAL_MS,
};
use webrtc_direct::interop::ping::{
    announcement, dial_address, listener_address, listens_first, parse_protocols, results_url,
    sending_failed, Dialer, Listener, NoDialAddress, Report, SwarmEvent, TestStep,
    IDENTIFY_PROTOCOL, PING_COUNT, PING_INTERVAL_SECS,
};
use webrtc_direct::interop::protocols::{Muxer, SecProtocol, Transport};
use webrtc_direct::time::Instant;

#[test]
fn names_of_protocols() {
    for (name, transport) in [
        ("tcp", Transport::Tcp),
        ("quic-v1", Transport::QuicV1),
        ("webrtc-direct", Transport::WebRtcDirect),
        ("ws", Transport::Ws),
        ("webtransport", Transport::Webtransport),
    ] {
        assert_eq!(Transport::from_str(name), Ok(transport));
    }
    assert_eq!(Muxer::from_str("mplex"), Ok(Muxer::Mplex));
    assert_eq!(Muxer::from_str("yamux"), Ok(Muxer::Yamux));
    assert_eq!(SecProtocol::from_str("noise"), Ok(SecProtocol::Noise));
    assert_eq!(SecProtocol::from_str("tls"), Ok(SecProtocol::Tls));
}

#[test]
fn unknown_names_of_protocols() {
    assert_eq!(Transport::from_str("TCP"), Err("unknown transport TCP".to_string()));
    assert_eq!(Muxer::from_str(""), Err("unknown muxer ".to_string()));
    assert_eq!(SecProtocol::from_str("x"), Err("unknown security protocol x".to_string()));
}

#[test]
fn protocols_of_a_test() {
    let parsed = parse_protocols("webrtc-direct", None, None).unwrap();
    assert_eq!(parsed.transport, Transport::WebRtcDirect);
    assert_eq!((parsed.sec_protocol, parsed.muxer), (None, None));
    let parsed = parse_protocols("tcp", Some("noise"), Some("yamux")).unwrap();
    assert_eq!(parsed.sec_protocol, Some(SecProtocol::Noise));
    assert_eq!(parsed.muxer, Some(Muxer::Yamux));
    let error = parse_protocols("x", Some("y"), Some("z")).unwrap_err();
    assert_eq!(error.context, "Couldn't parse transport");
    assert_eq!(error.cause, "unknown transport x");
    let error = parse_protocols("tcp", Some("y"), Some("z")).unwrap_err();
    assert_eq!(error.context, "Couldn't parse security protocol");
    assert_eq!(error.cause, "unknown security protocol y");
    let error = parse_protocols("tcp", None, Some("z")).unwrap_err();
    assert_eq!(error.context, "Couldn't parse muxer protocol");
    assert_eq!(error.cause, "unknown muxer z");
}

#[test]
fn who_listens_first() {
    assert!(listens_first(Transport::WebRtcDirect, false));
    assert!(!listens_first(Transport::WebRtcDirect, true));
    assert!(!listens_first(Transport::Tcp, false));
}

#[test]
fn what_the_dialer_is_told() {
    let popped = vec!["listenerAddr".to_string(), "/ip4/1.2.3.4/udp/9/webrtc-direct".to_string()];
    assert_eq!(listener_address(&popped).unwrap(), &popped[1]);
    assert_eq!(dial_address(&popped).unwrap().to_string(), popped[1]);
    let popped = vec!["listenerAddr".to_string()];
    assert_eq!(listener_address(&popped), Err("Failed to wait for listener to be ready"));
    assert_eq!(dial_address(&popped), Err(NoDialAddress::NoListener));
    let popped = vec!["listenerAddr".to_string(), "nowhere".to_string()];
    assert_eq!(dial_address(&popped), Err(NoDialAddress::NotAMultiaddr));
}

#[test]
fn what_the_listener_announces() {
    let address = "/ip4/10.0.0.1/udp/9/webrtc-direct";
    assert_eq!(announcement(address, true, "Qm"), Some(format!("{address}/p2p/Qm")));
    assert_eq!(announcement(address, false, "Qm"), None);
    assert_eq!(announcement("/ip4/127.0.0.1/udp/9", true, "Qm"), None);
}

#[test]
fn a_dialer_needs_a_dozen_pings() {
    let mut dialer = Dialer::new(Instant { nanos: 1_000_000 });
    let ping = |rtt_micros| SwarmEvent::PingSucceeded { rtt_micros };
    for i in 0..PING_COUNT - 1 {
        let now = Instant { nanos: 6_000_000 + i as u64 * 1_000_000_000 };
        assert_eq!(dialer.on_event(ping(i as u64), now), TestStep::Wait);
        assert_eq!(dialer.on_event(SwarmEvent::PingFailed, now), TestStep::Wait);
        assert_eq!(dialer.on_event(SwarmEvent::Other, now), TestStep::Wait);
        assert_eq!(dialer.on_event(SwarmEvent::ConnectionEstablished, now), TestStep::Wait);
    }
    assert_eq!(PING_COUNT, 12);
    assert_eq!(
        dialer.on_event(ping(777), Instant { nanos: u64::MAX }),
        TestStep::Passed(Report { handshake_plus_one_rtt_micros: 5_000, ping_rtt_micros: 777 })
    );
}

#[test]
fn a_listener_needs_a_dozen_pings() {
    let mut listener = Listener::new();
    let ping = |rtt_micros| SwarmEvent::PingSucceeded { rtt_micros };
    let up = SwarmEvent::ConnectionEstablished;
    assert_eq!(listener.on_event(up, Instant { nanos: 2_000 }), TestStep::Wait);
    assert_eq!(listener.on_event(up, Instant { nanos: 9_000 }), TestStep::Wait);
    for _ in 0..11 {
        assert_eq!(listener.on_event(ping(1), Instant { nanos: 10_000 }), TestStep::Wait);
        assert_eq!(
            listener.on_event(SwarmEvent::PingFailed, Instant { nanos: 10_000 }),
            TestStep::Wait
        );
    }
    assert_eq!(
        listener.on_event(ping(3), Instant { nanos: 30_000 }),
        TestStep::Passed(Report { handshake_plus_one_rtt_micros: 28, ping_rtt_micros: 3 })
    );
}

#[test]
fn tests_that_fail() {
    let now = Instant { nanos: 0 };
    let ended = TestStep::Failed("Swarm stream ended unexpectedly");
    assert_eq!(Dialer::new(now).on_event(SwarmEvent::Ended, now), ended);
    assert_eq!(Listener::new().on_event(SwarmEvent::Ended, now), ended);
    assert_eq!(
        Listener::new().on_timeout(),
        TestStep::Failed("Timed out waiting for dialer ping")
    );
    assert_eq!(results_url("host:1"), "http://host:1/results");
    assert_eq!(sending_failed("no"), "Sending test result failed: no");
    assert_eq!((PING_INTERVAL_SECS, IDENTIFY_PROTOCOL), (1, "/interop-tests"));
}

#[test]
fn fields_of_a_log_line() {
    let mut message = String::new();
    append_field(&mut message, "a", "1");
    assert_eq!(message, "a=1");
    append_field(&mut message, "b", "");
    assert_eq!(message, "a=1 b=");
}

#[test]
fn log_lines() {
    assert_eq!(event_line(Level::Debug, "t", "a=1"), Some("DEBUG t: a=1".to_string()));
    assert_eq!(event_line(Level::Error, "t", ""), Some("ERROR t:(event)".to_string()));
    assert_eq!(event_line(Level::Warn, "t", "x"), Some("WARN t: x".to_string()));
    assert_eq!(event_line(Level::Info, "t", "x"), Some("INFO t: x".to_string()));
    assert_eq!(event_line(Level::Trace, "t", "x"), None);
    assert_eq!(Level::Trace.name(), "TRACE");
}

#[test]
fn batches_lose_nothing() {
    let lines: Vec<String> = (0..70).map(|i| i.to_string()).collect();
    let mut pending = lines.clone();
    let mut sent = vec![];
    let mut sizes = vec![];
    loop {
        match take_batch(&mut pending) {
            None => break,
            Some(batch) => {
                sizes.push(batch.lines.len());
                sent.extend(batch.lines);
            }
        }
    }
    assert_eq!(sizes, vec![32, 32, 6]);
    assert_eq!(sent, lines);
    assert!(take_batch(&mut pending).is_none());
    assert_eq!(FLUSH_INTERVAL_MS, 250);
}

#[test]
fn the_flusher_goes_on_whatever_comes() {
    let mut pending: Vec<String> = (0..33).map(|i| i.to_string()).collect();
    assert_eq!(next_flush(None, FlushEvent::Waited, &mut pending), FlushStep::Stop);
    assert_eq!(pending.len(), 33);
    let wait = FlushStep::Wait { millis: 250 };
    assert_eq!(next_flush(Some("h:1"), FlushEvent::Started, &mut pending), wait);
    for size in [32, 1] {
        match next_flush(Some("h:1"), FlushEvent::Waited, &mut pending) {
            FlushStep::Post { url, batch } => {
                assert_eq!(url, "http://h:1/log");
                assert_eq!(batch.lines.len(), size);
            }
            step => panic!("{step:?}"),
        }
        // a batch that could not be posted is gone
        let failed = FlushEvent::Posted { success: false };
        assert_eq!(next_flush(Some("h:1"), failed, &mut pending), wait);
        let posted = FlushEvent::Posted { success: true };
        assert_eq!(next_flush(Some("h:1"), posted, &mut pending), wait);
    }
    assert!(pending.is_empty());
    assert_eq!(next_flush(Some("h:1"), FlushEvent::Waited, &mut pending), wait);
}

#[test]
fn hosts_of_base_addresses() {
    assert_eq!(host_of("http://127.0.0.1:8080/"), "127.0.0.1:8080");
    assert_eq!(host_of("https://h//"), "h");
    assert_eq!(host_of("http://http://https://h"), "h");
    assert_eq!(host_of("https://http://h"), "http://h");
    assert_eq!(host_of("h"), "h");
    assert_eq!(log_url("h:1"), "http://h:1/log");
}

#[test]
fn settings_of_the_harness() {
    assert!(headless(None));
    assert!(headless(Some("1")));
    assert!(headless(Some("")));
    assert!(!headless(Some("0")));
    assert!(!headless(Some("false")));
    assert!(driver_is_ready("ChromeDriver was started successfully on port 45782."));
    assert!(!driver_is_ready("Starting ChromeDriver"));
    assert!(is_warning("WARN x: y"));
    assert!(is_warning("ERROR x: y"));
    assert!(!is_warning("INFO WARN "));
    assert!(!is_warning("WARN"));
    assert_eq!(page_url(), "http://127.0.0.1:8080");
    assert_eq!(BIND_ADDR, "127.0.0.1:8080");
    assert_eq!(DRIVER_PORT_ARGUMENT, "--port=45782");
    assert_eq!(DRIVER_URL, "http://localhost:45782");
}

fn page(transport: &str, ip: &str, is_dialer: bool, test_timeout: u64, sec: &str, mux: &str) -> String {
    format!(
        r#"
        <!DOCTYPE html>
        <html>
        <head>
            <meta charset="UTF-8" />
            <title>libp2p ping test</title>
            <script type="module">
                // import a wasm initialization fn and our test entrypoint
                import init, {{ run_test_wasm }} from "/interop_tests.js";

                // initialize wasm
                await init()
                // run our entrypoint with params from the env
                await run_test_wasm(
                    "{transport}",
                    "{ip}",
                    {is_dialer},
                    "{test_timeout}",
                    "127.0.0.1:8080",
                    {sec},
                    {mux}
                )
            </script>
        </head>

        <body></body>
        </html>
    "#
    )
}

#[test]
fn the_test_page() {
    let mut config = Config {
        transport: "webrtc-direct".to_string(),
        ip: "0.0.0.0".to_string(),
        is_dialer: true,
        test_timeout: 180,
        sec_protocol: None,
        muxer: None,
    };
    assert_eq!(
        index_html(&config),
        page("webrtc-direct", "0.0.0.0", true, 180, "null", "null")
    );
    config.is_dialer = false;
    config.sec_protocol = Some("noise".to_string());
    config.muxer = Some("yamux".to_string());
    config.test_timeout = 0;
    assert_eq!(
        index_html(&config),
        page("webrtc-direct", "0.0.0.0", false, 0, "\"noise\"", "\"yamux\"")
    );
}

#[test]
fn outcomes_of_a_test() {
    let report = Report { handshake_plus_one_rtt_micros: 1, ping_rtt_micros: 2 };
    assert_eq!(outcome(Waited::Reported(Ok(report))), Ok(report));
    assert_eq!(
        outcome(Waited::Reported(Err("x".to_string()))),
        Err("Tests failed: x".to_string())
    );
    assert_eq!(outcome(Waited::Closed), Err("Tests failed: Results channel closed".to_string()));
    assert_eq!(outcome(Waited::TimedOut), Err("Tests failed: Test timed out".to_string()));
}

#[test]
fn assets() {
    assert_eq!(asset_path("//pkg/a.js"), "pkg/a.js");
    assert_eq!(asset_path("a"), "a");
    assert_eq!(serve_asset("a.wasm", true), Some("application/wasm".to_string()));
    assert_eq!(serve_asset("a.html", true), Some("text/html".to_string()));
    assert_eq!(serve_asset("a.nosuchextension", true), Some("application/octet-stream".to_string()));
    assert_eq!(serve_asset("a.html", false), None);
}
