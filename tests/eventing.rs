use sonos::{
    forward_decoded, probe_address, renew_or_cancel_sub, subscribe_request, subscription_id,
    timeout_value, Delivery, DeviceHost, Error, GenaMethod, GenaRequest, IpAddress, NotifyReader,
    QueueProbe, ReadStep, ReceiveState, Session, SessionAction, SessionEvent, SessionPhase,
    SubscriptionConfig, SubscriptionMessage,
};

fn notify(body: &str) -> Vec<u8> {
    format!(
        "NOTIFY / HTTP/1.1\r\nHOST: 10.0.0.2:3400\r\nContent-Type: text/xml\r\nNT: upnp:event\r\nContent-Length: {}\r\n\r\n{}",
        body.len(),
        body
    )
    .into_bytes()
}

fn read_all(chunks: &[&[u8]]) -> Vec<ReadStep> {
    let mut reader = NotifyReader::new();
    chunks.iter().map(|c| reader.feed(c)).collect()
}

fn body_of(step: &ReadStep) -> Option<String> {
    match step {
        ReadStep::Body(b) => Some(b.clone()),
        _ => None,
    }
}

fn headers(r: &GenaRequest) -> Vec<(String, String)> {
    r.headers.clone()
}

fn pair(a: &str, b: &str) -> (String, String) {
    (a.to_string(), b.to_string())
}

#[test]
fn single_read_yields_body() {
    let req = notify("<Event>1</Event>");
    let steps = read_all(&[&req]);
    assert_eq!(body_of(&steps[0]).as_deref(), Some("<Event>1</Event>"));
}

#[test]
fn byte_by_byte_reads_yield_same_body() {
    let req = notify("<e:propertyset><e:property>x</e:property></e:propertyset>");
    let chunks: Vec<&[u8]> = req.chunks(1).collect();
    let steps = read_all(&chunks);
    for s in &steps[..steps.len() - 1] {
        assert!(matches!(s, ReadStep::NeedMore));
    }
    assert_eq!(
        body_of(steps.last().unwrap()).as_deref(),
        Some("<e:propertyset><e:property>x</e:property></e:propertyset>")
    );
}

#[test]
fn body_split_across_reads_waits_for_content_length() {
    let req = notify("<Event>22</Event>");
    let split = req.len() - 5;
    let steps = read_all(&[&req[..split], &req[split..]]);
    assert!(matches!(steps[0], ReadStep::NeedMore));
    assert_eq!(body_of(&steps[1]).as_deref(), Some("<Event>22</Event>"));
}

#[test]
fn missing_content_length_takes_what_is_there() {
    let req = b"NOTIFY / HTTP/1.1\r\nHOST: a\r\n\r\n<Ev";
    let steps = read_all(&[req]);
    assert_eq!(body_of(&steps[0]).as_deref(), Some("<Ev"));
}

#[test]
fn content_length_matched_in_any_case() {
    let req = b"NOTIFY / HTTP/1.1\r\ncontent-LENGTH: 6\r\n\r\n<E>";
    let steps = read_all(&[req, b"</E"]);
    assert!(matches!(steps[0], ReadStep::NeedMore));
    assert_eq!(body_of(&steps[1]).as_deref(), Some("<E></E"));
}

#[test]
fn unparsable_content_length_rejects() {
    let steps = read_all(&[b"NOTIFY / HTTP/1.1\r\nContent-Length: ten\r\n\r\n<E/>"]);
    assert!(matches!(steps[0], ReadStep::Reject));
    let steps = read_all(&[b"NOTIFY / HTTP/1.1\r\nContent-Length: -4\r\n\r\n<E/>"]);
    assert!(matches!(steps[0], ReadStep::Reject));
}

#[test]
fn plus_sign_content_length_accepted() {
    let steps = read_all(&[b"NOTIFY / HTTP/1.1\r\nContent-Length: +4\r\n\r\n<E/>"]);
    assert_eq!(body_of(&steps[0]).as_deref(), Some("<E/>"));
}

#[test]
fn malformed_head_rejects() {
    let steps = read_all(&[b"NOT IFY\x01 / HTTP/1.1\r\n\r\n"]);
    assert!(matches!(steps[0], ReadStep::Reject));
}

#[test]
fn partial_head_needs_more() {
    let steps = read_all(&[b"NOTIFY / HTTP/1.1\r\nHOST: a\r\n"]);
    assert!(matches!(steps[0], ReadStep::NeedMore));
}

#[test]
fn invalid_utf8_body_is_replaced() {
    let steps = read_all(&[b"NOTIFY / HTTP/1.1\r\nContent-Length: 3\r\n\r\na\xffb"]);
    assert_eq!(body_of(&steps[0]).as_deref(), Some("a\u{fffd}b"));
}

#[test]
fn renewal_interval_defaults() {
    let config = SubscriptionConfig::new();
    assert_eq!(config.lease_seconds, 60);
    assert_eq!(config.renewal_margin_seconds, 10);
    assert_eq!(config.callback_queue_capacity, 16);
    assert_eq!(config.renewal_interval(), 50_000);
    assert_eq!(config.deadline_from(1_000), 51_000);
    assert_eq!(config.deadline_from(u64::MAX - 10), u64::MAX);
    let odd = SubscriptionConfig { lease_seconds: 5, renewal_margin_seconds: 10, callback_queue_capacity: 1 };
    assert_eq!(odd.renewal_interval(), 0);
}

#[test]
fn renewal_timing() {
    let mut s = Session::start("uuid:1".to_string(), SubscriptionConfig::new(), 0);
    assert_eq!(s.deadline_ms, 50_000);
    let early = s.step(SessionEvent::TimerFired { now_ms: 49_999, probe: QueueProbe::Sent });
    assert_eq!(early, SessionAction::WaitUntil(50_000));
    assert_eq!(s.phase, SessionPhase::Active);
    let due = s.step(SessionEvent::TimerFired { now_ms: 50_000, probe: QueueProbe::Full });
    assert_eq!(due, SessionAction::Renew);
    assert_eq!(s.phase, SessionPhase::Renewing);
    let ok = s.step(SessionEvent::Response { now_ms: 50_200, status: Some(200) });
    assert_eq!(ok, SessionAction::WaitUntil(100_200));
    assert_eq!(s.phase, SessionPhase::Active);
    assert_eq!(s.sid, "uuid:1");
}

#[test]
fn connections_served_while_active() {
    let mut s = Session::start("uuid:1".to_string(), SubscriptionConfig::new(), 0);
    assert_eq!(s.step(SessionEvent::Accepted), SessionAction::Serve);
    assert_eq!(s.phase, SessionPhase::Active);
}

#[test]
fn accept_failure_stops_session() {
    let mut s = Session::start("uuid:1".to_string(), SubscriptionConfig::new(), 0);
    assert_eq!(s.step(SessionEvent::AcceptFailed), SessionAction::Stop);
    assert_eq!(s.phase, SessionPhase::Terminated);
    assert_eq!(s.step(SessionEvent::Accepted), SessionAction::Stop);
}

#[test]
fn disinterest_unsubscribes_and_ends() {
    let mut s = Session::start("uuid:1".to_string(), SubscriptionConfig::new(), 0);
    let a = s.step(SessionEvent::TimerFired { now_ms: 50_000, probe: QueueProbe::Closed });
    assert_eq!(a, SessionAction::Unsubscribe);
    assert_eq!(s.phase, SessionPhase::Cancelling);
    let again = s.step(SessionEvent::TimerFired { now_ms: 60_000, probe: QueueProbe::Closed });
    assert_eq!(again, SessionAction::AwaitResponse);
    let done = s.step(SessionEvent::Response { now_ms: 50_100, status: Some(412) });
    assert_eq!(done, SessionAction::Stop);
    assert_eq!(s.phase, SessionPhase::Terminated);
}

#[test]
fn renewal_failure_ends_stream_after_drain() {
    let mut s = Session::start("uuid:1".to_string(), SubscriptionConfig::new(), 0);
    s.step(SessionEvent::TimerFired { now_ms: 50_000, probe: QueueProbe::Sent });
    let a = s.step(SessionEvent::Response { now_ms: 50_010, status: Some(500) });
    assert_eq!(a, SessionAction::Stop);
    assert_eq!(s.phase, SessionPhase::Terminated);

    // the queue still holds two events when the session ends
    let mut rx = ReceiveState::new();
    let mut queue = vec![
        Some(SubscriptionMessage::Event(1)),
        Some(SubscriptionMessage::Ping),
        Some(SubscriptionMessage::Event(2)),
        None,
        Some(SubscriptionMessage::Event(3)),
    ]
    .into_iter();
    let mut got = vec![];
    let mut ended_at = None;
    for i in 0..5 {
        match rx.accept(queue.next().unwrap()) {
            Delivery::Deliver(v) => got.push(v),
            Delivery::Skip => {}
            Delivery::End => {
                ended_at.get_or_insert(i);
            }
        }
    }
    assert_eq!(got, vec![1, 2]);
    assert_eq!(ended_at, Some(3));
    assert!(rx.is_ended());
}

#[test]
fn transport_failure_on_renewal_ends_session() {
    let mut s = Session::start("uuid:1".to_string(), SubscriptionConfig::new(), 0);
    s.step(SessionEvent::TimerFired { now_ms: 50_000, probe: QueueProbe::Sent });
    assert_eq!(s.step(SessionEvent::Response { now_ms: 50_010, status: None }), SessionAction::Stop);
}

#[test]
fn stream_end_is_terminal() {
    let mut rx = ReceiveState::new();
    assert!(!rx.is_ended());
    assert!(matches!(rx.accept::<u32>(None), Delivery::End));
    for _ in 0..3 {
        assert!(matches!(rx.accept(Some(SubscriptionMessage::Event(7u32))), Delivery::End));
    }
    assert!(rx.is_ended());
}

#[test]
fn pings_are_skipped() {
    let mut rx = ReceiveState::new();
    assert!(matches!(rx.accept::<u32>(Some(SubscriptionMessage::Ping)), Delivery::Skip));
    assert!(matches!(rx.accept(Some(SubscriptionMessage::Event(4u32))), Delivery::Deliver(4)));
}

fn decode_event(body: &str) -> Result<u32, String> {
    body.strip_prefix("<Event>")
        .and_then(|r| r.strip_suffix("</Event>"))
        .and_then(|n| n.parse().ok())
        .ok_or_else(|| format!("not an event: {body}"))
}

#[test]
fn decode_failure_does_not_block_next_connection() {
    let bad = notify("<Bogus/>");
    let good = notify("<Event>5</Event>");
    let mut forwarded = vec![];
    for req in [&bad, &good] {
        let mut reader = NotifyReader::new();
        if let ReadStep::Body(text) = reader.feed(req) {
            if let Some(m) = forward_decoded(decode_event(&text)) {
                forwarded.push(m);
            }
        }
    }
    assert_eq!(forwarded.len(), 1);
    assert!(matches!(forwarded[0], SubscriptionMessage::Event(5)));
}

#[test]
fn two_connections_deliver_both_events() {
    let first = notify("<Event>1</Event>");
    let second = notify("<Event>2</Event>");
    let mut c1 = NotifyReader::new();
    let mut c2 = NotifyReader::new();
    let mut queue = vec![];
    // connection 1 sends its head, then connection 2 completes, then 1
    assert!(matches!(c1.feed(&first[..20]), ReadStep::NeedMore));
    for (reader, bytes) in [(&mut c2, &second[..]), (&mut c1, &first[20..])] {
        if let ReadStep::Body(text) = reader.feed(bytes) {
            queue.extend(forward_decoded(decode_event(&text)).map(Some));
        }
    }
    queue.push(None);
    let mut rx = ReceiveState::new();
    let mut got = std::collections::BTreeSet::new();
    for m in queue.into_iter().take(2) {
        if let Delivery::Deliver(v) = rx.accept(m) {
            got.insert(v);
        }
    }
    assert_eq!(got, [1, 2].into_iter().collect());
}

#[test]
fn handshake_without_sid_fails() {
    let r = subscription_id(200, None, String::new());
    assert_eq!(r, Err(Error::SubscriptionFailedNoSid));
    let r = subscription_id(200, Some(b""), String::new());
    assert_eq!(r, Err(Error::SubscriptionFailedNoSid));
    let r = subscription_id(200, Some(b"uuid:\x01"), String::new());
    assert_eq!(r, Err(Error::SubscriptionFailedNoSid));
}

#[test]
fn handshake_failure_status() {
    let r = subscription_id(412, Some(b"uuid:1"), "nope".to_string());
    assert_eq!(r, Err(Error::FailedRequest { status: 412, body: "nope".to_string() }));
}

#[test]
fn handshake_success_returns_sid() {
    let r = subscription_id(200, Some(b"uuid:RINCON_1_sub0000001\t"), String::new());
    assert_eq!(r, Ok("uuid:RINCON_1_sub0000001\t".to_string()));
}

#[test]
fn subscribe_request_headers() {
    let r = subscribe_request("10.0.0.2:41234", &SubscriptionConfig::new());
    assert_eq!(r.method, GenaMethod::Subscribe);
    assert_eq!(
        headers(&r),
        vec![
            pair("CALLBACK", "<http://10.0.0.2:41234>"),
            pair("NT", "upnp:event"),
            pair("TIMEOUT", "Second-60"),
        ]
    );
}

#[test]
fn renewal_and_cancel_requests() {
    let config = SubscriptionConfig { lease_seconds: 1800, renewal_margin_seconds: 10, callback_queue_capacity: 16 };
    assert_eq!(timeout_value(&config), "Second-1800");
    let r = renew_or_cancel_sub(true, "uuid:9", &config);
    assert_eq!(r.method, GenaMethod::Subscribe);
    assert_eq!(headers(&r), vec![pair("SID", "uuid:9"), pair("TIMEOUT", "Second-1800")]);
    let r = renew_or_cancel_sub(false, "uuid:9", &config);
    assert_eq!(r.method, GenaMethod::Unsubscribe);
    assert_eq!(headers(&r), vec![pair("SID", "uuid:9")]);

    let s = Session::start("uuid:9".to_string(), config, 0);
    assert_eq!(headers(&s.renewal_request()), vec![pair("SID", "uuid:9"), pair("TIMEOUT", "Second-1800")]);
    assert_eq!(headers(&s.unsubscribe_request()), vec![pair("SID", "uuid:9")]);
}

#[test]
fn probe_address_needs_ip() {
    let url = "http://192.168.1.5:1400/xml/device_description.xml".to_string();
    let ip = IpAddress::V4(0xc0a8_0105);
    assert_eq!(probe_address(&DeviceHost::Ip(ip), Some(1400), url.clone()), Ok((ip, 1400)));
    assert_eq!(probe_address(&DeviceHost::Ip(ip), None, url.clone()), Ok((ip, 80)));
    assert_eq!(
        probe_address(&DeviceHost::Domain("player.local".to_string()), Some(1400), url.clone()),
        Err(Error::NoIpInDeviceUrl(url.clone()))
    );
    assert_eq!(probe_address(&DeviceHost::Missing, None, url.clone()), Err(Error::NoIpInDeviceUrl(url)));
}
