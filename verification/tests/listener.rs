use tx_relay::listener::{handle, plan, Action, Delivery, Reply, Report, Request};
use tx_relay::message::{Message, Payload, Tag, KIND};
use tx_relay::network::{NetworkId, MAINNET_MAGIC, MUTINYNET_MAGIC, TESTNET_MAGIC};
use tx_relay::publisher::compose;
use tx_relay::transaction::Transaction;

const LEGACY: &str = "0100000001a15d57094aa7a21a28cb20b59aab8fc7d1149a3bdbcddba9c622e4f5f6a99ece010000006c493046022100f93bb0e7d8db7bd46e40132d1f8242026e045f03a0efe71bbb8e3f475e970d790221009337cd7f1f929f00cc6ff01f03729b069a7c21b59b1736ddfee5db5946c5da8c0121033b9b137ee87d5a812d6f506efdd37f0affa7ffc310711c06c7f3e097c9447c52ffffffff0100e1f505000000001976a9140389035a9225b3839e2bbf32d826a1e222031fd888ac00000000";

const SEGWIT: &str = "02000000000101595895ea20179de87052b4046dfe6fd515860505d6511a9004cf12a1f93cac7c0100000000ffffffff01deb807000000000017a9140f3444e271620c736808aa7b33e370bd87cb5a078702483045022100fb60dad8df4af2841adc0346638c16d0b8035f5e3f3753b88db122e70c79f9370220756e6633b17fd2710e626347d28d60b0a2d6cbb41de51740644b9fb3ba7751040121028fa937ca8cba2197a37c007176ed8941055d3bcb8627d085e94553e62f057dcc00000000";

fn strings(values: &[&str]) -> Vec<String> {
    values.iter().map(|v| v.to_string()).collect()
}

fn tag(key: &str, values: &[&str]) -> Tag {
    Tag { key: key.to_string(), values: strings(values) }
}

fn delivery(action: Action) -> Delivery {
    match action {
        Action::Deliver(delivery) => delivery,
        other => panic!("nothing to deliver: {other:?}"),
    }
}

const OK: Reply = Reply::Status(200);

/// Makes every request of a delivery, answering the n-th with `answers[n]`,
/// and returns what was posted and what was reported.
fn run(mut delivery: Delivery, answers: &[Reply]) -> (Vec<Request>, Vec<Report>) {
    let mut requests = Vec::new();
    let mut reports = Vec::new();
    while let Some(request) = delivery.next_request() {
        let answer = answers[requests.len()];
        requests.push(request);
        reports.push(delivery.record(answer).unwrap());
    }
    assert_eq!(delivery.record(OK), None);
    assert_eq!(delivery.attempted(), delivery.len());
    assert!(delivery.pending().is_none());
    (requests, reports)
}

#[test]
fn a_published_batch_is_posted_in_order() {
    let published = compose(&NetworkId::from_bytes(MAINNET_MAGIC), strings(&[LEGACY, SEGWIT])).unwrap();
    let delivery = delivery(handle(&published));
    assert_eq!(delivery.url(), "https://mempool.space/api/tx");
    assert_eq!(delivery.len(), 2);
    assert_eq!(delivery.attempted(), 0);
    let (requests, reports) = run(delivery, &[OK, Reply::Status(201)]);
    assert_eq!(requests, vec![
        Request { url: "https://mempool.space/api/tx", body: LEGACY.to_string() },
        Request { url: "https://mempool.space/api/tx", body: SEGWIT.to_string() },
    ]);
    assert_eq!(reports, vec![Report { index: 0, accepted: true }, Report { index: 1, accepted: true }]);
}

#[test]
fn a_malformed_entry_is_never_posted() {
    let m = Message {
        kind: KIND,
        tags: vec![tag("magic", &["f9beb4d9"]), tag("transactions", &[LEGACY, "not a transaction"])],
        content: String::new(),
    };
    let (requests, reports) = run(delivery(handle(&m)), &[OK]);
    assert_eq!(requests, vec![Request { url: "https://mempool.space/api/tx", body: LEGACY.to_string() }]);
    assert_eq!(reports, vec![Report { index: 0, accepted: true }]);
}

#[test]
fn the_community_network_gets_its_own_endpoint() {
    let published = compose(&NetworkId::from_bytes(MUTINYNET_MAGIC), strings(&[SEGWIT])).unwrap();
    assert_eq!(published.tags[0], tag("magic", &["a5df2dcb"]));
    let (requests, _) = run(delivery(handle(&published)), &[OK]);
    assert_eq!(requests, vec![Request { url: "https://mutinynet.com/api/tx", body: SEGWIT.to_string() }]);
}

#[test]
fn without_a_network_tag_nothing_is_posted() {
    let m = Message { kind: KIND, tags: vec![tag("transactions", &[LEGACY, SEGWIT])], content: String::new() };
    let action = handle(&m);
    assert!(matches!(action, Action::UnknownNetwork));
    assert_eq!(action.notice(), Some("Network: unknown".to_string()));
}

#[test]
fn an_unsupported_network_gets_no_part_of_the_batch() {
    let m = Message {
        kind: KIND,
        tags: vec![tag("magic", &["fabfb5da"]), tag("transactions", &[LEGACY, SEGWIT])],
        content: String::new(),
    };
    let action = handle(&m);
    match &action {
        Action::Unsupported(e) => assert_eq!(e.magic, NetworkId::from_bytes([0xfa, 0xbf, 0xb5, 0xda])),
        other => panic!("{other:?}"),
    }
    assert_eq!(action.notice(), Some("Magic: fabfb5da is unknown".to_string()));
}

#[test]
fn another_kind_is_skipped_in_silence() {
    let m = Message {
        kind: 1,
        tags: vec![tag("magic", &["f9beb4d9"]), tag("transactions", &[LEGACY])],
        content: String::new(),
    };
    let action = handle(&m);
    assert!(matches!(action, Action::Skip));
    assert_eq!(action.notice(), None);
}

#[test]
fn an_empty_batch_is_a_silent_no_op() {
    for magic in ["f9beb4d9", "fabfb5da"] {
        for values in [vec![], vec!["junk"]] {
            let m = Message {
                kind: KIND,
                tags: vec![tag("magic", &[magic]), tag("transactions", &values)],
                content: String::new(),
            };
            let action = handle(&m);
            assert!(matches!(action, Action::Skip), "{action:?}");
            assert_eq!(action.notice(), None);
        }
    }
    let unknown = Message { kind: KIND, tags: vec![tag("transactions", &[])], content: String::new() };
    assert!(matches!(handle(&unknown), Action::UnknownNetwork));
}

#[test]
fn a_failed_request_holds_up_none_behind_it() {
    let batch = vec![
        Transaction::from_hex(SEGWIT).unwrap(),
        Transaction::from_hex(LEGACY).unwrap(),
        Transaction::from_hex(SEGWIT).unwrap(),
    ];
    let action = plan(Payload { network: Some(NetworkId::from_bytes(TESTNET_MAGIC)), batch });
    let (requests, reports) = run(delivery(action), &[Reply::Failed, OK, Reply::Status(500)]);
    let bodies: Vec<&str> = requests.iter().map(|r| r.body.as_str()).collect();
    assert_eq!(bodies, vec![SEGWIT, LEGACY, SEGWIT]);
    assert!(requests.iter().all(|r| r.url == "https://mempool.space/testnet/api/tx"));
    assert_eq!(reports, vec![
        Report { index: 0, accepted: false },
        Report { index: 1, accepted: true },
        Report { index: 2, accepted: false },
    ]);
}

#[test]
fn delivery_hands_out_the_pending_transaction() {
    let batch = vec![Transaction::from_hex(LEGACY).unwrap(), Transaction::from_hex(SEGWIT).unwrap()];
    let mut delivery = delivery(plan(Payload { network: Some(NetworkId::from_bytes(MAINNET_MAGIC)), batch }));
    assert_eq!(delivery.pending().unwrap().to_hex(), LEGACY);
    assert_eq!(delivery.pending().unwrap().to_hex(), LEGACY);
    assert_eq!(delivery.record(Reply::Status(404)), Some(Report { index: 0, accepted: false }));
    assert_eq!(delivery.attempted(), 1);
    assert_eq!(delivery.pending().unwrap().to_hex(), SEGWIT);
    assert_eq!(delivery.record(OK), Some(Report { index: 1, accepted: true }));
    assert!(delivery.pending().is_none());
    assert_eq!(delivery.next_request(), None);
}

#[test]
fn plan_reports_a_payload_without_network() {
    let batch = vec![Transaction::from_hex(LEGACY).unwrap()];
    assert!(matches!(plan(Payload { network: None, batch }), Action::UnknownNetwork));
    assert!(matches!(plan(Payload { network: None, batch: vec![] }), Action::UnknownNetwork));
}

#[test]
fn only_a_2xx_status_is_a_success() {
    for code in [200, 201, 204, 299] {
        assert!(Reply::Status(code).is_success(), "{code}");
    }
    for code in [0, 100, 199, 300, 301, 400, 404, 500, 503, u16::MAX] {
        assert!(!Reply::Status(code).is_success(), "{code}");
    }
    assert!(!Reply::Failed.is_success());
}
