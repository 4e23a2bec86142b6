use plasma::decimal::{parse_decimal, to_decimal};
use plasma::fingerprint::{fingerprint, to_hex};
use plasma::record::{parse_record, record_path, render_record, DaemonRecord};
use plasma::text::{contains, same_text};

fn sample() -> DaemonRecord {
    DaemonRecord {
        fingerprint: "abc123".to_string(),
        pid: 4242,
        process_start_time: 987654321,
        http_endpoint: "http://127.0.0.1:9001".to_string(),
        grpc_endpoint: "http://127.0.0.1:9002".to_string(),
        unix_socket_path: "/tmp/plasma.sock".to_string(),
        created_at: 1700000000,
    }
}

#[test]
fn fingerprint_is_sha256_hex() {
    assert_eq!(
        fingerprint(b"X"),
        "4b68ab3847feda7d6c62c1fbcbeebfa35eab7351ed5e78f4ddadea5df64b8015"
    );
    assert_eq!(
        fingerprint(b""),
        "e3b0c44298fc1c149afbf4c8996fb92427ae41e4649b934ca495991b7852b855"
    );
}

#[test]
fn fingerprint_is_deterministic_and_content_sensitive() {
    let a = fingerprint(b"X");
    let b = fingerprint(b"X");
    assert_eq!(a, b);
    assert_eq!(a.len(), 64);
    assert_ne!(fingerprint(b"X"), fingerprint(b"Y"));
    assert_ne!(fingerprint(b"[server]\nport = 1\n"), fingerprint(b"[server]\nport = 2\n"));
}

#[test]
fn hex_renders_two_digits_per_byte() {
    assert_eq!(to_hex(&[0x00, 0x0f, 0xa5, 0xff]), "000fa5ff");
    assert_eq!(to_hex(&[]), "");
}

#[test]
fn decimal_round_trips() {
    assert_eq!(to_decimal(0), "0");
    assert_eq!(to_decimal(4242), "4242");
    assert_eq!(to_decimal(u64::MAX), "18446744073709551615");
    assert_eq!(parse_decimal("18446744073709551615"), Some(u64::MAX));
    assert_eq!(parse_decimal("18446744073709551616"), None);
    assert_eq!(parse_decimal("007"), None);
    assert_eq!(parse_decimal(""), None);
    assert_eq!(parse_decimal("12a"), None);
    assert_eq!(parse_decimal("0"), Some(0));
}

#[test]
fn record_text_round_trips() {
    let rec = sample();
    let text = render_record(&rec);
    assert_eq!(
        text,
        "fingerprint=abc123\npid=4242\nprocess_start_time=987654321\nhttp_endpoint=http://127.0.0.1:9001\ngrpc_endpoint=http://127.0.0.1:9002\nunix_socket_path=/tmp/plasma.sock\ncreated_at=1700000000\n"
    );
    let back = parse_record(&text).expect("rendered record parses");
    assert_eq!(back.fingerprint, rec.fingerprint);
    assert_eq!(back.pid, 4242);
    assert_eq!(back.process_start_time, 987654321);
    assert_eq!(back.http_endpoint, rec.http_endpoint);
    assert_eq!(back.grpc_endpoint, rec.grpc_endpoint);
    assert_eq!(back.unix_socket_path, rec.unix_socket_path);
    assert_eq!(back.created_at, 1700000000);
}

#[test]
fn corrupt_records_are_absent() {
    let text = render_record(&sample());
    assert!(parse_record("").is_none());
    assert!(parse_record(&text[..text.len() - 1]).is_none());
    assert!(parse_record(&format!("{}extra=1\n", text)).is_none());
    assert!(parse_record(&text.replace("pid=4242", "pid=99999999999")).is_none());
    assert!(parse_record(&text.replace("pid=4242", "pid=04242")).is_none());
    assert!(parse_record(&text.replace("/tmp/plasma.sock", "/tmp/a b")).is_none());
    assert!(parse_record(&text.replace("http_endpoint", "url")).is_none());
    assert!(parse_record("{\"pid\": 1}").is_none());
}

#[test]
fn record_path_is_keyed_by_fingerprint() {
    assert_eq!(record_path("/state/daemons", "abc"), "/state/daemons/abc.record");
}

#[test]
fn liveness_needs_matching_start_time() {
    let rec = sample();
    assert!(rec.is_live(Some(987654321)));
    assert!(!rec.is_live(Some(1)));
    assert!(!rec.is_live(None));
}

#[test]
fn text_helpers() {
    assert!(same_text("fish", "fish"));
    assert!(!same_text("fish", "fist"));
    assert!(contains("/usr/bin/fish", "fish"));
    assert!(!contains("/bin/bash", "fish"));
    assert!(contains("abc", ""));
}
