use matter_analyzer::{CodecError, DiscoveryMessageCodec, RealTransportAnalyzer, MAX_MESSAGE_LEN};

const HEADER: [u8; 12] = [0x00, 0x00, 0x01, 0x00, 0x00, 0x01, 0x00, 0x00, 0x00, 0x00, 0x00, 0x00];
const TRAILER: [u8; 5] = [0x00, 0x00, 0x0c, 0x00, 0x01];

fn framed(labels: &[u8]) -> Vec<u8> {
    let mut v = HEADER.to_vec();
    v.extend_from_slice(labels);
    v.extend_from_slice(&TRAILER);
    v
}

#[test]
fn encodes_service_name_as_length_prefixed_labels() {
    let msg = DiscoveryMessageCodec::encode("_matter._tcp.local.").unwrap();
    let mut labels = vec![7u8];
    labels.extend_from_slice(b"_matter");
    labels.push(4);
    labels.extend_from_slice(b"_tcp");
    labels.push(5);
    labels.extend_from_slice(b"local");
    assert_eq!(msg, framed(&labels));
    assert_eq!(msg.len(), 36);
}

#[test]
fn encoding_is_deterministic_and_bounded() {
    let a = DiscoveryMessageCodec::encode("_svc._tcp.local").unwrap();
    let b = DiscoveryMessageCodec::encode("_svc._tcp.local").unwrap();
    assert_eq!(a, b);
    assert!(a.len() <= MAX_MESSAGE_LEN);
}

#[test]
fn empty_labels_are_skipped() {
    let msg = DiscoveryMessageCodec::encode(".a..bc.").unwrap();
    assert_eq!(msg, framed(&[1, b'a', 2, b'b', b'c']));
}

#[test]
fn empty_name_gives_bare_query() {
    let msg = DiscoveryMessageCodec::encode("").unwrap();
    assert_eq!(msg, framed(&[]));
    assert_eq!(msg.len(), 17);
}

#[test]
fn name_at_the_limit_is_accepted() {
    // 17 fixed bytes + 1 length byte + 46 label bytes = 64
    let name = "x".repeat(46);
    let msg = DiscoveryMessageCodec::encode(&name).unwrap();
    assert_eq!(msg.len(), MAX_MESSAGE_LEN);
    assert_eq!(msg[12], 46);
}

#[test]
fn overlong_name_is_rejected() {
    let name = "x".repeat(47);
    assert_eq!(DiscoveryMessageCodec::encode(&name), Err(CodecError::TooLong));
}

#[test]
fn analyzer_builds_its_discovery_message() {
    let analyzer = RealTransportAnalyzer::new();
    let msg = analyzer.create_matter_discovery_message().unwrap();
    assert_eq!(msg, DiscoveryMessageCodec::encode("_matter._tcp.local.").unwrap());
}
