use ollama_bridge::bridge::decode_request;
use ollama_bridge::bridge::default_model_id;
use ollama_bridge::bridge::handle_request;
use ollama_bridge::bridge::response_bytes;
use ollama_bridge::bridge::BridgeError;
use ollama_bridge::bridge::GenerationChunk;
use ollama_bridge::bridge::ServiceReply;
use ollama_bridge::swarm::default_listen_plan;
use ollama_bridge::swarm::llama_protocol;
use ollama_bridge::swarm::IpVersion;
use ollama_bridge::swarm::ListenAddress;
use ollama_bridge::swarm::ProtocolId;
use ollama_bridge::swarm::TransportKind;
use ollama_bridge::utf8::validate_utf8;

fn model() -> Vec<u8> {
    b"llama3.1:latest".to_vec()
}

fn chunk(fragments: &[&[u8]]) -> GenerationChunk {
    GenerationChunk { fragments: fragments.iter().map(|f| f.to_vec()).collect() }
}

fn checked(bytes: &[u8]) -> bool {
    let v = bytes.to_vec();
    let r = validate_utf8(&v);
    // agreement with the standard library's decoder
    assert_eq!(r, std::str::from_utf8(bytes).is_ok());
    r
}

#[test]
fn utf8_accepts_ascii_and_multibyte() {
    assert!(checked(b""));
    assert!(checked(b"hello, world"));
    assert!(checked("héllo".as_bytes()));
    assert!(checked("日本語".as_bytes()));
    assert!(checked("🦀🦀".as_bytes()));
    assert!(checked(&[0xF4, 0x8F, 0xBF, 0xBF])); // largest scalar value
    assert!(checked(&[0xED, 0x9F, 0xBF])); // just below the surrogates
    assert!(checked(&[0xEE, 0x80, 0x80])); // just above the surrogates
}

#[test]
fn utf8_rejects_malformed_sequences() {
    assert!(!checked(&[0x80])); // lone continuation
    assert!(!checked(&[0xC3])); // truncated two-byte form
    assert!(!checked(&[0xC0, 0x80])); // overlong two-byte form
    assert!(!checked(&[0xC1, 0xBF])); // overlong two-byte form
    assert!(!checked(&[0xE0, 0x80, 0x80])); // overlong three-byte form
    assert!(!checked(&[0xED, 0xA0, 0x80])); // encoded surrogate
    assert!(!checked(&[0xF0, 0x80, 0x80, 0x80])); // overlong four-byte form
    assert!(!checked(&[0xF4, 0x90, 0x80, 0x80])); // above the largest scalar
    assert!(!checked(&[0xF5, 0x80, 0x80, 0x80])); // invalid lead byte
    assert!(!checked(&[0xFF]));
    assert!(!checked(b"ok so far \xE2\x82")); // truncated at the end
}

#[test]
fn decode_forwards_prompt_unchanged() {
    let req = decode_request(model(), b"why is the sky blue?".to_vec()).unwrap();
    assert_eq!(req.model, model());
    assert_eq!(req.prompt, b"why is the sky blue?".to_vec());
}

#[test]
fn decode_empty_prompt_unchanged() {
    // zero-length prompt: no special-casing
    let req = decode_request(model(), Vec::new()).unwrap();
    assert_eq!(req.prompt, Vec::<u8>::new());
}

#[test]
fn decode_rejects_malformed_payload() {
    let err = decode_request(model(), vec![0xFF, 0xFE]).unwrap_err();
    assert_eq!(err, BridgeError::MalformedRequest);
}

#[test]
fn round_trip_concatenates_chunks_in_order() {
    let reply = ServiceReply {
        chunks: vec![
            chunk(&[b"The sky "]),
            chunk(&[b"is blue ", b"because "]),
            chunk(&[b"of Rayleigh scattering."]),
        ],
        failed: false,
    };
    let o = handle_request(model(), b"why?".to_vec(), &reply);
    assert_eq!(o.error, None);
    assert_eq!(
        o.written,
        b"The sky is blue because of Rayleigh scattering.".to_vec()
    );
}

#[test]
fn malformed_payload_writes_nothing() {
    let reply = ServiceReply {
        chunks: vec![chunk(&[b"should never appear"])],
        failed: false,
    };
    let o = handle_request(model(), vec![0xED, 0xA0, 0x80], &reply);
    assert_eq!(o.error, Some(BridgeError::MalformedRequest));
    assert_eq!(o.written, Vec::<u8>::new());
}

#[test]
fn service_error_aborts_stream_after_partial_output() {
    let reply = ServiceReply { chunks: vec![chunk(&[b"partial"])], failed: true };
    let o = handle_request(model(), b"q".to_vec(), &reply);
    assert_eq!(o.error, Some(BridgeError::ServiceFailure));
    assert_eq!(o.written, b"partial".to_vec());
}

#[test]
fn zero_chunk_reply_writes_nothing_and_completes() {
    let reply = ServiceReply { chunks: Vec::new(), failed: false };
    let o = handle_request(model(), Vec::new(), &reply);
    assert_eq!(o.error, None);
    assert_eq!(o.written, Vec::<u8>::new());
}

#[test]
fn stream_isolation_between_two_streams() {
    // stream A: the service fails
    let reply_a = ServiceReply { chunks: Vec::new(), failed: true };
    let a = handle_request(model(), b"stalls".to_vec(), &reply_a);
    assert_eq!(a.error, Some(BridgeError::ServiceFailure));
    // stream B, handled concurrently, still completes with its full output
    let reply_b = ServiceReply {
        chunks: vec![chunk(&[b"all "]), chunk(&[b"fine"])],
        failed: false,
    };
    let b = handle_request(model(), b"ok?".to_vec(), &reply_b);
    assert_eq!(b.error, None);
    assert_eq!(b.written, b"all fine".to_vec());
}

#[test]
fn response_bytes_keeps_fragment_order() {
    let chunks = vec![chunk(&[b"a", b"b", b"c"]), chunk(&[]), chunk(&[b"d"])];
    assert_eq!(response_bytes(&chunks), b"abcd".to_vec());
}

#[test]
fn default_model_id_value() {
    assert_eq!(default_model_id(), b"llama3.1:latest".to_vec());
}

#[test]
fn protocol_id_fixed_name() {
    let p = llama_protocol();
    assert_eq!(p.bytes(), &b"/llama".to_vec());
}

#[test]
fn protocol_id_requires_leading_slash() {
    assert!(ProtocolId::new(b"llama".to_vec()).is_none());
    assert!(ProtocolId::new(Vec::new()).is_none());
    let p = ProtocolId::new(b"/x".to_vec()).unwrap();
    assert_eq!(p.bytes(), &b"/x".to_vec());
}

#[test]
fn listen_plan_binds_webrtc_on_both_families() {
    let plan = default_listen_plan();
    assert_eq!(plan.len(), 2);
    assert_eq!(
        plan[0],
        ListenAddress { transport: TransportKind::WebRtcDirect, ip: IpVersion::V6, port: 0 }
    );
    assert_eq!(
        plan[1],
        ListenAddress { transport: TransportKind::WebRtcDirect, ip: IpVersion::V4, port: 0 }
    );
}
