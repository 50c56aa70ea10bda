use tinyrelay::bytes::u64_to_dec;
use tinyrelay::relay::{
    assemble_relay_response, classify_upload_response, compress_response, error_message,
    failure_body, health_response, upload_action, RelayError, RelayResponse,
};
use tinyrelay::shape::{parse_upstream_response, UpstreamParse};

fn b(s: &str) -> Vec<u8> {
    s.as_bytes().to_vec()
}

const DESCRIPTOR_BODY: &str = "{\"input\":{\"size\":207462,\"type\":\"image/png\"},\"output\":{\"height\":1050,\"width\":1680,\"ratio\":0.9271,\"size\":63669,\"type\":\"image/png\",\"url\":\"https://api.tinify.com/output/abc123\"}}";

#[test]
fn parses_descriptor_shape() {
    match parse_upstream_response(&b(DESCRIPTOR_BODY)) {
        UpstreamParse::Descriptor(d) => {
            assert_eq!(d.input_size, 207462);
            assert_eq!(d.input_type, b("image/png"));
            assert_eq!(d.output_height, 1050);
            assert_eq!(d.output_width, 1680);
            assert_eq!(d.output_size, 63669);
            assert_eq!(d.output_type, b("image/png"));
            assert_eq!(d.url, b("https://api.tinify.com/output/abc123"));
        }
        _ => panic!("expected the descriptor shape"),
    }
}

#[test]
fn parses_descriptor_with_reordered_members() {
    let body = "{ \"output\" : {\"url\":\"u\",\"type\":\"image/jpeg\",\"size\":1,\"ratio\":1.0,\"width\":2,\"height\":3} , \"input\" : {\"type\":\"image/jpeg\",\"size\":9} }";
    match parse_upstream_response(&b(body)) {
        UpstreamParse::Descriptor(d) => {
            assert_eq!(d.output_height, 3);
            assert_eq!(d.output_width, 2);
            assert_eq!(d.url, b("u"));
        }
        _ => panic!("expected the descriptor shape"),
    }
}

#[test]
fn parses_error_shape() {
    let body = "{\"error\":\"TooLargeImage\",\"message\":\"Image too large\"}";
    match parse_upstream_response(&b(body)) {
        UpstreamParse::ApiError { code, message } => {
            assert_eq!(code, b("TooLargeImage"));
            assert_eq!(message, b("Image too large"));
        }
        _ => panic!("expected the error shape"),
    }
}

#[test]
fn tolerates_unknown_members() {
    let body = "{\"extra\":null,\"input\":{\"size\":1,\"type\":\"t/p\",\"note\":\"x\"},\"output\":{\"height\":1,\"width\":1,\"ratio\":1,\"size\":1,\"type\":\"t/p\",\"url\":\"u\",\"flag\":true},\"meta\":{\"a\":1,\"b\":\"c\"}}";
    assert!(matches!(
        parse_upstream_response(&b(body)),
        UpstreamParse::Descriptor(_)
    ));
}

#[test]
fn decodes_string_escapes() {
    let body = "{\"error\":\"E\",\"message\":\"a\\\"b\\\\c\\nd\"}";
    match parse_upstream_response(&b(body)) {
        UpstreamParse::ApiError { message, .. } => {
            assert_eq!(message, b("a\"b\\c\nd"));
        }
        _ => panic!("expected the error shape"),
    }
}

#[test]
fn rejects_garbage() {
    assert!(matches!(
        parse_upstream_response(&b("not json at all")),
        UpstreamParse::Malformed
    ));
    assert!(matches!(
        parse_upstream_response(&b("")),
        UpstreamParse::Malformed
    ));
    assert!(matches!(
        parse_upstream_response(&b("[1,2]")),
        UpstreamParse::Malformed
    ));
}

#[test]
fn rejects_duplicate_members() {
    let body = "{\"error\":\"E\",\"error\":\"F\",\"message\":\"m\"}";
    assert!(matches!(
        parse_upstream_response(&b(body)),
        UpstreamParse::Malformed
    ));
}

#[test]
fn rejects_incomplete_descriptor() {
    let body = "{\"input\":{\"size\":1,\"type\":\"t/p\"},\"output\":{\"height\":1}}";
    assert!(matches!(
        parse_upstream_response(&b(body)),
        UpstreamParse::Malformed
    ));
}

#[test]
fn rejects_trailing_bytes() {
    let body = "{\"error\":\"E\",\"message\":\"m\"} x";
    assert!(matches!(
        parse_upstream_response(&b(body)),
        UpstreamParse::Malformed
    ));
}

#[test]
fn rejects_oversized_dimension() {
    let body = "{\"input\":{\"size\":1,\"type\":\"t/p\"},\"output\":{\"height\":4294967296,\"width\":1,\"ratio\":1,\"size\":1,\"type\":\"t/p\",\"url\":\"u\"}}";
    assert!(matches!(
        parse_upstream_response(&b(body)),
        UpstreamParse::Malformed
    ));
}

#[test]
fn upload_error_message_preserves_upstream_text() {
    let outcome = classify_upload_response(&b(
        "{\"error\":\"TooLargeImage\",\"message\":\"Image too large\"}",
    ));
    match outcome {
        Err(e) => {
            let msg = String::from_utf8(error_message(&e)).unwrap();
            assert_eq!(msg, "tinyapi returned an error: Image too large");
            assert!(msg.contains("Image too large"));
        }
        Ok(_) => panic!("expected a failure"),
    }
}

#[test]
fn error_messages_exact() {
    assert_eq!(error_message(&RelayError::NoCredential), b("api key missed"));
    assert_eq!(
        error_message(&RelayError::Transport(b("connect refused"))),
        b("request error: connect refused")
    );
    assert_eq!(
        error_message(&RelayError::MalformedResponse),
        b("unexpected upstream response shape")
    );
    assert_eq!(error_message(&RelayError::Download(b("boom"))), b("boom"));
    assert_eq!(error_message(&RelayError::MediaType), b("invalid media type"));
    assert_eq!(
        failure_body(&RelayError::NoCredential),
        b("something went wrong: api key missed")
    );
}

#[test]
fn decimal_rendering_exact() {
    assert_eq!(u64_to_dec(0), b("0"));
    assert_eq!(u64_to_dec(7), b("7"));
    assert_eq!(u64_to_dec(1700000000), b("1700000000"));
    assert_eq!(u64_to_dec(u64::MAX), b("18446744073709551615"));
}

#[test]
fn missing_credential_never_plans_an_upload() {
    match upload_action(None, b("bytes")) {
        Err(RelayError::NoCredential) => {}
        _ => panic!("expected the missing-credential failure"),
    }
}

#[test]
fn configured_credential_plans_the_fixed_call() {
    match upload_action(Some(b("secret")), b("payload")) {
        Ok(plan) => {
            assert_eq!(plan.endpoint, b("https://api.tinify.com/shrink"));
            assert_eq!(plan.user, b("api"));
            assert_eq!(plan.credential, b("secret"));
            assert_eq!(plan.body, b("payload"));
        }
        Err(_) => panic!("expected a plan"),
    }
}

fn descriptor() -> tinyrelay::shape::CompressionDescriptor {
    match parse_upstream_response(&b(DESCRIPTOR_BODY)) {
        UpstreamParse::Descriptor(d) => d,
        _ => panic!("expected the descriptor shape"),
    }
}

#[test]
fn relay_returns_download_unchanged_with_png_name() {
    let artifact = vec![0x89u8, 0x50, 0x4e, 0x47, 0x00, 0xff];
    let resp = assemble_relay_response(&descriptor(), artifact.clone(), 1700000000).unwrap();
    assert_eq!(resp.body, artifact);
    assert_eq!(resp.content_type, b("image/png"));
    let disposition = String::from_utf8(resp.content_disposition).unwrap();
    assert_eq!(disposition, "attachment; filename=1700000000.png");
    assert!(disposition.ends_with(".png"));
}

#[test]
fn invalid_output_type_is_a_media_type_failure() {
    let mut d = descriptor();
    d.output_type = b("not a media type");
    match assemble_relay_response(&d, b("x"), 1) {
        Err(RelayError::MediaType) => {}
        _ => panic!("expected the media-type failure"),
    }
}

#[test]
fn identical_inputs_same_bytes_distinct_names() {
    let artifact = b("identical artifact");
    let first = assemble_relay_response(&descriptor(), artifact.clone(), 1700000000).unwrap();
    let second = assemble_relay_response(&descriptor(), artifact.clone(), 1700000001).unwrap();
    assert_eq!(first.body, second.body);
    assert_ne!(first.content_disposition, second.content_disposition);
}

#[test]
fn health_is_always_ok() {
    let r = health_response();
    assert_eq!(r.status, 200);
    assert_eq!(r.body, b("OK"));
    assert!(r.content_type.is_none());
}

#[test]
fn success_surfaces_as_200_with_headers() {
    let r = compress_response(Ok(RelayResponse {
        body: b("artifact"),
        content_type: b("image/png"),
        content_disposition: b("attachment; filename=1.png"),
    }));
    assert_eq!(r.status, 200);
    assert_eq!(r.body, b("artifact"));
    assert_eq!(r.content_type.unwrap(), b("image/png"));
    assert_eq!(r.content_disposition.unwrap(), b("attachment; filename=1.png"));
}

#[test]
fn download_failure_surfaces_only_the_detail() {
    let r = compress_response(Err(RelayError::Download(b("connection refused"))));
    assert_eq!(r.status, 500);
    assert_eq!(r.body, b("something went wrong: connection refused"));
    assert!(r.content_type.is_none());
    assert!(r.content_disposition.is_none());
}

#[test]
fn rejects_empty_object() {
    assert!(matches!(
        parse_upstream_response(&b("{}")),
        UpstreamParse::Malformed
    ));
    assert!(matches!(
        parse_upstream_response(&b("  { } ")),
        UpstreamParse::Malformed
    ));
}

#[test]
fn rejects_wrongly_typed_members() {
    assert!(matches!(
        parse_upstream_response(&b("{\"error\":7,\"message\":\"m\"}")),
        UpstreamParse::Malformed
    ));
    assert!(matches!(
        parse_upstream_response(&b("{\"input\":\"x\"}")),
        UpstreamParse::Malformed
    ));
}

#[test]
fn rejects_negative_and_padded_sizes() {
    let negative = "{\"input\":{\"size\":-1,\"type\":\"t/p\"},\"output\":{\"height\":1,\"width\":1,\"ratio\":1,\"size\":1,\"type\":\"t/p\",\"url\":\"u\"}}";
    assert!(matches!(
        parse_upstream_response(&b(negative)),
        UpstreamParse::Malformed
    ));
    let padded = "{\"error\":\"E\",\"message\":\"m\",\"extra\":01}";
    assert!(matches!(
        parse_upstream_response(&b(padded)),
        UpstreamParse::Malformed
    ));
}
