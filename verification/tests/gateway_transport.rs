use rubrika_models::domain::{ModelInputImage, ModelInputImageKind};
use rubrika_models::errors::AppErrorCode;
use rubrika_models::gateway_transport::{
    build_payload_summary, check_content_type, check_request_size, transport_error, BoundedBody,
    GatewayLimits, DEFAULT_MAX_REQUEST_BODY_BYTES, DEFAULT_MAX_RESPONSE_BODY_BYTES,
};

fn image(output_bytes: u64, base64_approx_bytes: u64) -> ModelInputImage {
    ModelInputImage {
        kind: ModelInputImageKind::Rubric,
        document_id: "d".to_string(),
        page_number: 1,
        source_image_path: "s.png".to_string(),
        output_image_path: "o.jpg".to_string(),
        source_width: 1,
        source_height: 1,
        output_width: 1,
        output_height: 1,
        source_bytes: 1,
        output_bytes,
        base64_approx_bytes,
        long_edge_max: 1800,
        jpeg_quality: 88,
        created_at: "t".to_string(),
        source_sha256: None,
        output_sha256: None,
        cache_key: None,
        cache_transaction_id: None,
        cache_hit: false,
    }
}

fn limits(max_response: u64, max_request: u64) -> GatewayLimits {
    GatewayLimits { max_response_body_bytes: max_response, max_request_body_bytes: max_request, ..GatewayLimits::default() }
}

#[test]
fn default_limits() {
    let l = GatewayLimits::default();
    assert_eq!(l.max_response_body_bytes, 32 * 1024 * 1024);
    assert_eq!(l.max_request_body_bytes, 128 * 1024 * 1024);
    assert_eq!(DEFAULT_MAX_RESPONSE_BODY_BYTES, 33_554_432);
    assert_eq!(DEFAULT_MAX_REQUEST_BODY_BYTES, 134_217_728);
    assert_eq!(l.connect_timeout_millis, 10_000);
    assert_eq!(l.first_byte_timeout_millis, 30_000);
    assert_eq!(l.idle_chunk_timeout_millis, 30_000);
}

#[test]
fn request_body_over_limit_is_rejected_before_send() {
    let l = limits(1024, 64);
    let error = check_request_size(65, &l).expect_err("oversized request must be rejected before any network IO");
    assert_eq!(error.code, AppErrorCode::ModelRequestTooLarge);
    assert_eq!(error.technical_details.as_deref(), Some("request_bytes=65 limit_bytes=64"));
    assert!(check_request_size(64, &l).is_ok());
}

#[test]
fn response_one_byte_below_limit_is_accepted() {
    let mut body = BoundedBody::new(10);
    body.push_chunk(b"{\"ok\":1}").expect("response should be accepted");
    assert_eq!(body.len(), 8);
    assert_eq!(body.finish().unwrap(), "{\"ok\":1}");
}

#[test]
fn response_one_byte_above_limit_is_rejected_without_raw_body() {
    let mut body = BoundedBody::new(10);
    let error = body.push_chunk(b"MODEL_SECRET").expect_err("response must be rejected");
    assert_eq!(error.code, AppErrorCode::ModelResponseTooLarge);
    assert!(!format!("{error:?}").contains("MODEL_SECRET"));
    assert_eq!(body.len(), 0);
}

#[test]
fn chunked_response_exceeding_total_limit_is_stopped() {
    let mut body = BoundedBody::new(12);
    body.push_chunk(b"aaaaaaaaaa").expect("first chunk fits");
    let error = body.push_chunk(b"bbbbbbbbbb").expect_err("chunked body must be rejected once the total cap is crossed");
    assert_eq!(error.code, AppErrorCode::ModelResponseTooLarge);
    assert_eq!(error.technical_details.as_deref(), Some("received_bytes=20 limit_bytes=12"));
    assert_eq!(body.len(), 10);
}

#[test]
fn invalid_utf8_body_is_refused() {
    let mut body = BoundedBody::new(10);
    body.push_chunk(&[0xff, 0xfe]).unwrap();
    assert_eq!(body.finish().unwrap_err().code, AppErrorCode::ModelResponseInvalidJson);
}

#[test]
fn non_json_content_type_is_rejected() {
    let error = check_content_type(200, Some("text/html")).expect_err("text/html must be rejected");
    assert_eq!(error.code, AppErrorCode::ModelResponseInvalidContentType);
    assert_eq!(error.technical_details.as_deref(), Some("status=200 content_type=text/html"));
    for ok in ["application/json; charset=utf-8", "Application/JSON", "text/plain", "application/octet-stream", "*/*", ""] {
        assert!(check_content_type(200, Some(ok)).is_ok(), "{ok}");
    }
    assert!(check_content_type(200, None).is_ok());
}

#[test]
fn transport_failures_are_classified() {
    assert_eq!(transport_error(true, true, "x", "u").code, AppErrorCode::ModelTimeout);
    assert_eq!(transport_error(false, true, "x", "u").code, AppErrorCode::ModelServerNotRunning);
    assert_eq!(
        transport_error(false, false, "io: Connection reset by peer", "u").code,
        AppErrorCode::ModelConnectionReset
    );
    let other = transport_error(false, false, "boom", "http://127.0.0.1:8080");
    assert_eq!(other.code, AppErrorCode::ModelHealthFailed);
    assert_eq!(other.technical_details.as_deref(), Some("http://127.0.0.1:8080: boom"));
}

#[test]
fn payload_summary_sums_prepared_images() {
    let summary = build_payload_summary(120, 30, Some(vec![image(300, 400), image(3, 4)]), Some(99), Some(512));
    assert_eq!(summary.prompt_length, 120);
    assert_eq!(summary.image_count, 2);
    assert_eq!(summary.image_total_bytes, 303);
    assert_eq!(summary.base64_approx_total_bytes, 404);
    assert_eq!(summary.model_input_images.len(), 2);
    assert_eq!(summary.max_tokens, Some(512));
}

#[test]
fn payload_summary_falls_back_to_one_image_size() {
    let summary = build_payload_summary(5, 10, None, Some(10), None);
    assert_eq!(summary.image_count, 1);
    assert_eq!(summary.image_total_bytes, 10);
    assert_eq!(summary.base64_approx_total_bytes, 16);
    let empty = build_payload_summary(5, 10, Some(vec![]), None, None);
    assert_eq!(empty.image_count, 0);
    assert_eq!(empty.image_total_bytes, 0);
    assert_eq!(empty.base64_approx_total_bytes, 0);
}
