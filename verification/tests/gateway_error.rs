use beetle::gateway_error::{
    trace_id_text, valid_status_code, GatewayError, ResponseBody, INVALID_TRACE_ID,
};

#[test]
fn trace_ids_are_32_hex_digits() {
    assert_eq!(trace_id_text(0), "00000000000000000000000000000000");
    assert_eq!(trace_id_text(0xabc), "00000000000000000000000000000abc");
    assert_eq!(
        trace_id_text(0x4bf92f3577b34da6a3ce929d0e0e4736),
        "4bf92f3577b34da6a3ce929d0e0e4736"
    );
    assert_eq!(trace_id_text(u128::MAX), "ffffffffffffffffffffffffffffffff");
}

#[test]
fn error_text_names_status_and_message() {
    let e = GatewayError::new(404, "no such block", INVALID_TRACE_ID);
    assert_eq!(e.to_text(), "gateway_error(404 Not Found): no such block)");
    let e = GatewayError::new(599, "odd", INVALID_TRACE_ID);
    assert_eq!(e.to_text(), "gateway_error(599 <unknown status code>): odd)");
}

#[test]
fn json_answer_carries_trace_when_known() {
    let e = GatewayError::new(500, "boom", 0x1f);
    let plan = e.response_plan();
    assert_eq!(plan.status_code, 500);
    assert_eq!(plan.trace_header.as_deref(), Some("0000000000000000000000000000001f"));
    match plan.body {
        ResponseBody::Json { code, message, trace_id } => {
            assert_eq!(code, 500);
            assert_eq!(message, "boom");
            assert_eq!(trace_id.as_deref(), Some("0000000000000000000000000000001f"));
        }
        other => panic!("unexpected body {:?}", other),
    }
    let plan = GatewayError::new(500, "boom", INVALID_TRACE_ID).response_plan();
    assert_eq!(plan.trace_header, None);
    assert!(matches!(plan.body, ResponseBody::Json { trace_id: None, .. }));
}

#[test]
fn head_requests_get_no_body() {
    let e = GatewayError::new(404, "gone", 7).with_method("HEAD").with_html();
    let plan = e.response_plan();
    assert!(matches!(plan.body, ResponseBody::Empty));
    assert_eq!(plan.status_code, 404);
    assert!(plan.trace_header.is_some());
}

#[test]
fn browsers_get_the_not_found_page() {
    let e = GatewayError::new(404, "gone", INVALID_TRACE_ID).with_method("GET").with_html();
    assert!(e.accept_html);
    assert_eq!(e.method.as_deref(), Some("GET"));
    assert!(matches!(e.response_plan().body, ResponseBody::NotFoundPage));
    let e = GatewayError::new(500, "boom", INVALID_TRACE_ID).with_html();
    assert!(matches!(e.response_plan().body, ResponseBody::Json { .. }));
    let e = GatewayError::new(404, "gone", INVALID_TRACE_ID).with_method("head");
    assert!(matches!(e.response_plan().body, ResponseBody::Json { .. }));
}

#[test]
fn status_codes_that_http_holds() {
    assert!(valid_status_code(100));
    assert!(valid_status_code(999));
    assert!(!valid_status_code(99));
    assert!(!valid_status_code(1000));
}

#[test]
fn errors_clone_with_their_fields() {
    let e = GatewayError::new(410, "gone for good", 5).with_method("GET").with_html();
    let c = e.clone();
    assert_eq!(c.status_code, 410);
    assert_eq!(c.message, "gone for good");
    assert_eq!(c.trace_id, 5);
    assert_eq!(c.method.as_deref(), Some("GET"));
    assert!(c.accept_html);
}
