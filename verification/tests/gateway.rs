//! Asking a gateway to pay, and reading its answer.

use lightning_pay::error::GatewayPayError;
use lightning_pay::funded::{GatewayReply, PayInvoiceEvent, PayInvoiceRequest, PayInvoiceStep};
use lightning_pay::states::LightningPayFunded;
use lightning_pay::text::{decimal_text, is_wrapped_text, unwrap_text};
use lightning_pay::types::{ContractId, FederationId, LightningGateway, PayInvoicePayload};

fn payload() -> PayInvoicePayload {
    PayInvoicePayload::new(
        FederationId { bytes: vec![1, 2] },
        ContractId { bytes: [3; 32] },
    )
}

fn start(api: &str) -> PayInvoiceStep {
    let gateway = LightningGateway {
        api: api.to_string(),
        announcement: vec![],
    };
    LightningPayFunded::gateway_pay_invoice(PayInvoiceEvent::Started, &gateway, &payload())
}

fn post(url: &str) -> PayInvoiceStep {
    PayInvoiceStep::Post(PayInvoiceRequest {
        url: url.to_string(),
        payload: payload(),
    })
}

fn received(status: u16, text: &str) -> GatewayReply {
    GatewayReply::Received {
        status,
        text: Some(text.to_string()),
    }
}

fn internal_error(error_code: Option<u16>, error_message: &str) -> GatewayPayError {
    GatewayPayError::GatewayInternalError {
        error_code,
        error_message: error_message.to_string(),
    }
}

#[test]
fn payload_names_the_federation_and_the_contract() {
    assert_eq!(payload().federation_id, FederationId { bytes: vec![1, 2] });
    assert_eq!(payload().contract_id, ContractId { bytes: [3; 32] });
}

#[test]
fn the_request_goes_to_the_pay_invoice_endpoint() {
    assert_eq!(
        start("https://gateway.example/v1/"),
        post("https://gateway.example/v1/pay_invoice")
    );
    assert_eq!(
        start("http://127.0.0.1:8175"),
        post("http://127.0.0.1:8175/pay_invoice")
    );
}

#[test]
fn the_endpoint_replaces_the_last_segment_of_the_api() {
    assert_eq!(
        start("https://gateway.example/v1?key=1"),
        post("https://gateway.example/pay_invoice")
    );
}

#[test]
fn an_api_that_nothing_can_be_joined_to_has_no_endpoint() {
    assert_eq!(start("mailto:gateway@example.com"), PayInvoiceStep::NoEndpoint);
    assert_eq!(start("gateway"), PayInvoiceStep::NoEndpoint);
}

#[test]
fn a_request_is_made_of_the_joined_url() {
    assert_eq!(
        LightningPayFunded::pay_invoice_request(Some("http://a/".to_string()), &payload()),
        post("http://a/")
    );
    assert_eq!(
        LightningPayFunded::pay_invoice_request(None, &payload()),
        PayInvoiceStep::NoEndpoint
    );
}

#[test]
fn a_successful_reply_holds_the_preimage_in_quotes() {
    for status in [200, 204, 299] {
        assert_eq!(
            LightningPayFunded::pay_invoice_result(received(status, "\"c0ffee\"")),
            Ok("c0ffee".to_string())
        );
    }
}

#[test]
fn the_reply_finishes_the_payment() {
    let gateway = LightningGateway {
        api: "https://gateway.example/".to_string(),
        announcement: vec![],
    };
    let event = PayInvoiceEvent::Replied(received(200, "\"c0ffee\""));
    assert_eq!(
        LightningPayFunded::gateway_pay_invoice(event, &gateway, &payload()),
        PayInvoiceStep::Finished(Ok("c0ffee".to_string()))
    );
}

#[test]
fn a_refusal_keeps_its_code_and_its_words() {
    for status in [199, 300, 404, 500] {
        assert_eq!(
            LightningPayFunded::pay_invoice_result(received(status, "\"no route\"")),
            Err(internal_error(Some(status), "\"no route\""))
        );
    }
}

#[test]
fn a_reply_without_body_has_no_preimage() {
    let reply = GatewayReply::Received {
        status: 200,
        text: None,
    };
    assert_eq!(
        LightningPayFunded::pay_invoice_result(reply),
        Err(internal_error(
            None,
            "Error retrieving preimage from response"
        ))
    );
}

#[test]
fn a_gateway_out_of_reach_is_an_error_without_code() {
    let reply = GatewayReply::SendFailed {
        message: "connection refused".to_string(),
    };
    assert_eq!(
        LightningPayFunded::pay_invoice_result(reply),
        Err(internal_error(None, "connection refused"))
    );
}

#[test]
fn readable_replies_are_told_from_others() {
    assert!(received(200, "\"\"").check_readable());
    assert!(received(500, "").check_readable());
    assert!(GatewayReply::SendFailed {
        message: String::new()
    }
    .check_readable());
    assert!(GatewayReply::Received {
        status: 200,
        text: None
    }
    .check_readable());

    assert!(!received(200, "").check_readable());
    assert!(!received(200, "x").check_readable());
    assert!(!received(200, "\u{e9}").check_readable());
    assert!(!received(99, "\"\"").check_readable());
    assert!(!received(1000, "\"\"").check_readable());
    assert!(!GatewayReply::Received {
        status: 500,
        text: None
    }
    .check_readable());
}

#[test]
fn unwrapping_cuts_one_byte_off_each_end() {
    assert_eq!(unwrap_text("\"\""), "");
    assert_eq!(unwrap_text("\"a\u{20ac}b\""), "a\u{20ac}b");
    assert_eq!(unwrap_text("abc"), "b");
}

#[test]
fn wrapped_texts_are_those_that_can_be_sliced() {
    for text in ["", "a", "ab", "\u{e9}a", "a\u{e9}", "a\u{e9}b", "\u{20ac}", "\u{e9}\u{e9}"] {
        let length = text.len();
        let sliced = if length >= 2 { text.get(1..length - 1) } else { None };
        assert_eq!(is_wrapped_text(text), sliced.is_some());
        if let Some(inner) = sliced {
            assert_eq!(unwrap_text(text), inner);
        }
    }
}

#[test]
fn errors_are_put_in_words() {
    assert_eq!(
        internal_error(Some(404), "not found").message(),
        "Lightning Gateway failed to pay invoice. ErrorCode: Some(404) ErrorMessage: not found"
    );
    assert_eq!(
        internal_error(None, "timed out").message(),
        "Lightning Gateway failed to pay invoice. ErrorCode: None ErrorMessage: timed out"
    );
    assert_eq!(
        GatewayPayError::OutgoingContractError.message(),
        "OutgoingContract was not created in the federation"
    );
}

#[test]
fn cloned_errors_are_equal() {
    let error = internal_error(Some(404), "not found");
    assert_eq!(error.clone(), error);
    assert_eq!(
        GatewayPayError::OutgoingContractError.clone(),
        GatewayPayError::OutgoingContractError
    );
}

#[test]
fn numbers_are_written_in_decimal() {
    for n in [0, 7, 10, 99, 100, 404, 9999, 65535] {
        assert_eq!(decimal_text(n), n.to_string());
    }
}
