//! From the funded contract to the gateway's answer.

use bitcoin_hashes::sha256;
use vstd::prelude::*;

use crate::error::{GatewayPayError, GatewayPayErrorView};
use crate::http::{is_success_status, join_url};
use crate::states::{
    LightningPayCommon, LightningPayFunded, LightningPayRefundable, LightningPayStateMachine,
    LightningPayStateMachineView, LightningPayStates,
};
use crate::text::{is_wrapped_text, unwrap_text};
use crate::transition::{Completed, PayType, PaymentResult, StateTransition};
use crate::types::{
    ContractId, LightningGateway, LightningGatewayView, PayInvoicePayload, PayInvoicePayloadView,
};

verus! {

/// A request to be posted to a gateway, with `payload` as its JSON body.
#[derive(Debug, PartialEq, Eq)]
pub struct PayInvoiceRequest {
    pub url: String,
    pub payload: PayInvoicePayload,
}

/// What came of posting the request.
#[derive(Debug, PartialEq, Eq)]
pub enum GatewayReply {
    /// No response came, for the reason given.
    SendFailed { message: String },
    /// A response came; `text` is its body, `None` where the body could not be read.
    Received { status: u16, text: Option<String> },
}

/// What has happened while asking the gateway to pay.
#[derive(Debug, PartialEq, Eq)]
pub enum PayInvoiceEvent {
    /// The gateway is to be asked.
    Started,
    /// The gateway has been asked, with this result.
    Replied(GatewayReply),
}

/// What is to be done next to see the invoice paid.
#[derive(Debug, PartialEq, Eq)]
pub enum PayInvoiceStep {
    /// Post a request to the gateway.
    Post(PayInvoiceRequest),
    /// Nothing: the gateway's API has no URL that a request could be posted to.
    NoEndpoint,
    /// Nothing: the preimage is known, or why there is none.
    Finished(Result<String, GatewayPayError>),
}

/// What a `PayInvoiceStep` stands for.
pub enum PayInvoiceStepView {
    Post { url: Seq<char>, payload: PayInvoicePayloadView },
    NoEndpoint,
    Finished(Result<Seq<char>, GatewayPayErrorView>),
}

impl View for PayInvoiceStep {
    type V = PayInvoiceStepView;

    open spec fn view(&self) -> PayInvoiceStepView {
        match *self {
            PayInvoiceStep::Post(request) => PayInvoiceStepView::Post {
                url: request.url@,
                payload: request.payload@,
            },
            PayInvoiceStep::NoEndpoint => PayInvoiceStepView::NoEndpoint,
            PayInvoiceStep::Finished(result) => PayInvoiceStepView::Finished(
                GatewayReply::result_view(result),
            ),
        }
    }
}

impl PayInvoiceStepView {
    /// What `event` calls for, of a gateway that is to be sent `payload`.
    pub open spec fn after(
        event: PayInvoiceEvent,
        gateway: LightningGatewayView,
        payload: PayInvoicePayloadView,
    ) -> Self {
        match event {
            PayInvoiceEvent::Started => PayInvoiceStepView::posting(
                gateway.pay_invoice_url(),
                payload,
            ),
            PayInvoiceEvent::Replied(reply) => PayInvoiceStepView::Finished(reply.payment()),
        }
    }

    /// The request to pay, where `url` is known.
    pub open spec fn posting(url: Option<Seq<char>>, payload: PayInvoicePayloadView) -> Self {
        match url {
            Some(url) => PayInvoiceStepView::Post { url, payload },
            None => PayInvoiceStepView::NoEndpoint,
        }
    }
}

impl LightningGatewayView {
    /// The URL that a request to pay is posted to.
    pub open spec fn pay_invoice_url(self) -> Option<Seq<char>> {
        crate::http::url_join(self.api, "pay_invoice"@)
    }
}

impl GatewayReply {
    /// The result of a payment by its texts.
    pub open spec fn result_view(
        result: Result<String, GatewayPayError>,
    ) -> Result<Seq<char>, GatewayPayErrorView> {
        match result {
            Ok(preimage) => Ok(preimage@),
            Err(error) => Err(error@),
        }
    }

    /// Whether the reply is one that a gateway gives: its status code is a status code,
    /// a refusal can be read, and a body that is to hold the preimage, where it can be
    /// read, has a one-byte character at each end. Which characters these are is not
    /// looked at; a gateway puts the quotes of a JSON string there.
    pub open spec fn is_readable(self) -> bool {
        match self {
            GatewayReply::SendFailed { .. } => true,
            GatewayReply::Received { status, text } => {
                &&& crate::http::is_status_code(status)
                &&& if crate::http::is_success_code(status) {
                    text matches Some(quoted) ==> crate::text::is_wrapped(quoted@)
                } else {
                    text is Some
                }
            },
        }
    }

    /// What a reply says of the payment. The preimage is the body of a successful one
    /// without the character at each end.
    pub open spec fn payment(self) -> Result<Seq<char>, GatewayPayErrorView>
        recommends
            self.is_readable(),
    {
        match self {
            GatewayReply::SendFailed { message } => Err(
                GatewayPayErrorView::GatewayInternalError {
                    error_code: None,
                    error_message: message@,
                },
            ),
            GatewayReply::Received { status, text: Some(text) } => if crate::http::is_success_code(
                status,
            ) {
                Ok(crate::text::unwrapped(text@))
            } else {
                Err(
                    GatewayPayErrorView::GatewayInternalError {
                        error_code: Some(status),
                        error_message: text@,
                    },
                )
            },
            GatewayReply::Received { status, text: None } => Err(
                GatewayPayErrorView::GatewayInternalError {
                    error_code: None,
                    error_message: "Error retrieving preimage from response"@,
                },
            ),
        }
    }

    /// Whether the reply is one that a gateway gives.
    pub fn check_readable(&self) -> (r: bool)
        ensures
            r == self.is_readable(),
            r <==> match *self {
                GatewayReply::SendFailed { .. } => true,
                GatewayReply::Received { status, text: None } => 200 <= status <= 299,
                GatewayReply::Received { status, text: Some(body) } => {
                    ||| 100 <= status <= 199
                    ||| 300 <= status <= 999
                    ||| {
                        &&& 200 <= status <= 299
                        &&& body@.len() >= 2
                        &&& body@[0] as u32 <= 0x7f
                        &&& body@[body@.len() - 1] as u32 <= 0x7f
                    }
                },
            },
    {
        match self {
            GatewayReply::SendFailed { .. } => true,
            GatewayReply::Received { status, text } => if *status < 100 || *status >= 1000 {
                false
            } else if is_success_status(*status) {
                match text {
                    Some(quoted) => is_wrapped_text(quoted.as_str()),
                    None => true,
                }
            } else {
                text.is_some()
            },
        }
    }
}

impl LightningPayFunded {
    /// The way out of this state: the gateway answers.
    pub fn transitions(&self, common: LightningPayCommon) -> (r: Vec<StateTransition>)
        ensures
            StateTransition::views(r@) == (LightningPayStateMachineView {
                common: common@,
                state: self@,
            }).transitions(),
            r@.len() == 1,
            r@[0] matches StateTransition::OutgoingContractExecuted {
                gateway,
                payload,
                contract_id,
                timelock,
                payment_hash,
                common: kept,
            } && {
                &&& gateway.api == self.gateway.api
                &&& gateway.announcement@ == self.gateway.announcement@
                &&& payload.federation_id.bytes@ == self.payload.federation_id.bytes@
                &&& payload.contract_id == self.payload.contract_id
                &&& contract_id == self.payload.contract_id
                &&& timelock == self.timelock
                &&& payment_hash == self.payment_hash
                &&& kept == common
            },
    {
        let ghost machine = LightningPayStateMachineView { common: common@, state: self@ };
        let r = vec![
            StateTransition::OutgoingContractExecuted {
                gateway: self.gateway.clone(),
                payload: self.payload.clone(),
                contract_id: self.payload.contract_id,
                timelock: self.timelock,
                payment_hash: self.payment_hash,
                common,
            },
        ];
        assert(StateTransition::views(r@) =~= machine.transitions());
        assert(r@.len() == 1);
        r
    }

    /// Posts `payload` to the gateway, and finishes with the preimage or with the reason
    /// why there is none.
    pub fn gateway_pay_invoice(
        event: PayInvoiceEvent,
        gateway: &LightningGateway,
        payload: &PayInvoicePayload,
    ) -> (r: PayInvoiceStep)
        requires
            event matches PayInvoiceEvent::Replied(reply) ==> reply.is_readable(),
        ensures
            r@ == PayInvoiceStepView::after(event, gateway@, payload@),
            match event {
                PayInvoiceEvent::Started => match crate::http::url_join(
                    gateway.api@,
                    "pay_invoice"@,
                ) {
                    Some(url) => {
                        &&& r matches PayInvoiceStep::Post(request)
                        &&& request.url@ == url
                        &&& request.payload.federation_id.bytes@ == payload.federation_id.bytes@
                        &&& request.payload.contract_id == payload.contract_id
                    },
                    None => r is NoEndpoint,
                },
                PayInvoiceEvent::Replied(GatewayReply::SendFailed { message }) => r
                    matches PayInvoiceStep::Finished(
                    Err(
                        GatewayPayError::GatewayInternalError {
                            error_code: None,
                            error_message,
                        },
                    ),
                ) && error_message == message,
                PayInvoiceEvent::Replied(GatewayReply::Received { status, text: None }) => r
                    matches PayInvoiceStep::Finished(
                    Err(
                        GatewayPayError::GatewayInternalError {
                            error_code: None,
                            error_message,
                        },
                    ),
                ) && error_message@ == "Error retrieving preimage from response"@,
                PayInvoiceEvent::Replied(GatewayReply::Received { status, text: Some(body) }) =>
                    if 200 <= status <= 299 {
                        r matches PayInvoiceStep::Finished(Ok(preimage)) && body@
                            == seq![body@[0]] + preimage@ + seq![body@[body@.len() - 1]]
                    } else {
                        r matches PayInvoiceStep::Finished(
                            Err(
                                GatewayPayError::GatewayInternalError {
                                    error_code: Some(code),
                                    error_message,
                                },
                            ),
                        ) && code == status && error_message == body
                    },
            },
    {
        match event {
            PayInvoiceEvent::Started => {
                let url = join_url(gateway.api.as_str(), "pay_invoice");
                LightningPayFunded::pay_invoice_request(url, payload)
            },
            PayInvoiceEvent::Replied(reply) => PayInvoiceStep::Finished(
                LightningPayFunded::pay_invoice_result(reply),
            ),
        }
    }

    /// The request that asks a gateway to pay, posted to `url`.
    pub fn pay_invoice_request(url: Option<String>, payload: &PayInvoicePayload) -> (r:
        PayInvoiceStep)
        ensures
            r@ == PayInvoiceStepView::posting(crate::http::text_view(url), payload@),
            match url {
                Some(url) => {
                    &&& r matches PayInvoiceStep::Post(request)
                    &&& request.url == url
                    &&& request.payload.federation_id.bytes@ == payload.federation_id.bytes@
                    &&& request.payload.contract_id == payload.contract_id
                },
                None => r is NoEndpoint,
            },
    {
        match url {
            Some(url) => PayInvoiceStep::Post(
                PayInvoiceRequest { url, payload: payload.clone() },
            ),
            None => PayInvoiceStep::NoEndpoint,
        }
    }

    /// Reads what the gateway says of the payment.
    pub fn pay_invoice_result(reply: GatewayReply) -> (r: Result<String, GatewayPayError>)
        requires
            reply.is_readable(),
        ensures
            GatewayReply::result_view(r) == reply.payment(),
            match reply {
                GatewayReply::SendFailed { message } => r matches Err(
                    GatewayPayError::GatewayInternalError { error_code: None, error_message },
                ) && error_message == message,
                GatewayReply::Received { status, text: None } => r matches Err(
                    GatewayPayError::GatewayInternalError { error_code: None, error_message },
                ) && error_message@ == "Error retrieving preimage from response"@,
                GatewayReply::Received { status, text: Some(body) } => if 200 <= status <= 299 {
                    r matches Ok(preimage) && body@ == seq![body@[0]] + preimage@
                        + seq![body@[body@.len() - 1]]
                } else {
                    r matches Err(
                        GatewayPayError::GatewayInternalError {
                            error_code: Some(code),
                            error_message,
                        },
                    ) && code == status && error_message == body
                },
            },
    {
        match reply {
            GatewayReply::SendFailed { message } => Err(
                GatewayPayError::GatewayInternalError { error_code: None, error_message: message },
            ),
            GatewayReply::Received { status, text } => {
                let success = is_success_status(status);
                match text {
                    Some(text) => if success {
                        Ok(unwrap_text(text.as_str()))
                    } else {
                        Err(
                            GatewayPayError::GatewayInternalError {
                                error_code: Some(status),
                                error_message: text,
                            },
                        )
                    },
                    None => Err(
                        GatewayPayError::GatewayInternalError {
                            error_code: None,
                            error_message: "Error retrieving preimage from response".to_string(),
                        },
                    ),
                }
            },
        }
    }

    /// Enters `Success`, with the payment to be recorded, when the gateway paid, and
    /// `Refundable` when it did not.
    pub fn transition_outgoing_contract_execution(
        result: Result<String, GatewayPayError>,
        old_state: LightningPayStateMachine,
        contract_id: ContractId,
        timelock: u32,
        payment_hash: sha256::Hash,
        common: LightningPayCommon,
    ) -> (r: Completed)
        ensures
            r.machine.common == old_state.common,
            match result {
                Ok(preimage) => {
                    &&& r.machine.state == LightningPayStates::Success(preimage)
                    &&& r.payment_result == Some(
                        PaymentResult {
                            payment_hash,
                            payment_type: PayType::Lightning(old_state.common.operation_id),
                            contract_id,
                            fee: common.gateway_fee,
                        },
                    )
                },
                Err(error) => {
                    &&& r.machine.state == LightningPayStates::Refundable(
                        LightningPayRefundable { contract_id, block_timelock: timelock, error },
                    )
                    &&& r.payment_result is None
                },
            },
    {
        match result {
            Ok(preimage) => {
                let payment_result = PaymentResult {
                    payment_hash,
                    payment_type: PayType::Lightning(old_state.common.operation_id),
                    contract_id,
                    fee: common.gateway_fee,
                };
                Completed {
                    machine: LightningPayStateMachine {
                        common: old_state.common,
                        state: LightningPayStates::Success(preimage),
                    },
                    payment_result: Some(payment_result),
                }
            },
            Err(error) => Completed {
                machine: LightningPayStateMachine {
                    common: old_state.common,
                    state: LightningPayStates::Refundable(
                        LightningPayRefundable { contract_id, block_timelock: timelock, error },
                    ),
                },
                payment_result: None,
            },
        }
    }
}

} // verus!
