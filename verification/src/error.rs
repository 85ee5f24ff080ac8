//! Why a payment through a gateway failed.

use vstd::prelude::*;
use vstd::string::*;

use crate::text::decimal_text;

verus! {

/// Why a payment through a gateway failed.
#[derive(Debug, PartialEq, Eq)]
pub enum GatewayPayError {
    /// The gateway could not be reached, refused to pay or answered badly.
    GatewayInternalError { error_code: Option<u16>, error_message: String },
    /// The federation has not got the contract that was to be paid from.
    OutgoingContractError,
}

/// What a `GatewayPayError` stands for.
pub enum GatewayPayErrorView {
    GatewayInternalError { error_code: Option<u16>, error_message: Seq<char> },
    OutgoingContractError,
}

impl View for GatewayPayError {
    type V = GatewayPayErrorView;

    open spec fn view(&self) -> GatewayPayErrorView {
        match *self {
            GatewayPayError::GatewayInternalError { error_code, error_message } =>
                GatewayPayErrorView::GatewayInternalError {
                    error_code,
                    error_message: error_message@,
                },
            GatewayPayError::OutgoingContractError => GatewayPayErrorView::OutgoingContractError,
        }
    }
}

impl Clone for GatewayPayError {
    fn clone(&self) -> (r: Self)
        ensures
            r@ == self@,
            r == *self,
    {
        match self {
            GatewayPayError::GatewayInternalError { error_code, error_message } =>
                GatewayPayError::GatewayInternalError {
                    error_code: *error_code,
                    error_message: error_message.clone(),
                },
            GatewayPayError::OutgoingContractError => GatewayPayError::OutgoingContractError,
        }
    }
}

impl GatewayPayErrorView {
    /// An error code as the message shows it: `None`, or the number in `Some(..)`.
    pub open spec fn shown_code(error_code: Option<u16>) -> Seq<char> {
        match error_code {
            Some(code) => "Some("@ + crate::text::decimal(code as nat) + ")"@,
            None => "None"@,
        }
    }

    /// The error in words.
    pub open spec fn message(self) -> Seq<char> {
        match self {
            GatewayPayErrorView::GatewayInternalError { error_code, error_message } =>
                "Lightning Gateway failed to pay invoice. ErrorCode: "@
                    + GatewayPayErrorView::shown_code(error_code) + " ErrorMessage: "@
                    + error_message,
            GatewayPayErrorView::OutgoingContractError =>
                "OutgoingContract was not created in the federation"@,
        }
    }
}

impl GatewayPayError {
    /// The error in words.
    pub fn message(&self) -> (r: String)
        ensures
            r@ == self@.message(),
            match *self {
                GatewayPayError::GatewayInternalError { error_code: Some(code), error_message } =>
                    r@ == "Lightning Gateway failed to pay invoice. ErrorCode: "@ + ("Some("@
                        + crate::text::decimal(code as nat) + ")"@) + " ErrorMessage: "@
                        + error_message@,
                GatewayPayError::GatewayInternalError { error_code: None, error_message } => r@
                    == "Lightning Gateway failed to pay invoice. ErrorCode: "@ + "None"@
                    + " ErrorMessage: "@ + error_message@,
                GatewayPayError::OutgoingContractError => r@
                    == "OutgoingContract was not created in the federation"@,
            },
    {
        match self {
            GatewayPayError::GatewayInternalError { error_code, error_message } => {
                let shown = match error_code {
                    Some(code) => "Some(".to_owned().concat(decimal_text(*code).as_str()).concat(
                        ")",
                    ),
                    None => "None".to_owned(),
                };
                "Lightning Gateway failed to pay invoice. ErrorCode: ".to_owned().concat(
                    shown.as_str(),
                ).concat(" ErrorMessage: ").concat(error_message.as_str())
            },
            GatewayPayError::OutgoingContractError =>
                "OutgoingContract was not created in the federation".to_owned(),
        }
    }
}

} // verus!
