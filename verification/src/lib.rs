//! The client side of paying a Lightning invoice through a federation's gateway.
//!
//! A payment is a state machine (`states`). Each of its states waits for something to
//! happen (`transition`, `wait`), and what comes of it decides on the next state (`created`,
//! `funded`, `refundable`, `refund`, put together in `machine`). The library decides;
//! whoever runs it talks to the federation and to the gateway, and hands the answers in.
//! `operations` says what each operation does to its arguments, and `laws` holds what is
//! proved of a payment as a whole.

pub mod created;
pub mod error;
pub mod funded;
pub mod http;
pub mod laws;
pub mod machine;
pub mod operations;
pub mod refund;
pub mod refundable;
pub mod states;
pub mod text;
pub mod transition;
pub mod types;
pub mod wait;
