# lightning_pay

Pays a Lightning invoice on behalf of a federation's client, through one of the
federation's gateways, and takes the money back where the gateway does not pay.

- `src/` is the verified library: the state machine of a payment, the steps of every
  wait, the request to the gateway and the reading of its reply. `src/laws.rs` states and
  proves what holds of a payment as a whole: that it follows the state diagram, that it
  ends, that every state goes back to the contract it was begun with, that a payment is
  recorded exactly when it succeeds, and that it is never both recorded and refunded.
- `app/` runs payments: it talks to the gateway over HTTP, and to the federation and the
  client's database through the traits in `app/federation.rs`.
- `tests/` runs the library on concrete payments and replies.

Two calls into the HTTP client's crate are trusted rather than proved, both in
`src/http.rs`: joining the gateway's base URL with the endpoint, and telling a success
status code.
