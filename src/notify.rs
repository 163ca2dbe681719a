use vstd::prelude::*;

verus! {

/// The JSON string literal (quoted and escaped) that `serde_json` writes
/// for a text.
pub uninterp spec fn json_quoted(s: Seq<char>) -> Seq<char>;

/// Relies on `serde_json::to_string` applied to a `str`: it writes the text
/// as one escaped JSON string. Serialising a `str` into memory cannot fail,
/// so the error arm is never taken.
#[verifier::external_body]
fn quote_json(s: &str) -> (r: String)
    ensures
        r@ == json_quoted(s@),
{
    match serde_json::to_string(s) {
        Ok(t) => t,
        Err(_) => String::new(),
    }
}

/// An outbound notification: the endpoint and the JSON body to post to it.
pub struct Notification {
    pub url: String,
    pub body: String,
}

/// The human-readable text sent for an alert message.
pub open spec fn alert_text(message: Seq<char>) -> Seq<char> {
    "Sentinel Alert: "@ + message
}

/// The JSON body `{"text":<text>}` carrying an alert message.
pub open spec fn payload_of(message: Seq<char>) -> Seq<char> {
    "{\"text\":"@ + json_quoted(alert_text(message)) + "}"@
}

/// Builds the JSON body for an alert message.
pub fn alert_payload(message: &str) -> (r: String)
    ensures
        r@ == payload_of(message@),
{
    let text = String::from_str("Sentinel Alert: ").concat(message);
    let quoted = quote_json(text.as_str());
    let mut body = String::from_str("{\"text\":");
    body.append(quoted.as_str());
    body.append("}");
    body
}

/// The notification for an alert message sent to `url`.
pub fn notification(url: &String, message: &str) -> (r: Notification)
    ensures
        r.url@ == url@,
        r.body@ == payload_of(message@),
{
    Notification { url: url.clone(), body: alert_payload(message) }
}

} // verus!
