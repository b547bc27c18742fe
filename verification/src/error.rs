use vstd::prelude::*;
use vstd::string::StringExecFns;

verus! {

/// A lookup that did not produce a located record.
///
/// The first four cases are the failure reasons the service names in its
/// `message` field; `OtherError` covers everything else (transport trouble,
/// a body that is not JSON, a payload with missing fields, or a reason this
/// client does not recognize) and always carries a human-readable message.
#[derive(Debug)]
pub enum IpApiError {
    /// The IP address is part of a private range
    PrivateRange,
    /// The IP address is part of a reserved range
    ReservedRange,
    /// Invalid IP address or domain name
    InvalidQuery,
    /// Quota exceeded, go unban yourself
    Quota,
    /// Some other error has occurred
    OtherError(String),
}

/// The fixed description of each error case.
pub open spec fn spec_description(e: IpApiError) -> Seq<char> {
    match e {
        IpApiError::PrivateRange => "The IP address is part of a private range"@,
        IpApiError::ReservedRange => "The IP address is part of a reserved range"@,
        IpApiError::InvalidQuery => "Invalid IP address or domain name"@,
        IpApiError::Quota => "Quota exceeded, go unban yourself"@,
        IpApiError::OtherError(_) => "Some other error has occurred"@,
    }
}

impl IpApiError {
    /// A short, fixed description of the error case. For `OtherError` the
    /// carried message holds the detail; the description stays generic.
    pub fn description(&self) -> (r: &'static str)
        ensures
            r@ == spec_description(*self),
    {
        match *self {
            IpApiError::PrivateRange => "The IP address is part of a private range",
            IpApiError::ReservedRange => "The IP address is part of a reserved range",
            IpApiError::InvalidQuery => "Invalid IP address or domain name",
            IpApiError::Quota => "Quota exceeded, go unban yourself",
            IpApiError::OtherError(_) => "Some other error has occurred",
        }
    }

    /// The error rendered as one line of text.
    pub fn display_text(&self) -> (r: String)
        ensures
            r@ == "Error: "@ + spec_description(*self),
    {
        let mut s = String::from_str("Error: ");
        s.append(self.description());
        s
    }
}

/// The text of the catch-all error for a response this client does not
/// understand: it names the reason and quotes the raw body.
pub open spec fn unexpected_text(reason: Seq<char>, body: Seq<char>) -> Seq<char> {
    "Unexpected response: "@ + reason + "; body is: "@ + body
}

/// The catch-all text carries the raw body verbatim: the body is exactly
/// the tail of the message.
pub proof fn lemma_unexpected_text_quotes_body(reason: Seq<char>, body: Seq<char>)
    ensures
        body.len() <= unexpected_text(reason, body).len(),
        unexpected_text(reason, body).skip(
            unexpected_text(reason, body).len() - body.len(),
        ) == body,
{
    assert(unexpected_text(reason, body).skip(
        unexpected_text(reason, body).len() - body.len(),
    ) =~= body);
}

/// The catch-all error: an `OtherError` whose message names the reason and
/// carries the raw response body so callers can diagnose upstream changes.
pub fn unexpected_json(body: &str, reason: &str) -> (r: IpApiError)
    ensures
        r matches IpApiError::OtherError(m) && m@ == unexpected_text(reason@, body@),
{
    let mut s = String::from_str("Unexpected response: ");
    s.append(reason);
    s.append("; body is: ");
    s.append(body);
    IpApiError::OtherError(s)
}

} // verus!
