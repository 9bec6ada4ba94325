//! The unified error shape: missing parameters, transport failures and
//! decode failures all surface as one `AdapterError`, with a short message
//! and a machine-readable reason.

use vstd::prelude::*;

verus! {

/// The one error type of the adapter. A missing parameter is a caller
/// defect found before any network work; the other two originate from the
/// backend interaction.
#[derive(Clone, Debug, PartialEq, Eq)]
pub enum AdapterError {
    MissingParameter { param: String },
    TransportFailure { url: String, reason: String },
    DecodeFailure { reason: String },
}

impl AdapterError {
    /// The short human-readable message of this error.
    pub open spec fn spec_message(&self) -> Seq<char> {
        match self {
            AdapterError::MissingParameter { param } => "Missing required parameter: "@ + param@,
            AdapterError::TransportFailure { url, reason } => "Failed to fetch URL: "@ + url@,
            AdapterError::DecodeFailure { reason } => "Failed to parse response Json"@,
        }
    }

    /// The structured reason of this error: the underlying cause's textual
    /// description, or the name of the absent parameter.
    pub open spec fn spec_reason(&self) -> Seq<char> {
        match self {
            AdapterError::MissingParameter { param } => param@,
            AdapterError::TransportFailure { url, reason } => reason@,
            AdapterError::DecodeFailure { reason } => reason@,
        }
    }

    /// The message, as callers of the protocol see it.
    pub fn message(&self) -> (r: String)
        ensures
            r@ == self.spec_message(),
    {
        match self {
            AdapterError::MissingParameter { param } => "Missing required parameter: ".to_owned().concat(
                param.as_str(),
            ),
            AdapterError::TransportFailure { url, reason: _ } => "Failed to fetch URL: ".to_owned().concat(
                url.as_str(),
            ),
            AdapterError::DecodeFailure { reason: _ } => "Failed to parse response Json".to_owned(),
        }
    }

    /// The reason, attached for diagnostics.
    pub fn reason(&self) -> (r: String)
        ensures
            r@ == self.spec_reason(),
    {
        match self {
            AdapterError::MissingParameter { param } => param.clone(),
            AdapterError::TransportFailure { url: _, reason } => reason.clone(),
            AdapterError::DecodeFailure { reason } => reason.clone(),
        }
    }
}

/// Normalize a transport-level failure: the message carries the attempted
/// URL, the reason carries the underlying cause's description.
pub fn transport_failure(url: String, reason: String) -> (e: AdapterError)
    ensures
        (e matches AdapterError::TransportFailure { url: u, reason: w } && u@ == url@ && w@
            == reason@),
{
    AdapterError::TransportFailure { url, reason }
}

/// Normalize a decode failure: the body of a completed response was not
/// valid JSON.
pub fn decode_failure(reason: String) -> (e: AdapterError)
    ensures
        (e matches AdapterError::DecodeFailure { reason: w } && w@ == reason@),
{
    AdapterError::DecodeFailure { reason }
}

/// The error for an operation invoked without a parameter it needs; the
/// message names the parameter.
pub fn missing_parameter(param: &str) -> (e: AdapterError)
    ensures
        (e matches AdapterError::MissingParameter { param: p } && p@ == param@),
{
    AdapterError::MissingParameter { param: param.to_owned() }
}

/// The message of a transport failure ends with the attempted URL,
/// verbatim: whatever URL the call was made against can be read back out of
/// the message.
pub proof fn lemma_transport_message_contains_url(url: String, reason: String)
    ensures
        ({
            let m = (AdapterError::TransportFailure { url, reason }).spec_message();
            &&& m.len() == "Failed to fetch URL: "@.len() + url@.len()
            &&& m.subrange(m.len() - url@.len(), m.len() as int) == url@
        }),
{
    let m = (AdapterError::TransportFailure { url, reason }).spec_message();
    assert(m.subrange(m.len() - url@.len(), m.len() as int) =~= url@);
}

/// A transport failure and a decode failure never look alike: their
/// messages differ whatever URL and causes they carry, so a caller can
/// always tell the two backend failure kinds apart.
pub proof fn lemma_failure_kinds_distinguishable(e1: AdapterError, e2: AdapterError)
    requires
        e1 is TransportFailure,
        e2 is DecodeFailure,
    ensures
        e1.spec_message() != e2.spec_message(),
{
    reveal_strlit("Failed to fetch URL: ");
    reveal_strlit("Failed to parse response Json");
    assert(e1.spec_message()[10] == 'f');
    assert(e2.spec_message()[10] == 'p');
}

} // verus!
