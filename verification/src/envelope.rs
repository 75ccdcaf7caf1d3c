//! The result envelope: a remote call's JSON response body decoded into a
//! tagged success/failure result. A malformed envelope — empty text,
//! invalid JSON, or a missing or non-boolean `status` field — is an
//! unrecoverable contract violation with the remote side, reported as a
//! distinguished fatal outcome that the caller's boundary is expected to
//! turn into process termination.

use vstd::prelude::*;

verus! {

/// Whether a string parses as JSON. The result is a function of the
/// string alone.
pub uninterp spec fn json_ok(s: Seq<char>) -> bool;

/// The boolean value of the `status` field of the JSON object a string
/// parses to, or `None` where the string does not parse to an object with
/// a boolean `status` field. The result is a function of the string alone.
pub uninterp spec fn json_status(s: Seq<char>) -> Option<bool>;

/// The string value of the `message` field of the JSON object a string
/// parses to, or `None` where there is no such string field. The result
/// is a function of the string alone.
pub uninterp spec fn json_message(s: Seq<char>) -> Option<Seq<char>>;

/// The compact re-serialization of the `data` field of the JSON object a
/// string parses to, or `None` where the `data` field is absent or not a
/// JSON object. The result is a function of the string alone.
pub uninterp spec fn json_data(s: Seq<char>) -> Option<Seq<char>>;

/// The raw envelope fields as the JSON layer hands them over, before the
/// library applies its defaults.
pub(crate) struct RawEnvelopeFields {
    pub(crate) parsed: bool,
    pub(crate) status: Option<bool>,
    pub(crate) message: Option<String>,
    pub(crate) data: Option<String>,
}

/// Relies on serde_json: `from_str` parses the text to a `Value` exactly
/// when the text is valid JSON; `Value::get` finds a field of an object
/// and returns nothing for non-objects; `as_bool`, `as_str` and
/// `as_object` tell the value's variant apart; `to_string` re-serializes
/// an object compactly. All are functions of the text alone.
#[verifier::external_body]
pub(crate) fn decode_json_fields(raw: &str) -> (r: RawEnvelopeFields)
    ensures
        r.parsed == json_ok(raw@),
        r.parsed ==> r.status == json_status(raw@),
        r.parsed ==> match r.message {
            Some(m) => json_message(raw@) == Some(m@),
            None => json_message(raw@) is None,
        },
        r.parsed ==> match r.data {
            Some(d) => json_data(raw@) == Some(d@),
            None => json_data(raw@) is None,
        },
{
    match serde_json::from_str::<serde_json::Value>(raw) {
        Err(_) => RawEnvelopeFields { parsed: false, status: None, message: None, data: None },
        Ok(v) => RawEnvelopeFields {
            parsed: true,
            status: v.get("status").and_then(|x| x.as_bool()),
            message: v.get("message").and_then(|x| x.as_str()).map(|s| s.to_owned()),
            data: v.get("data").and_then(|x| x.as_object()).and_then(
                |m| serde_json::to_string(m).ok(),
            ),
        },
    }
}

/// The fatal outcomes of decoding an envelope. Each marks a broken
/// contract with the remote collaborator; the caller's boundary is
/// expected to terminate the process on any of them.
#[derive(Debug, Clone, Copy, PartialEq, Eq, Structural)]
pub enum FatalEnvelopeError {
    /// The response text was empty.
    EmptyResponse,
    /// The response text was not valid JSON.
    InvalidJson,
    /// The parsed JSON had no boolean `status` field.
    MissingStatus,
}

/// Which fatal outcome, if any, decoding a response text meets: an empty
/// text, then text that is not JSON, then a missing or non-boolean
/// `status` field.
pub open spec fn decode_fatal_spec(s: Seq<char>) -> Option<FatalEnvelopeError> {
    if s.len() == 0 {
        Some(FatalEnvelopeError::EmptyResponse)
    } else if !json_ok(s) {
        Some(FatalEnvelopeError::InvalidJson)
    } else if json_status(s) is None {
        Some(FatalEnvelopeError::MissingStatus)
    } else {
        None
    }
}

/// The message a decoded envelope carries: the `message` field's string,
/// or the empty string where it is absent or not a string.
pub open spec fn message_spec(s: Seq<char>) -> Seq<char> {
    match json_message(s) {
        Some(m) => m,
        None => Seq::empty(),
    }
}

/// The data a decoded envelope carries: the `data` object re-serialized
/// compactly, or the empty string where it is absent or not an object.
pub open spec fn data_spec(s: Seq<char>) -> Seq<char> {
    match json_data(s) {
        Some(d) => d,
        None => Seq::empty(),
    }
}

/// A decoded result envelope: the raw response text, the success flag
/// from its `status` field, and the defaulted `message` and `data`
/// fields.
#[derive(Debug)]
pub struct ResultResponse {
    pub response: String,
    pub ok_or_fail: bool,
    pub message: String,
    pub data: String,
}

impl ResultResponse {
    /// Decodes a response text. The result is fatal — `Err` — exactly on
    /// an empty text, text that is not valid JSON, or JSON without a
    /// boolean `status` field; otherwise the envelope carries the
    /// `status` flag, the `message` string defaulted to empty, and the
    /// `data` object re-serialized compactly and defaulted to empty.
    pub fn new(response: String) -> (r: Result<ResultResponse, FatalEnvelopeError>)
        ensures
            r matches Err(e) ==> decode_fatal_spec(response@) == Some(e),
            r matches Ok(env) ==> {
                &&& decode_fatal_spec(response@) is None
                &&& env.response@ == response@
                &&& Some(env.ok_or_fail) == json_status(response@)
                &&& env.message@ == message_spec(response@)
                &&& env.data@ == data_spec(response@)
            },
    {
        if response.as_str().is_empty() {
            return Err(FatalEnvelopeError::EmptyResponse);
        }
        let fields = decode_json_fields(response.as_str());
        if !fields.parsed {
            return Err(FatalEnvelopeError::InvalidJson);
        }
        let ok_or_fail = match fields.status {
            Some(b) => b,
            None => {
                return Err(FatalEnvelopeError::MissingStatus);
            },
        };
        let message = match fields.message {
            Some(m) => m,
            None => String::new(),
        };
        let data = match fields.data {
            Some(d) => d,
            None => String::new(),
        };
        Ok(ResultResponse { response, ok_or_fail, message, data })
    }

    /// Whether the remote call succeeded.
    pub fn is_ok(&self) -> (r: bool)
        ensures
            r == self.ok_or_fail,
    {
        self.ok_or_fail
    }

    /// Whether the remote call failed: the logical negation of `is_ok`.
    pub fn is_failed(&self) -> (r: bool)
        ensures
            r == !self.ok_or_fail,
    {
        !self.ok_or_fail
    }

    /// The failure message. Meaningful only for a failed result: a
    /// succeeded envelope usually carries an empty message.
    pub fn get_message(&self) -> (r: &str)
        ensures
            r@ == self.message@,
    {
        self.message.as_str()
    }

    /// The re-serialized `data` object, or the empty string.
    pub fn get_data(&self) -> (r: &str)
        ensures
            r@ == self.data@,
    {
        self.data.as_str()
    }

    /// Invokes `consume` with the message when the result failed;
    /// otherwise invokes `or_else`, if one was given.
    pub fn if_failed<F: FnOnce(&str), G: FnOnce()>(&self, consume: F, or_else: Option<G>)
        requires
            !self.ok_or_fail ==> forall|s: &str| s@ == self.message@ ==> call_requires(
                consume,
                (s,),
            ),
            self.ok_or_fail && or_else is Some ==> call_requires(or_else->Some_0, ()),
    {
        if self.is_failed() {
            consume(self.message.as_str());
        } else if let Some(or_else_fn) = or_else {
            or_else_fn();
        }
    }
}

} // verus!
