//! Classification of the Namecheap XML response envelope.
//!
//! Every Namecheap response is wrapped in an `<ApiResponse>` element with a
//! `Status` attribute (`OK` or `ERROR`), an `<Errors>` block and a
//! `<CommandResponse>` block. The body is decoded twice: once into an
//! [`Envelope`], which holds the status and the errors whatever the payload
//! looks like, and, when the call succeeded, once more for the typed payload.
//! This module decides, from the first decoding and the HTTP status, whether
//! the payload is to be read or which error the call ends with.
use vstd::prelude::*;

use crate::error::{ApiError, ApiErrorEntry, Error};
use crate::text::{ascii_lowercase, eq_ignore_ascii_case, trim, trimmed};

verus! {

/// One `<Error Number="...">message</Error>` entry as it was decoded.
#[derive(Debug)]
pub struct RawError {
    /// The value of the `Number` attribute (empty when absent).
    pub number: String,
    /// The text of the element (empty when absent), untrimmed.
    pub message: String,
}

/// The status and errors of a decoded `<ApiResponse>` envelope.
#[derive(Debug)]
pub struct Envelope {
    /// The value of the `Status` attribute (empty when absent).
    pub status: String,
    /// The entries of the `<Errors>` block, in document order.
    pub errors: Vec<RawError>,
}

/// Whether an envelope status means success: `OK` in any ASCII case.
pub open spec fn status_is_ok(status: Seq<char>) -> bool {
    ascii_lowercase(status) == ascii_lowercase("OK"@)
}

/// The API error an envelope reports: every entry in order, its number kept
/// and its message trimmed.
pub open spec fn reported_entries(raw: Seq<RawError>, entries: Seq<ApiErrorEntry>) -> bool {
    &&& entries.len() == raw.len()
    &&& forall|i: int|
        0 <= i < raw.len() ==> {
            &&& #[trigger] entries[i].number == raw[i].number
            &&& entries[i].message@ == trimmed(raw[i].message@)
        }
}

/// Whether an HTTP status is in the success range 200 to 299.
pub open spec fn status_is_success(status: u16) -> bool {
    200 <= status && status < 300
}

/// The Namecheap spellings of a boolean, after trimming and ASCII
/// lowercasing: `true`, `yes`, `1`, `enabled` and `false`, `no`, `0`,
/// `disabled`.
pub open spec fn spec_parse_bool(value: Seq<char>) -> Option<bool> {
    let word = ascii_lowercase(trimmed(value));
    if word == "true"@ || word == "yes"@ || word == "1"@ || word == "enabled"@ {
        Some(true)
    } else if word == "false"@ || word == "no"@ || word == "0"@ || word == "disabled"@ {
        Some(false)
    } else {
        None
    }
}

/// Builds the decoding error for a body that is no `ApiResponse` document:
/// the call `serde::de::Error::custom(msg)` for `quick_xml::DeError`, whose
/// source makes it `DeError::Custom(msg.to_string())`. Nothing is stated of
/// the result, whose contents Verus cannot see.
#[verifier::external_body]
fn custom_decode_error(msg: &str) -> quick_xml::DeError {
    <quick_xml::DeError as serde::de::Error>::custom(msg)
}

impl Envelope {
    /// Whether the envelope reports success.
    pub fn is_ok(&self) -> (res: bool)
        ensures
            res == status_is_ok(self.status@),
    {
        eq_ignore_ascii_case(self.status.as_str(), "OK")
    }

    /// The API error that this envelope reports.
    pub fn into_api_error(self) -> (res: ApiError)
        ensures
            reported_entries(self.errors@, res.errors@),
    {
        let mut entries: Vec<ApiErrorEntry> = Vec::new();
        let raw = self.errors;
        let mut i: usize = 0;
        while i < raw.len()
            invariant
                i <= raw.len(),
                reported_entries(raw@.take(i as int), entries@),
            decreases raw.len() - i,
        {
            let number = raw[i].number.clone();
            let message = trim(raw[i].message.as_str()).to_owned();
            assert(number == raw@[i as int].number);
            assert(message@ == trimmed(raw@[i as int].message@));
            let ghost before = entries@;
            let entry = ApiErrorEntry { number, message };
            entries.push(entry);
            assert(entries@[i as int] == entry);
            proof {
                let taken = raw@.take(i + 1);
                assert forall|k: int| 0 <= k < taken.len() implies {
                    &&& #[trigger] entries@[k].number == taken[k].number
                    &&& entries@[k].message@ == trimmed(taken[k].message@)
                } by {
                    if k < i {
                        assert(entries@[k] == before[k]);
                        assert(taken[k] == raw@.take(i as int)[k]);
                    }
                }
            }
            i = i + 1;
        }
        assert(raw@.take(raw.len() as int) =~= raw@);
        ApiError { errors: entries }
    }
}

/// Whether `status` is a success status, as `StatusCode::is_success`.
pub fn is_success(status: u16) -> (res: bool)
    ensures
        res == status_is_success(status),
{
    200 <= status && status < 300
}

/// Parses the boolean spellings Namecheap uses in attribute values.
pub fn parse_bool(value: &str) -> (res: Option<bool>)
    ensures
        res == spec_parse_bool(value@),
{
    let word = trim(value);
    proof {
        reveal_strlit("true");
        reveal_strlit("yes");
        reveal_strlit("1");
        reveal_strlit("enabled");
        reveal_strlit("false");
        reveal_strlit("no");
        reveal_strlit("0");
        reveal_strlit("disabled");
        assert(ascii_lowercase("true"@) =~= "true"@);
        assert(ascii_lowercase("yes"@) =~= "yes"@);
        assert(ascii_lowercase("1"@) =~= "1"@);
        assert(ascii_lowercase("enabled"@) =~= "enabled"@);
        assert(ascii_lowercase("false"@) =~= "false"@);
        assert(ascii_lowercase("no"@) =~= "no"@);
        assert(ascii_lowercase("0"@) =~= "0"@);
        assert(ascii_lowercase("disabled"@) =~= "disabled"@);
    }
    if eq_ignore_ascii_case(word, "true") || eq_ignore_ascii_case(word, "yes")
        || eq_ignore_ascii_case(word, "1") || eq_ignore_ascii_case(word, "enabled") {
        Some(true)
    } else if eq_ignore_ascii_case(word, "false") || eq_ignore_ascii_case(word, "no")
        || eq_ignore_ascii_case(word, "0") || eq_ignore_ascii_case(word, "disabled") {
        Some(false)
    } else {
        None
    }
}

/// The trimmed text of an optional attribute value, or `None` when it is
/// absent or blank.
pub fn non_blank(raw: Option<&str>) -> (res: Option<&str>)
    ensures
        match raw {
            Some(r) => if trimmed(r@).len() > 0 {
                res matches Some(t) && t@ == trimmed(r@)
            } else {
                res is None
            },
            None => res is None,
        },
{
    match raw {
        Some(r) => {
            let t = trim(r);
            if t.is_empty() {
                None
            } else {
                Some(t)
            }
        },
        None => None,
    }
}

/// Reads an optional boolean attribute: absent or blank is `Ok(None)`, a
/// Namecheap spelling is `Ok(Some(..))`, anything else is `Err(())`.
pub fn parse_optional_bool(raw: Option<&str>) -> (res: Result<Option<bool>, ()>)
    ensures
        match raw {
            Some(r) => if trimmed(r@).len() > 0 {
                match spec_parse_bool(r@) {
                    Some(b) => res == Ok::<Option<bool>, ()>(Some(b)),
                    None => res is Err,
                }
            } else {
                res == Ok::<Option<bool>, ()>(None)
            },
            None => res == Ok::<Option<bool>, ()>(None),
        },
{
    match raw {
        Some(r) => {
            if trim(r).is_empty() {
                Ok(None)
            } else {
                match parse_bool(r) {
                    Some(b) => Ok(Some(b)),
                    None => Err(()),
                }
            }
        },
        None => Ok(None),
    }
}

/// Builds the error for a body that is not a recognizable Namecheap
/// envelope: a non-success status is `UnexpectedStatus` with the body kept,
/// otherwise the body failed to decode.
pub fn fallback<T>(status: u16, body: &str, decode_error: Option<quick_xml::DeError>) -> (res:
    Result<T, Error>)
    ensures
        !status_is_success(status) ==> (res matches Err(Error::UnexpectedStatus { status: s, body: b })
            && s == status && b@ == body@),
        status_is_success(status) ==> match decode_error {
            Some(e) => res matches Err(Error::Decode(d)) && d == e,
            None => res matches Err(Error::Decode(_)),
        },
{
    if !is_success(status) {
        return Err(Error::UnexpectedStatus { status, body: body.to_owned() });
    }
    match decode_error {
        Some(e) => Err(Error::Decode(e)),
        None => Err(
            Error::Decode(custom_decode_error("response was not a Namecheap ApiResponse document")),
        ),
    }
}

/// Decides what a response means from its HTTP status, its body and the
/// result of decoding the body as an envelope.
///
/// A body is an authoritative Namecheap response only when it decodes into
/// the envelope and carries a non-blank `Status`. Then `Ok(())` says that the
/// call succeeded and its payload is to be read, and any other status is the
/// API error of the envelope. Otherwise the response goes to [`fallback`], so
/// that an HTML error page sent with a 5xx status surfaces as
/// `UnexpectedStatus` rather than as an empty API error.
pub fn classify_envelope(status: u16, body: &str, envelope: Result<Envelope, quick_xml::DeError>) -> (res:
    Result<(), Error>)
    ensures
        match envelope {
            Ok(env) => if trimmed(env.status@).len() > 0 {
                if status_is_ok(env.status@) {
                    res is Ok
                } else {
                    res matches Err(Error::Api(api)) && reported_entries(env.errors@, api.errors@)
                }
            } else if !status_is_success(status) {
                res matches Err(Error::UnexpectedStatus { status: s, body: b }) && s == status && b@
                    == body@
            } else {
                res matches Err(Error::Decode(_))
            },
            Err(e) => if !status_is_success(status) {
                res matches Err(Error::UnexpectedStatus { status: s, body: b }) && s == status && b@
                    == body@
            } else {
                res matches Err(Error::Decode(d)) && d == e
            },
        },
{
    match envelope {
        Ok(env) => {
            if !trim(env.status.as_str()).is_empty() {
                if env.is_ok() {
                    Ok(())
                } else {
                    Err(Error::Api(env.into_api_error()))
                }
            } else {
                fallback(status, body, None)
            }
        },
        Err(e) => fallback(status, body, Some(e)),
    }
}

/// The command payload of a successful response, or `EmptyResponse` when
/// the response held no `<CommandResponse>`.
pub fn command_payload<T>(command_response: Option<T>) -> (res: Result<T, Error>)
    ensures
        match command_response {
            Some(t) => res == Ok::<T, Error>(t),
            None => res matches Err(Error::EmptyResponse),
        },
{
    match command_response {
        Some(t) => Ok(t),
        None => Err(Error::EmptyResponse),
    }
}

} // verus!
