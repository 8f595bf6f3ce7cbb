//! Error types returned by this crate.
use vstd::prelude::*;

verus! {

/// The XML decoding error, carried through unchanged.
#[verifier::external_type_specification]
#[verifier::external_body]
pub struct ExDecodeError(quick_xml::DeError);

/// A convenient alias for results returned by this crate.
pub type Result<T> = std::result::Result<T, Error>;

/// An error that the request and response logic of this crate reports.
///
/// Errors that Namecheap reports inside the XML body are `Api`, kept apart
/// from failures to decode the body and from unexpected HTTP statuses.
/// Transport failures of the HTTP client arise only where requests are sent.
#[derive(Debug)]
pub enum Error {
    /// Namecheap answered with one or more errors in its `<Errors>` block.
    Api(ApiError),
    /// The response body could not be decoded as the expected XML.
    Decode(quick_xml::DeError),
    /// A non-success HTTP status whose body was no Namecheap document.
    UnexpectedStatus {
        /// The HTTP status code.
        status: u16,
        /// The raw response body.
        body: String,
    },
    /// Namecheap reported success but sent no command result.
    EmptyResponse,
    /// The client was misconfigured, for example a credential was missing.
    Configuration(String),
}

/// One or more errors that Namecheap returned inside an XML response.
#[derive(Debug, Clone)]
pub struct ApiError {
    /// The individual errors, in the order they were returned.
    pub errors: Vec<ApiErrorEntry>,
}

/// A single error reported by Namecheap.
#[derive(Debug, Clone)]
pub struct ApiErrorEntry {
    /// The Namecheap error number, for example `"2019166"`.
    pub number: String,
    /// The human-readable message.
    pub message: String,
}

/// Whether some entry carries the error number `code`.
pub open spec fn has_code_spec(errors: Seq<ApiErrorEntry>, code: Seq<char>) -> bool {
    exists|i: int| 0 <= i < errors.len() && #[trigger] errors[i].number@ == code
}

/// The text of an API error: a fixed lead followed by every entry as
/// `[number] message`, the first after `": "` and the others after `"; "`.
pub open spec fn api_error_text(errors: Seq<ApiErrorEntry>) -> Seq<char>
    decreases errors.len(),
{
    if errors.len() == 0 {
        "Namecheap API error"@
    } else {
        let last = errors.last();
        let separator = if errors.len() == 1 {
            ": "@
        } else {
            "; "@
        };
        api_error_text(errors.drop_last()) + separator + "["@ + last.number@ + "] "@
            + last.message@
    }
}

impl ApiError {
    /// Returns `true` if any returned error carries the given numeric code.
    ///
    /// Codes are compared as strings, as Namecheap documents them.
    pub fn has_code(&self, code: &str) -> (res: bool)
        ensures
            res == has_code_spec(self.errors@, code@),
    {
        let wanted = String::from_str(code);
        let mut i: usize = 0;
        while i < self.errors.len()
            invariant
                i <= self.errors.len(),
                wanted@ == code@,
                forall|k: int| 0 <= k < i ==> self.errors@[k].number@ != code@,
            decreases self.errors.len() - i,
        {
            if self.errors[i].number == wanted {
                assert(self.errors@[i as int].number@ == code@);
                return true;
            }
            i = i + 1;
        }
        false
    }

    /// Returns the first reported error, if any.
    pub fn first(&self) -> (res: Option<&ApiErrorEntry>)
        ensures
            self.errors@.len() == 0 ==> res is None,
            self.errors@.len() > 0 ==> res == Some(&self.errors@[0]),
    {
        if self.errors.len() > 0 {
            Some(&self.errors[0])
        } else {
            None
        }
    }

    /// The human-readable text of this error, for example
    /// `Namecheap API error: [2019166] Domain not found`.
    pub fn to_string(&self) -> (res: String)
        ensures
            res@ == api_error_text(self.errors@),
    {
        let mut res = String::from_str("Namecheap API error");
        let mut i: usize = 0;
        while i < self.errors.len()
            invariant
                i <= self.errors.len(),
                res@ == api_error_text(self.errors@.take(i as int)),
            decreases self.errors.len() - i,
        {
            let ghost prev = self.errors@.take(i as int);
            let ghost next = self.errors@.take(i + 1);
            assert(next.drop_last() =~= prev);
            let entry = &self.errors[i];
            if i == 0 {
                res.append(": ");
            } else {
                res.append("; ");
            }
            res.append("[");
            res.append(entry.number.as_str());
            res.append("] ");
            res.append(entry.message.as_str());
            assert(res@ =~= api_error_text(next));
            i = i + 1;
        }
        assert(self.errors@.take(self.errors.len() as int) =~= self.errors@);
        res
    }
}

} // verus!
