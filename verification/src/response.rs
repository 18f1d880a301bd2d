//! The start of a response: status and headers, published at most once per
//! request through a single-assignment cell.

use vstd::prelude::*;
use vstd::string::*;
use crate::error::{RequestError, ValidationError};
use crate::header::{
    all_names_valid,
    all_values_valid,
    header_fault,
    normalize_headers,
    normalized,
    pairs_of,
    HeaderField,
};
use crate::status::{parse_status_line, reason_of, status_code_of};

verus! {

/// Status and headers of a response. Once published it does not change.
#[derive(Debug, Clone, PartialEq, Eq)]
pub struct ResponsePrelude {
    pub status_code: u16,
    pub reason: Vec<u8>,
    pub headers: Vec<HeaderField>,
}

/// A response prelude as mathematical data.
pub struct PreludeView {
    pub status_code: u16,
    pub reason: Seq<u8>,
    pub headers: Seq<(Seq<u8>, Seq<u8>)>,
}

impl View for ResponsePrelude {
    type V = PreludeView;

    open spec fn view(&self) -> PreludeView {
        PreludeView {
            status_code: self.status_code,
            reason: self.reason@,
            headers: pairs_of(self.headers@),
        }
    }
}

/// The prelude that a valid status line and a valid list of headers give.
pub open spec fn prelude_of(status: Seq<u8>, headers: Seq<HeaderField>) -> PreludeView {
    PreludeView {
        status_code: status_code_of(status).unwrap(),
        reason: reason_of(status),
        headers: normalized(headers),
    }
}

/// Whether a call with these arguments can start a response.
pub open spec fn call_accepted(status: Seq<u8>, headers: Seq<HeaderField>, exc_info: bool) -> bool {
    &&& !exc_info
    &&& status_code_of(status).is_some()
    &&& all_names_valid(headers)
    &&& all_values_valid(headers)
}

/// Whether `e` is the error that a call with these arguments is refused
/// with. Exception information is refused first, then the status line, then
/// the headers.
pub open spec fn call_fault(
    status: Seq<u8>,
    headers: Seq<HeaderField>,
    exc_info: bool,
    e: ValidationError,
) -> bool {
    if exc_info {
        e == ValidationError::ExceptionInfo
    } else if status_code_of(status).is_none() {
        e == ValidationError::StatusLine
    } else {
        header_fault(headers, e)
    }
}

/// What a response start holds.
pub enum StartView {
    /// No call has been accepted or refused yet.
    Unset,
    /// The prelude of the call that was accepted.
    Started(PreludeView),
    /// The error of the call that was refused.
    Refused(ValidationError),
}

/// What a call does to a response start, and what it returns.
///
/// Where a prelude has been published, nothing changes and the call
/// succeeds, whatever its arguments. Where a call has been refused before,
/// nothing changes and the call is refused with the same error. Else the
/// arguments decide: accepted, they are published; refused, their error is
/// kept.
pub open spec fn call_outcome(
    before: StartView,
    status: Seq<u8>,
    headers: Seq<HeaderField>,
    exc_info: bool,
    result: Result<(), ValidationError>,
    after: StartView,
) -> bool {
    match before {
        StartView::Started(_) => result.is_ok() && after == before,
        StartView::Refused(e) => result == Err::<(), ValidationError>(e) && after == before,
        StartView::Unset => match result {
            Ok(_) => {
                &&& call_accepted(status, headers, exc_info)
                &&& after == StartView::Started(prelude_of(status, headers))
            },
            Err(e) => {
                &&& call_fault(status, headers, exc_info, e)
                &&& after == StartView::Refused(e)
            },
        },
    }
}

/// How an invocation ends, from what its response start holds when the
/// application has returned, and whether it raised. A refused call fails the
/// request even where the application went on; a response that was never
/// started fails it too.
pub open spec fn conclusion(start: StartView, raised: bool) -> Result<PreludeView, RequestError> {
    match start {
        StartView::Refused(e) => Err(RequestError::Validation(e)),
        StartView::Started(prelude) => if raised {
            Err(RequestError::Application)
        } else {
            Ok(prelude)
        },
        StartView::Unset => if raised {
            Err(RequestError::Application)
        } else {
            Err(RequestError::ProtocolContract)
        },
    }
}

/// The capability through which the application starts the response: a
/// single-assignment cell for the prelude, and beside it the error of a
/// refused call.
#[derive(Debug, Clone)]
pub struct StartResponse {
    response_prelude: Option<ResponsePrelude>,
    fault: Option<ValidationError>,
}

impl View for StartResponse {
    type V = StartView;

    closed spec fn view(&self) -> StartView {
        match self.response_prelude {
            Some(prelude) => StartView::Started(prelude@),
            None => match self.fault {
                Some(e) => StartView::Refused(e),
                None => StartView::Unset,
            },
        }
    }
}

impl StartResponse {
    /// A capability through which nothing has been published yet.
    pub fn new() -> (r: StartResponse)
        ensures
            r@ == StartView::Unset,
    {
        StartResponse { response_prelude: None, fault: None }
    }

    /// Whether a prelude has been published.
    pub fn has_already_been_set_or_cannot_borrow(&self) -> (r: bool)
        ensures
            r == (self@ is Started),
    {
        self.response_prelude.is_some()
    }

    /// Publishes a prelude where none has been published and no call has been
    /// refused; else nothing changes and the prelude given is discarded.
    /// Returns whether this call published.
    pub fn publish(&mut self, prelude: ResponsePrelude) -> (r: bool)
        ensures
            r == (old(self)@ is Unset),
            final(self)@ == if old(self)@ is Unset {
                StartView::Started(prelude@)
            } else {
                old(self)@
            },
    {
        if self.response_prelude.is_some() || self.fault.is_some() {
            false
        } else {
            self.response_prelude = Some(prelude);
            true
        }
    }

    /// The call by which the application starts the response, with a status
    /// line, a list of headers, and whether it passed exception information.
    pub fn __call__(
        &mut self,
        status: &[u8],
        response_headers: &Vec<HeaderField>,
        exc_info: bool,
    ) -> (r: Result<(), ValidationError>)
        ensures
            call_outcome(old(self)@, status@, response_headers@, exc_info, r, final(self)@),
    {
        if self.has_already_been_set_or_cannot_borrow() {
            return Ok(());
        }
        if let Some(e) = self.fault {
            return Err(e);
        }
        match validate_call(status, response_headers, exc_info) {
            Ok(prelude) => {
                self.response_prelude = Some(prelude);
                Ok(())
            },
            Err(e) => {
                self.fault = Some(e);
                Err(e)
            },
        }
    }

    /// Ends the invocation: hands out the prelude where the application
    /// returned with the response started, and the failure of the request
    /// where it did not.
    pub fn conclude(self, raised: bool) -> (r: Result<ResponsePrelude, RequestError>)
        ensures
            match r {
                Ok(prelude) => conclusion(self@, raised) == Ok::<PreludeView, RequestError>(
                    prelude@,
                ),
                Err(e) => conclusion(self@, raised) == Err::<PreludeView, RequestError>(e),
            },
    {
        if let Some(e) = self.fault {
            if self.response_prelude.is_none() {
                return Err(RequestError::Validation(e));
            }
        }
        match self.response_prelude {
            Some(prelude) => if raised {
                Err(RequestError::Application)
            } else {
                Ok(prelude)
            },
            None => if raised {
                Err(RequestError::Application)
            } else {
                Err(RequestError::ProtocolContract)
            },
        }
    }
}

/// Validates the arguments of a call and builds the prelude they give.
pub fn validate_call(status: &[u8], response_headers: &Vec<HeaderField>, exc_info: bool) -> (r:
    Result<ResponsePrelude, ValidationError>)
    ensures
        match r {
            Ok(prelude) => {
                &&& call_accepted(status@, response_headers@, exc_info)
                &&& prelude@ == prelude_of(status@, response_headers@)
            },
            Err(e) => call_fault(status@, response_headers@, exc_info, e),
        },
{
    if exc_info {
        return Err(ValidationError::ExceptionInfo);
    }
    let status_line = match parse_status_line(status) {
        Ok(status_line) => status_line,
        Err(e) => {
            return Err(e);
        },
    };
    let headers = match normalize_headers(response_headers) {
        Ok(headers) => headers,
        Err(e) => {
            return Err(e);
        },
    };
    Ok(ResponsePrelude { status_code: status_line.code, reason: status_line.reason, headers })
}

/// The status code of the response that stands in for a failed request:
/// 503 where the queue had stopped taking requests, else 500.
pub open spec fn failure_status(error: RequestError) -> u16 {
    match error {
        RequestError::QueueClosed => 503,
        _ => 500,
    }
}

/// The reason phrase that goes with the status code of a failure.
pub open spec fn failure_reason(error: RequestError) -> Seq<u8> {
    match error {
        RequestError::QueueClosed => "Service Unavailable".spec_bytes(),
        _ => "Internal Server Error".spec_bytes(),
    }
}

/// The prelude of the response that is generated for a request that failed
/// before its own prelude was published. It says nothing of the cause and
/// has no headers.
pub fn failure_prelude(error: RequestError) -> (r: ResponsePrelude)
    ensures
        r@ == (PreludeView {
            status_code: failure_status(error),
            reason: failure_reason(error),
            headers: Seq::empty(),
        }),
{
    let (status_code, reason): (u16, &str) = match error {
        RequestError::QueueClosed => (503, "Service Unavailable"),
        _ => (500, "Internal Server Error"),
    };
    let r = ResponsePrelude { status_code, reason: reason.as_bytes_vec(), headers: Vec::new() };
    assert(pairs_of(r.headers@) =~= Seq::empty());
    r
}

/// A call whose arguments are accepted is never refused, and a call that is
/// refused has arguments that are not accepted: no error fits valid input.
pub proof fn lemma_accepted_has_no_fault(
    status: Seq<u8>,
    headers: Seq<HeaderField>,
    exc_info: bool,
    e: ValidationError,
)
    requires
        call_accepted(status, headers, exc_info),
    ensures
        !call_fault(status, headers, exc_info, e),
{
}

/// Every header of an accepted call stands in the prelude at its place, with
/// its value unchanged and its name changed at most in the case of its
/// letters; a header whose name holds no upper-case letter stands there
/// byte for byte.
pub proof fn lemma_published_headers(status: Seq<u8>, headers: Seq<HeaderField>, i: int)
    requires
        call_accepted(status, headers, false),
        0 <= i < headers.len(),
    ensures
        prelude_of(status, headers).headers.len() == headers.len(),
        prelude_of(status, headers).headers[i].1 == headers[i].value@,
        prelude_of(status, headers).headers[i].0 == crate::header::normal_name(headers[i].name@),
        crate::header::is_lower_name(headers[i].name@) ==> prelude_of(status, headers).headers[i]
            == headers[i]@,
{
    if crate::header::is_lower_name(headers[i].name@) {
        crate::header::lemma_header_round_trip(headers, i);
    }
}

/// A prelude is assigned once. After a call has been accepted, every
/// further call succeeds without effect, whatever its arguments: the
/// prelude that was published stays as it is.
pub proof fn lemma_prelude_is_assigned_once(
    published: PreludeView,
    status: Seq<u8>,
    headers: Seq<HeaderField>,
    exc_info: bool,
    result: Result<(), ValidationError>,
    after: StartView,
)
    requires
        call_outcome(StartView::Started(published), status, headers, exc_info, result, after),
    ensures
        result.is_ok(),
        after == StartView::Started(published),
{
}

/// A status line without a leading number fails the request. The first
/// call with such a line is refused as a status line error, nothing is
/// published, and the invocation ends in that error whether or not the
/// application raises.
pub proof fn lemma_status_without_number_fails(
    status: Seq<u8>,
    headers: Seq<HeaderField>,
    result: Result<(), ValidationError>,
    after: StartView,
    raised: bool,
)
    requires
        !crate::status::is_number(crate::status::leading_token(status)),
        call_outcome(StartView::Unset, status, headers, false, result, after),
    ensures
        result == Err::<(), ValidationError>(ValidationError::StatusLine),
        after == StartView::Refused(ValidationError::StatusLine),
        conclusion(after, raised) == Err::<PreludeView, RequestError>(
            RequestError::Validation(ValidationError::StatusLine),
        ),
{
}

/// A header name that holds a control character fails the request. The
/// first call with such a name, after a valid status line, is refused with
/// the position of the first invalid name, nothing is published, and the
/// invocation ends in that error whether or not the application raises.
pub proof fn lemma_control_character_fails(
    status: Seq<u8>,
    headers: Seq<HeaderField>,
    i: int,
    k: int,
    result: Result<(), ValidationError>,
    after: StartView,
    raised: bool,
)
    requires
        0 <= i < headers.len(),
        0 <= k < headers[i].name@.len(),
        headers[i].name@[k] < 32 || headers[i].name@[k] == 127,
        status_code_of(status).is_some(),
        call_outcome(StartView::Unset, status, headers, false, result, after),
    ensures
        result matches Err(ValidationError::HeaderName(first)) && first <= i,
        after == StartView::Refused(result.unwrap_err()),
        conclusion(after, raised) == Err::<PreludeView, RequestError>(
            RequestError::Validation(result.unwrap_err()),
        ),
{
    assert(!crate::header::is_name_byte(headers[i].name@[k]));
    assert(!crate::header::valid_header_name(headers[i].name@));
    assert(!all_names_valid(headers));
}

} // verus!
