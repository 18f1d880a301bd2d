//! Validation and normalisation of header name/value pairs.
//!
//! Names and values are checked by the `http` crate; the grammar it applies is
//! stated here as predicates on bytes, and the list handling is proved against
//! them.

use vstd::prelude::*;
use crate::error::ValidationError;

verus! {

/// The error of `http::header::HeaderName::from_bytes`; it says nothing
/// beyond that the name was refused.
#[verifier::external_type_specification]
#[verifier::external_body]
pub struct ExInvalidHeaderName(http::header::InvalidHeaderName);

/// The error of `http::header::HeaderValue::from_bytes`; it says nothing
/// beyond that the value was refused.
#[verifier::external_type_specification]
#[verifier::external_body]
pub struct ExInvalidHeaderValue(http::header::InvalidHeaderValue);

/// The longest header name that is accepted, in bytes.
pub const MAX_HEADER_NAME_LEN: usize = 65535;

/// The bytes that may occur in a header name.
pub open spec fn is_name_byte(b: u8) -> bool {
    ||| 33 <= b <= 39
    ||| b == 42
    ||| b == 43
    ||| b == 45
    ||| b == 46
    ||| 48 <= b <= 57
    ||| 65 <= b <= 90
    ||| 94 <= b <= 122
    ||| b == 124
    ||| b == 126
}

/// An ASCII upper-case letter becomes its lower-case letter; any other byte stays.
pub open spec fn lower_byte(b: u8) -> u8 {
    if 65 <= b <= 90 {
        (b + 32) as u8
    } else {
        b
    }
}

/// The bytes that may occur in a header value: tab, and everything from the
/// space upwards except DEL.
pub open spec fn is_value_byte(b: u8) -> bool {
    b == 9 || (b >= 32 && b != 127)
}

/// A header name is valid when it is not empty, not longer than
/// `MAX_HEADER_NAME_LEN` and made of name bytes only.
pub open spec fn valid_header_name(name: Seq<u8>) -> bool {
    &&& 1 <= name.len() <= MAX_HEADER_NAME_LEN
    &&& forall|i: int| 0 <= i < name.len() ==> is_name_byte(#[trigger] name[i])
}

/// A header value is valid when it is made of value bytes only.
pub open spec fn valid_header_value(value: Seq<u8>) -> bool {
    forall|i: int| 0 <= i < value.len() ==> is_value_byte(#[trigger] value[i])
}

/// The form in which a name is kept: the same bytes, letters in lower case.
pub open spec fn normal_name(name: Seq<u8>) -> Seq<u8> {
    Seq::new(name.len(), |i: int| lower_byte(name[i]))
}

/// Whether a name holds no upper-case letter.
pub open spec fn is_lower_name(name: Seq<u8>) -> bool {
    forall|i: int| 0 <= i < name.len() ==> !(65 <= #[trigger] name[i] <= 90)
}

/// One header: a name and a value, as bytes.
#[derive(Debug, Clone, PartialEq, Eq)]
pub struct HeaderField {
    pub name: Vec<u8>,
    pub value: Vec<u8>,
}

impl View for HeaderField {
    type V = (Seq<u8>, Seq<u8>);

    open spec fn view(&self) -> (Seq<u8>, Seq<u8>) {
        (self.name@, self.value@)
    }
}

/// The name/value pairs that a list of headers holds, in order.
pub open spec fn pairs_of(headers: Seq<HeaderField>) -> Seq<(Seq<u8>, Seq<u8>)> {
    Seq::new(headers.len(), |i: int| headers[i]@)
}

/// Every name in the list is valid.
pub open spec fn all_names_valid(headers: Seq<HeaderField>) -> bool {
    forall|i: int| 0 <= i < headers.len() ==> valid_header_name(#[trigger] headers[i].name@)
}

/// Every value in the list is valid.
pub open spec fn all_values_valid(headers: Seq<HeaderField>) -> bool {
    forall|i: int| 0 <= i < headers.len() ==> valid_header_value(#[trigger] headers[i].value@)
}

/// What a valid list of headers becomes: each name in its normal form, each
/// value as it is, the order kept.
pub open spec fn normalized(headers: Seq<HeaderField>) -> Seq<(Seq<u8>, Seq<u8>)> {
    Seq::new(headers.len(), |i: int| (normal_name(headers[i].name@), headers[i].value@))
}

/// Calls `http::header::HeaderName::from_bytes` and hands out the bytes of the
/// name it built. The call succeeds exactly on valid header names; the name it
/// builds is the input with its letters in lower case.
#[verifier::external_body]
fn header_name_from_bytes(name: &[u8]) -> (r: Result<Vec<u8>, http::header::InvalidHeaderName>)
    ensures
        r.is_ok() == valid_header_name(name@),
        r matches Ok(bytes) ==> bytes@ == normal_name(name@),
{
    match http::header::HeaderName::from_bytes(name) {
        Ok(parsed) => Ok(parsed.as_str().as_bytes().to_vec()),
        Err(e) => Err(e),
    }
}

/// Calls `http::header::HeaderValue::from_bytes` and hands out the bytes of the
/// value it built. The call succeeds exactly on valid header values, and the
/// value holds the input unchanged.
#[verifier::external_body]
fn header_value_from_bytes(value: &[u8]) -> (r: Result<Vec<u8>, http::header::InvalidHeaderValue>)
    ensures
        r.is_ok() == valid_header_value(value@),
        r matches Ok(bytes) ==> bytes@ == value@,
{
    match http::header::HeaderValue::from_bytes(value) {
        Ok(parsed) => Ok(parsed.as_bytes().to_vec()),
        Err(e) => Err(e),
    }
}

/// Whether `e` is the error that a list of headers is refused with: the
/// first invalid name, or, where every name is valid, the first invalid value.
pub open spec fn header_fault(headers: Seq<HeaderField>, e: ValidationError) -> bool {
    match e {
        ValidationError::HeaderName(i) => {
            &&& i < headers.len()
            &&& !valid_header_name(headers[i as int].name@)
            &&& forall|j: int| 0 <= j < i ==> valid_header_name(#[trigger] headers[j].name@)
        },
        ValidationError::HeaderValue(i) => {
            &&& all_names_valid(headers)
            &&& i < headers.len()
            &&& !valid_header_value(headers[i as int].value@)
            &&& forall|j: int| 0 <= j < i ==> valid_header_value(#[trigger] headers[j].value@)
        },
        _ => false,
    }
}

/// Validates a list of headers and brings it into the form that goes on the
/// wire. All names are checked before any value, each in order; the first
/// offender decides the error.
pub fn normalize_headers(headers: &Vec<HeaderField>) -> (r: Result<
    Vec<HeaderField>,
    ValidationError,
>)
    ensures
        match r {
            Ok(out) => {
                &&& all_names_valid(headers@)
                &&& all_values_valid(headers@)
                &&& out.len() == headers.len()
                &&& pairs_of(out@) == normalized(headers@)
            },
            Err(e) => header_fault(headers@, e),
        },
{
    let n: usize = headers.len();
    let mut names: Vec<Vec<u8>> = Vec::new();
    let mut i: usize = 0;
    while i < n
        invariant
            n == headers.len(),
            i <= n,
            names.len() == i,
            forall|j: int| 0 <= j < i ==> valid_header_name(#[trigger] headers[j].name@),
            forall|j: int| 0 <= j < i ==> (#[trigger] names[j])@ == normal_name(headers[j].name@),
        decreases n - i,
    {
        match header_name_from_bytes(headers[i].name.as_slice()) {
            Ok(name) => {
                names.push(name);
            },
            Err(_) => {
                return Err(ValidationError::HeaderName(i));
            },
        }
        i += 1;
    }
    let mut out: Vec<HeaderField> = Vec::new();
    let mut k: usize = 0;
    while k < n
        invariant
            n == headers.len(),
            k <= n,
            names.len() == n,
            out.len() == k,
            all_names_valid(headers@),
            forall|j: int| 0 <= j < n ==> (#[trigger] names[j])@ == normal_name(headers[j].name@),
            forall|j: int| 0 <= j < k ==> valid_header_value(#[trigger] headers[j].value@),
            forall|j: int|
                0 <= j < k ==> (#[trigger] out[j])@ == (
                    normal_name(headers[j].name@),
                    headers[j].value@,
                ),
        decreases n - k,
    {
        match header_value_from_bytes(headers[k].value.as_slice()) {
            Ok(value) => {
                let name = names[k].clone();
                assert(name@ =~= names[k as int]@);
                out.push(HeaderField { name, value });
            },
            Err(_) => {
                return Err(ValidationError::HeaderValue(k));
            },
        }
        k += 1;
    }
    assert(pairs_of(out@) =~= normalized(headers@));
    Ok(out)
}

/// The position of the first header in the list whose name is `name`, where
/// there is one.
pub open spec fn is_first_named(headers: Seq<HeaderField>, name: Seq<u8>, i: int) -> bool {
    &&& 0 <= i < headers.len()
    &&& headers[i].name@ == name
    &&& forall|j: int| 0 <= j < i ==> (#[trigger] headers[j]).name@ != name
}

/// No header in the list has the name `name`.
pub open spec fn none_named(headers: Seq<HeaderField>, name: Seq<u8>) -> bool {
    forall|j: int| 0 <= j < headers.len() ==> (#[trigger] headers[j]).name@ != name
}

/// The lower-case form of a byte.
pub fn to_lower(b: u8) -> (r: u8)
    ensures
        r == lower_byte(b),
{
    if 65 <= b && b <= 90 {
        b + 32
    } else {
        b
    }
}

/// Whether `stored` is `name` with its letters in lower case.
fn is_normal_form_of(stored: &Vec<u8>, name: &[u8]) -> (r: bool)
    ensures
        r == (stored@ == normal_name(name@)),
{
    if stored.len() != name.len() {
        return false;
    }
    let mut i: usize = 0;
    while i < name.len()
        invariant
            i <= name.len(),
            stored.len() == name.len(),
            forall|j: int| 0 <= j < i ==> stored[j] == lower_byte(#[trigger] name@[j]),
        decreases name.len() - i,
    {
        if stored[i] != to_lower(name[i]) {
            assert(normal_name(name@)[i as int] != stored@[i as int]);
            return false;
        }
        i += 1;
    }
    assert(stored@ =~= normal_name(name@));
    true
}

/// Looks a header up by name, without regard to the case of the letters in
/// `name`: the value of the first header whose name is the normal form of
/// `name`.
pub fn get_header<'a>(headers: &'a Vec<HeaderField>, name: &[u8]) -> (r: Option<&'a Vec<u8>>)
    ensures
        match r {
            Some(value) => exists|i: int|
                is_first_named(headers@, normal_name(name@), i) && headers[i].value == *value,
            None => none_named(headers@, normal_name(name@)),
        },
{
    let mut i: usize = 0;
    while i < headers.len()
        invariant
            i <= headers.len(),
            forall|j: int| 0 <= j < i ==> (#[trigger] headers[j]).name@ != normal_name(name@),
        decreases headers.len() - i,
    {
        if is_normal_form_of(&headers[i].name, name) {
            assert(is_first_named(headers@, normal_name(name@), i as int));
            return Some(&headers[i].value);
        }
        i += 1;
    }
    None
}

/// A header with a valid name that holds no upper-case letter, and a valid
/// value, comes out of normalisation byte for byte as it went in.
pub proof fn lemma_header_round_trip(headers: Seq<HeaderField>, i: int)
    requires
        all_names_valid(headers),
        all_values_valid(headers),
        0 <= i < headers.len(),
        is_lower_name(headers[i].name@),
    ensures
        normalized(headers)[i] == headers[i]@,
{
    assert(normal_name(headers[i].name@) =~= headers[i].name@);
}

/// Normalisation keeps the number and the order of the headers, changes no
/// value, and changes a name at most in the case of its letters.
pub proof fn lemma_normalized_keeps_headers(headers: Seq<HeaderField>, i: int)
    requires
        0 <= i < headers.len(),
    ensures
        normalized(headers).len() == headers.len(),
        normalized(headers)[i].1 == headers[i].value@,
        normalized(headers)[i].0.len() == headers[i].name@.len(),
        forall|k: int|
            0 <= k < headers[i].name@.len() ==> #[trigger] normalized(headers)[i].0[k]
                == lower_byte(headers[i].name@[k]),
        normal_name(normalized(headers)[i].0) == normalized(headers)[i].0,
{
    let name = normalized(headers)[i].0;
    assert(normal_name(name) =~= name);
}

} // verus!
