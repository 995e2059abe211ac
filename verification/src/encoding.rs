//! Strings on their way to the engine: entry names and host paths as
//! null-terminated sequences.

use crate::error::StormError;
use vstd::prelude::*;
use vstd::string::StringSliceAdditionalSpecFns;
use vstd::utf8::valid_utf8;

verus! {

/// A path as the host platform hands it over, unchecked.
///
/// Which form a platform uses is settled where the program is built, once;
/// every operation that takes a path takes either form and decides itself
/// whether the path can be encoded.
#[derive(Debug, Clone, Copy)]
pub enum HostPath<'a> {
    /// The raw bytes of a path of a POSIX-like host.
    Narrow(&'a [u8]),
    /// The 16-bit units of a path of a host whose engine takes wide strings.
    Wide(&'a [u16]),
}

/// A path in the form the engine reads: null-terminated, with no terminator
/// before the end.
#[derive(Debug, PartialEq, Eq)]
pub enum EncodedPath {
    Narrow(Vec<u8>),
    Wide(Vec<u16>),
}

/// Whether a zero unit stands anywhere but at the very end.
pub open spec fn has_interior_nul(units: Seq<u16>) -> bool {
    exists|i: int| 0 <= i < units.len() - 1 && units[i] == 0
}

/// The units with a terminator at the end, added unless one stands there.
pub open spec fn terminated(units: Seq<u16>) -> Seq<u16> {
    if units.len() > 0 && units.last() == 0 {
        units
    } else {
        units.push(0)
    }
}

/// Whether `bytes` are well-formed UTF-8, as `std::str::from_utf8` judges it:
/// that function accepts a byte slice exactly when it is valid UTF-8.
#[verifier::external_body]
fn is_utf8(bytes: &[u8]) -> (valid: bool)
    ensures
        valid == valid_utf8(bytes@),
{
    std::str::from_utf8(bytes).is_ok()
}

/// The null-terminated form of wide `units`, from
/// `widestring::U16CString::from_vec` and `into_vec_with_nul`.
///
/// The crate scans the units: a zero anywhere but in the last place is
/// refused, a zero in the last place is taken for the terminator, and a
/// terminator is added where the units do not end in one.
#[verifier::external_body]
fn wide_c_string(units: &[u16]) -> (terminated_units: Option<Vec<u16>>)
    ensures
        terminated_units is None <==> has_interior_nul(units@),
        terminated_units matches Some(v) ==> v@ == terminated(units@),
{
    match widestring::U16CString::from_vec(units) {
        Ok(wide) => Some(wide.into_vec_with_nul()),
        Err(_) => None,
    }
}

/// The bytes followed by the terminator, or `None` where a zero byte stands
/// among them.
fn null_terminated(bytes: &[u8]) -> (r: Option<Vec<u8>>)
    ensures
        r is None <==> bytes@.contains(0u8),
        r matches Some(v) ==> v@ == bytes@.push(0u8),
{
    let mut out: Vec<u8> = Vec::with_capacity(bytes.len());
    let mut i: usize = 0;
    while i < bytes.len()
        invariant
            i <= bytes.len(),
            out@ == bytes@.subrange(0, i as int),
            forall|j: int| 0 <= j < i ==> bytes@[j] != 0,
        decreases bytes.len() - i,
    {
        let b: u8 = bytes[i];
        if b == 0 {
            return None;
        }
        out.push(b);
        i += 1;
        assert(out@ == bytes@.subrange(0, i as int));
    }
    assert(bytes@.subrange(0, i as int) == bytes@);
    out.push(0);
    Some(out)
}

/// Whether a text holds a zero byte, which no name may hold.
pub fn holds_nul(text: &str) -> (found: bool)
    ensures
        found == text.spec_bytes().contains(0u8),
{
    let bytes = text.as_bytes();
    let mut i: usize = 0;
    while i < bytes.len()
        invariant
            i <= bytes.len(),
            bytes@ == text.spec_bytes(),
            forall|j: int| 0 <= j < i ==> bytes@[j] != 0,
        decreases bytes.len() - i,
    {
        if bytes[i] == 0 {
            assert(bytes@[i as int] == 0u8);
            return true;
        }
        i += 1;
    }
    false
}

/// Encodes the name of an entry for the engine: its UTF-8 bytes followed by
/// the terminator. A name that holds a zero byte is refused with
/// `InteriorNul`.
pub fn encode_name(name: &str) -> (r: Result<Vec<u8>, StormError>)
    ensures
        match r {
            Ok(v) => !name.spec_bytes().contains(0u8) && v@ == name.spec_bytes().push(0u8),
            Err(e) => e == StormError::InteriorNul && name.spec_bytes().contains(0u8),
        },
{
    match null_terminated(name.as_bytes()) {
        Some(v) => Ok(v),
        None => Err(StormError::InteriorNul),
    }
}

/// What [`encode_path`] makes of a path: its units and the terminator, or
/// `PathEncoding` where the path cannot be written that way.
pub open spec fn encode_path_spec(path: HostPath<'_>) -> Result<EncodedPathView, StormError> {
    match path {
        HostPath::Narrow(bytes) => {
            if !valid_utf8(bytes@) || bytes@.contains(0u8) {
                Err(StormError::PathEncoding)
            } else {
                Ok(EncodedPathView::Narrow(bytes@.push(0u8)))
            }
        },
        HostPath::Wide(units) => {
            if has_interior_nul(units@) {
                Err(StormError::PathEncoding)
            } else {
                Ok(EncodedPathView::Wide(terminated(units@)))
            }
        },
    }
}

/// The units of an encoded path.
pub enum EncodedPathView {
    Narrow(Seq<u8>),
    Wide(Seq<u16>),
}

impl View for EncodedPath {
    type V = EncodedPathView;

    open spec fn view(&self) -> EncodedPathView {
        match self {
            EncodedPath::Narrow(bytes) => EncodedPathView::Narrow(bytes@),
            EncodedPath::Wide(units) => EncodedPathView::Wide(units@),
        }
    }
}

/// The view of an encoding result: the units in place of the vector.
pub open spec fn encoded_view(r: Result<EncodedPath, StormError>) -> Result<
    EncodedPathView,
    StormError,
> {
    match r {
        Ok(p) => Ok(p@),
        Err(e) => Err(e),
    }
}

/// Encodes a path for the engine.
///
/// A narrow path is encoded as its bytes and the terminator, a wide path as
/// its units and the terminator; a wide path that ends in a terminator keeps
/// that one. A path that cannot be encoded is refused with `PathEncoding`:
/// a narrow path that is not valid UTF-8, and a path of either form in which
/// a terminator stands before the end.
pub fn encode_path(path: HostPath<'_>) -> (r: Result<EncodedPath, StormError>)
    ensures
        encoded_view(r) == encode_path_spec(path),
{
    match path {
        HostPath::Narrow(bytes) => {
            if !is_utf8(bytes) {
                return Err(StormError::PathEncoding);
            }
            match null_terminated(bytes) {
                Some(v) => Ok(EncodedPath::Narrow(v)),
                None => Err(StormError::PathEncoding),
            }
        },
        HostPath::Wide(units) => {
            match wide_c_string(units) {
                Some(v) => Ok(EncodedPath::Wide(v)),
                None => Err(StormError::PathEncoding),
            }
        },
    }
}

} // verus!
