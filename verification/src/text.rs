//! The two standard-library string operations the service layer relies on.

use vstd::prelude::*;
use vstd::string::StringSliceAdditionalSpecFns;
use vstd::utf8::valid_utf8;

verus! {

/// Calls `core::str::from_utf8`: the bytes as a string slice when they are
/// valid UTF-8, `None` otherwise; the slice holds exactly the given bytes.
#[verifier::external_body]
pub(crate) fn utf8_str(bytes: &[u8]) -> (r: Option<&str>)
    ensures
        r is Some <==> valid_utf8(bytes@),
        r matches Some(s) ==> s.spec_bytes() == bytes@,
{
    core::str::from_utf8(bytes).ok()
}

/// Calls `str::strip_prefix` with a string pattern: the rest of `s` after
/// `prefix` when `s` starts with `prefix` (byte for byte), `None` otherwise.
#[verifier::external_body]
pub(crate) fn str_strip_prefix<'a>(s: &'a str, prefix: &str) -> (r: Option<&'a str>)
    ensures
        r is Some <==> prefix.spec_bytes().is_prefix_of(s.spec_bytes()),
        r matches Some(rest) ==> rest.spec_bytes() == s.spec_bytes().subrange(
            prefix.spec_bytes().len() as int,
            s.spec_bytes().len() as int,
        ),
{
    s.strip_prefix(prefix)
}

} // verus!
