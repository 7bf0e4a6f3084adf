//! Declarations of the outside crates' items that the library calls, with the
//! contracts it relies on.

use vstd::prelude::*;
use sha2::Digest;

verus! {

use vstd::utf8::valid_utf8;
use vstd::utf8::decode_utf8;

#[verifier::external_type_specification]
#[verifier::external_body]
pub struct ExUnresolvedVersionSpec(version_spec::UnresolvedVersionSpec);

#[verifier::external_type_specification]
#[verifier::external_body]
pub struct ExSpecError(version_spec::SpecError);

/// What `version_spec::UnresolvedVersionSpec::parse` returns on a given
/// string: `Some` with the parsed specification, or `None` where the string
/// does not parse. The outcome depends on the characters alone.
pub uninterp spec fn parse_of(s: Seq<char>) -> Option<version_spec::UnresolvedVersionSpec>;

/// The SHA-256 digest of a byte sequence, as the `sha2` crate computes it.
pub uninterp spec fn sha256_of(data: Seq<u8>) -> Seq<u8>;

/// Relies on `version_spec::UnresolvedVersionSpec::parse`: a deterministic
/// parser, so success and value are a function of the input characters.
#[verifier::external_body]
pub(crate) fn parse_version_spec(s: &str) -> (r: Result<
    version_spec::UnresolvedVersionSpec,
    version_spec::SpecError,
>)
    ensures
        match r {
            Ok(v) => parse_of(s@) == Some(v),
            Err(_) => parse_of(s@) is None,
        },
{
    version_spec::UnresolvedVersionSpec::parse(s)
}

/// Relies on the derived `Clone` of `version_spec::UnresolvedVersionSpec`,
/// which duplicates the value field by field.
pub assume_specification[ <version_spec::UnresolvedVersionSpec as Clone>::clone ](
    v: &version_spec::UnresolvedVersionSpec,
) -> (r: version_spec::UnresolvedVersionSpec)
    ensures
        r == *v,
;

/// Relies on `sha2::Sha256`: the digest depends on the input bytes alone and
/// is 32 bytes long.
#[verifier::external_body]
pub(crate) fn sha256_digest(data: &[u8]) -> (r: Vec<u8>)
    ensures
        r@ == sha256_of(data@),
        r@.len() == 32,
{
    sha2::Sha256::digest(data).to_vec()
}

/// Relies on `str::from_utf8`: it succeeds exactly on well-formed UTF-8
/// input, and then returns the decoded characters.
#[verifier::external_body]
pub(crate) fn utf8_to_string(bytes: &[u8]) -> (r: Option<String>)
    ensures
        match r {
            Some(s) => valid_utf8(bytes@) && s@ == decode_utf8(bytes@),
            None => !valid_utf8(bytes@),
        },
{
    core::str::from_utf8(bytes).ok().map(|s| s.to_owned())
}

/// Relies on `String::push`: it appends the one character.
#[verifier::external_body]
pub(crate) fn push_char(s: &mut String, c: char)
    ensures
        final(s)@ == old(s)@.push(c),
{
    s.push(c);
}

} // verus!
