//! The per-checkout token.
//!
//! Container and socket names carry a stable twelve-character hex token
//! derived from the canonical root-directory path, so that concurrent
//! invocations from different checkouts on one host cannot collide.

use sha2::Digest;
use vstd::prelude::*;
use vstd::string::{StrSliceExecFns, StringExecFns};

verus! {

/// The lowercase hex digest of a character string: what feeding it to
/// `sha2::Sha512` and hex-encoding the digest returns, a function of the
/// input characters alone.
pub uninterp spec fn sha512_hex_of(s: Seq<char>) -> Seq<char>;

/// Relies on `sha2::Sha512` (a 64-byte digest) and `hex::encode` (two
/// lowercase hex digits per byte): the digest string has 128 characters
/// and depends on the hashed characters alone.
#[verifier::external_body]
fn sha512_hex(s: &str) -> (r: String)
    ensures
        r@ == sha512_hex_of(s@),
        r@.len() == 128,
{
    let mut d = sha2::Sha512::new();
    d.update(s.as_bytes());
    hex::encode(d.finalize())
}

/// The token for a root path: the first twelve digest characters.
pub open spec fn spec_token(root: Seq<char>) -> Seq<char> {
    sha512_hex_of(root).subrange(0, 12)
}

/// Computes the token that namespaces per-checkout identifiers.
pub fn token(root: &str) -> (r: String)
    ensures
        r@ == spec_token(root@),
{
    let digest = sha512_hex(root);
    let t = digest.as_str().substring_char(0, 12);
    String::from_str(t)
}

/// Appends the per-checkout token to a tag, separated by a hyphen.
pub fn append_token(tag: &str, root: &str) -> (r: String)
    ensures
        r@ == tag@ + "-"@ + spec_token(root@),
{
    let mut s = String::from_str(tag);
    s.append("-");
    let t = token(root);
    s.append(t.as_str());
    s
}

} // verus!
