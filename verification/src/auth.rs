//! Authentication: the login form's validation and the request it
//! produces.  The password never leaves in cleartext — it is
//! length-framed, hashed to a fixed-width digest, and only the digest
//! is sent.  Overlong names are rejected locally, before anything is
//! transmitted.

use vstd::prelude::*;
use vstd::string::StringSliceAdditionalSpecFns;
use sha3::Digest;

verus! {

/// Longest accepted name, in encoded bytes.
pub const NAME_MAX: usize = 32;

/// What the login form can reject locally.
#[derive(Clone, Copy, Debug, PartialEq, Eq, Structural)]
pub enum AuthError {
    /// The name or the password was empty; nothing is sent.
    EmptyField,
    /// The name exceeds [`NAME_MAX`] bytes; shown to the user.
    NameTooLong,
}

/// A ready-to-send authentication request: create-or-login flag, the
/// name, and the password digest.
#[derive(Debug)]
pub struct AuthRequest {
    pub create_new: bool,
    pub name: String,
    pub pass_hash: Vec<u8>,
}

/// The length-framed encoding of a password before hashing: its byte
/// length as eight little-endian bytes, then its UTF-8 bytes.
pub open spec fn framed_bytes(b: Seq<u8>) -> Seq<u8> {
    le_bytes_spec(b.len() as u64) + b
}

/// A 64-bit length as eight little-endian bytes.
pub open spec fn le_bytes_spec(n: u64) -> Seq<u8> {
    seq![
        (n & 0xff) as u8,
        ((n >> 8) & 0xff) as u8,
        ((n >> 16) & 0xff) as u8,
        ((n >> 24) & 0xff) as u8,
        ((n >> 32) & 0xff) as u8,
        ((n >> 40) & 0xff) as u8,
        ((n >> 48) & 0xff) as u8,
        ((n >> 56) & 0xff) as u8,
    ]
}

/// The SHA3-256 digest of a byte string; the digest's value is pinned
/// only by the outside implementation, never restated here.
pub uninterp spec fn sha3_256_of(b: Seq<u8>) -> Seq<u8>;

/// Relies on sha3's `Sha3_256`: a one-shot digest of the input, 32
/// bytes wide, a function of the input bytes alone.
#[verifier::external_body]
pub fn hash(thing: &[u8]) -> (r: Vec<u8>)
    ensures
        r@ == sha3_256_of(thing@),
        r@.len() == 32,
{
    sha3::Sha3_256::digest(thing).to_vec()
}

/// Frame a password for hashing: eight little-endian byte-length
/// bytes, then its UTF-8 bytes.
pub fn encode_str(s: &str) -> (r: Vec<u8>)
    ensures
        r@ == framed_bytes(s.spec_bytes()),
{
    let bytes = s.as_bytes();
    let n = bytes.len();
    let len64 = n as u64;
    let mut r: Vec<u8> = Vec::new();
    r.push((len64 & 0xff) as u8);
    r.push(((len64 >> 8) & 0xff) as u8);
    r.push(((len64 >> 16) & 0xff) as u8);
    r.push(((len64 >> 24) & 0xff) as u8);
    r.push(((len64 >> 32) & 0xff) as u8);
    r.push(((len64 >> 40) & 0xff) as u8);
    r.push(((len64 >> 48) & 0xff) as u8);
    r.push(((len64 >> 56) & 0xff) as u8);
    proof {
        assert(r@ =~= le_bytes_spec(s.spec_bytes().len() as u64));
    }
    let mut i: usize = 0;
    while i < n
        invariant
            n == bytes@.len(),
            bytes@ == s.spec_bytes(),
            i <= n,
            r@ == le_bytes_spec(s.spec_bytes().len() as u64) + bytes@.take(i as int),
        decreases n - i,
    {
        r.push(bytes[i]);
        proof {
            assert(r@ =~= le_bytes_spec(s.spec_bytes().len() as u64) + bytes@.take(i + 1));
        }
        i += 1;
    }
    proof {
        assert(bytes@.take(n as int) =~= bytes@);
    }
    r
}

/// Validate the login form and build the request: empty fields send
/// nothing, a name over the encoded byte cap is rejected before
/// transmission, and an accepted password leaves only as its framed
/// digest.
pub fn login_request(name: &str, pswd: &str, create_new: bool) -> (r: Result<AuthRequest, AuthError>)
    ensures
        (name.spec_bytes().len() == 0 || pswd.spec_bytes().len() == 0) <==> r == Err::<
            AuthRequest,
            AuthError,
        >(AuthError::EmptyField),
        (name.spec_bytes().len() > 0 && pswd.spec_bytes().len() > 0 && name.spec_bytes().len()
            > NAME_MAX) <==> r == Err::<AuthRequest, AuthError>(AuthError::NameTooLong),
        r matches Ok(q) ==> {
            &&& 0 < name.spec_bytes().len() <= NAME_MAX
            &&& q.create_new == create_new
            &&& q.name@ == name@
            &&& q.pass_hash@ == sha3_256_of(framed_bytes(pswd.spec_bytes()))
            &&& q.pass_hash@.len() == 32
        },
        (0 < name.spec_bytes().len() <= NAME_MAX && pswd.spec_bytes().len() > 0) ==> r is Ok,
{
    let nl = name.as_bytes().len();
    let pl = pswd.as_bytes().len();
    if nl == 0 || pl == 0 {
        return Err(AuthError::EmptyField);
    }
    if nl > NAME_MAX {
        return Err(AuthError::NameTooLong);
    }
    let framed = encode_str(pswd);
    let digest = hash(framed.as_slice());
    Ok(AuthRequest { create_new, name: String::from_str(name), pass_hash: digest })
}

} // verus!
