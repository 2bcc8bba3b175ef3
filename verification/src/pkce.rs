//! PKCE material: the per-attempt state token, the code verifier, and the
//! challenge derived from the verifier by SHA-256 and unpadded base64url.

use vstd::prelude::*;

use rand::Rng;
use sha2::Digest;

verus! {

/// The alphabet both random tokens draw from: the 62 ASCII alphanumerics.
pub const CHARSET: [char; 62] = [
    'A', 'B', 'C', 'D', 'E', 'F', 'G', 'H', 'I', 'J', 'K', 'L', 'M', 'N', 'O', 'P', 'Q', 'R', 'S',
    'T', 'U', 'V', 'W', 'X', 'Y', 'Z', 'a', 'b', 'c', 'd', 'e', 'f', 'g', 'h', 'i', 'j', 'k', 'l',
    'm', 'n', 'o', 'p', 'q', 'r', 's', 't', 'u', 'v', 'w', 'x', 'y', 'z', '0', '1', '2', '3', '4',
    '5', '6', '7', '8', '9',
];

/// Length of the `state` token echoed back by the provider's callback.
pub const STATE_LEN: usize = 10;

/// Length of the code verifier; long enough that it cannot be guessed
/// within the lifetime of one flow.
pub const VERIFIER_LEN: usize = 124;

/// The SHA-256 digest of the UTF-8 encoding of a character sequence.
/// Named, not written out: the digest is a fixed function of the input
/// characters alone, computed by an outside implementation.
pub uninterp spec fn sha256_utf8(s: Seq<char>) -> Seq<u8>;

/// The base64url encoding, without padding, of a byte sequence.
/// Named, not written out: the encoding is a fixed function of the input
/// bytes alone, computed by an outside implementation.
pub uninterp spec fn base64url_nopad(bytes: Seq<u8>) -> Seq<char>;

/// Relies on rand's `Rng::gen_range` on `0..bound`: a sampled integer below
/// `bound`. `gen_range` panics on an empty range, which the precondition
/// rules out; nothing more is assumed of a random draw.
#[verifier::external_body]
fn random_below(bound: usize) -> (r: usize)
    requires
        bound > 0,
    ensures
        r < bound,
{
    rand::thread_rng().gen_range(0..bound)
}

/// Relies on std's `String::push`: appends the character to the end of the
/// string.
#[verifier::external_body]
fn push_char(s: &mut String, c: char)
    ensures
        final(s)@ == old(s)@.push(c),
{
    s.push(c);
}

/// Relies on sha2's `Sha256`: the digest of the string's UTF-8 bytes,
/// a function of the characters alone; a SHA-256 digest is 32 bytes.
#[verifier::external_body]
fn sha256_of_str(s: &str) -> (r: Vec<u8>)
    ensures
        r@ == sha256_utf8(s@),
        r@.len() == 32,
{
    sha2::Sha256::digest(s.as_bytes()).to_vec()
}

/// Relies on base64's `encode_config` with `URL_SAFE_NO_PAD`: the unpadded
/// base64url encoding of the bytes, a function of the bytes alone. Without
/// padding the output has four characters per three input bytes, plus two or
/// three for a final partial group, which the length clause states in one
/// formula; the precondition keeps that length within `usize`, the one case
/// in which `encode_config` panics.
#[verifier::external_body]
fn base64url_encode(b: &[u8]) -> (r: String)
    requires
        b@.len() * 4 + 2 <= usize::MAX,
    ensures
        r@ == base64url_nopad(b@),
        r@.len() == (b@.len() * 4 + 2) / 3,
{
    base64::encode_config(b, base64::URL_SAFE_NO_PAD)
}

/// The challenge the authorization URL carries: the verifier's SHA-256
/// digest, base64url-encoded without padding.
pub open spec fn spec_challenge(code_verifier: Seq<char>) -> Seq<char> {
    base64url_nopad(sha256_utf8(code_verifier))
}

/// Derives the challenge from a verifier. A 32-byte digest always encodes
/// to 43 characters.
pub fn challenge_of_verifier(code_verifier: &str) -> (r: String)
    ensures
        r@ == spec_challenge(code_verifier@),
        r@.len() == 43,
{
    let digest = sha256_of_str(code_verifier);
    base64url_encode(digest.as_slice())
}

/// A string of `len` characters drawn from [`CHARSET`].
pub fn random_charset_string(len: usize) -> (r: String)
    ensures
        r@.len() == len,
        forall|i: int| 0 <= i < r@.len() ==> CHARSET@.contains(#[trigger] r@[i]),
{
    let mut s = String::new();
    let mut i: usize = 0;
    while i < len
        invariant
            i <= len,
            s@.len() == i,
            forall|j: int| 0 <= j < s@.len() ==> CHARSET@.contains(#[trigger] s@[j]),
        decreases len - i,
    {
        let idx = random_below(62);
        let c = CHARSET[idx];
        proof {
            assert(CHARSET@.contains(c)) by {
                assert(CHARSET@[idx as int] == c);
            }
        }
        push_char(&mut s, c);
        i = i + 1;
    }
    s
}

/// One authorization attempt's secrets: the `state` echoed by the callback,
/// the code verifier sent only in the final token exchange, and the
/// challenge sent in the authorization URL.
pub struct PkceMaterial {
    pub state: String,
    pub verifier: String,
    pub challenge: String,
}

impl PkceMaterial {
    /// What `generate` establishes: both tokens have their required length
    /// and alphabet, and the challenge is derived from the verifier.
    pub open spec fn wf(&self) -> bool {
        &&& self.state@.len() == STATE_LEN
        &&& forall|i: int|
            0 <= i < self.state@.len() ==> CHARSET@.contains(#[trigger] self.state@[i])
        &&& self.verifier@.len() == VERIFIER_LEN
        &&& forall|i: int|
            0 <= i < self.verifier@.len() ==> CHARSET@.contains(#[trigger] self.verifier@[i])
        &&& self.challenge@ == spec_challenge(self.verifier@)
    }
}

/// Creates the material for one authorization attempt.
pub fn generate() -> (m: PkceMaterial)
    ensures
        m.wf(),
        m.challenge@.len() == 43,
{
    let state = random_charset_string(STATE_LEN);
    let code_verifier = random_charset_string(VERIFIER_LEN);
    let challenge = challenge_of_verifier(code_verifier.as_str());
    PkceMaterial { state, verifier: code_verifier, challenge }
}

/// For a fixed verifier the challenge is one fixed value: the SHA-256
/// digest of the verifier, base64url-encoded without padding. Two
/// attempts that share a verifier share the challenge.
pub proof fn lemma_challenge_deterministic(m1: PkceMaterial, m2: PkceMaterial)
    requires
        m1.wf(),
        m2.wf(),
        m1.verifier@ == m2.verifier@,
    ensures
        m1.challenge@ == m2.challenge@,
{
}

} // verus!
