//! Credential formatting: a validated `identity:secret` string and its
//! rendering as an HTTP Basic authorization header value.

use vstd::prelude::*;
use vstd::string::*;
use base64::Engine;

verus! {

/// Number of separator (`:`) characters in `s`.
pub open spec fn colon_count(s: Seq<char>) -> nat
    decreases s.len(),
{
    if s.len() == 0 {
        0
    } else {
        colon_count(s.drop_last()) + (if s.last() == ':' {
            1nat
        } else {
            0nat
        })
    }
}

/// A credential string is well formed when splitting it on the separator
/// yields exactly two parts, that is, when it holds exactly one separator.
pub open spec fn valid_auth(s: Seq<char>) -> bool {
    colon_count(s) == 1
}

/// A validated, immutable `identity:secret` credential string.
#[derive(Debug, Clone)]
pub struct AuthString(String);

/// The credential string did not split into exactly two parts.
#[derive(Debug, Clone, PartialEq, Eq, Structural)]
pub struct InvalidAuthStringErr;

impl View for AuthString {
    type V = Seq<char>;

    closed spec fn view(&self) -> Seq<char> {
        self.0@
    }
}

/// The base64 encoding (standard alphabet, padded) of the UTF-8 bytes of a
/// string; determined by the string alone.
pub uninterp spec fn base64_of(s: Seq<char>) -> Seq<char>;

/// Relies on `base64::engine::general_purpose::STANDARD` (`Engine::encode`):
/// the standard base64 alphabet with padding, applied to the UTF-8 bytes of
/// `s`; the result is a function of `s` alone, and an empty input encodes to
/// an empty string.
#[verifier::external_body]
fn base64_encode(s: &str) -> (r: String)
    ensures
        r@ == base64_of(s@),
        s@.len() == 0 ==> r@.len() == 0,
{
    base64::engine::general_purpose::STANDARD.encode(s.as_bytes())
}

impl AuthString {
    /// Accepts `auth_str` exactly when it holds exactly one separator, and
    /// stores it unchanged.
    pub fn new(auth_str: &str) -> (r: Result<Self, InvalidAuthStringErr>)
        ensures
            r is Ok <==> valid_auth(auth_str@),
            r matches Ok(a) ==> a@ == auth_str@,
    {
        let n = auth_str.unicode_len();
        let mut i: usize = 0;
        let mut count: usize = 0;
        while i < n
            invariant
                n == auth_str@.len(),
                i <= n,
                count <= i,
                count == colon_count(auth_str@.take(i as int)),
            decreases n - i,
        {
            let c = auth_str.get_char(i);
            proof {
                assert(auth_str@.take(i + 1 as int).drop_last() =~= auth_str@.take(i as int));
                assert(auth_str@.take(i + 1 as int).last() == auth_str@[i as int]);
            }
            if c == ':' {
                count = count + 1;
            }
            i = i + 1;
        }
        proof {
            assert(auth_str@.take(n as int) =~= auth_str@);
        }
        if count == 1 {
            Ok(AuthString(auth_str.to_owned()))
        } else {
            Err(InvalidAuthStringErr)
        }
    }

    /// The authorization header value: the literal `"Basic "` prefix followed
    /// by the base64 encoding of the raw, unmodified credential string.
    pub fn render(&self) -> (r: String)
        ensures
            r@ == "Basic "@ + base64_of(self@),
    {
        let mut out = String::from_str("Basic ");
        let encoded = base64_encode(self.0.as_str());
        out.append(encoded.as_str());
        out
    }
}

/// Validates a command-line credential argument, mapping rejection to a
/// fixed message.
pub fn parse_auth_string_arg(arg: &str) -> (r: Result<AuthString, &'static str>)
    ensures
        r is Ok <==> valid_auth(arg@),
        r matches Ok(a) ==> a@ == arg@,
        r matches Err(m) ==> m@ == "Auth string is invalid"@,
{
    match AuthString::new(arg) {
        Ok(a) => Ok(a),
        Err(_) => Err("Auth string is invalid"),
    }
}

/// The separator count of a concatenation is the sum of the parts' counts.
pub proof fn lemma_colon_count_concat(a: Seq<char>, b: Seq<char>)
    ensures
        colon_count(a + b) == colon_count(a) + colon_count(b),
    decreases b.len(),
{
    if b.len() == 0 {
        assert(a + b =~= a);
    } else {
        assert((a + b).drop_last() =~= a + b.drop_last());
        lemma_colon_count_concat(a, b.drop_last());
    }
}

/// Credential round-trip law: for any identity and secret that hold no
/// separator character, the joined string `identity + ":" + secret` is a
/// valid credential, so `AuthString::new` accepts it unchanged and `render`
/// then returns `"Basic "` followed by the base64 encoding of that joined
/// string.
pub proof fn lemma_credential_round_trip(identity: Seq<char>, secret: Seq<char>)
    requires
        colon_count(identity) == 0,
        colon_count(secret) == 0,
    ensures
        valid_auth(identity + seq![':'] + secret),
{
    let sep = seq![':'];
    assert(sep.drop_last() =~= Seq::<char>::empty());
    assert(colon_count(Seq::<char>::empty()) == 0);
    assert(sep.last() == ':');
    assert(colon_count(sep) == 1);
    lemma_colon_count_concat(identity, sep);
    lemma_colon_count_concat(identity + sep, secret);
}

} // verus!
