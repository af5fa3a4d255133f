//! The code verifier of PKCE, the proof key that ties the exchange of an
//! authorization code to the request that obtained it.

use io_oauth::rfc7636::pkce::Oauth20PkceCodeVerifier;
use vstd::prelude::*;
use vstd::utf8::encode_utf8;

verus! {

/// The bytes that a code verifier is made of: ASCII letters and digits, `-`,
/// `.`, `_` and `~`.
pub open spec fn is_unreserved(b: u8) -> bool {
    ||| 0x41 <= b <= 0x5A
    ||| 0x61 <= b <= 0x7A
    ||| 0x30 <= b <= 0x39
    ||| b == 0x2D
    ||| b == 0x2E
    ||| b == 0x5F
    ||| b == 0x7E
}

/// The first byte that a code verifier may not hold, if any.
pub open spec fn first_reserved(bytes: Seq<u8>) -> Option<u8>
    decreases bytes.len(),
{
    if bytes.len() == 0 {
        None
    } else if !is_unreserved(bytes.first()) {
        Some(bytes.first())
    } else {
        first_reserved(bytes.drop_first())
    }
}

/// A code verifier. It has no `Debug`: it must stay off diagnostics.
pub struct PkceCodeVerifier {
    bytes: Vec<u8>,
}

impl View for PkceCodeVerifier {
    type V = Seq<u8>;

    closed spec fn view(&self) -> Seq<u8> {
        self.bytes@
    }
}

impl DeepView for PkceCodeVerifier {
    type V = Seq<u8>;

    open spec fn deep_view(&self) -> Seq<u8> {
        self.view()
    }
}

impl PkceCodeVerifier {
    #[verifier::type_invariant]
    spec fn valid(self) -> bool {
        first_reserved(self.bytes@) is None
    }

    /// The bytes of the verifier.
    pub fn expose(&self) -> (r: &[u8])
        ensures
            r@ == self@,
            first_reserved(self@) is None,
    {
        proof {
            use_type_invariant(self);
        }
        self.bytes.as_slice()
    }

    /// Reads a verifier, or gives the first byte that it may not hold.
    pub fn parse(verifier: &str) -> (r: Result<PkceCodeVerifier, u8>)
        ensures
            match first_reserved(encode_utf8(verifier@)) {
                None => r matches Ok(v) && v@ == encode_utf8(verifier@),
                Some(b) => r matches Err(e) && e == b,
            },
    {
        match parse_verifier(verifier) {
            Ok(bytes) => Ok(PkceCodeVerifier { bytes }),
            Err(b) => Err(b),
        }
    }
}

/// A verifier is seen by contracts as its bytes.
proof fn law_view_keeps_verifier(verifier: PkceCodeVerifier)
    ensures
        verifier@ == verifier.bytes@,
        verifier.deep_view() == verifier@,
{
}

/// Calls the `FromStr` impl of `Oauth20PkceCodeVerifier`, and takes of the
/// verifier its bytes: those of the string, unless one of them is reserved, and
/// the error then is the first such byte.
#[verifier::external_body]
fn parse_verifier(verifier: &str) -> (r: Result<Vec<u8>, u8>)
    ensures
        match first_reserved(encode_utf8(verifier@)) {
            None => r matches Ok(bytes) && bytes@ == encode_utf8(verifier@),
            Some(b) => r matches Err(e) && e == b,
        },
{
    match verifier.parse::<Oauth20PkceCodeVerifier>() {
        Ok(verifier) => Ok(verifier.expose().to_vec()),
        Err(b) => Err(b),
    }
}

} // verus!
