//! The state that guards the authorization-code grant against cross-site
//! request forgery.

use io_oauth::rfc6749::state::Oauth20State;
use serde::de::value::{Error, StrDeserializer};
use serde::Deserialize;
use vstd::prelude::*;
use vstd::std_specs::cmp::PartialEqSpec;
use vstd::utf8::encode_utf8;

use crate::text::lower_hex;

verus! {

/// The bytes that a state is made of: visible ASCII and the space.
pub open spec fn is_vschar(b: u8) -> bool {
    0x20 <= b <= 0x7E
}

/// The first byte that a state may not hold, if any.
pub open spec fn first_non_vschar(bytes: Seq<u8>) -> Option<u8>
    decreases bytes.len(),
{
    if bytes.len() == 0 {
        None
    } else if !is_vschar(bytes.first()) {
        Some(bytes.first())
    } else {
        first_non_vschar(bytes.drop_first())
    }
}

/// The text that turns a state down for one of its bytes.
pub open spec fn invalid_state_text(b: u8) -> Seq<char> {
    "invalid byte 0x"@ + lower_hex(b) + " found in state"@
}

/// An opaque value, sent with the authorization request and echoed by the
/// response. It has no `Debug`: it must stay off diagnostics.
pub struct State {
    pub(crate) bytes: Vec<u8>,
}

impl View for State {
    type V = Seq<u8>;

    closed spec fn view(&self) -> Seq<u8> {
        self.bytes@
    }
}

impl DeepView for State {
    type V = Seq<u8>;

    open spec fn deep_view(&self) -> Seq<u8> {
        self.view()
    }
}

impl State {
    #[verifier::type_invariant]
    spec fn valid(self) -> bool {
        first_non_vschar(self.bytes@) is None
    }

    /// Reads a state, or gives the text that turns it down.
    pub fn parse(state: &str) -> (r: Result<State, String>)
        ensures
            match first_non_vschar(encode_utf8(state@)) {
                None => r matches Ok(st) && st@ == encode_utf8(state@),
                Some(b) => r matches Err(err) && err@ == invalid_state_text(b),
            },
    {
        match deserialize_state(state) {
            Ok(bytes) => Ok(State { bytes }),
            Err(err) => Err(err),
        }
    }

    /// The bytes of the state.
    pub fn expose(&self) -> (r: &[u8])
        ensures
            r@ == self@,
            first_non_vschar(self@) is None,
    {
        proof {
            use_type_invariant(self);
        }
        self.bytes.as_slice()
    }
}

impl Clone for State {
    fn clone(&self) -> (r: Self)
        ensures
            r@ == self@,
    {
        proof {
            use_type_invariant(self);
        }
        let bytes = self.bytes.clone();
        assert(bytes@ =~= self.bytes@);
        State { bytes }
    }
}

impl PartialEq for State {
    fn eq(&self, other: &Self) -> (r: bool) {
        if self.bytes.len() != other.bytes.len() {
            return false;
        }
        let mut i: usize = 0;
        while i < self.bytes.len()
            invariant
                self.bytes@.len() == other.bytes@.len(),
                i <= self.bytes@.len(),
                self.bytes@.take(i as int) == other.bytes@.take(i as int),
            decreases self.bytes@.len() - i,
        {
            if self.bytes[i] != other.bytes[i] {
                return false;
            }
            assert(self.bytes@.take(i + 1) =~= self.bytes@.take(i as int).push(self.bytes@[i as int]));
            assert(other.bytes@.take(i + 1) =~= other.bytes@.take(i as int).push(
                other.bytes@[i as int],
            ));
            i += 1;
        }
        assert(self.bytes@.take(i as int) =~= self.bytes@);
        assert(other.bytes@.take(i as int) =~= other.bytes@);
        true
    }
}

impl vstd::std_specs::cmp::PartialEqSpecImpl for State {
    open spec fn obeys_eq_spec() -> bool {
        true
    }

    open spec fn eq_spec(&self, other: &Self) -> bool {
        self@ == other@
    }
}

impl Eq for State {

}

/// A state is seen by contracts as its bytes.
proof fn law_view_keeps_state(state: State)
    ensures
        state@ == state.bytes@,
        state.deep_view() == state@,
{
}

/// States are equal exactly where their bytes are.
pub proof fn law_equal_states(a: State, b: State)
    ensures
        a.eq_spec(&b) <==> a@ == b@,
        State::obeys_eq_spec(),
{
}

/// Calls the `Deserialize` impl of `Oauth20State` on a string, and takes of the
/// state its bytes, of the error its text (`Display`): the state holds the bytes
/// of the string, unless one of them is not visible ASCII nor the space, and the
/// error then quotes the first such byte.
#[verifier::external_body]
fn deserialize_state(state: &str) -> (r: Result<Vec<u8>, String>)
    ensures
        match first_non_vschar(encode_utf8(state@)) {
            None => r matches Ok(bytes) && bytes@ == encode_utf8(state@),
            Some(b) => r matches Err(err) && err@ == invalid_state_text(b),
        },
{
    match Oauth20State::deserialize(StrDeserializer::<Error>::new(state)) {
        Ok(state) => Ok(state.expose().to_vec()),
        Err(err) => Err(err.to_string()),
    }
}

} // verus!
