//! The two-valued screen state, its text encoding, and the errors of the
//! operations that read or store it.

use vstd::prelude::*;
use vstd::string::StringSliceAdditionalSpecFns;
use vstd::utf8::{
    encode_utf8, encode_utf8_decode_utf8, is_ascii_chars, is_ascii_chars_encode_utf8,
};

verus! {

/// Contents of the backing file while the backlight is powered.
pub const ON_VALUE: &'static str = "0\n";

/// Contents of the backing file while the backlight is not powered.
pub const OFF_VALUE: &'static str = "1\n";

/// Power state of the display backlight.
#[derive(Debug, Clone, Copy, PartialEq, Eq, Structural)]
pub enum ScreenState {
    On,
    Off,
}

/// Why a screen state could not be obtained or stored.
#[derive(Debug, Clone, Copy, PartialEq, Eq, Structural)]
pub enum StateError {
    /// The backing file could not be read or written.
    Io,
    /// The backing file holds a text that is neither of the two encodings.
    UnknownStateRepresentation,
}

/// The state that a text stands for. Only the two encodings stand for a
/// state; nothing is trimmed, so the trailing newline is part of the text.
pub open spec fn decode(text: Seq<char>) -> Result<ScreenState, StateError> {
    if text == ScreenState::On.encoding() {
        Ok(ScreenState::On)
    } else if text == ScreenState::Off.encoding() {
        Ok(ScreenState::Off)
    } else {
        Err(StateError::UnknownStateRepresentation)
    }
}

impl ScreenState {
    /// The text that stands for this state in the backing file. The driver
    /// counts `0` as powered, so `On` is written as `"0\n"` and `Off` as `"1\n"`.
    pub open spec fn encoding(self) -> Seq<char> {
        match self {
            ScreenState::On => seq!['0', '\n'],
            ScreenState::Off => seq!['1', '\n'],
        }
    }

    /// The bytes of the encoded text, as they lie in the backing file.
    pub open spec fn wire_bytes(self) -> Seq<u8> {
        match self {
            ScreenState::On => seq![0x30u8, 0x0au8],
            ScreenState::Off => seq![0x31u8, 0x0au8],
        }
    }

    /// The other one of the two states.
    pub open spec fn inverse(self) -> ScreenState {
        match self {
            ScreenState::On => ScreenState::Off,
            ScreenState::Off => ScreenState::On,
        }
    }

    /// The word under which this state is reported.
    pub open spec fn label(self) -> Seq<char> {
        match self {
            ScreenState::On => seq!['O', 'n'],
            ScreenState::Off => seq!['O', 'f', 'f'],
        }
    }

    /// The encoded text of this state, exactly as it is written to the file.
    pub fn value(&self) -> (text: &'static str)
        ensures
            text@ == self.encoding(),
            text.spec_bytes() == self.wire_bytes(),
    {
        let text = match self {
            ScreenState::On => ON_VALUE,
            ScreenState::Off => OFF_VALUE,
        };
        proof {
            reveal_strlit("0\n");
            reveal_strlit("1\n");
            assert(text@ =~= self.encoding());
            lemma_encoding_has_wire_bytes(*self);
        }
        text
    }

    /// The name of this state for status lines: `"On"` or `"Off"`.
    pub fn name(&self) -> (word: &'static str)
        ensures
            word@ == self.label(),
    {
        proof {
            reveal_strlit("On");
            reveal_strlit("Off");
        }
        match self {
            ScreenState::On => "On",
            ScreenState::Off => "Off",
        }
    }

    /// Parses the contents of the backing file. Succeeds on the two encodings
    /// and on nothing else.
    pub fn from_text(text: &str) -> (parsed: Result<ScreenState, StateError>)
        ensures
            parsed == decode(text@),
    {
        if text.unicode_len() != 2 {
            return Err(StateError::UnknownStateRepresentation);
        }
        let first = text.get_char(0);
        let second = text.get_char(1);
        if second != '\n' {
            Err(StateError::UnknownStateRepresentation)
        } else if first == '0' {
            assert(text@ =~= ScreenState::On.encoding());
            Ok(ScreenState::On)
        } else if first == '1' {
            assert(text@ =~= ScreenState::Off.encoding());
            Ok(ScreenState::Off)
        } else {
            Err(StateError::UnknownStateRepresentation)
        }
    }
}

impl TryFrom<String> for ScreenState {
    type Error = StateError;

    /// Parses the contents of the backing file, as `from_text` does.
    fn try_from(v: String) -> (parsed: Result<ScreenState, StateError>)
        ensures
            parsed == decode(v@),
    {
        ScreenState::from_text(v.as_str())
    }
}

impl vstd::std_specs::convert::TryFromSpecImpl<String> for ScreenState {
    open spec fn obeys_try_from_spec() -> bool {
        true
    }

    open spec fn try_from_spec(v: String) -> Result<ScreenState, StateError> {
        decode(v@)
    }
}

/// The encoded text of a state is plain ASCII, and in the file it takes up
/// exactly the two bytes of `wire_bytes`.
pub proof fn lemma_encoding_has_wire_bytes(state: ScreenState)
    ensures
        is_ascii_chars(state.encoding()),
        encode_utf8(state.encoding()) == state.wire_bytes(),
{
    let text = state.encoding();
    assert(is_ascii_chars(text)) by {
        assert(text[0] == '0' || text[0] == '1');
        assert(text[1] == '\n');
    }
    is_ascii_chars_encode_utf8(text);
    assert(encode_utf8(text) =~= state.wire_bytes()) by {
        assert(text[0] as u8 == encode_utf8(text)[0]);
        assert(text[1] as u8 == encode_utf8(text)[1]);
    }
}

/// A text decodes to a state exactly if its bytes in the file are the wire
/// bytes of that state.
pub proof fn lemma_decode_goes_by_wire_bytes(text: Seq<char>, state: ScreenState)
    ensures
        decode(text) == Ok::<ScreenState, StateError>(state) <==> encode_utf8(text)
            == state.wire_bytes(),
{
    lemma_encoding_has_wire_bytes(state);
    lemma_decode_accepts_encodings_only(text);
    if encode_utf8(text) == state.wire_bytes() {
        encode_utf8_decode_utf8(text);
        encode_utf8_decode_utf8(state.encoding());
    }
}

/// Encoding a state and decoding the result gives the state back.
pub proof fn lemma_decode_inverts_encoding(state: ScreenState)
    ensures
        decode(state.encoding()) == Ok::<ScreenState, StateError>(state),
{
    assert(ScreenState::On.encoding()[0] == '0');
    assert(ScreenState::Off.encoding()[0] == '1');
}

/// A text decodes to a state exactly if it is that state's encoding, and
/// decoding any text that is no encoding fails with
/// `UnknownStateRepresentation`.
pub proof fn lemma_decode_accepts_encodings_only(text: Seq<char>)
    ensures
        forall|state: ScreenState|
            decode(text) == Ok::<ScreenState, StateError>(state) <==> text == state.encoding(),
        (forall|state: ScreenState| text != state.encoding()) ==> decode(text) == Err::<
            ScreenState,
            StateError,
        >(StateError::UnknownStateRepresentation),
        decode(text) != Err::<ScreenState, StateError>(StateError::Io),
{
    assert(ScreenState::On.encoding()[0] == '0');
    assert(ScreenState::Off.encoding()[0] == '1');
    if text != ScreenState::On.encoding() && text != ScreenState::Off.encoding() {
        assert forall|state: ScreenState| text != state.encoding() by {}
    }
}

/// Taking the inverse twice gives the state back, and never the state itself.
pub proof fn lemma_inverse_is_involution(state: ScreenState)
    ensures
        state.inverse().inverse() == state,
        state.inverse() != state,
{
}

} // verus!
