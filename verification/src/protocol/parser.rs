use vstd::prelude::*;
use vstd::utf8::{decode_utf8, encode_scalar, encode_utf8, valid_utf8};
use vstd::string::StringSliceAdditionalSpecFns;

use super::codes;
use crate::info::Kind;
use crate::{AjazzError, AjazzInput, InputState};

verus! {

/// A state sequence of `len` entries in which only the entry `index` is set.
pub open spec fn pressed_only(len: nat, index: int) -> Seq<bool> {
    Seq::new(len, |i: int| i == index)
}

/// A state sequence of `len` entries in which nothing is set.
pub open spec fn all_released(len: nat) -> Seq<bool> {
    Seq::new(len, |i: int| false)
}

/// A sequence of `len` encoder turns in which only encoder `index` turned, by `value`.
pub open spec fn twisted_only(len: nat, index: int, value: i8) -> Seq<i8> {
    Seq::new(len, |i: int| if i == index { value } else { 0i8 })
}

/// Normalized key index of each native key index of the AKP153 family.
pub open spec fn akp153_key_of_native() -> Seq<u8> {
    seq![4u8, 10u8, 16u8, 3u8, 9u8, 15u8, 2u8, 8u8, 14u8, 1u8, 7u8, 13u8, 0u8, 6u8, 12u8, 5u8, 11u8, 17u8]
}

/// Native key index of each normalized key index of the AKP153 family.
pub open spec fn native_of_key() -> Seq<u8> {
    seq![12u8, 9u8, 6u8, 3u8, 0u8, 15u8, 13u8, 10u8, 7u8, 4u8, 1u8, 16u8, 14u8, 11u8, 8u8, 5u8, 2u8, 17u8]
}

/// The AKP03 button that an action code reports, as a zero-based index.
pub open spec fn akp03_button_index(code: u8) -> Option<int> {
    if 1 <= code <= 6 {
        Some(code - 1)
    } else if code == codes::ACTION_CODE_BUTTON_7 {
        Some(6)
    } else if code == codes::ACTION_CODE_BUTTON_8 {
        Some(7)
    } else if code == codes::ACTION_CODE_BUTTON_9 {
        Some(8)
    } else {
        None
    }
}

/// The AKP03 encoder that an action code reports as turned, and the direction.
pub open spec fn akp03_twist(code: u8) -> Option<(int, i8)> {
    if code == codes::ACTION_CODE_ENCODER_0_CCW {
        Some((0, -1i8))
    } else if code == codes::ACTION_CODE_ENCODER_0_CW {
        Some((0, 1i8))
    } else if code == codes::ACTION_CODE_ENCODER_1_CCW {
        Some((1, -1i8))
    } else if code == codes::ACTION_CODE_ENCODER_1_CW {
        Some((1, 1i8))
    } else if code == codes::ACTION_CODE_ENCODER_2_CCW {
        Some((2, -1i8))
    } else if code == codes::ACTION_CODE_ENCODER_2_CW {
        Some((2, 1i8))
    } else {
        None
    }
}

/// The AKP03 encoder that an action code reports as pressed.
pub open spec fn akp03_encoder_pressed(code: u8) -> Option<int> {
    if code == codes::ACTION_CODE_ENCODER_0_PRESS {
        Some(0)
    } else if code == codes::ACTION_CODE_ENCODER_1_PRESS {
        Some(1)
    } else if code == codes::ACTION_CODE_ENCODER_2_PRESS {
        Some(2)
    } else {
        None
    }
}

/// What an AKP03 reports with a nonzero action code; `None` for an unknown code.
pub open spec fn akp03_input(code: u8) -> Option<InputState> {
    if let Some(index) = akp03_button_index(code) {
        Some(InputState::ButtonStateChange(pressed_only(9, index)))
    } else if let Some((encoder, value)) = akp03_twist(code) {
        Some(InputState::EncoderTwist(twisted_only(3, encoder, value)))
    } else if let Some(encoder) = akp03_encoder_pressed(code) {
        Some(InputState::EncoderStateChange(pressed_only(3, encoder)))
    } else {
        None
    }
}

impl Kind {
    /// The normalized key index of a native key index of a protocol v1 device.
    pub open spec fn key_of_native(self, i: u8) -> Option<u8> {
        if i >= self.key_count() || !self.is_v1_api() {
            None
        } else if self.is_akp153_like() {
            Some(akp153_key_of_native()[i as int])
        } else if self is Akp815 {
            Some((self.key_count() - 1 - i) as u8)
        } else {
            None
        }
    }

    /// The native key index of a normalized key index of a protocol v1 device.
    pub open spec fn native_of(self, key: u8) -> Option<u8> {
        if !self.is_v1_api() {
            None
        } else if key < self.key_count() {
            if self is Akp815 {
                Some((self.key_count() - 1 - key) as u8)
            } else {
                Some(native_of_key()[key as int])
            }
        } else {
            Some(key)
        }
    }

    /// What an input report of this kind says; `None` where the report is malformed.
    pub open spec fn decoded_input(self, data: Seq<u8>) -> Option<InputState> {
        if data[codes::OFFSET_DATA_LENGTH as int] == 0 {
            Some(InputState::NoData)
        } else {
            let code = data[codes::OFFSET_ACTION_CODE as int];
            if self.is_v1_api() {
                if code == codes::ACTION_CODE_NOP {
                    Some(InputState::ButtonStateChange(all_released(self.key_count() as nat)))
                } else {
                    match self.key_of_native((code - 1) as u8) {
                        Some(key) => Some(
                            InputState::ButtonStateChange(
                                pressed_only(self.key_count() as nat, key as int),
                            ),
                        ),
                        None => None,
                    }
                }
            } else {
                akp03_input(code)
            }
        }
    }

    /// Parses an input report of the device
    pub fn parse_input(&self, data: &[u8]) -> (r: Result<AjazzInput, AjazzError>)
        requires
            data@.len() > codes::OFFSET_DATA_LENGTH,
            data@[codes::OFFSET_DATA_LENGTH as int] != 0 ==> data@.len()
                > codes::OFFSET_ACTION_CODE,
        ensures
            match self.decoded_input(data@) {
                Some(state) => r matches Ok(input) && input@ == state,
                None => r matches Err(AjazzError::BadData),
            },
    {
        if data[codes::OFFSET_DATA_LENGTH] == 0 {
            return Ok(AjazzInput::NoData);
        }
        let action_code = data[codes::OFFSET_ACTION_CODE];

        if self.is_v1_api() {
            let mut states = released_states(self.key_count() as usize);
            if action_code != codes::ACTION_CODE_NOP {
                let raw_index = action_code - 1;
                let index = match self.index_from_native_v1(raw_index) {
                    Some(index) => index,
                    None => {
                        return Err(AjazzError::BadData);
                    },
                };
                states.set(index as usize, true);
                assert(states@ =~= pressed_only(self.key_count() as nat, index as int));
            }
            Ok(AjazzInput::ButtonStateChange(states))
        } else if self.is_v2_api() {
            if is_akp03_button_press(action_code) {
                parse_akp03_button_press(action_code)
            } else if is_akp03_encoder_value(action_code) {
                parse_akp03_encoder_value(action_code)
            } else if is_akp03_encoder_press(action_code) {
                parse_akp03_encoder_press(action_code)
            } else {
                Err(AjazzError::BadData)
            }
        } else {
            Err(AjazzError::UnsupportedOperation)
        }
    }

    /// Converts Ajazz native key index to normalized key index
    pub fn index_from_native_v1(&self, i: u8) -> (r: Option<u8>)
        ensures
            r == self.key_of_native(i),
            r matches Some(key) ==> key < self.key_count(),
    {
        if i >= self.key_count() || !self.is_v1_api() {
            return None;
        }
        match self {
            Kind::Akp153 | Kind::Akp153E | Kind::Akp153R | Kind::MadDogGk150W => {
                if i < self.key_count() {
                    let table: [u8; 18] = [4, 10, 16, 3, 9, 15, 2, 8, 14, 1, 7, 13, 0, 6, 12, 5, 11, 17];
                    assert(table@ == akp153_key_of_native());
                    Some(table[i as usize])
                } else {
                    Some(i)
                }
            },
            Kind::Akp815 => {
                if i < self.key_count() {
                    Some(self.key_count() - 1 - i)
                } else {
                    Some(i)
                }
            },
            _ => None,
        }
    }

    /// Converts normalized key index to Ajazz native key index
    pub fn index_to_native_v1(&self, key: u8) -> (r: Option<u8>)
        ensures
            r == self.native_of(key),
    {
        if self.is_v1_api() {
            if key < self.key_count() {
                match self {
                    Kind::Akp815 => Some(self.key_count() - 1 - key),
                    _ => {
                        let table: [u8; 18] = [
                            12, 9, 6, 3, 0, 15, 13, 10, 7, 4, 1, 16, 14, 11, 8, 5, 2, 17,
                        ];
                        assert(table@ == native_of_key());
                        Some(table[key as usize])
                    },
                }
            } else {
                Some(key)
            }
        } else {
            None
        }
    }

    /// Checks whether `data` is the device's acknowledgement of a command
    pub fn is_ack_ok(&self, data: &[u8]) -> (r: bool)
        ensures
            r == (data@.len() >= codes::ack_ok_bytes().len() && data@.subrange(
                0,
                codes::ack_ok_bytes().len() as int,
            ) == codes::ack_ok_bytes()),
    {
        let ack = codes::RESPONSE_ACK_OK;
        assert(ack@ == codes::ack_ok_bytes());
        if data.len() < ack.len() {
            return false;
        }
        let mut i: usize = 0;
        while i < ack.len()
            invariant
                0 <= i <= ack@.len(),
                ack@ == codes::ack_ok_bytes(),
                data@.len() >= ack@.len(),
                forall|j: int| 0 <= j < i ==> data@[j] == ack@[j],
            decreases ack@.len() - i,
        {
            if data[i] != ack[i] {
                assert(data@.subrange(0, ack@.len() as int)[i as int] != ack@[i as int]);
                return false;
            }
            i = i + 1;
        }
        assert(data@.subrange(0, ack@.len() as int) =~= ack@);
        true
    }
}

/// A vector of `len` released states.
fn released_states(len: usize) -> (r: Vec<bool>)
    ensures
        r@ == all_released(len as nat),
{
    let mut states: Vec<bool> = Vec::new();
    let mut i: usize = 0;
    while i < len
        invariant
            i <= len,
            states@ == all_released(i as nat),
        decreases len - i,
    {
        states.push(false);
        i = i + 1;
        assert(states@ =~= all_released(i as nat));
    }
    states
}

/// A sequence of `len` encoder turns that are all zero.
pub open spec fn all_still(len: nat) -> Seq<i8> {
    Seq::new(len, |i: int| 0i8)
}

/// A vector of `len` encoder turns that are all zero.
fn unturned(len: usize) -> (r: Vec<i8>)
    ensures
        r@ == all_still(len as nat),
{
    let mut values: Vec<i8> = Vec::new();
    let mut i: usize = 0;
    while i < len
        invariant
            i <= len,
            values@ == all_still(i as nat),
        decreases len - i,
    {
        values.push(0);
        i = i + 1;
        assert(values@ =~= all_still(i as nat));
    }
    values
}

/// Parses an AKP03 button report
pub fn parse_akp03_button_press(input: u8) -> (r: Result<AjazzInput, AjazzError>)
    ensures
        input == 0 ==> (r matches Ok(i) && i@ == InputState::ButtonStateChange(all_released(9))),
        input != 0 ==> match akp03_button_index(input) {
            Some(index) => r matches Ok(i) && i@ == InputState::ButtonStateChange(
                pressed_only(9, index),
            ),
            None => r matches Err(AjazzError::BadData),
        },
{
    let mut button_states = released_states(Kind::Akp03.key_count() as usize);
    if input == 0 {
        return Ok(AjazzInput::ButtonStateChange(button_states));
    }
    let pressed_index: usize = if 1 <= input && input <= 6 {
        // Six buttons with displays
        input as usize
    } else if input == codes::ACTION_CODE_BUTTON_7 {
        // Three buttons without displays
        7
    } else if input == codes::ACTION_CODE_BUTTON_8 {
        8
    } else if input == codes::ACTION_CODE_BUTTON_9 {
        9
    } else {
        return Err(AjazzError::BadData);
    };
    button_states.set(pressed_index - 1, true);
    assert(button_states@ =~= pressed_only(9, pressed_index - 1));
    Ok(AjazzInput::ButtonStateChange(button_states))
}

/// Parses an AKP03 encoder turn report
pub fn parse_akp03_encoder_value(input: u8) -> (r: Result<AjazzInput, AjazzError>)
    ensures
        match akp03_twist(input) {
            Some((encoder, value)) => r matches Ok(i) && i@ == InputState::EncoderTwist(
                twisted_only(3, encoder, value),
            ),
            None => r matches Err(AjazzError::BadData),
        },
{
    let mut encoder_values = unturned(Kind::Akp03.encoder_count() as usize);
    let (encoder, value): (usize, i8) = if input == codes::ACTION_CODE_ENCODER_0_CCW {
        // Left encoder
        (0, -1)
    } else if input == codes::ACTION_CODE_ENCODER_0_CW {
        (0, 1)
    } else if input == codes::ACTION_CODE_ENCODER_1_CCW {
        // Middle (top) encoder
        (1, -1)
    } else if input == codes::ACTION_CODE_ENCODER_1_CW {
        (1, 1)
    } else if input == codes::ACTION_CODE_ENCODER_2_CCW {
        // Right encoder
        (2, -1)
    } else if input == codes::ACTION_CODE_ENCODER_2_CW {
        (2, 1)
    } else {
        return Err(AjazzError::BadData);
    };
    encoder_values.set(encoder, value);
    assert(encoder_values@ =~= twisted_only(3, encoder as int, value));
    Ok(AjazzInput::EncoderTwist(encoder_values))
}

/// Parses an AKP03 encoder press report
pub fn parse_akp03_encoder_press(input: u8) -> (r: Result<AjazzInput, AjazzError>)
    ensures
        match akp03_encoder_pressed(input) {
            Some(encoder) => r matches Ok(i) && i@ == InputState::EncoderStateChange(
                pressed_only(3, encoder),
            ),
            None => r matches Err(AjazzError::BadData),
        },
{
    let mut encoder_states = released_states(Kind::Akp03.encoder_count() as usize);
    let encoder: usize = if input == codes::ACTION_CODE_ENCODER_0_PRESS {
        0
    } else if input == codes::ACTION_CODE_ENCODER_1_PRESS {
        1
    } else if input == codes::ACTION_CODE_ENCODER_2_PRESS {
        2
    } else {
        return Err(AjazzError::BadData);
    };
    encoder_states.set(encoder, true);
    assert(encoder_states@ =~= pressed_only(3, encoder as int));
    Ok(AjazzInput::EncoderStateChange(encoder_states))
}

/// Whether an action code reports an AKP03 encoder turn
pub fn is_akp03_encoder_value(input: u8) -> (r: bool)
    ensures
        r == akp03_twist(input) is Some,
{
    input == codes::ACTION_CODE_ENCODER_0_CCW || input == codes::ACTION_CODE_ENCODER_0_CW
        || input == codes::ACTION_CODE_ENCODER_1_CCW || input == codes::ACTION_CODE_ENCODER_1_CW
        || input == codes::ACTION_CODE_ENCODER_2_CCW || input == codes::ACTION_CODE_ENCODER_2_CW
}

/// Whether an action code reports an AKP03 encoder press
pub fn is_akp03_encoder_press(input: u8) -> (r: bool)
    ensures
        r == akp03_encoder_pressed(input) is Some,
{
    input == codes::ACTION_CODE_ENCODER_0_PRESS || input == codes::ACTION_CODE_ENCODER_1_PRESS
        || input == codes::ACTION_CODE_ENCODER_2_PRESS
}

/// Whether an action code reports an AKP03 button press
pub fn is_akp03_button_press(input: u8) -> (r: bool)
    ensures
        r == akp03_button_index(input) is Some,
{
    // Six buttons with displays, then three buttons without displays
    (1 <= input && input <= 6) || input == codes::ACTION_CODE_BUTTON_7
        || input == codes::ACTION_CODE_BUTTON_8 || input == codes::ACTION_CODE_BUTTON_9
}

/// Keeps every character but NUL.
pub open spec fn not_nul() -> spec_fn(char) -> bool {
    |c: char| c != '\0'
}

/// Keeps every byte but zero.
pub open spec fn not_zero() -> spec_fn(u8) -> bool {
    |b: u8| b != 0
}

/// `std::str::from_utf8`: the bytes as a string slice where they are valid
/// UTF-8, the same bytes read as text; an error otherwise.
#[verifier::external_body]
fn utf8_str(bytes: &[u8]) -> (r: Result<&str, std::str::Utf8Error>)
    ensures
        match r {
            Ok(s) => valid_utf8(bytes@) && s.spec_bytes() == bytes@,
            Err(_) => !valid_utf8(bytes@),
        },
{
    std::str::from_utf8(bytes)
}

/// The UTF-8 encoding of two character sequences one after the other is the
/// two encodings one after the other.
proof fn encode_utf8_of_concat(a: Seq<char>, b: Seq<char>)
    ensures
        encode_utf8(a + b) == encode_utf8(a) + encode_utf8(b),
    decreases a.len(),
{
    if a.len() == 0 {
        assert(a + b =~= b);
        assert(encode_utf8(a) =~= Seq::<u8>::empty());
        assert(encode_utf8(a) + encode_utf8(b) =~= encode_utf8(b));
    } else {
        assert((a + b).drop_first() =~= a.drop_first() + b);
        assert((a + b)[0] == a[0]);
        encode_utf8_of_concat(a.drop_first(), b);
        assert(encode_utf8(a + b) =~= encode_utf8(a) + encode_utf8(b));
    }
}

/// Filtering keeps a sequence whole when every element passes.
proof fn filter_keeps_all(s: Seq<u8>, pred: spec_fn(u8) -> bool)
    requires
        forall|i: int| 0 <= i < s.len() ==> pred(s[i]),
    ensures
        s.filter(pred) == s,
    decreases s.len(),
{
    reveal(Seq::filter);
    if s.len() > 0 {
        filter_keeps_all(s.drop_last(), pred);
        assert(s.drop_last().push(s.last()) =~= s);
    }
}

/// Only NUL encodes to a zero byte: the encoding of any other character has no zero in it.
proof fn encoded_char_without_zero(c: char)
    ensures
        encode_scalar(c as u32).filter(not_zero()) == encode_utf8(seq![c].filter(not_nul())),
{
    reveal(Seq::filter);
    let v = c as u32;
    let enc = encode_scalar(v);
    assert(seq![c].drop_last() =~= Seq::<char>::empty());
    if c == '\0' {
        assert(v == 0);
        assert((v & 0x7F) as u8 == 0) by (bit_vector)
            requires
                v == 0,
        ;
        assert(enc =~= seq![0u8]);
        assert(seq![0u8].drop_last() =~= Seq::<u8>::empty());
        assert(!(not_nul())(c));
        assert(seq![c].filter(not_nul()) =~= Seq::<char>::empty()) by {
            reveal_with_fuel(Seq::filter, 2);
        }
        assert(!(not_zero())(0u8));
        assert(enc.filter(not_zero()) =~= Seq::<u8>::empty()) by {
            reveal_with_fuel(Seq::filter, 2);
        }
    } else {
        assert(v != 0) by {
            vstd::utf8::char_u32_cast(c, v);
        }
        assert(0u32 as char == '\0');
        assert forall|i: int| 0 <= i < enc.len() implies enc[i] != 0 by {
            if v <= 0x7F {
                assert((v & 0x7F) as u8 != 0) by (bit_vector)
                    requires
                        v <= 0x7F && v != 0,
                ;
            } else {
                let b = enc[i];
                assert(forall|x: u32| #![auto] (0xC0u8 | ((x >> 6) & 0x1F) as u8) != 0) by (bit_vector);
                assert(forall|x: u32| #![auto] (0xE0u8 | ((x >> 12) & 0x0F) as u8) != 0) by (bit_vector);
                assert(forall|x: u32| #![auto] (0xF0u8 | ((x >> 18) & 0x7) as u8) != 0) by (bit_vector);
                assert(forall|x: u32| #![auto] (0x80u8 | (x & 0x3F) as u8) != 0) by (bit_vector);
                assert(forall|x: u32| #![auto] (0x80u8 | ((x >> 6) & 0x3F) as u8) != 0) by (bit_vector);
                assert(forall|x: u32| #![auto] (0x80u8 | ((x >> 12) & 0x3F) as u8) != 0) by (bit_vector);
            }
        }
        filter_keeps_all(enc, not_zero());
        assert(seq![c].filter(not_nul()) =~= seq![c]);
        assert(seq![c].drop_first() =~= Seq::<char>::empty());
        assert(encode_utf8(seq![c].drop_first()) =~= Seq::<u8>::empty());
        assert(encode_utf8(seq![c]) =~= enc);
    }
}

/// Dropping the zero bytes of an encoded text encodes the text without its NUL characters.
proof fn encoding_without_zero_bytes(cs: Seq<char>)
    ensures
        encode_utf8(cs).filter(not_zero()) == encode_utf8(cs.filter(not_nul())),
    decreases cs.len(),
{
    if cs.len() == 0 {
        reveal(Seq::filter);
        assert(encode_utf8(cs) =~= Seq::<u8>::empty());
    } else {
        let head = seq![cs[0]];
        let rest = cs.drop_first();
        assert(cs =~= head + rest);
        encoding_without_zero_bytes(rest);
        encoded_char_without_zero(cs[0]);
        Seq::filter_distributes_over_add(encode_scalar(cs[0] as u32), encode_utf8(rest), not_zero());
        Seq::filter_distributes_over_add(head, rest, not_nul());
        encode_utf8_of_concat(head.filter(not_nul()), rest.filter(not_nul()));
    }
}

/// Removes every NUL character from a text
pub fn strip_nul(s: &str) -> (r: String)
    ensures
        r@ == s@.filter(not_nul()),
{
    let bytes = s.as_bytes();
    let mut kept: Vec<u8> = Vec::new();
    let mut i: usize = 0;
    while i < bytes.len()
        invariant
            i <= bytes@.len(),
            kept@ == bytes@.subrange(0, i as int).filter(not_zero()),
        decreases bytes@.len() - i,
    {
        proof {
            assert(bytes@.subrange(0, i + 1) =~= bytes@.subrange(0, i as int).push(bytes@[i as int]));
            bytes@.subrange(0, i as int).lemma_filter_push(bytes@[i as int], not_zero());
        }
        if bytes[i] != 0 {
            kept.push(bytes[i]);
        }
        i = i + 1;
    }
    proof {
        assert(bytes@.subrange(0, bytes@.len() as int) =~= bytes@);
        encoding_without_zero_bytes(s@);
        vstd::utf8::encode_utf8_valid_utf8(s@.filter(not_nul()));
    }
    match utf8_str(kept.as_slice()) {
        Ok(text) => {
            proof {
                vstd::utf8::encode_utf8_decode_utf8(text@);
                vstd::utf8::encode_utf8_decode_utf8(s@.filter(not_nul()));
            }
            text.to_owned()
        },
        Err(_) => {
            proof {
                assert(false);
            }
            String::new()
        },
    }
}

/// Extracts string from byte array, removing \0 symbols
pub fn extract_string(bytes: &[u8]) -> (r: Result<String, std::str::Utf8Error>)
    ensures
        match r {
            Ok(s) => valid_utf8(bytes@) && s@ == decode_utf8(bytes@).filter(not_nul()),
            Err(_) => !valid_utf8(bytes@),
        },
{
    match utf8_str(bytes) {
        Ok(text) => {
            proof {
                vstd::utf8::decode_utf8_encode_utf8(bytes@);
                vstd::utf8::encode_utf8_decode_utf8(text@);
            }
            Ok(strip_nul(text))
        },
        Err(e) => Err(e),
    }
}

/// On every protocol v1 device the native and the normalized index of every
/// key translate into each other.
pub proof fn key_indices_round_trip(kind: Kind, key: u8)
    requires
        kind.is_v1_api(),
        key < kind.key_count(),
    ensures
        kind.native_of(key) matches Some(native) && kind.key_of_native(native) == Some(key),
        kind.key_of_native(key) matches Some(normal) && kind.native_of(normal) == Some(key),
{
    let to = native_of_key();
    let from = akp153_key_of_native();
    assert(to[0] == 12 && from[12] == 0 && from[0] == 4 && to[4] == 0);
    assert(to[1] == 9 && from[9] == 1 && from[1] == 10 && to[10] == 1);
    assert(to[2] == 6 && from[6] == 2 && from[2] == 16 && to[16] == 2);
    assert(to[3] == 3 && from[3] == 3);
    assert(to[4] == 0 && from[0] == 4 && from[4] == 9 && to[9] == 4);
    assert(to[5] == 15 && from[15] == 5 && from[5] == 15 && to[15] == 5);
    assert(to[6] == 13 && from[13] == 6 && from[6] == 2 && to[2] == 6);
    assert(to[7] == 10 && from[10] == 7 && from[7] == 8 && to[8] == 7);
    assert(to[8] == 7 && from[7] == 8 && from[8] == 14 && to[14] == 8);
    assert(to[9] == 4 && from[4] == 9 && from[9] == 1 && to[1] == 9);
    assert(to[10] == 1 && from[1] == 10 && from[10] == 7 && to[7] == 10);
    assert(to[11] == 16 && from[16] == 11 && from[11] == 13 && to[13] == 11);
    assert(to[12] == 14 && from[14] == 12 && from[12] == 0 && to[0] == 12);
    assert(to[13] == 11 && from[11] == 13 && from[13] == 6 && to[6] == 13);
    assert(to[14] == 8 && from[8] == 14 && from[14] == 12 && to[12] == 14);
    assert(to[15] == 5 && from[5] == 15);
    assert(to[16] == 2 && from[2] == 16 && from[16] == 11 && to[11] == 16);
    assert(to[17] == 17 && from[17] == 17);
}

/// The key numbering of the protocol v1 devices. On the AKP153 family native
/// key 0, 1, 2, ... is key 4, 10, 16, 3, 9, 15, 2, 8, 14, 1, 7, 13, 0, 6, 12, 5,
/// 11, 17, and key 0, 1, 2, ... is native key 12, 9, 6, 3, 0, 15, 13, 10, 7, 4,
/// 1, 16, 14, 11, 8, 5, 2, 17; on the AKP815 native key `i` is key `14 - i` and
/// the other way round. Indices past the keys have no key, and are kept as
/// they are on the way to the device.
pub proof fn key_numbering(kind: Kind, i: u8)
    ensures
        kind is Akp153 || kind is Akp153E || kind is Akp153R || kind is MadDogGk150W ==> {
            &&& i < 18 ==> kind.key_of_native(i) == Some(
                seq![4u8, 10, 16, 3, 9, 15, 2, 8, 14, 1, 7, 13, 0, 6, 12, 5, 11, 17][i as int],
            )
            &&& i < 18 ==> kind.native_of(i) == Some(
                seq![12u8, 9, 6, 3, 0, 15, 13, 10, 7, 4, 1, 16, 14, 11, 8, 5, 2, 17][i as int],
            )
            &&& i >= 18 ==> kind.key_of_native(i) is None && kind.native_of(i) == Some(i)
        },
        kind is Akp815 ==> {
            &&& i < 15 ==> kind.key_of_native(i) == Some((14 - i) as u8)
            &&& i < 15 ==> kind.native_of(i) == Some((14 - i) as u8)
            &&& i >= 15 ==> kind.key_of_native(i) is None && kind.native_of(i) == Some(i)
        },
        kind is Akp03 || kind is Akp03E || kind is Akp03R || kind is Akp03RRev2 ==> {
            &&& kind.key_of_native(i) is None
            &&& kind.native_of(i) is None
        },
{
    assert(akp153_key_of_native() =~= seq![4u8, 10, 16, 3, 9, 15, 2, 8, 14, 1, 7, 13, 0, 6, 12, 5, 11, 17]);
    assert(native_of_key() =~= seq![12u8, 9, 6, 3, 0, 15, 13, 10, 7, 4, 1, 16, 14, 11, 8, 5, 2, 17]);
}

/// The AKP03 action codes: 1 to 6 press the six display buttons, 0x25, 0x30
/// and 0x31 the three buttons without a display; 0x90/0x91, 0x50/0x51 and
/// 0x60/0x61 turn encoder 0, 1 and 2 counter-clockwise/clockwise; 0x33, 0x35
/// and 0x34 press encoder 0, 1 and 2. Every other code is malformed.
pub proof fn akp03_action_codes(code: u8)
    ensures
        akp03_input(code) == if 1 <= code <= 6 {
            Some(InputState::ButtonStateChange(pressed_only(9, code - 1)))
        } else if code == 0x25 {
            Some(InputState::ButtonStateChange(pressed_only(9, 6)))
        } else if code == 0x30 {
            Some(InputState::ButtonStateChange(pressed_only(9, 7)))
        } else if code == 0x31 {
            Some(InputState::ButtonStateChange(pressed_only(9, 8)))
        } else if code == 0x90 {
            Some(InputState::EncoderTwist(twisted_only(3, 0, -1i8)))
        } else if code == 0x91 {
            Some(InputState::EncoderTwist(twisted_only(3, 0, 1i8)))
        } else if code == 0x50 {
            Some(InputState::EncoderTwist(twisted_only(3, 1, -1i8)))
        } else if code == 0x51 {
            Some(InputState::EncoderTwist(twisted_only(3, 1, 1i8)))
        } else if code == 0x60 {
            Some(InputState::EncoderTwist(twisted_only(3, 2, -1i8)))
        } else if code == 0x61 {
            Some(InputState::EncoderTwist(twisted_only(3, 2, 1i8)))
        } else if code == 0x33 {
            Some(InputState::EncoderStateChange(pressed_only(3, 0)))
        } else if code == 0x35 {
            Some(InputState::EncoderStateChange(pressed_only(3, 1)))
        } else if code == 0x34 {
            Some(InputState::EncoderStateChange(pressed_only(3, 2)))
        } else {
            None
        },
{
}

/// A report is read from two bytes only: byte 0, which is zero when there is
/// no data, and byte 9, the action code; a protocol v1 device reports action
/// code `c > 0` as a press of the key of native index `c - 1`, and code 0 as
/// all keys released.
pub proof fn report_bytes_read(kind: Kind, data: Seq<u8>, other: Seq<u8>)
    requires
        data.len() >= 10,
        other.len() >= 10,
    ensures
        data[0] == other[0] && data[9] == other[9] ==> kind.decoded_input(data)
            == kind.decoded_input(other),
        data[0] == 0 ==> kind.decoded_input(data) == Some(InputState::NoData),
        data[0] != 0 && kind.is_v1_api() && data[9] == 0 ==> kind.decoded_input(data) == Some(
            InputState::ButtonStateChange(all_released(kind.key_count() as nat)),
        ),
        data[0] != 0 && kind.is_v1_api() && data[9] != 0 ==> kind.decoded_input(data) == match kind.key_of_native((data[9] - 1) as u8) {
            Some(key) => Some(InputState::ButtonStateChange(pressed_only(kind.key_count() as nat, key as int))),
            None => None,
        },
        data[0] != 0 && kind.is_akp03() ==> kind.decoded_input(data) == akp03_input(data[9]),
{
}

/// A device acknowledges a command with the bytes "ACK", two zero bytes and "OK".
pub proof fn acknowledgement_bytes()
    ensures
        codes::ack_ok_bytes() == seq![0x41u8, 0x43, 0x4b, 0x00, 0x00, 0x4f, 0x4b],
{
    assert(codes::ack_ok_bytes() =~= seq![0x41u8, 0x43, 0x4b, 0x00, 0x00, 0x4f, 0x4b]);
}

/// The state sequences that reports give: `len` entries each, with only entry
/// `index` set (pressed, or turned by `value`), or nothing set at all.
pub proof fn state_sequences(len: nat, index: int, value: i8)
    ensures
        pressed_only(len, index).len() == len,
        all_released(len).len() == len,
        twisted_only(len, index, value).len() == len,
        forall|i: int| 0 <= i < len ==> (#[trigger] pressed_only(len, index)[i] <==> i == index),
        forall|i: int| 0 <= i < len ==> !#[trigger] all_released(len)[i],
        forall|i: int|
            0 <= i < len ==> #[trigger] twisted_only(len, index, value)[i] == if i == index {
                value
            } else {
                0i8
            },
{
}

/// A decoded report is sized for the device and sets at most one control: one
/// pressed button, one pressed encoder, or one encoder turned by one step.
pub proof fn decoded_input_reports_one_control(kind: Kind, data: Seq<u8>)
    ensures
        match kind.decoded_input(data) {
            Some(InputState::ButtonStateChange(states)) => {
                &&& states.len() == kind.key_count()
                &&& forall|i: int, j: int|
                    0 <= i < states.len() && 0 <= j < states.len() && states[i] && states[j]
                        ==> i == j
            },
            Some(InputState::EncoderStateChange(states)) => {
                &&& states.len() == kind.encoder_count()
                &&& forall|i: int, j: int|
                    0 <= i < states.len() && 0 <= j < states.len() && states[i] && states[j]
                        ==> i == j
            },
            Some(InputState::EncoderTwist(values)) => {
                &&& values.len() == kind.encoder_count()
                &&& forall|i: int| 0 <= i < values.len() ==> -1 <= #[trigger] values[i] <= 1
                &&& forall|i: int, j: int|
                    0 <= i < values.len() && 0 <= j < values.len() && values[i] != 0 && values[j]
                        != 0 ==> i == j
            },
            _ => true,
        },
{
}

/// A text stripped of NUL characters has none left.
pub proof fn stripped_text_has_no_nul(text: Seq<char>)
    ensures
        forall|i: int|
            0 <= i < text.filter(not_nul()).len() ==> #[trigger] text.filter(not_nul())[i] != '\0',
{
    assert forall|i: int| 0 <= i < text.filter(not_nul()).len() implies #[trigger] text.filter(
        not_nul(),
    )[i] != '\0' by {
        text.lemma_filter_pred(not_nul(), i);
    }
}

} // verus!
