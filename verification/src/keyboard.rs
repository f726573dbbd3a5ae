//! The scancode decoder: raw keyboard bytes in, key transitions and decoded
//! keys out. The decoding itself is `pc_keyboard`'s, for scancode set 1 and a
//! UK 105-key layout; this module owns the decoder's state and what is shown
//! for a decoded key.

use crate::vga_buffer::Writer;
use pc_keyboard::layouts::Uk105Key;
use pc_keyboard::{HandleControl, KeyCode, Keyboard, ScancodeSet1};
use vstd::prelude::*;

verus! {

/// Port from which the keyboard controller's data byte is read.
pub const KEYBOARD_DATA_PORT: u16 = 0x60;

/// First scancode that reports a key coming up: a release is the press code
/// with its top bit set.
pub const RELEASE_BASE: u8 = 0x80;

/// Scancode that opens a two-byte sequence.
pub const EXTENDED_PREFIX: u8 = 0xE0;

/// `pc_keyboard::KeyCode`: the logical key a scancode stands for. Opaque here;
/// it is carried from the decoder to the text surface.
#[verifier::external_type_specification]
#[verifier::external_body]
pub struct ExKeyCode(KeyCode);

/// `pc_keyboard::Error`: why a byte could not be decoded. Opaque here.
#[verifier::external_type_specification]
#[verifier::external_body]
pub struct ExError(pc_keyboard::Error);

/// Whether a key went down or came up.
#[derive(Debug, Clone, Copy, PartialEq, Eq, Structural)]
pub enum KeyState {
    Up,
    Down,
}

/// One key transition, assembled from one or more scancode bytes.
#[derive(Debug, Clone, Copy, PartialEq, Eq)]
pub struct KeyEvent {
    pub code: KeyCode,
    pub state: KeyState,
}

/// What a key press means under the layout: a character, or a key that has
/// none.
#[derive(Debug, Clone, Copy, PartialEq, Eq)]
pub enum DecodedKey {
    RawKey(KeyCode),
    Unicode(char),
}

/// The decoder's state between bytes: the scancode sequence in progress and
/// the modifier keys held. It lives in a `pc_keyboard::Keyboard`, whose layout
/// and scancode set are type parameters bound by that crate's traits, so the
/// field is hidden from the verifier; its view is the `DecoderState` that
/// `decoder_state` stands for.
#[verifier::external_body]
pub struct Decoder {
    keyboard: Keyboard<Uk105Key, ScancodeSet1>,
}

/// The modifier keys as the decoder takes them: held, or locked on.
#[derive(Debug, Clone, Copy, PartialEq, Eq, Structural)]
pub struct Modifiers {
    pub lshift: bool,
    pub rshift: bool,
    pub lctrl: bool,
    pub rctrl: bool,
    pub numlock: bool,
    pub capslock: bool,
    pub alt_gr: bool,
}

/// What a decoder holds between two calls, as a mathematical value.
pub struct DecoderState {
    /// The prefix byte has been consumed and the byte that completes the
    /// sequence is still to come.
    pub sequence_open: bool,
    /// The modifier keys held or locked.
    pub modifiers: Modifiers,
}

/// What the `pc_keyboard::Keyboard` inside a decoder holds: whether it is
/// inside a two-byte sequence, and its modifier flags.
pub uninterp spec fn decoder_state(decoder: Decoder) -> DecoderState;

/// What `Keyboard::add_byte` returns under scancode set 1 for `byte`, inside
/// a two-byte sequence or at the start of one.
pub uninterp spec fn add_byte_result(sequence_open: bool, byte: u8) -> Result<
    Option<KeyEvent>,
    pc_keyboard::Error,
>;

/// What `Keyboard::process_keyevent` does with `event` under the UK layout
/// when the modifiers stand as given: the modifiers afterwards, and the key
/// it returns.
pub uninterp spec fn process_keyevent_result(modifiers: Modifiers, event: KeyEvent) -> (
    Modifiers,
    Option<DecodedKey>,
);

/// The name of a key as `pc_keyboard` prints it with `{:?}`.
pub uninterp spec fn key_code_name(code: KeyCode) -> Seq<char>;

impl DecoderState {
    /// A decoder that has consumed nothing: no sequence open, number lock on,
    /// no other modifier held or locked.
    pub open spec fn initial() -> DecoderState {
        DecoderState {
            sequence_open: false,
            modifiers: Modifiers {
                lshift: false,
                rshift: false,
                lctrl: false,
                rctrl: false,
                numlock: true,
                capslock: false,
                alt_gr: false,
            },
        }
    }

    /// The key transition that `byte` completes, if any. A byte that opens a
    /// sequence or that belongs to no key completes none.
    pub open spec fn event_for(self, byte: u8) -> Option<KeyEvent> {
        match add_byte_result(self.sequence_open, byte) {
            Ok(Some(event)) => Some(event),
            Ok(None) => None,
            Err(_) => None,
        }
    }

    /// The state after `byte` is consumed: the prefix byte opens a sequence
    /// at the start of one, any byte closes an open one, and the modifiers
    /// stay as they are.
    pub open spec fn after_byte(self, byte: u8) -> DecoderState {
        DecoderState {
            sequence_open: !self.sequence_open && byte == EXTENDED_PREFIX,
            modifiers: self.modifiers,
        }
    }

    /// The key that `event` resolves to under the modifiers held.
    pub open spec fn key_for(self, event: KeyEvent) -> Option<DecodedKey> {
        process_keyevent_result(self.modifiers, event).1
    }

    /// The state after `event` is resolved: the modifiers may have changed,
    /// the sequence in progress has not.
    pub open spec fn after_event(self, event: KeyEvent) -> DecoderState {
        DecoderState {
            sequence_open: self.sequence_open,
            modifiers: process_keyevent_result(self.modifiers, event).0,
        }
    }

    /// The key that `byte` decodes to: the transition it completes, resolved.
    pub open spec fn decoded(self, byte: u8) -> Option<DecodedKey> {
        match self.event_for(byte) {
            Some(event) => self.after_byte(byte).key_for(event),
            None => None,
        }
    }

    /// The state after `byte` is decoded: consumed, and the transition it
    /// completes resolved.
    pub open spec fn after_decode(self, byte: u8) -> DecoderState {
        match self.event_for(byte) {
            Some(event) => self.after_byte(byte).after_event(event),
            None => self.after_byte(byte),
        }
    }
}

impl View for Decoder {
    type V = DecoderState;

    open spec fn view(&self) -> DecoderState {
        decoder_state(*self)
    }
}

/// The text shown for a decoded key: the character itself, or the key's name.
pub open spec fn key_text(key: DecodedKey) -> Seq<char> {
    match key {
        DecodedKey::Unicode(character) => seq![character],
        DecodedKey::RawKey(code) => key_code_name(code),
    }
}

/// `Keyboard::new` of `pc_keyboard`, with the UK 105-key layout, scancode set 1
/// and control combinations passed through. Claimed: the keyboard starts
/// outside any sequence, with number lock on and every other modifier off.
#[verifier::external_body]
fn keyboard_new() -> (decoder: Decoder)
    ensures
        decoder_state(decoder) == DecoderState::initial(),
{
    Decoder { keyboard: Keyboard::new(Uk105Key, ScancodeSet1, HandleControl::Ignore) }
}

/// `Keyboard::add_byte` of `pc_keyboard`; the event is handed on field by
/// field. Claimed of scancode set 1: the result depends only on the byte and
/// on whether a sequence is open, and is the one `add_byte_result` stands
/// for; the prefix byte opens a sequence at the start of one, any byte closes
/// an open one, and the modifiers are not touched; an event reports a release
/// exactly when the byte has its top bit set, and the prefix byte never
/// yields an event. Which key an event names is not claimed.
#[verifier::external_body]
fn keyboard_add_byte(decoder: &mut Decoder, byte: u8) -> (result: Result<
    Option<KeyEvent>,
    pc_keyboard::Error,
>)
    ensures
        result == add_byte_result(decoder_state(*old(decoder)).sequence_open, byte),
        decoder_state(*final(decoder)).sequence_open == (!decoder_state(
            *old(decoder),
        ).sequence_open && byte == EXTENDED_PREFIX),
        decoder_state(*final(decoder)).modifiers == decoder_state(*old(decoder)).modifiers,
        result matches Ok(Some(event)) ==> (event.state == KeyState::Up <==> byte >= RELEASE_BASE),
        byte == EXTENDED_PREFIX ==> !(result matches Ok(Some(_))),
{
    match decoder.keyboard.add_byte(byte) {
        Ok(Some(event)) => Ok(Some(KeyEvent {
            code: event.code,
            state: match event.state {
                pc_keyboard::KeyState::Up => KeyState::Up,
                pc_keyboard::KeyState::Down => KeyState::Down,
            },
        })),
        Ok(None) => Ok(None),
        Err(error) => Err(error),
    }
}

/// `Keyboard::process_keyevent` of `pc_keyboard`; the event goes in and the
/// key comes out variant by variant. Claimed: the key and the modifiers
/// afterwards depend only on the event and on the modifiers before, and are
/// the ones `process_keyevent_result` stands for; the sequence in progress is
/// not touched; a release never decodes to a key. What a press decodes to is
/// not claimed.
#[verifier::external_body]
fn keyboard_process_keyevent(decoder: &mut Decoder, event: KeyEvent) -> (key: Option<DecodedKey>)
    ensures
        key == process_keyevent_result(decoder_state(*old(decoder)).modifiers, event).1,
        decoder_state(*final(decoder)).modifiers == process_keyevent_result(
            decoder_state(*old(decoder)).modifiers,
            event,
        ).0,
        decoder_state(*final(decoder)).sequence_open == decoder_state(
            *old(decoder),
        ).sequence_open,
        event.state == KeyState::Up ==> key is None,
{
    let state = match event.state {
        KeyState::Up => pc_keyboard::KeyState::Up,
        KeyState::Down => pc_keyboard::KeyState::Down,
    };
    match decoder.keyboard.process_keyevent(pc_keyboard::KeyEvent::new(event.code, state)) {
        Some(pc_keyboard::DecodedKey::RawKey(code)) => Some(DecodedKey::RawKey(code)),
        Some(pc_keyboard::DecodedKey::Unicode(character)) => Some(DecodedKey::Unicode(character)),
        None => None,
    }
}

/// `Debug` of `pc_keyboard`'s `KeyCode`. Claimed: the text is the one that
/// `key_code_name` stands for, the same for the same key.
#[verifier::external_body]
fn key_code_debug(code: KeyCode) -> (text: String)
    ensures
        text@ == key_code_name(code),
{
    format!("{:?}", code)
}

/// `String::from` of the standard library on a `char`. Claimed: the string
/// is made of that one character.
#[verifier::external_body]
fn string_from_char(character: char) -> (text: String)
    ensures
        text@ == seq![character],
{
    String::from(character)
}

impl Decoder {
    /// A decoder at the start of a sequence, with number lock on and no
    /// other modifier held or locked.
    pub fn new() -> (decoder: Self)
        ensures
            decoder@ == DecoderState::initial(),
    {
        keyboard_new()
    }

    /// Consumes one raw scancode byte. Returns the key transition it
    /// completes, if any; a byte that opens or continues a sequence, or that
    /// belongs to no key, gives `None` and is absorbed.
    pub fn feed(&mut self, byte: u8) -> (event: Option<KeyEvent>)
        ensures
            event == old(self)@.event_for(byte),
            final(self)@ == old(self)@.after_byte(byte),
            event matches Some(e) ==> (e.state == KeyState::Up <==> byte >= RELEASE_BASE),
            byte == EXTENDED_PREFIX ==> event is None,
    {
        match keyboard_add_byte(self, byte) {
            Ok(Some(event)) => Some(event),
            Ok(None) => None,
            Err(_) => None,
        }
    }

    /// Maps a key transition through the layout. A press of a modifier key
    /// only changes how later keys resolve; a release never resolves to a
    /// key.
    pub fn resolve(&mut self, event: KeyEvent) -> (key: Option<DecodedKey>)
        ensures
            key == old(self)@.key_for(event),
            final(self)@ == old(self)@.after_event(event),
            event.state == KeyState::Up ==> key is None,
    {
        keyboard_process_keyevent(self, event)
    }

    /// Feeds one byte and resolves the transition it completes: the two
    /// stages in a row. Bytes at or above `RELEASE_BASE`, the prefix byte
    /// among them, never decode to a key.
    pub fn decode(&mut self, byte: u8) -> (key: Option<DecodedKey>)
        ensures
            key == old(self)@.decoded(byte),
            final(self)@ == old(self)@.after_decode(byte),
            byte >= RELEASE_BASE ==> key is None,
    {
        match self.feed(byte) {
            Some(event) => self.resolve(event),
            None => None,
        }
    }
}

/// Writes a decoded key to the surface: a character as itself, any other key
/// by its name.
pub fn print_key(writer: &mut Writer, key: DecodedKey)
    ensures
        final(writer)@ == old(writer)@.write_str(key_text(key)),
        final(writer)@.wf(),
{
    match key {
        DecodedKey::Unicode(character) => {
            let text = string_from_char(character);
            writer.write_string(text.as_str());
        },
        DecodedKey::RawKey(code) => {
            let text = key_code_debug(code);
            writer.write_string(text.as_str());
        },
    }
}

} // verus!
