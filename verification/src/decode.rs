//! The step a consumer task takes for each scancode it receives: feed the
//! byte to the keyboard decoder and hand back what is to be written out.

use vstd::prelude::*;
use pc_keyboard::{DecodedKey, HandleControl, KeyEvent, Keyboard, ScancodeSet1};
use pc_keyboard::layouts::Us104Key;

verus! {

#[verifier::external_type_specification]
#[verifier::external_body]
pub struct ExKeyEvent(pc_keyboard::KeyEvent);

#[verifier::external_type_specification]
#[verifier::external_body]
pub struct ExKeyboardError(pc_keyboard::Error);

/// What a decoded key press asks to be written out.
#[derive(Debug, PartialEq, Eq)]
pub enum KeyOutput {
    /// A printable character.
    Character(char),
    /// A key without a character, by the name of its key code.
    Raw(String),
}

/// The stage of the byte sequence a decoder is in: the keyboard's decode
/// state by its place among the four it can take, 0 for the start of a
/// sequence and 1 after the prefix of an extended key.
pub uninterp spec fn decoder_phase(d: Decoder) -> u8;

/// The modifiers a decoder holds, one bit for each flag the keyboard keeps:
/// left shift 1, right shift 2, left control 4, right control 8, num lock
/// 16, caps lock 32, alt-gr 64.
pub uninterp spec fn decoder_modifiers(d: Decoder) -> u8;

/// What `Keyboard::add_byte` answers for a byte fed in the given phase: a
/// complete key event, nothing yet, or an error.
pub uninterp spec fn add_byte_answer(phase: u8, byte: u8) -> Result<Option<KeyEvent>, pc_keyboard::Error>;

/// The phase `Keyboard::add_byte` leaves the decoder in.
pub uninterp spec fn phase_after(phase: u8, byte: u8) -> u8;

/// What `Keyboard::process_keyevent` answers for a key event under the
/// given modifiers, for the US 104-key layout with control combinations
/// passed through: a character as it is, a key code by its debug name, or
/// nothing.
pub uninterp spec fn process_answer(modifiers: u8, event: KeyEvent) -> Option<KeyOutput>;

/// The modifiers `Keyboard::process_keyevent` leaves the decoder with.
pub uninterp spec fn modifiers_after(modifiers: u8, event: KeyEvent) -> u8;

/// The phase of a decoder that has seen no byte: the start of a sequence.
pub const START_PHASE: u8 = 0;

/// The modifiers of a decoder that has seen no byte: num lock alone.
pub const START_MODIFIERS: u8 = 16;

/// `Keyboard::new` for the US 104-key layout and scancode set 1, with
/// control combinations passed through as plain letters. The keyboard
/// starts at the beginning of a sequence with num lock on and every other
/// modifier off.
#[verifier::external_body]
fn keyboard_new() -> (decoder: Decoder)
    ensures
        decoder_phase(decoder) == START_PHASE,
        decoder_modifiers(decoder) == START_MODIFIERS,
{
    Decoder { keyboard: Keyboard::new(Us104Key, ScancodeSet1, HandleControl::Ignore) }
}

/// `Keyboard::add_byte`: feeds one byte to the decoder, which answers with
/// a complete key event, with nothing yet, or with an error for a byte it
/// cannot place. The call reads and writes the decode state alone, so the
/// answer and the new phase are determined by the old phase and the byte,
/// and the modifiers stay as they were.
#[verifier::external_body]
fn keyboard_add_byte(decoder: &mut Decoder, byte: u8) -> (step: Result<Option<KeyEvent>, pc_keyboard::Error>)
    ensures
        step == add_byte_answer(decoder_phase(*old(decoder)), byte),
        decoder_phase(*final(decoder)) == phase_after(decoder_phase(*old(decoder)), byte),
        decoder_modifiers(*final(decoder)) == decoder_modifiers(*old(decoder)),
{
    decoder.keyboard.add_byte(byte)
}

/// `Keyboard::process_keyevent`: turns a key event into a decoded key, or
/// into nothing for a release or a modifier. A character is handed on as it
/// is and a key code by its debug name. The call reads and writes the
/// modifiers alone, besides the fixed control handling, so the answer and
/// the new modifiers are determined by the old modifiers and the event, and
/// the phase stays as it was.
#[verifier::external_body]
fn keyboard_process(decoder: &mut Decoder, event: KeyEvent) -> (output: Option<KeyOutput>)
    ensures
        output == process_answer(decoder_modifiers(*old(decoder)), event),
        decoder_modifiers(*final(decoder)) == modifiers_after(decoder_modifiers(*old(decoder)), event),
        decoder_phase(*final(decoder)) == decoder_phase(*old(decoder)),
{
    match decoder.keyboard.process_keyevent(event) {
        Some(DecodedKey::Unicode(character)) => Some(KeyOutput::Character(character)),
        Some(DecodedKey::RawKey(code)) => Some(KeyOutput::Raw(format!("{:?}", code))),
        None => None,
    }
}

/// The key event in a decoder's answer, if the answer holds one.
pub open spec fn completed(step: Result<Option<KeyEvent>, pc_keyboard::Error>) -> Option<KeyEvent> {
    match step {
        Ok(Some(e)) => Some(e),
        _ => None,
    }
}

/// What one decoding step writes out for a byte, given the phase and the
/// modifiers it starts from: the decoded key of the event the byte
/// completes, and nothing when it completes none.
pub open spec fn decoded(phase: u8, modifiers: u8, byte: u8) -> Option<KeyOutput> {
    match completed(add_byte_answer(phase, byte)) {
        Some(event) => process_answer(modifiers, event),
        None => None,
    }
}

/// The modifiers after one decoding step: those the processing of the
/// completed event leaves, and the old ones when the byte completes none.
pub open spec fn modifiers_decoded(phase: u8, modifiers: u8, byte: u8) -> u8 {
    match completed(add_byte_answer(phase, byte)) {
        Some(event) => modifiers_after(modifiers, event),
        None => modifiers,
    }
}

/// The key event a decoder step completed, if it completed one: an
/// incomplete sequence and a malformed one both yield nothing.
pub fn completed_event(step: Result<Option<KeyEvent>, pc_keyboard::Error>) -> (event: Option<KeyEvent>)
    ensures
        event == completed(step),
{
    match step {
        Ok(Some(e)) => Some(e),
        _ => None,
    }
}

/// The decoder state a consumer task carries from one scancode to the next.
/// The keyboard type is bounded by traits of its own crate, so it is held
/// here unseen by the verifier.
#[verifier::external_body]
pub struct Decoder {
    keyboard: Keyboard<Us104Key, ScancodeSet1>,
}

impl Decoder {
    /// The stage of the byte sequence the decoder is in.
    pub open spec fn phase(&self) -> u8 {
        decoder_phase(*self)
    }

    /// The modifiers the decoder holds.
    pub open spec fn modifiers(&self) -> u8 {
        decoder_modifiers(*self)
    }

    /// A decoder that has seen no byte yet: at the start of a sequence, with
    /// num lock on and every other modifier off.
    pub fn new() -> (decoder: Decoder)
        ensures
            decoder.phase() == START_PHASE,
            decoder.modifiers() == START_MODIFIERS,
    {
        keyboard_new()
    }

    /// Feeds one scancode to the decoder. When the byte completes a key
    /// event, the event is processed under the modifiers held and the key
    /// it decodes to, if any, is returned for the caller to write out. When
    /// the byte completes no event, because the sequence goes on or the
    /// byte cannot be placed, nothing is returned and the modifiers stay as
    /// they were.
    pub fn decode(&mut self, scancode: u8) -> (output: Option<KeyOutput>)
        ensures
            output == decoded(old(self).phase(), old(self).modifiers(), scancode),
            final(self).phase() == phase_after(old(self).phase(), scancode),
            final(self).modifiers() == modifiers_decoded(
                old(self).phase(),
                old(self).modifiers(),
                scancode,
            ),
    {
        match completed_event(keyboard_add_byte(self, scancode)) {
            Some(event) => keyboard_process(self, event),
            None => None,
        }
    }
}

} // verus!
