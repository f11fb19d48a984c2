//! Fixed-capacity texts for the screen, held in heapless strings as on
//! the device (no heap needed).

use vstd::prelude::*;

verus! {

/// Capacity in bytes of a peer address text.
pub const PEER_TEXT_CAPACITY: usize = 24;

/// Capacity in bytes of a battery line.
pub const BATTERY_TEXT_CAPACITY: usize = 16;

/// A byte did not fit into a text.
#[derive(Debug, Clone, Copy, PartialEq, Eq, Structural)]
pub struct TextFull;

/// The text of a peer address, in a heapless string of 24 bytes.
#[verifier::external_body]
pub struct PeerText {
    text: heapless::String<24>,
}

/// The bytes that a peer address text holds.
pub uninterp spec fn peer_text_bytes(text: PeerText) -> Seq<u8>;

/// The battery line, in a heapless string of 16 bytes.
#[verifier::external_body]
pub struct BatteryText {
    text: heapless::String<16>,
}

/// The bytes that a battery line holds.
pub uninterp spec fn battery_text_bytes(text: BatteryText) -> Seq<u8>;

/// The characters of ASCII bytes.
pub open spec fn ascii_chars(bytes: Seq<u8>) -> Seq<char> {
    bytes.map_values(|b: u8| b as char)
}

pub open spec fn all_ascii(bytes: Seq<u8>) -> bool {
    forall|i: int| 0 <= i < bytes.len() ==> #[trigger] bytes[i] < 128
}

/// `heapless::String::new`: an empty string.
#[verifier::external_body]
pub(crate) fn peer_text_new() -> (r: PeerText)
    ensures
        peer_text_bytes(r) == Seq::<u8>::empty(),
{
    PeerText { text: heapless::String::new() }
}

/// `heapless::String::push` of an ASCII character: the character's byte
/// is appended while the 24 bytes are not used up; otherwise the string is
/// left as it was and the push fails.
#[verifier::external_body]
pub(crate) fn peer_text_push(text: &mut PeerText, byte: u8) -> (r: Result<(), TextFull>)
    requires
        byte < 128,
    ensures
        peer_text_bytes(*old(text)).len() < PEER_TEXT_CAPACITY ==> r is Ok && peer_text_bytes(
            *final(text),
        ) == peer_text_bytes(*old(text)).push(byte),
        peer_text_bytes(*old(text)).len() >= PEER_TEXT_CAPACITY ==> r is Err && peer_text_bytes(
            *final(text),
        ) == peer_text_bytes(*old(text)),
{
    match text.text.push(byte as char) {
        Ok(()) => Ok(()),
        Err(_) => Err(TextFull),
    }
}

/// `heapless::String::as_str`: the string's bytes as text, which for
/// ASCII bytes are the characters of those bytes.
#[verifier::external_body]
pub(crate) fn peer_text_str(text: &PeerText) -> (r: &str)
    ensures
        all_ascii(peer_text_bytes(*text)) ==> r@ == ascii_chars(peer_text_bytes(*text)),
{
    text.text.as_str()
}

/// `heapless::String::new`: an empty string.
#[verifier::external_body]
pub(crate) fn battery_text_new() -> (r: BatteryText)
    ensures
        battery_text_bytes(r) == Seq::<u8>::empty(),
{
    BatteryText { text: heapless::String::new() }
}

/// `heapless::String::push` of an ASCII character: the character's byte
/// is appended while the 16 bytes are not used up; otherwise the string is
/// left as it was and the push fails.
#[verifier::external_body]
pub(crate) fn battery_text_push(text: &mut BatteryText, byte: u8) -> (r: Result<(), TextFull>)
    requires
        byte < 128,
    ensures
        battery_text_bytes(*old(text)).len() < BATTERY_TEXT_CAPACITY ==> r is Ok
            && battery_text_bytes(*final(text)) == battery_text_bytes(*old(text)).push(byte),
        battery_text_bytes(*old(text)).len() >= BATTERY_TEXT_CAPACITY ==> r is Err
            && battery_text_bytes(*final(text)) == battery_text_bytes(*old(text)),
{
    match text.text.push(byte as char) {
        Ok(()) => Ok(()),
        Err(_) => Err(TextFull),
    }
}

/// `heapless::String::as_str`: the string's bytes as text, which for
/// ASCII bytes are the characters of those bytes.
#[verifier::external_body]
pub(crate) fn battery_text_str(text: &BatteryText) -> (r: &str)
    ensures
        all_ascii(battery_text_bytes(*text)) ==> r@ == ascii_chars(battery_text_bytes(*text)),
{
    text.text.as_str()
}

impl PeerText {
    /// An empty text.
    pub fn new() -> (r: PeerText)
        ensures
            peer_text_bytes(r) == Seq::<u8>::empty(),
    {
        peer_text_new()
    }

    /// The text, for drawing.
    pub fn as_str(&self) -> (r: &str)
        ensures
            all_ascii(peer_text_bytes(*self)) ==> r@ == ascii_chars(peer_text_bytes(*self)),
    {
        peer_text_str(self)
    }
}

impl BatteryText {
    /// An empty text.
    pub fn new() -> (r: BatteryText)
        ensures
            battery_text_bytes(r) == Seq::<u8>::empty(),
    {
        battery_text_new()
    }

    /// The text, for drawing.
    pub fn as_str(&self) -> (r: &str)
        ensures
            all_ascii(battery_text_bytes(*self)) ==> r@ == ascii_chars(battery_text_bytes(*self)),
    {
        battery_text_str(self)
    }
}

} // verus!
