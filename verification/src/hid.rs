//! HID reports sent over BLE, the notification switches that a host
//! writes, and the text form of a peer address.

use vstd::prelude::*;

use crate::config::{MOUSE_BUTTON_LEFT, MOUSE_BUTTON_MIDDLE, MOUSE_BUTTON_RIGHT};
use crate::text::{all_ascii, peer_text_bytes, peer_text_push, PeerText, PEER_TEXT_CAPACITY};

verus! {

/// How long a key or a click is held down, in milliseconds.
pub const KEY_PRESS_DURATION_MS: u64 = 20;

/// A signed report byte as it goes on the wire (two's complement).
pub open spec fn wire_byte(v: i8) -> u8 {
    if v < 0 {
        (v + 256) as u8
    } else {
        v as u8
    }
}

/// A keyboard report with one key down and no modifiers.
pub fn keyboard_report(key_code: u8) -> (r: [u8; 8])
    ensures
        r@ == seq![0u8, 0u8, key_code, 0u8, 0u8, 0u8, 0u8, 0u8],
{
    let r = [0x00, 0x00, key_code, 0, 0, 0, 0, 0];
    assert(r@ =~= seq![0u8, 0u8, key_code, 0u8, 0u8, 0u8, 0u8, 0u8]);
    r
}

/// A keyboard report with all keys up.
pub fn keyboard_release_report() -> (r: [u8; 8])
    ensures
        r@ == Seq::new(8, |i: int| 0u8),
{
    let r = [0u8; 8];
    assert(r@ =~= Seq::new(8, |i: int| 0u8));
    r
}

/// A mouse report: buttons, X and Y motion, and wheel.
pub fn mouse_report(buttons: u8, dx: i8, dy: i8, wheel: i8) -> (r: [u8; 4])
    ensures
        r@ == seq![buttons, wire_byte(dx), wire_byte(dy), wire_byte(wheel)],
{
    let x = dx as u8;
    let y = dy as u8;
    let w = wheel as u8;
    assert(x == wire_byte(dx)) by (bit_vector)
        requires
            x == dx as u8,
    ;
    assert(y == wire_byte(dy)) by (bit_vector)
        requires
            y == dy as u8,
    ;
    assert(w == wire_byte(wheel)) by (bit_vector)
        requires
            w == wheel as u8,
    ;
    let r = [buttons, x, y, w];
    assert(r@ =~= seq![buttons, wire_byte(dx), wire_byte(dy), wire_byte(wheel)]);
    r
}

/// The mouse buttons of a click: only left, right and middle are kept;
/// 0 means there is nothing to click.
pub fn click_buttons(button: u8) -> (r: u8)
    ensures
        r == button & 7u8,
{
    let mask = MOUSE_BUTTON_LEFT | MOUSE_BUTTON_RIGHT | MOUSE_BUTTON_MIDDLE;
    assert(mask == 7u8) by (bit_vector)
        requires
            mask == 1u8 | 2u8 | 4u8,
    ;
    button & mask
}

/// A write to a client characteristic configuration descriptor: with at
/// least two bytes, notifications are on when bit 0 of the first byte is
/// set; shorter writes change nothing.
pub fn notifications_enabled(data: &[u8]) -> (r: Option<bool>)
    ensures
        data@.len() >= 2 ==> r == Some(data@[0] & 1u8 != 0),
        data@.len() < 2 ==> r is None,
{
    if data.len() >= 2 {
        Some(data[0] & 1 != 0)
    } else {
        None
    }
}

/// ASCII code of a lower case hexadecimal digit.
pub open spec fn hex_digit(d: nat) -> u8 {
    if d < 10 {
        (48 + d) as u8
    } else {
        (87 + d) as u8
    }
}

/// Two hexadecimal digits of a byte.
pub open spec fn hex_pair(b: u8) -> Seq<u8> {
    seq![hex_digit((b / 16) as nat), hex_digit((b % 16) as nat)]
}

/// The bytes of an address from the most significant, as hexadecimal
/// pairs separated by colons; `count` pairs.
pub open spec fn address_text_prefix(raw: Seq<u8>, count: nat) -> Seq<u8>
    decreases count,
{
    if count == 0 {
        Seq::empty()
    } else if count == 1 {
        hex_pair(raw[5])
    } else {
        address_text_prefix(raw, (count - 1) as nat) + seq![58u8] + hex_pair(raw[6 - count])
    }
}

/// A peer address as shown on the screen: `aa:bb:cc:dd:ee:ff`, most
/// significant byte first.
pub open spec fn address_text(raw: Seq<u8>) -> Seq<u8> {
    address_text_prefix(raw, 6)
}

fn hex_digit_of(d: u8) -> (r: u8)
    requires
        d < 16,
    ensures
        r == hex_digit(d as nat),
{
    if d < 10 {
        48 + d
    } else {
        87 + d
    }
}

/// Writes the screen text of a peer address, given least significant
/// byte first, after what `output` already holds.
pub fn format_peer_address(output: &mut PeerText, raw: [u8; 6])
    requires
        peer_text_bytes(*old(output)).len() + 17 <= PEER_TEXT_CAPACITY,
    ensures
        peer_text_bytes(*final(output)) == peer_text_bytes(*old(output)) + address_text(raw@),
        address_text(raw@).len() == 17,
        all_ascii(address_text(raw@)),
{
    let ghost start = peer_text_bytes(*output);
    let mut count: usize = 0;
    while count < 6
        invariant
            0 <= count <= 6,
            raw@.len() == 6,
            start.len() + 17 <= PEER_TEXT_CAPACITY,
            peer_text_bytes(*output) == start + address_text_prefix(raw@, count as nat),
            count > 0 ==> address_text_prefix(raw@, count as nat).len() == 3 * count - 1,
            count == 0 ==> address_text_prefix(raw@, count as nat).len() == 0,
            all_ascii(address_text_prefix(raw@, count as nat)),
        decreases 6 - count,
    {
        let b = raw[5 - count];
        let ghost before = peer_text_bytes(*output);
        if count > 0 {
            let _ = peer_text_push(output, 58);
        }
        let high = hex_digit_of(b / 16);
        let low = hex_digit_of(b % 16);
        let _ = peer_text_push(output, high);
        let _ = peer_text_push(output, low);
        count = count + 1;
        assert(address_text_prefix(raw@, count as nat) =~= if count > 1 {
            address_text_prefix(raw@, (count - 1) as nat) + seq![58u8] + hex_pair(b)
        } else {
            hex_pair(b)
        });
        assert(peer_text_bytes(*output) =~= start + address_text_prefix(raw@, count as nat));
    }
}

} // verus!
