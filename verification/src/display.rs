//! What the status screen shows: texts, their colours, and the battery
//! gauge. Drawing them is the caller's part.

use vstd::prelude::*;

use crate::text::{all_ascii, ascii_chars, battery_text_bytes, battery_text_push, BatteryText};

verus! {

/// Connection status shown on the screen.
#[derive(Debug, Clone, Copy, PartialEq, Eq, Structural)]
pub enum Status {
    Waiting,
    Connected,
}

/// The colours the screen uses.
#[derive(Debug, Clone, Copy, PartialEq, Eq, Structural)]
pub enum Color {
    White,
    Green,
    Yellow,
    Red,
}

/// Colour of the status line.
pub fn status_color(status: Status) -> (r: Color)
    ensures
        r == (match status {
            Status::Waiting => Color::Yellow,
            Status::Connected => Color::Green,
        }),
{
    match status {
        Status::Waiting => Color::Yellow,
        Status::Connected => Color::Green,
    }
}

/// Text of the status line.
pub fn status_text(status: Status) -> (r: &'static str)
    ensures
        r@ == (match status {
            Status::Waiting => "WAITING"@,
            Status::Connected => "CONNECTED"@,
        }),
{
    match status {
        Status::Waiting => "WAITING",
        Status::Connected => "CONNECTED",
    }
}

/// Text shown when no peer address is known.
pub fn no_peer_text() -> (r: &'static str)
    ensures
        r@ == "--:--:--:--:--:--"@,
{
    "--:--:--:--:--:--"
}

/// Colour of the battery line: green from half charge, yellow from a
/// fifth, red below and for readings above 100.
pub open spec fn battery_color_of(percent: u8) -> Color {
    if 50 <= percent <= 100 {
        Color::Green
    } else if 20 <= percent <= 49 {
        Color::Yellow
    } else {
        Color::Red
    }
}

pub fn battery_color(percent: u8) -> (r: Color)
    ensures
        r == battery_color_of(percent),
{
    if 50 <= percent && percent <= 100 {
        Color::Green
    } else if 20 <= percent && percent <= 49 {
        Color::Yellow
    } else {
        Color::Red
    }
}

/// The three-cell gauge: one cell per band of charge.
pub open spec fn battery_icon_of(percent: u8) -> Seq<char> {
    if 75 <= percent <= 100 {
        "###"@
    } else if 40 <= percent <= 74 {
        "## "@
    } else if 10 <= percent <= 39 {
        "#  "@
    } else {
        "   "@
    }
}

pub fn battery_icon(percent: u8) -> (r: &'static str)
    ensures
        r@ == battery_icon_of(percent),
{
    if 75 <= percent && percent <= 100 {
        "###"
    } else if 40 <= percent && percent <= 74 {
        "## "
    } else if 10 <= percent && percent <= 39 {
        "#  "
    } else {
        "   "
    }
}

/// Number of gauge cells filled.
pub open spec fn battery_cells(percent: u8) -> nat {
    if 75 <= percent <= 100 {
        3
    } else if 40 <= percent <= 74 {
        2
    } else if 10 <= percent <= 39 {
        1
    } else {
        0
    }
}

/// ASCII code of a decimal digit.
pub open spec fn digit_byte(d: nat) -> u8 {
    (48 + d) as u8
}

/// The decimal digits of `n` in ASCII, without leading zeros.
pub open spec fn decimal(n: nat) -> Seq<u8>
    decreases n,
{
    if n < 10 {
        seq![digit_byte(n)]
    } else {
        decimal(n / 10) + seq![digit_byte(n % 10)]
    }
}

/// The battery line: the gauge cells in brackets and the charge, as
/// ASCII, e.g. `[## ] 62%`.
pub open spec fn battery_text_of(percent: u8) -> Seq<u8> {
    let cells = battery_cells(percent);
    seq![91u8] + Seq::new(3, |i: int| if i < cells { 35u8 } else { 32u8 }) + seq![93u8, 32u8]
        + decimal(percent as nat) + seq![37u8]
}

pub fn battery_text(percent: u8) -> (r: BatteryText)
    ensures
        battery_text_bytes(r) == battery_text_of(percent),
        all_ascii(battery_text_of(percent)),
{
    let cells: usize = if 75 <= percent && percent <= 100 {
        3
    } else if 40 <= percent && percent <= 74 {
        2
    } else if 10 <= percent && percent <= 39 {
        1
    } else {
        0
    };
    let mut text = BatteryText::new();
    let _ = battery_text_push(&mut text, 91);
    let mut i: usize = 0;
    while i < 3
        invariant
            0 <= i <= 3,
            cells == battery_cells(percent),
            battery_text_bytes(text) == seq![91u8] + Seq::new(
                i as nat,
                |k: int| if k < cells { 35u8 } else { 32u8 },
            ),
        decreases 3 - i,
    {
        if i < cells {
            let _ = battery_text_push(&mut text, 35);
        } else {
            let _ = battery_text_push(&mut text, 32);
        }
        assert(battery_text_bytes(text) =~= seq![91u8] + Seq::new(
            (i + 1) as nat,
            |k: int| if k < cells { 35u8 } else { 32u8 },
        ));
        i = i + 1;
    }
    let _ = battery_text_push(&mut text, 93);
    let _ = battery_text_push(&mut text, 32);
    if percent >= 100 {
        let _ = battery_text_push(&mut text, 48 + percent / 100);
        let _ = battery_text_push(&mut text, 48 + (percent / 10) % 10);
        let _ = battery_text_push(&mut text, 48 + percent % 10);
        proof {
            reveal_with_fuel(decimal, 3);
            assert(decimal(percent as nat) =~= seq![
                digit_byte((percent / 100) as nat),
                digit_byte(((percent / 10) % 10) as nat),
                digit_byte((percent % 10) as nat),
            ]);
        }
    } else if percent >= 10 {
        let _ = battery_text_push(&mut text, 48 + percent / 10);
        let _ = battery_text_push(&mut text, 48 + percent % 10);
        proof {
            reveal_with_fuel(decimal, 2);
            assert(decimal(percent as nat) =~= seq![
                digit_byte((percent / 10) as nat),
                digit_byte((percent % 10) as nat),
            ]);
        }
    } else {
        let _ = battery_text_push(&mut text, 48 + percent);
    }
    let _ = battery_text_push(&mut text, 37);
    assert(battery_text_bytes(text) =~= battery_text_of(percent));
    text
}

/// The charge is written in decimal without leading zeros: one digit below
/// ten, two below a hundred, three from a hundred.
pub proof fn lemma_decimal_digits(n: u8)
    ensures
        n < 10 ==> decimal(n as nat) == seq![digit_byte(n as nat)],
        10 <= n < 100 ==> decimal(n as nat) == seq![
            digit_byte((n / 10) as nat),
            digit_byte((n % 10) as nat),
        ],
        100 <= n ==> decimal(n as nat) == seq![
            digit_byte((n / 100) as nat),
            digit_byte(((n / 10) % 10) as nat),
            digit_byte((n % 10) as nat),
        ],
{
    reveal_with_fuel(decimal, 3);
    if 10 <= n < 100 {
        assert(decimal(n as nat) =~= seq![
            digit_byte((n / 10) as nat),
            digit_byte((n % 10) as nat),
        ]);
    }
    if 100 <= n {
        assert((n / 10) / 10 == n / 100);
        assert(decimal(n as nat) =~= seq![
            digit_byte((n / 100) as nat),
            digit_byte(((n / 10) % 10) as nat),
            digit_byte((n % 10) as nat),
        ]);
    }
}

/// The battery line reads as the gauge of `battery_icon` in brackets, a
/// space, the charge in decimal and a percent sign: the three gauge
/// characters of the line are exactly those of the icon.
pub proof fn lemma_battery_text_shows_icon(percent: u8)
    ensures
        ascii_chars(battery_text_of(percent)) == "["@ + battery_icon_of(percent) + "] "@
            + ascii_chars(decimal(percent as nat)) + "%"@,
        ascii_chars(battery_text_of(percent)).subrange(1, 4) == battery_icon_of(percent),
{
    reveal_strlit("[");
    reveal_strlit("] ");
    reveal_strlit("%");
    reveal_strlit("###");
    reveal_strlit("## ");
    reveal_strlit("#  ");
    reveal_strlit("   ");
    let text = battery_text_of(percent);
    let digits = decimal(percent as nat);
    let shown = "["@ + battery_icon_of(percent) + "] "@ + ascii_chars(digits) + "%"@;
    assert(text.len() == 7 + digits.len());
    assert(ascii_chars(text) =~= shown);
    assert(ascii_chars(text).subrange(1, 4) =~= battery_icon_of(percent));
}

} // verus!
