//! Battery level from the raw ADC reading of the battery voltage.

use vstd::prelude::*;

use crate::config::{BATTERY_EMPTY_MV, BATTERY_FULL_MV, BATTERY_RAW_EMPTY, BATTERY_RAW_FULL};

verus! {

/// The last battery reading: charge in percent and voltage in millivolts.
#[derive(Debug, Clone, Copy, PartialEq, Eq, Structural)]
pub struct BatteryLevel {
    pub percent: u8,
    pub millivolts: u16,
}

/// The reading's distance above empty, limited to the span from empty to
/// full.
pub open spec fn charge_span(raw: int) -> int {
    let span = BATTERY_RAW_FULL - BATTERY_RAW_EMPTY;
    let above = raw - BATTERY_RAW_EMPTY;
    if above < 0 {
        0
    } else if above > span {
        span
    } else {
        above
    }
}

/// Charge in percent, linear in the reading between empty and full.
pub open spec fn percent_of(raw: int) -> int {
    charge_span(raw) * 100 / (BATTERY_RAW_FULL - BATTERY_RAW_EMPTY) as int
}

/// Voltage in millivolts, linear in the reading between empty and full.
pub open spec fn millivolts_of(raw: int) -> int {
    BATTERY_EMPTY_MV + charge_span(raw) * (BATTERY_FULL_MV - BATTERY_EMPTY_MV) / (
    BATTERY_RAW_FULL - BATTERY_RAW_EMPTY) as int
}

impl BatteryLevel {
    /// Nothing measured yet.
    pub fn new() -> (r: Self)
        ensures
            r.percent == 0,
            r.millivolts == 0,
    {
        BatteryLevel { percent: 0, millivolts: 0 }
    }
}

/// Records a new raw reading.
pub fn update(level: &mut BatteryLevel, raw: u16)
    ensures
        final(level).percent == percent_of(raw as int),
        final(level).millivolts == millivolts_of(raw as int),
{
    let raw = raw as i32;
    let raw_empty = BATTERY_RAW_EMPTY as i32;
    let raw_full = BATTERY_RAW_FULL as i32;
    let denominator = raw_full - raw_empty;
    let above = raw - raw_empty;
    let numerator = if above < 0 {
        0
    } else if above > denominator {
        denominator
    } else {
        above
    };
    let full_scale: i32 = 100;
    assert(0 <= numerator * full_scale <= 550 * 100) by (nonlinear_arith)
        requires
            0 <= numerator <= 550,
            full_scale == 100,
    ;
    let percent = numerator * full_scale / denominator;
    let mv_span = (BATTERY_FULL_MV as i32) - (BATTERY_EMPTY_MV as i32);
    assert(0 <= numerator * mv_span <= 550 * 900) by (nonlinear_arith)
        requires
            0 <= numerator <= 550,
            mv_span == 900,
    ;
    let mv = (BATTERY_EMPTY_MV as i32) + numerator * mv_span / denominator;
    level.percent = percent as u8;
    level.millivolts = mv as u16;
}

/// Charge in percent of the last reading.
pub fn percent(level: &BatteryLevel) -> (r: u8)
    ensures
        r == level.percent,
{
    level.percent
}

/// Voltage in millivolts of the last reading.
pub fn millivolts(level: &BatteryLevel) -> (r: u16)
    ensures
        r == level.millivolts,
{
    level.millivolts
}


/// The charge is a percentage and the voltage lies between the empty and
/// the full voltage, whatever the reading.
pub proof fn lemma_level_bounds(raw: u16)
    ensures
        0 <= percent_of(raw as int) <= 100,
        BATTERY_EMPTY_MV <= millivolts_of(raw as int) <= BATTERY_FULL_MV,
{
}

/// Readings at or below empty show an empty battery, readings at or
/// above full a full one.
pub proof fn lemma_level_ends(raw: u16)
    ensures
        raw <= BATTERY_RAW_EMPTY ==> percent_of(raw as int) == 0 && millivolts_of(raw as int)
            == BATTERY_EMPTY_MV,
        raw >= BATTERY_RAW_FULL ==> percent_of(raw as int) == 100 && millivolts_of(raw as int)
            == BATTERY_FULL_MV,
{
}

/// Between the empty and the full reading, the charge is the reading's
/// share of that span in whole percent, rounded down, and the voltage
/// moves across its range in the same proportion, in whole millivolts
/// rounded down.
pub proof fn lemma_level_is_share_of_span(raw: u16)
    requires
        BATTERY_RAW_EMPTY <= raw <= BATTERY_RAW_FULL,
    ensures
        ({
            let span = BATTERY_RAW_FULL - BATTERY_RAW_EMPTY;
            let above = raw - BATTERY_RAW_EMPTY;
            let p = percent_of(raw as int);
            let mv = millivolts_of(raw as int) - BATTERY_EMPTY_MV;
            &&& p * span <= above * 100 < (p + 1) * span
            &&& mv * span <= above * (BATTERY_FULL_MV - BATTERY_EMPTY_MV) < (mv + 1) * span
        }),
{
    let above = raw - BATTERY_RAW_EMPTY;
    assert(charge_span(raw as int) == above);
    let p = above * 100 / 550;
    assert(p * 550 <= above * 100 < (p + 1) * 550) by (nonlinear_arith)
        requires
            p == above * 100 / 550,
            0 <= above <= 550,
    ;
    let mv = above * 900 / 550;
    assert(mv * 550 <= above * 900 < (mv + 1) * 550) by (nonlinear_arith)
        requires
            mv == above * 900 / 550,
            0 <= above <= 550,
    ;
}

/// The charge is linear in the reading: a tenth of the span from empty to
/// full more shows exactly ten percent more.
pub proof fn lemma_percent_steps_linearly(raw: u16)
    requires
        BATTERY_RAW_EMPTY <= raw,
        raw + (BATTERY_RAW_FULL - BATTERY_RAW_EMPTY) / 10 <= BATTERY_RAW_FULL,
    ensures
        percent_of(raw + (BATTERY_RAW_FULL - BATTERY_RAW_EMPTY) / 10) == percent_of(raw as int)
            + 10,
{
    let above = raw - BATTERY_RAW_EMPTY;
    assert(charge_span(raw as int) == above);
    assert(charge_span(raw + 55) == above + 55);
    assert((above + 55) * 100 / 550 == above * 100 / 550 + 10) by (nonlinear_arith)
        requires
            0 <= above <= 495,
    ;
}

/// A higher reading never shows less charge or a lower voltage.
pub proof fn lemma_level_monotone(low: u16, high: u16)
    requires
        low <= high,
    ensures
        percent_of(low as int) <= percent_of(high as int),
        millivolts_of(low as int) <= millivolts_of(high as int),
{
    let a = charge_span(low as int);
    let b = charge_span(high as int);
    assert(a <= b);
    vstd::arithmetic::div_mod::lemma_div_is_ordered(a * 100, b * 100, 550);
    vstd::arithmetic::div_mod::lemma_div_is_ordered(a * 900, b * 900, 550);
}

} // verus!
