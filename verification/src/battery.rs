//! The battery widget: charge percentage and time to full or empty.
//!
//! The kernel exposes the readings as integer micro-units in the power
//! supply's status files; the runtime reads and parses those files and
//! hands the raw values in, so everything shown is computed exactly
//! here: the rounded percentage, the truncated hours and minutes, and
//! the warning color on a nearly empty, discharging battery.

use vstd::prelude::*;

use crate::numeric::{
    decimal_spec,
    decimal_string,
    lemma_round_div_parts,
    padded2_spec,
    padded_two_digits,
    round_div,
};
use crate::text::{Attributes, Color, Text};
use crate::WidgetError;
use vstd::string::StringExecFns;

verus! {

/// Charging state reported by the power supply.
#[derive(Clone, Copy, PartialEq, Eq, Structural, Debug)]
pub enum Status {
    Full,
    Charging,
    Discharging,
    Unknown,
}

/// Parses the power supply's reported status. Exactly the four
/// documented words are accepted; anything else is an error item.
pub fn parse_status(s: &str) -> (r: Result<Status, WidgetError>)
    ensures
        s@ == "Full"@ ==> (r matches Ok(v) && v == Status::Full),
        s@ == "Charging"@ ==> (r matches Ok(v) && v == Status::Charging),
        s@ == "Discharging"@ ==> (r matches Ok(v) && v == Status::Discharging),
        s@ == "Unknown"@ ==> (r matches Ok(v) && v == Status::Unknown),
        !(s@ == "Full"@ || s@ == "Charging"@ || s@ == "Discharging"@ || s@ == "Unknown"@) ==> r
            is Err,
{
    proof {
        reveal_strlit("Full");
        reveal_strlit("Charging");
        reveal_strlit("Discharging");
        reveal_strlit("Unknown");
        assert("Full"@.len() == 4);
        assert("Charging"@.len() == 8);
        assert("Discharging"@.len() == 11);
        assert("Unknown"@.len() == 7);
    }
    let owned = s.to_owned();
    if owned == String::from_str("Full") {
        Ok(Status::Full)
    } else if owned == String::from_str("Charging") {
        Ok(Status::Charging)
    } else if owned == String::from_str("Discharging") {
        Ok(Status::Discharging)
    } else if owned == String::from_str("Unknown") {
        Ok(Status::Unknown)
    } else {
        Err(WidgetError::new(String::from_str("unrecognized battery status")))
    }
}

/// One set of power-supply readings, in the kernel's units:
/// micro-watt-hours for the energies, micro-watts for the power.
#[derive(Clone, Copy, PartialEq, Eq, Structural, Debug)]
pub struct BatteryReadings {
    pub energy_full: u64,
    pub energy_now: u64,
    pub power_now: u64,
    pub status: Status,
}

/// The battery widget's configuration.
pub struct Battery {
    pub update_interval_ns: u64,
    pub battery: String,
    pub attr: Attributes,
    pub warning_color: Color,
}

/// The displayed charge percentage: the stored share of a full charge,
/// rounded to the nearest percent (zero when the full-charge reading is
/// zero or the value overflows the displayable range).
pub open spec fn battery_percentage(full: int, now: int) -> int {
    if full > 0 {
        vstd::math::min(round_div(100 * now, full), u64::MAX as int)
    } else {
        0
    }
}

/// The energy still to flow: what is left when discharging, what is
/// missing when charging (zero when the battery reads over-full),
/// nothing otherwise.
pub open spec fn battery_energy_to_go(st: Status, full: int, now: int) -> int {
    match st {
        Status::Discharging => now,
        Status::Charging => if full > now {
            full - now
        } else {
            0
        },
        _ => 0,
    }
}

/// Whole hours until the energy to go has flowed at the given power;
/// zero when no power is being drawn or supplied.
pub open spec fn battery_hours(value: int, power: int) -> int {
    if power > 0 {
        value / power
    } else {
        0
    }
}

/// Minutes past the whole hour until the energy to go has flowed.
pub open spec fn battery_minutes(value: int, power: int) -> int {
    if power > 0 {
        (60 * value / power) % 60
    } else {
        0
    }
}

/// The rendered battery text: `(P% - H:MM)`.
pub open spec fn battery_text(r: BatteryReadings) -> Seq<char> {
    let pct = battery_percentage(r.energy_full as int, r.energy_now as int);
    let value = battery_energy_to_go(r.status, r.energy_full as int, r.energy_now as int);
    let hours = battery_hours(value, r.power_now as int);
    let minutes = battery_minutes(value, r.power_now as int);
    seq!['('] + decimal_spec(pct) + seq!['%', ' ', '-', ' '] + decimal_spec(hours) + seq![':']
        + padded2_spec(minutes) + seq![')']
}

/// Whether the frame is rendered in the warning color: discharging
/// with at most a tenth of a full charge left.
pub open spec fn battery_warning(r: BatteryReadings) -> bool {
    r.status == Status::Discharging && battery_percentage(
        r.energy_full as int,
        r.energy_now as int,
    ) <= 10
}

impl Battery {
    pub fn new(attr: Attributes, warning_color: Color) -> (r: Battery)
        ensures
            r.attr == attr,
            r.warning_color == warning_color,
            r.update_interval_ns == 60_000_000_000u64,
            r.battery@ == "BAT0"@,
    {
        Battery {
            update_interval_ns: 60_000_000_000,
            battery: String::from_str("BAT0"),
            attr,
            warning_color,
        }
    }

    /// One tick from a set of readings: a single frame showing the
    /// percentage and the time to empty (discharging) or to full
    /// (charging), in the warning color when the battery is low and
    /// draining.
    pub fn tick(&self, r: &BatteryReadings) -> (out: Vec<Text>)
        ensures
            out@.len() == 1,
            out@[0].text@ == battery_text(*r),
            out@[0].stretch == false,
            out@[0].markup == false,
            out@[0].attr == if battery_warning(*r) {
                Attributes { fg_color: self.warning_color, ..self.attr }
            } else {
                self.attr
            },
    {
        let full = r.energy_full;
        let now = r.energy_now;
        let power = r.power_now;
        let pct: u64 = if full > 0 {
            let num: u128 = 100u128 * (now as u128);
            let den: u128 = full as u128;
            let q: u128 = num / den;
            let rem: u128 = num % den;
            let rounded: u128 = if 2 * rem >= den {
                q + 1
            } else {
                q
            };
            proof {
                lemma_round_div_parts(100 * (now as int), full as int);
            }
            if rounded > u64::MAX as u128 {
                u64::MAX
            } else {
                rounded as u64
            }
        } else {
            0
        };
        let value: u64 = match r.status {
            Status::Discharging => now,
            Status::Charging => if full > now {
                full - now
            } else {
                0
            },
            _ => 0,
        };
        let hours: u64 = if power > 0 {
            value / power
        } else {
            0
        };
        let minutes: u64 = if power > 0 {
            (((60u128 * (value as u128)) / (power as u128)) % 60) as u64
        } else {
            0
        };
        let mut text = String::from_str("(");
        text.append(decimal_string(pct).as_str());
        text.append("% - ");
        text.append(decimal_string(hours).as_str());
        text.append(":");
        text.append(padded_two_digits(minutes).as_str());
        text.append(")");
        proof {
            reveal_strlit("(");
            reveal_strlit("% - ");
            reveal_strlit(":");
            reveal_strlit(")");
            assert(text@ =~= battery_text(*r));
        }
        let attr = if matches!(r.status, Status::Discharging) && pct <= 10 {
            Attributes { fg_color: self.warning_color, ..self.attr.clone() }
        } else {
            self.attr.clone()
        };
        let mut out: Vec<Text> = Vec::new();
        out.push(Text { attr, text, stretch: false, markup: false });
        out
    }
}

} // verus!
