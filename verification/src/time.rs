//! Decoding a real-time-clock register snapshot into calendar time.
//!
//! The RTC registers themselves are read outside this crate; the boot
//! sequence re-reads them until two snapshots agree, then hands the
//! stable snapshot in here together with the status register and the
//! century-register index discovered in the fixed ACPI table.

use vstd::prelude::*;
use vstd::string::StringExecFns;
use crate::render::{dec_u32, dec2_u32, spec_dec, spec_dec2};

verus! {

/// A calendar date and time of day.
#[derive(Debug, Clone, Copy, PartialEq, Eq, Structural)]
pub struct Calendar {
    pub year: u32,
    pub month: u32,
    pub day: u32,
    pub hour: u32,
    pub minute: u32,
    pub second: u32,
}

impl Calendar {
    /// The time as text: date, then zero-padded clock.
    pub open spec fn spec_string(&self) -> Seq<char> {
        spec_dec(self.year as int) + "-"@ + spec_dec(self.month as int) + "-"@ + spec_dec(
            self.day as int,
        ) + " "@ + spec_dec2(self.hour as int) + ":"@ + spec_dec2(self.minute as int) + ":"@
            + spec_dec2(self.second as int)
    }

    /// Renders the time as text.
    pub fn as_string(&self) -> (s: String)
        ensures
            s@ == self.spec_string(),
    {
        let mut s = dec_u32(self.year);
        s.append("-");
        let month = dec_u32(self.month);
        s.append(month.as_str());
        s.append("-");
        let day = dec_u32(self.day);
        s.append(day.as_str());
        s.append(" ");
        let hour = dec2_u32(self.hour);
        s.append(hour.as_str());
        s.append(":");
        let minute = dec2_u32(self.minute);
        s.append(minute.as_str());
        s.append(":");
        let second = dec2_u32(self.second);
        s.append(second.as_str());
        proof {
            assert(s@ =~= self.spec_string());
        }
        s
    }
}

/// One stable reading of the RTC registers: the six time registers, and
/// the century register where the fixed table names one.
#[derive(Debug, Clone, Copy, PartialEq, Eq, Structural)]
pub struct RtcSnapshot {
    pub second: u8,
    pub minute: u8,
    pub hour: u8,
    pub day: u8,
    pub month: u8,
    pub year: u8,
    /// Only meaningful when a non-zero century register index was
    /// discovered; ignored otherwise.
    pub century: u8,
}

/// A binary-coded-decimal register value as a binary number: the low
/// nibble plus ten times the rest.
pub open spec fn spec_bcd(v: u32) -> u32 {
    (v % 16 + (v / 16) * 10) as u32
}

/// The calendar time a stable RTC snapshot decodes to.  Bit 2 of the
/// status register selects binary against binary-coded-decimal register
/// encoding; bit 1 selects 24-hour against 12-hour mode.  A 12-hour
/// reading with the PM bit set is out of range for this decoder and is
/// flagged with the hour value 99.  With a century register, the century
/// contributes hundreds of years to the two-digit year register.
pub open spec fn spec_rtc_decode(
    century_register: u8,
    raw: RtcSnapshot,
    status_register: u8,
) -> Calendar {
    let second0 = raw.second as u32;
    let minute0 = raw.minute as u32;
    let hour0 = raw.hour as u32;
    let day0 = raw.day as u32;
    let month0 = raw.month as u32;
    let year0 = raw.year as u32;
    let century0: u32 = if century_register != 0 {
        raw.century as u32
    } else {
        0
    };
    let bcd_mode = status_register & 0b100 == 0;
    let second1 = if bcd_mode {
        spec_bcd(second0)
    } else {
        second0
    };
    let minute1 = if bcd_mode {
        spec_bcd(minute0)
    } else {
        minute0
    };
    let hour1 = if bcd_mode {
        spec_bcd(hour0) | (hour0 & 0x80)
    } else {
        hour0
    };
    let day1 = if bcd_mode {
        spec_bcd(day0)
    } else {
        day0
    };
    let month1 = if bcd_mode {
        spec_bcd(month0)
    } else {
        month0
    };
    let year1 = if bcd_mode {
        spec_bcd(year0)
    } else {
        year0
    };
    let century1 = if bcd_mode && century_register != 0 {
        spec_bcd(century0)
    } else {
        century0
    };
    let hour2 = if (status_register & 0b10) == 0 && (hour1 & 0x80) == 0x80 {
        99u32
    } else {
        hour1
    };
    let year2 = if century_register != 0 {
        (year1 + century1 * 100) as u32
    } else {
        year1
    };
    Calendar { year: year2, month: month1, day: day1, hour: hour2, minute: minute1, second: second1 }
}

/// Decodes a stable RTC snapshot into calendar time, converting
/// binary-coded-decimal registers and applying the century register the
/// fixed table named.
pub fn get_current_time(century_register: u8, raw: RtcSnapshot, status_register: u8) -> (c:
    Calendar)
    ensures
        c == spec_rtc_decode(century_register, raw, status_register),
{
    let mut second: u32 = raw.second as u32;
    let mut minute: u32 = raw.minute as u32;
    let mut hour: u32 = raw.hour as u32;
    let mut day: u32 = raw.day as u32;
    let mut month: u32 = raw.month as u32;
    let mut year: u32 = raw.year as u32;
    let mut century: u32 = if century_register != 0 {
        raw.century as u32
    } else {
        0
    };
    if status_register & 0b100 == 0 {
        second = second % 16 + (second / 16) * 10;
        minute = minute % 16 + (minute / 16) * 10;
        hour = (hour % 16 + (hour / 16) * 10) | (hour & 0x80);
        day = day % 16 + (day / 16) * 10;
        month = month % 16 + (month / 16) * 10;
        year = year % 16 + (year / 16) * 10;
        if century_register != 0 {
            century = century % 16 + (century / 16) * 10;
        }
    }
    if (status_register & 0b10) == 0 && (hour & 0x80) == 0x80 {
        hour = 99;
    }
    if century_register != 0 {
        year = year + century * 100;
    }
    Calendar { year, month, day, hour, minute, second }
}

} // verus!
