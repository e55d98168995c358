//! What the command line says, and what it means for the machine.

use std::num::ParseIntError;
use std::path::PathBuf;
use vstd::prelude::*;
use vstd::string::{StrSliceExecFns, StringExecFns};
use crate::emulator::EmulatorConfig;

verus! {

/// `std::num::ParseIntError`, as a value that is carried through: nothing
/// is known of what an error holds.
#[verifier::external_type_specification]
#[verifier::external_body]
pub struct ExParseIntError(std::num::ParseIntError);

/// The arguments of a run.
#[derive(Debug, Clone)]
pub struct Args {
    /// Path of the firmware container: inside the SD card image where
    /// `entry_firm_in_sd_card` is set, else in the local file system.
    pub firm: PathBuf,
    /// Path of the SD card image.
    pub sd_card: Option<PathBuf>,
    /// The firmware path names a file inside the SD card image.
    pub entry_firm_in_sd_card: bool,
    /// The coprocessor stops when its PC is this address.
    pub arm9_stop_pc: Option<u64>,
    /// The application processor stops when its PC is this address.
    pub arm11_stop_pc: Option<u64>,
    /// The run ends after this many instructions in all.
    pub max_instructions: Option<u64>,
}

/// The value of a digit in a radix; `None` where the character is no digit
/// of that radix. Letters count from ten, in either case.
pub open spec fn digit_value(c: char, radix: u32) -> Option<nat> {
    let v: int = if '0' <= c <= '9' {
        c as int - '0' as int
    } else if 'a' <= c <= 'z' {
        c as int - 'a' as int + 10
    } else if 'A' <= c <= 'Z' {
        c as int - 'A' as int + 10
    } else {
        36
    };
    if v < radix {
        Some(v as nat)
    } else {
        None
    }
}

/// The number that a run of digits spells; `None` where one of the
/// characters is no digit.
pub open spec fn digits_value(s: Seq<char>, radix: u32) -> Option<nat>
    decreases s.len(),
{
    if s.len() == 0 {
        Some(0)
    } else {
        match (digits_value(s.drop_last(), radix), digit_value(s.last(), radix)) {
            (Some(high), Some(low)) => Some(high * (radix as nat) + low),
            _ => None,
        }
    }
}

/// The number that a string spells in a radix: an optional plus sign and
/// then one digit or more, nothing else, and a value that fits 64 bits.
pub open spec fn parse_radix(s: Seq<char>, radix: u32) -> Option<u64> {
    let digits = if s.len() > 0 && s[0] == '+' {
        s.skip(1)
    } else {
        s
    };
    if digits.len() == 0 {
        None
    } else {
        match digits_value(digits, radix) {
            Some(v) => if v <= u64::MAX {
                Some(v as u64)
            } else {
                None
            },
            None => None,
        }
    }
}

/// The number that an address argument spells: hexadecimal after `0x`,
/// else decimal.
pub open spec fn spec_parse_hex_or_dec(s: Seq<char>) -> Option<u64> {
    if s.len() >= 2 && s[0] == '0' && s[1] == 'x' {
        parse_radix(s.skip(2), 16)
    } else {
        parse_radix(s, 10)
    }
}

/// `u64::from_str_radix` of std: the string is an optional plus sign
/// followed by digits of the radix and nothing else; an empty string, a
/// character that is no digit, and a value that does not fit are errors.
#[verifier::external_body]
fn from_str_radix(s: &str, radix: u32) -> (r: Result<u64, ParseIntError>)
    requires
        2 <= radix <= 36,
    ensures
        r.is_ok() == parse_radix(s@, radix).is_some(),
        r matches Ok(v) ==> parse_radix(s@, radix) == Some(v),
{
    u64::from_str_radix(s, radix)
}

/// Parses an address: hexadecimal after `0x`, else decimal.
pub fn parse_hex_or_dec(s: &str) -> (r: Result<u64, ParseIntError>)
    ensures
        r.is_ok() == spec_parse_hex_or_dec(s@).is_some(),
        r matches Ok(v) ==> spec_parse_hex_or_dec(s@) == Some(v),
{
    let len = s.unicode_len();
    if len >= 2 && s.get_char(0) == '0' && s.get_char(1) == 'x' {
        let hex = s.substring_char(2, len);
        assert(hex@ =~= s@.skip(2));
        from_str_radix(hex, 16)
    } else {
        from_str_radix(s, 10)
    }
}

impl Args {
    /// The arguments contradict each other: the firmware is to come from
    /// the SD card image, and no image is named.
    pub open spec fn inconsistent(self) -> bool {
        self.entry_firm_in_sd_card && self.sd_card.is_none()
    }

    /// Checks that the arguments fit together.
    pub fn validate(&self) -> (r: Result<(), String>)
        ensures
            r.is_ok() == !self.inconsistent(),
            r matches Err(message) ==> message@
                == "--entry-firm-in-sd-card requires --sd-card to be specified"@,
    {
        if self.entry_firm_in_sd_card && self.sd_card.is_none() {
            return Err(
                String::from_str("--entry-firm-in-sd-card requires --sd-card to be specified"),
            );
        }
        Ok(())
    }

    /// The configuration that the arguments stand for: the stop conditions
    /// as given, and no timeout.
    pub fn to_emulator_config(&self) -> (r: EmulatorConfig)
        ensures
            r.sd_card == self.sd_card,
            r.arm9_stop_pc == self.arm9_stop_pc,
            r.arm11_stop_pc == self.arm11_stop_pc,
            r.max_instructions == (match self.max_instructions {
                Some(v) => Some(v as usize),
                None => None,
            }),
            r.timeout_ms.is_none(),
    {
        EmulatorConfig {
            sd_card: self.sd_card.clone(),
            arm9_stop_pc: self.arm9_stop_pc,
            arm11_stop_pc: self.arm11_stop_pc,
            max_instructions: match self.max_instructions {
                Some(v) => Some(v as usize),
                None => None,
            },
            timeout_ms: None,
        }
    }
}

} // verus!
