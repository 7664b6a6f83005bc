//! Quality levels of the audio that the conversion service encodes.

use vstd::prelude::*;
use vstd::std_specs::convert::IntoSpec;
use vstd::string::*;
use crate::error::result_view;
use crate::text::{decimal, lemma_decimal_reads_back, parse_u16, parse_u16_spec, u64_to_string};

verus! {

/// The encoding bit rates that the conversion service offers.
#[derive(Clone, Copy, Debug, PartialEq, Eq, Structural)]
pub enum BitRate {
    Kbps320,
    Kbps256,
    Kbps128,
    Kbps96,
}

impl View for BitRate {
    type V = BitRate;

    open spec fn view(&self) -> BitRate {
        *self
    }
}

impl BitRate {
    /// The rate in kilobits per second.
    pub open spec fn kbps(self) -> u64 {
        match self {
            BitRate::Kbps320 => 320,
            BitRate::Kbps256 => 256,
            BitRate::Kbps128 => 128,
            BitRate::Kbps96 => 96,
        }
    }

    /// The number by which the conversion service knows the level.
    pub open spec fn spec_code(self) -> usize {
        match self {
            BitRate::Kbps320 => 0,
            BitRate::Kbps256 => 1,
            BitRate::Kbps128 => 4,
            BitRate::Kbps96 => 5,
        }
    }

    /// The name of the level.
    pub open spec fn debug_text(self) -> Seq<char> {
        match self {
            BitRate::Kbps320 => "Kbps320"@,
            BitRate::Kbps256 => "Kbps256"@,
            BitRate::Kbps128 => "Kbps128"@,
            BitRate::Kbps96 => "Kbps96"@,
        }
    }

    /// The number by which the conversion service knows the level.
    #[verifier::when_used_as_spec(spec_code)]
    pub fn code(self) -> (c: usize)
        ensures
            c == self.spec_code(),
    {
        match self {
            BitRate::Kbps320 => 0,
            BitRate::Kbps256 => 1,
            BitRate::Kbps128 => 4,
            BitRate::Kbps96 => 5,
        }
    }

    /// The name of the level.
    pub fn to_debug_string(&self) -> (r: String)
        ensures
            r@ == self.debug_text(),
    {
        match self {
            BitRate::Kbps320 => String::from_str("Kbps320"),
            BitRate::Kbps256 => String::from_str("Kbps256"),
            BitRate::Kbps128 => String::from_str("Kbps128"),
            BitRate::Kbps96 => String::from_str("Kbps96"),
        }
    }

    /// The level that stands for `n` kilobits per second, if there is one.
    pub fn from_kbps(n: u64) -> (r: Option<BitRate>)
        ensures
            r == BitRate::of_kbps(n),
    {
        if n == 320 {
            Some(BitRate::Kbps320)
        } else if n == 256 {
            Some(BitRate::Kbps256)
        } else if n == 128 {
            Some(BitRate::Kbps128)
        } else if n == 96 {
            Some(BitRate::Kbps96)
        } else {
            None
        }
    }

    /// The level that stands for `n` kilobits per second, if there is one.
    pub open spec fn of_kbps(n: u64) -> Option<BitRate> {
        if n == 320 {
            Some(BitRate::Kbps320)
        } else if n == 256 {
            Some(BitRate::Kbps256)
        } else if n == 128 {
            Some(BitRate::Kbps128)
        } else if n == 96 {
            Some(BitRate::Kbps96)
        } else {
            None
        }
    }
}

/// A level is named by its own rate and by no other number.
pub proof fn lemma_of_kbps(b: BitRate, n: u64)
    ensures
        BitRate::of_kbps(n) == Some(b) <==> n == b.kbps(),
{
}

/// A number that names no bit rate.
#[derive(Debug, PartialEq)]
pub struct FromNumberError<T> {
    value: T,
}

impl<T> View for FromNumberError<T> {
    type V = T;

    closed spec fn view(&self) -> T {
        self.value
    }
}

/// Types whose values can be named by a number.
pub trait FromNumber<T>: Sized {
    /// The value that `n` names, or an error that holds `n`.
    fn from_number(n: T) -> (r: Result<Self, FromNumberError<T>>)
        ensures
            r matches Err(e) ==> e@ == n,
    ;
}

/// Whether `r` is what a number that converts to `v` names: the level of `v`
/// kilobits per second, or an error where there is none.
pub open spec fn names_level<T>(v: u64, r: Result<BitRate, FromNumberError<T>>) -> bool {
    match BitRate::of_kbps(v) {
        Some(b) => r == Ok::<BitRate, FromNumberError<T>>(b),
        None => r is Err,
    }
}

impl<T: Into<u64> + Copy> FromNumber<T> for BitRate {
    /// The level of as many kilobits per second as `n` converts to. Where
    /// the conversion of `T` has a specification, the result is that of the
    /// number it specifies.
    fn from_number(n: T) -> (r: Result<Self, FromNumberError<T>>)
        ensures
            exists|v: u64| #[trigger] call_ensures(<T as Into<u64>>::into, (n,), v) && names_level(v, r),
            <T as IntoSpec<u64>>::obeys_into_spec() ==> names_level(
                IntoSpec::<u64>::into_spec(n),
                r,
            ),
    {
        let v: u64 = n.into();
        assert(call_ensures(<T as Into<u64>>::into, (n,), v));
        match BitRate::from_kbps(v) {
            Some(b) => Ok(b),
            None => Err(FromNumberError { value: n }),
        }
    }
}

impl<T: std::fmt::Display> FromNumberError<T> {
    /// The error as a message shown to the user: a line that ends with the
    /// number as `T` displays it.
    pub fn to_string(&self) -> (r: String)
        ensures
            exists|shown: String| #[trigger]
                to_string_from_display_ensures::<T>(&self@, shown) && r@ == "Invalid number: "@
                    + shown@ + "\n"@,
    {
        let shown = self.value.to_string();
        let mut r = String::from_str("Invalid number: ");
        r.append(shown.as_str());
        r.append("\n");
        assert(to_string_from_display_ensures::<T>(&self@, shown) && r@ == "Invalid number: "@
            + shown@ + "\n"@);
        r
    }
}

/// What a debugging format shows of the error that holds `n`.
pub open spec fn from_number_error_debug_text(n: u16) -> Seq<char> {
    "FromNumberError { value: "@ + decimal(n as nat) + " }"@
}

impl FromNumberError<u16> {
    /// The error as a debugging format shows it.
    pub fn to_debug_string(&self) -> (r: String)
        ensures
            r@ == from_number_error_debug_text(self@),
    {
        let number = u64_to_string(self.value as u64);
        let mut r = String::from_str("FromNumberError { value: ");
        r.append(number.as_str());
        r.append(" }");
        r
    }
}

/// The bit rate of `n` kilobits per second, or the text that says that there
/// is none.
pub open spec fn rate_of_number(n: u16) -> Result<BitRate, Seq<char>> {
    match BitRate::of_kbps(n as u64) {
        Some(b) => Ok(b),
        None => Err(from_number_error_debug_text(n)),
    }
}

/// The bit rate that the text `s` asks for. The text must be a decimal number
/// of sixteen bits, and the number one of the rates on offer; the error says
/// which of the two failed.
pub open spec fn bitrate_parser_spec(s: Seq<char>) -> Result<BitRate, Seq<char>> {
    match parse_u16_spec(s) {
        None => Err("`"@ + s + "` is not a number"@),
        Some(n) => rate_of_number(n),
    }
}

/// Every rate can be asked for by its number written in decimal, and a
/// number written in decimal that is no rate is refused by its name.
pub proof fn lemma_bitrate_parser_reads_numbers(n: u16)
    ensures
        bitrate_parser_spec(decimal(n as nat)) == rate_of_number(n),
{
    lemma_decimal_reads_back(n as nat);
}

/// Reads a bit rate from an argument of the command line.
pub fn bitrate_parser(s: &str) -> (r: Result<BitRate, String>)
    ensures
        result_view(r) == bitrate_parser_spec(s@),
{
    let bitrate: u16 = match parse_u16(s) {
        Some(n) => n,
        None => {
            let mut text = String::from_str("`");
            text.append(s);
            text.append("` is not a number");
            return Err(text);
        },
    };
    match BitRate::from_number(bitrate) {
        Ok(b) => Ok(b),
        Err(e) => Err(e.to_debug_string()),
    }
}

} // verus!
