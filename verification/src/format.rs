//! Output container formats and validation of the supersampling factor.

use vstd::prelude::*;

verus! {

/// The raster container formats the encoder can produce.
#[derive(Clone, Copy, Debug, PartialEq, Eq, Structural)]
pub enum OutputFormat {
    Png,
    Jpeg,
    Gif,
    Webp,
}

/// Relies on `str`'s `PartialEq`: equality of the two character sequences.
#[verifier::external_body]
fn str_eq(a: &str, b: &str) -> (r: bool)
    ensures
        r == (a@ == b@),
{
    a == b
}

/// Which format, if any, a configuration string selects.
pub open spec fn spec_format_of(s: Seq<char>) -> Option<OutputFormat> {
    if s == "png"@ {
        Option::Some(OutputFormat::Png)
    } else if s == "jpeg"@ || s == "jpg"@ {
        Option::Some(OutputFormat::Jpeg)
    } else if s == "gif"@ {
        Option::Some(OutputFormat::Gif)
    } else if s == "webp"@ {
        Option::Some(OutputFormat::Webp)
    } else {
        Option::None
    }
}

/// Maps a configuration string to a format; an unrecognized string is
/// rejected, never defaulted.
pub fn parse_format(s: &str) -> (r: Option<OutputFormat>)
    ensures
        r == spec_format_of(s@),
{
    if str_eq(s, "png") {
        Some(OutputFormat::Png)
    } else if str_eq(s, "jpeg") || str_eq(s, "jpg") {
        Some(OutputFormat::Jpeg)
    } else if str_eq(s, "gif") {
        Some(OutputFormat::Gif)
    } else if str_eq(s, "webp") {
        Some(OutputFormat::Webp)
    } else {
        None
    }
}

/// The canonical file extension of each format.
pub open spec fn spec_extension_of(f: OutputFormat) -> Seq<char> {
    match f {
        OutputFormat::Png => "png"@,
        OutputFormat::Jpeg => "jpg"@,
        OutputFormat::Gif => "gif"@,
        OutputFormat::Webp => "webp"@,
    }
}

/// The file extension (without the dot) used for paths holding this format.
pub fn extension_of(f: OutputFormat) -> (r: &'static str)
    ensures
        r@ == spec_extension_of(f),
{
    match f {
        OutputFormat::Png => "png",
        OutputFormat::Jpeg => "jpg",
        OutputFormat::Gif => "gif",
        OutputFormat::Webp => "webp",
    }
}

/// A positive number that is a power of two.
pub open spec fn is_power_of_two(n: nat) -> bool
    decreases n,
{
    if n == 0 {
        false
    } else if n == 1 {
        true
    } else {
        n % 2 == 0 && is_power_of_two(n / 2)
    }
}

/// Decides whether a supersampling factor is valid: a power of two (and so
/// at least 1).
pub fn check_power_of_two(n: u32) -> (r: bool)
    ensures
        r == is_power_of_two(n as nat),
{
    if n == 0 {
        return false;
    }
    let mut m: u32 = n;
    while m % 2 == 0
        invariant
            1 <= m <= n,
            is_power_of_two(n as nat) == is_power_of_two(m as nat),
        decreases m,
    {
        m = m / 2;
    }
    m == 1
}

} // verus!
