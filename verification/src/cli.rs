//! Configuration options for the photo frame.

use vstd::prelude::*;
use vstd::string::StringSliceAdditionalSpecFns;

verus! {

/// Slideshow ordering.
#[derive(Clone, Copy, Debug, PartialEq, Eq, Structural)]
pub enum Order {
    /// By photo shooting date.
    ByDate,
    /// By photo file name.
    ByName,
    /// Randomly.
    Random,
}

/// Transition to next photo effect.
#[derive(Clone, Copy, Debug, PartialEq, Eq, Structural)]
pub enum Transition {
    /// Crossfade (or cross dissolve).
    Crossfade,
    /// Fade out to black and in to next photo.
    FadeToBlack,
    /// Disable the transition effect.
    Off,
}

/// Screen rotation in degrees.
#[derive(Clone, Copy, Debug, PartialEq, Eq, Structural)]
pub enum Rotation {
    D0,
    D90,
    D180,
    D270,
}

/// Requested size of source photo to fetch from the server.
#[derive(Clone, Copy, Debug, PartialEq, Eq, Structural)]
pub enum SourceSize {
    /// Small (360x240).
    S,
    /// Medium (481x320).
    M,
    /// Large (1922x1280).
    L,
}

/// Configuration surface of the photo frame. Argument parsing happens
/// outside the library; this struct carries the parsed values.
pub struct Cli {
    /// Address of the FTP server.
    pub server: String,
    /// Folder path on the FTP server.
    pub folder: String,
    /// User for FTP access.
    pub user: Option<String>,
    /// Password for FTP access.
    pub password: Option<String>,
    /// Photo change interval in seconds; at least five.
    pub photo_change_interval: u64,
    /// Slideshow ordering.
    pub order: Order,
    /// Start at a randomly selected photo, then continue according to `order`.
    pub random_start: bool,
    /// Transition effect.
    pub transition: Transition,
    /// Rotate display to match screen orientation.
    pub rotation: Rotation,
    /// Use a motion sensor to sleep when no motion is detected.
    pub motionsensor: bool,
    /// Path to a JPEG file to display during startup instead of the default
    /// splash screen.
    pub splash: Option<String>,
}

/// True when `bytes` is a non-empty run of ASCII decimal digits.
pub open spec fn is_decimal(bytes: Seq<u8>) -> bool {
    bytes.len() >= 1 && forall|i: int| 0 <= i < bytes.len() ==> 48 <= #[trigger] bytes[i] <= 57
}

/// Numeric value of a run of ASCII decimal digits.
pub open spec fn decimal_value(bytes: Seq<u8>) -> int
    decreases bytes.len(),
{
    if bytes.len() == 0 {
        0
    } else {
        decimal_value(bytes.drop_last()) * 10 + (bytes.last() - 48)
    }
}

proof fn lemma_decimal_value_nonneg(bytes: Seq<u8>)
    requires
        forall|i: int| 0 <= i < bytes.len() ==> 48 <= #[trigger] bytes[i] <= 57,
    ensures
        decimal_value(bytes) >= 0,
    decreases bytes.len(),
{
    if bytes.len() > 0 {
        assert(forall|i: int|
            0 <= i < bytes.drop_last().len() ==> 48 <= #[trigger] bytes.drop_last()[i] <= 57);
        lemma_decimal_value_nonneg(bytes.drop_last());
    }
}

/// Extending a digit string multiplies its value by ten and adds the new
/// digit, so the value of a prefix never exceeds the value of the whole.
proof fn lemma_decimal_value_prefix(bytes: Seq<u8>, n: int)
    requires
        forall|i: int| 0 <= i < bytes.len() ==> 48 <= #[trigger] bytes[i] <= 57,
        0 <= n <= bytes.len(),
    ensures
        decimal_value(bytes.take(n)) <= decimal_value(bytes),
    decreases bytes.len() - n,
{
    if n < bytes.len() {
        let longer = bytes.take(n + 1);
        assert(longer.drop_last() =~= bytes.take(n));
        assert(forall|i: int| 0 <= i < longer.len() ==> 48 <= #[trigger] longer[i] <= 57);
        lemma_decimal_value_nonneg(bytes.take(n));
        assert(decimal_value(longer) == decimal_value(bytes.take(n)) * 10 + (longer.last() - 48));
        assert(decimal_value(bytes.take(n)) * 10 >= decimal_value(bytes.take(n))) by (nonlinear_arith)
            requires decimal_value(bytes.take(n)) >= 0;
        lemma_decimal_value_prefix(bytes, n + 1);
        assert(bytes.take(bytes.len() as int) =~= bytes);
    } else {
        assert(bytes.take(n) =~= bytes);
    }
}

/// Parses the photo change interval: a decimal number of seconds that must
/// be at least five. Mirrors the command-line validation.
pub fn try_parse_duration(arg: &str) -> (r: Result<u64, String>)
    ensures
        match r {
            Ok(seconds) => is_decimal(arg.spec_bytes()) && 5 <= seconds
                && decimal_value(arg.spec_bytes()) == seconds,
            Err(_) => !(is_decimal(arg.spec_bytes()) && 5 <= decimal_value(arg.spec_bytes())
                <= u64::MAX),
        },
{
    let bytes = arg.as_bytes();
    if bytes.len() == 0 {
        return Err("cannot parse an empty value".to_owned());
    }
    let mut value: u64 = 0;
    let mut i: usize = 0;
    while i < bytes.len()
        invariant
            0 <= i <= bytes.len(),
            bytes@ == arg.spec_bytes(),
            forall|j: int| 0 <= j < i ==> 48 <= #[trigger] bytes@[j] <= 57,
            value == decimal_value(bytes@.take(i as int)),
        decreases bytes.len() - i,
    {
        let d = bytes[i];
        if d < 48 || d > 57 {
            return Err("must be a number of seconds".to_owned());
        }
        let digit: u64 = (d - 48) as u64;
        if value > (u64::MAX - digit) / 10 {
            proof {
                assert(forall|j: int|
                    0 <= j < i + 1 ==> 48 <= #[trigger] bytes@[j] <= 57);
                if is_decimal(arg.spec_bytes()) {
                    let next = bytes@.take(i + 1);
                    assert(next.drop_last() =~= bytes@.take(i as int));
                    assert(next.last() == bytes@[i as int]);
                    assert(decimal_value(next) == value * 10 + (bytes@[i as int] - 48));
                    assert(value * 10 + digit > u64::MAX) by (nonlinear_arith)
                        requires
                            value > (u64::MAX - digit) / 10,
                            digit <= 9,
                            value >= 0;
                    lemma_decimal_value_prefix(bytes@, i + 1);
                }
            }
            return Err("the number of seconds is too large".to_owned());
        }
        proof {
            let next = bytes@.take(i + 1);
            assert(next.drop_last() =~= bytes@.take(i as int));
            assert(next.last() == bytes@[i as int]);
        }
        value = value * 10 + digit;
        i = i + 1;
    }
    proof {
        assert(bytes@.take(i as int) =~= bytes@);
    }
    if value < 5 {
        Err("must not be less than 5".to_owned())
    } else {
        Ok(value)
    }
}

/// Reads a rotation from its command-line label: one of "0", "90", "180"
/// and "270".
pub fn rotation_from_label(value: &str) -> (r: Option<Rotation>)
    ensures
        r == Some(Rotation::D0) <==> value.spec_bytes() =~= seq![48u8],
        r == Some(Rotation::D90) <==> value.spec_bytes() =~= seq![57u8, 48u8],
        r == Some(Rotation::D180) <==> value.spec_bytes() =~= seq![49u8, 56u8, 48u8],
        r == Some(Rotation::D270) <==> value.spec_bytes() =~= seq![50u8, 55u8, 48u8],
{
    let bytes = value.as_bytes();
    if bytes.len() == 1 && bytes[0] == 48 {
        Some(Rotation::D0)
    } else if bytes.len() == 2 && bytes[0] == 57 && bytes[1] == 48 {
        Some(Rotation::D90)
    } else if bytes.len() == 3 && bytes[0] == 49 && bytes[1] == 56 && bytes[2] == 48 {
        Some(Rotation::D180)
    } else if bytes.len() == 3 && bytes[0] == 50 && bytes[1] == 55 && bytes[2] == 48 {
        Some(Rotation::D270)
    } else {
        None
    }
}

} // verus!
