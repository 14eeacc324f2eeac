//! Media ingestion for an image and video board: type sniffing, streaming
//! content digests, content-addressed storage paths, thumbnail geometry, the
//! bounded frame-decoding loop and the per-file commit decisions, all with
//! machine-checked contracts.

use vstd::prelude::*;
use crate::error::Error;

pub mod auth;
pub mod config;
pub mod decode;
pub mod digest;
pub mod error;
pub mod extractors;
pub mod ingest;
pub mod paths;
pub mod query;
pub mod scale;
pub mod sniff;
pub mod text;
pub mod traits;

verus! {

/// The retry ceiling of the frame extractor: an extraction is given up at
/// the first packet submission that more than this many came before.
pub const DECODE_RETRY_CEILING: u32 = 10;

/// The character that stands for a decimal digit.
pub open spec fn digit_char(d: nat) -> char
    recommends
        d < 10,
{
    if d == 0 {
        '0'
    } else if d == 1 {
        '1'
    } else if d == 2 {
        '2'
    } else if d == 3 {
        '3'
    } else if d == 4 {
        '4'
    } else if d == 5 {
        '5'
    } else if d == 6 {
        '6'
    } else if d == 7 {
        '7'
    } else if d == 8 {
        '8'
    } else {
        '9'
    }
}

/// A number in decimal notation, without leading zeros.
pub open spec fn decimal_text(n: nat) -> Seq<char>
    decreases n,
{
    if n < 10 {
        seq![digit_char(n)]
    } else {
        decimal_text(n / 10).push(digit_char(n % 10))
    }
}

/// `amount / unit` in tenths, rounded to the nearest tenth, and to the even
/// one where two are equally near.
pub open spec fn rounded_tenths(amount: nat, unit: nat) -> nat
    recommends
        unit > 0,
{
    let whole = amount * 10 / unit;
    let rest = amount * 10 % unit;
    if 2 * rest > unit || (2 * rest == unit && whole % 2 == 1) {
        whole + 1
    } else {
        whole
    }
}

/// A number of tenths written with one decimal place, a no-break space, a
/// binary prefix and the unit.
pub open spec fn size_text(tenths: nat, prefix: Seq<char>) -> Seq<char> {
    decimal_text(tenths / 10) + seq!['.', digit_char(tenths % 10), '\u{00A0}'] + prefix + seq!['B']
}

/// A byte count for human eyes: in bytes below 1024, and in units of 1024,
/// 1024^2 or 1024^3 bytes below 1024 of the next unit; there is no text for
/// 1024^4 bytes and more.
pub open spec fn readable_size(raw: nat) -> Option<Seq<char>> {
    if raw < 0x400 {
        Some(size_text(rounded_tenths(raw, 1), Seq::empty()))
    } else if raw < 0x10_0000 {
        Some(size_text(rounded_tenths(raw, 0x400), seq!['K', 'i']))
    } else if raw < 0x4000_0000 {
        Some(size_text(rounded_tenths(raw, 0x10_0000), seq!['M', 'i']))
    } else if raw < 0x100_0000_0000 {
        Some(size_text(rounded_tenths(raw, 0x4000_0000), seq!['G', 'i']))
    } else {
        None
    }
}

/// The text of one decimal digit.
fn digit_text(d: u64) -> (text: &'static str)
    requires
        d < 10,
    ensures
        text@ == seq![digit_char(d as nat)],
{
    proof {
        reveal_strlit("0");
        reveal_strlit("1");
        reveal_strlit("2");
        reveal_strlit("3");
        reveal_strlit("4");
        reveal_strlit("5");
        reveal_strlit("6");
        reveal_strlit("7");
        reveal_strlit("8");
        reveal_strlit("9");
    }
    let text = if d == 0 {
        "0"
    } else if d == 1 {
        "1"
    } else if d == 2 {
        "2"
    } else if d == 3 {
        "3"
    } else if d == 4 {
        "4"
    } else if d == 5 {
        "5"
    } else if d == 6 {
        "6"
    } else if d == 7 {
        "7"
    } else if d == 8 {
        "8"
    } else {
        "9"
    };
    assert(text@ =~= seq![digit_char(d as nat)]);
    text
}

/// Writes a number in decimal notation.
pub fn decimal(n: u64) -> (text: String)
    ensures
        text@ == decimal_text(n as nat),
    decreases n,
{
    if n < 10 {
        String::from_str(digit_text(n))
    } else {
        let mut text = decimal(n / 10);
        text.append(digit_text(n % 10));
        assert(text@ =~= decimal_text(n as nat));
        text
    }
}

/// Rounds `amount / unit` to tenths.
fn tenths_of(amount: u64, unit: u64) -> (tenths: u64)
    requires
        amount < 0x100_0000_0000,
        0 < unit <= 0x4000_0000,
    ensures
        tenths == rounded_tenths(amount as nat, unit as nat),
{
    let scaled: u64 = amount * 10;
    let whole: u64 = scaled / unit;
    let rest: u64 = scaled % unit;
    if 2 * rest > unit || (2 * rest == unit && whole % 2 == 1) {
        whole + 1
    } else {
        whole
    }
}

/// Writes a number of tenths with its unit.
fn size_with_unit(tenths: u64, prefix: &str) -> (text: String)
    ensures
        text@ == size_text(tenths as nat, prefix@),
{
    proof {
        reveal_strlit(".");
        reveal_strlit("\u{00A0}");
        reveal_strlit("B");
    }
    let mut text = decimal(tenths / 10);
    text.append(".");
    text.append(digit_text(tenths % 10));
    text.append("\u{00A0}");
    text.append(prefix);
    text.append("B");
    assert(text@ =~= size_text(tenths as nat, prefix@));
    text
}

/// Writes a byte count for human eyes, with one decimal place and the
/// largest binary unit that leaves it below 1024.
pub fn readable_file_size(raw: u64) -> (text: Result<String, Error>)
    ensures
        match readable_size(raw as nat) {
            Some(expected) => text matches Ok(t) && t@ == expected,
            None => text matches Err(Error::Internal(why)) && why@
                == "Given byte count too large to compute a human readable file size"@,
        },
{
    proof {
        reveal_strlit("");
        reveal_strlit("Ki");
        reveal_strlit("Mi");
        reveal_strlit("Gi");
        assert(""@ =~= Seq::<char>::empty());
        assert("Ki"@ =~= seq!['K', 'i']);
        assert("Mi"@ =~= seq!['M', 'i']);
        assert("Gi"@ =~= seq!['G', 'i']);
    }
    if raw < 0x400 {
        Ok(size_with_unit(tenths_of(raw, 1), ""))
    } else if raw < 0x10_0000 {
        Ok(size_with_unit(tenths_of(raw, 0x400), "Ki"))
    } else if raw < 0x4000_0000 {
        Ok(size_with_unit(tenths_of(raw, 0x10_0000), "Mi"))
    } else if raw < 0x100_0000_0000 {
        Ok(size_with_unit(tenths_of(raw, 0x4000_0000), "Gi"))
    } else {
        Err(
            Error::Internal(
                String::from_str("Given byte count too large to compute a human readable file size"),
            ),
        )
    }
}

} // verus!
