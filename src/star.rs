use vstd::prelude::*;

verus! {

/// A star of the catalog: an immutable astrometric record.
///
/// Real-valued quantities are held as the bit pattern of their IEEE 754
/// binary64 value, so that a record is carried through the catalog exactly as
/// it was built.
#[derive(Debug)]
pub struct Star {
    pub id: String,
    /// Harvard Revised Number (Bright Star Number).
    pub hr: Option<u16>,
    pub name: Option<String>,
    pub common_name: Option<String>,
    pub bayer: Option<String>,
    pub bayer_full: Option<String>,
    pub constellation: Option<String>,
    /// Free-form notes as (category, remark) pairs.
    pub notes: Vec<(String, String)>,
    /// Right ascension at J2000.0, radians (binary64 bits).
    pub right_ascension: u64,
    /// Declination at J2000.0, radians (binary64 bits).
    pub declination: u64,
    /// Proper motion in right ascension, radians per year (binary64 bits).
    pub proper_motion_right_ascension: u64,
    /// Proper motion in declination, radians per year (binary64 bits).
    pub proper_motion_declination: u64,
    /// Parallax, arcseconds (binary64 bits).
    pub parallax: u64,
    /// Heliocentric radial velocity, km/s (binary64 bits).
    pub radial_velocity: u64,
    /// Visual magnitude (binary64 bits).
    pub visual_magnitude: u64,
    /// B-V colour index in the UBV system (binary64 bits).
    pub b_v_color: Option<u64>,
}

/// The character of a decimal digit.
pub open spec fn digit_char(d: nat) -> char {
    if d == 0 { '0' }
    else if d == 1 { '1' }
    else if d == 2 { '2' }
    else if d == 3 { '3' }
    else if d == 4 { '4' }
    else if d == 5 { '5' }
    else if d == 6 { '6' }
    else if d == 7 { '7' }
    else if d == 8 { '8' }
    else { '9' }
}

/// The decimal notation of a natural number, without leading zeros.
pub open spec fn decimal(n: nat) -> Seq<char>
    decreases n,
{
    if n < 10 {
        seq![digit_char(n)]
    } else {
        decimal(n / 10).push(digit_char(n % 10))
    }
}

/// The identifier of the star with a given Harvard Revised Number.
pub open spec fn star_id_of(hr: nat) -> Seq<char> {
    seq!['H', 'R', ' '] + decimal(hr)
}

fn digit_str(d: u16) -> (r: &'static str)
    requires
        d < 10,
    ensures
        r@ == seq![digit_char(d as nat)],
{
    if d == 0 {
        proof { reveal_strlit("0"); }
        "0"
    } else if d == 1 {
        proof { reveal_strlit("1"); }
        "1"
    } else if d == 2 {
        proof { reveal_strlit("2"); }
        "2"
    } else if d == 3 {
        proof { reveal_strlit("3"); }
        "3"
    } else if d == 4 {
        proof { reveal_strlit("4"); }
        "4"
    } else if d == 5 {
        proof { reveal_strlit("5"); }
        "5"
    } else if d == 6 {
        proof { reveal_strlit("6"); }
        "6"
    } else if d == 7 {
        proof { reveal_strlit("7"); }
        "7"
    } else if d == 8 {
        proof { reveal_strlit("8"); }
        "8"
    } else {
        proof { reveal_strlit("9"); }
        "9"
    }
}

fn append_decimal(s: &mut String, n: u16)
    ensures
        final(s)@ == old(s)@ + decimal(n as nat),
    decreases n,
{
    if n >= 10 {
        append_decimal(s, n / 10);
    }
    s.append(digit_str(n % 10));
    proof {
        if n >= 10 {
            assert(decimal(n as nat) == decimal((n / 10) as nat).push(digit_char((n % 10) as nat)));
        }
    }
    assert(s@ =~= old(s)@ + decimal(n as nat));
}

/// The catalog identifier of a star: `HR ` followed by its Harvard Revised
/// Number in decimal.
pub fn star_id(hr: u16) -> (r: String)
    ensures
        r@ == star_id_of(hr as nat),
{
    let mut s = String::from_str("HR ");
    proof { reveal_strlit("HR "); }
    append_decimal(&mut s, hr);
    s
}

} // verus!
