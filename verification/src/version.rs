//! The firmware version: a three-part dotted version string parsed into a
//! `{major, minor, patch}` triple of 8-bit values, with a deliberate quirk
//! of the grammar: a two-character subversion starting with `'0'` whose
//! second character is a digit yields that character's ASCII code point,
//! not its digit value.

use vstd::prelude::*;
use vstd::string::*;
use crate::text::{
    is_ws, is_ws_char, is_digit, is_digit_char, digit_val, trim_spec, dec_str,
    lemma_trim_start_skip, lemma_trim_end_take, fmt_u8,
};

verus! {

/// A parsed three-part firmware version.
#[derive(Debug, Clone, Copy, PartialEq, Eq, Structural)]
pub struct FirmwareVersion {
    pub major: u8,
    pub minor: u8,
    pub patch: u8,
}

/// The failure outcomes of parsing a version string.
#[derive(Debug, Clone, Copy, PartialEq, Eq, Structural)]
pub enum ParseFirmwareVersionError {
    UnmatchedSubversionError,
    InvalidSubversionFormatError,
}

impl Default for FirmwareVersion {
    fn default() -> (r: Self)
        ensures
            r == (FirmwareVersion { major: 0, minor: 0, patch: 0 }),
    {
        FirmwareVersion { major: 0, minor: 0, patch: 0 }
    }
}

/// The value a single subversion token denotes, or `None` where the token
/// is invalid. A one-character token must be a digit; a two-character token
/// starting with `'0'` followed by a digit yields the second character's
/// code point (the grammar's quirk); any other two-character token must be
/// two digits and is read as a decimal number.
pub open spec fn subversion_spec(t: Seq<char>) -> Option<u8> {
    if t.len() == 1 && is_digit_char(t[0]) {
        Some(digit_val(t[0]) as u8)
    } else if t.len() == 2 && t[0] == '0' && is_digit_char(t[1]) {
        Some((t[1] as int) as u8)
    } else if t.len() == 2 && is_digit_char(t[0]) && is_digit_char(t[1]) {
        Some((10 * digit_val(t[0]) + digit_val(t[1])) as u8)
    } else {
        None
    }
}

/// The dots of `t` stand exactly at positions `i` and `j`, splitting it
/// into three subversion tokens.
pub open spec fn two_dots_at(t: Seq<char>, i: int, j: int) -> bool {
    &&& 0 <= i < j < t.len()
    &&& t[i] == '.'
    &&& t[j] == '.'
    &&& forall|k: int| 0 <= k < t.len() && k != i && k != j ==> t[k] != '.'
}

/// `t` splits on `'.'` into exactly three parts.
pub open spec fn has_two_dots(t: Seq<char>) -> bool {
    exists|i: int, j: int| two_dots_at(t, i, j)
}

/// The positions of the two dots are determined by the string.
pub proof fn lemma_two_dots_unique(t: Seq<char>, i: int, j: int, i2: int, j2: int)
    requires
        two_dots_at(t, i, j),
        two_dots_at(t, i2, j2),
    ensures
        i == i2,
        j == j2,
{
    assert(i2 == i || i2 == j);
    assert(j2 == i || j2 == j);
    assert(i == i2 || i == j2);
    assert(j == i2 || j == j2);
}

/// What parsing a version string yields: the input is trimmed of
/// surrounding whitespace; it must split on `'.'` into exactly three
/// parts, and each part must be a valid subversion token.
pub open spec fn parse_version_spec(s: Seq<char>) -> Result<
    FirmwareVersion,
    ParseFirmwareVersionError,
> {
    let t = trim_spec(s);
    if !has_two_dots(t) {
        Err(ParseFirmwareVersionError::UnmatchedSubversionError)
    } else {
        let (i, j) = choose|i: int, j: int| two_dots_at(t, i, j);
        let major = subversion_spec(t.take(i));
        let minor = subversion_spec(t.subrange(i + 1, j));
        let patch = subversion_spec(t.skip(j + 1));
        if major is None || minor is None || patch is None {
            Err(ParseFirmwareVersionError::InvalidSubversionFormatError)
        } else {
            Ok(FirmwareVersion {
                major: major->Some_0,
                minor: minor->Some_0,
                patch: patch->Some_0,
            })
        }
    }
}

/// The display form of a version: the three components in decimal, joined
/// by dots, with no zero padding.
pub open spec fn version_display_spec(v: FirmwareVersion) -> Seq<char> {
    dec_str(v.major as nat) + "."@ + dec_str(v.minor as nat) + "."@ + dec_str(v.patch as nat)
}

impl FirmwareVersion {
    /// Parses a version string into its three components.
    pub fn parse(version: &str) -> (r: Result<FirmwareVersion, ParseFirmwareVersionError>)
        ensures
            r == parse_version_spec(version@),
    {
        let ghost s = version@;
        let n = version.unicode_len();
        let mut start: usize = 0;
        while start < n && is_ws(version.get_char(start))
            invariant
                s == version@,
                n == s.len(),
                0 <= start <= n,
                forall|i: int| 0 <= i < start ==> is_ws_char(s[i]),
            decreases n - start,
        {
            start += 1;
        }
        let mut end: usize = n;
        while end > start && is_ws(version.get_char(end - 1))
            invariant
                s == version@,
                n == s.len(),
                start <= end <= n,
                forall|i: int| end <= i < n ==> is_ws_char(s[i]),
            decreases end,
        {
            end -= 1;
        }
        proof {
            lemma_trim_start_skip(s, start as int);
            lemma_trim_end_take(s.skip(start as int), end - start);
            assert(s.skip(start as int).take(end - start) =~= s.subrange(
                start as int,
                end as int,
            ));
        }
        let ghost t = trim_spec(s);
        assert(t == s.subrange(start as int, end as int));

        let mut dot1: usize = 0;
        let mut dot2: usize = 0;
        let mut dot3: usize = 0;
        let mut ndots: usize = 0;
        let mut i: usize = start;
        while i < end
            invariant
                s == version@,
                n == s.len(),
                start <= i <= end <= n,
                ndots <= i - start,
                ndots == 0 ==> forall|k: int| start <= k < i ==> s[k] != '.',
                ndots == 1 ==> start <= dot1 < i && s[dot1 as int] == '.' && forall|k: int|
                    start <= k < i && k != dot1 ==> s[k] != '.',
                ndots == 2 ==> start <= dot1 < dot2 < i && s[dot1 as int] == '.'
                    && s[dot2 as int] == '.' && forall|k: int|
                    start <= k < i && k != dot1 && k != dot2 ==> s[k] != '.',
                ndots >= 3 ==> start <= dot1 < dot2 < dot3 < i && s[dot1 as int] == '.'
                    && s[dot2 as int] == '.' && s[dot3 as int] == '.',
            decreases end - i,
        {
            if version.get_char(i) == '.' {
                if ndots == 0 {
                    dot1 = i;
                } else if ndots == 1 {
                    dot2 = i;
                } else if ndots == 2 {
                    dot3 = i;
                }
                ndots += 1;
            }
            i += 1;
        }

        if ndots != 2 {
            proof {
                assert(!has_two_dots(t)) by {
                    if has_two_dots(t) {
                        let (di, dj) = choose|di: int, dj: int| two_dots_at(t, di, dj);
                        assert(t[di] == '.' && t[dj] == '.');
                        assert(s[di + start] == '.' && s[dj + start] == '.');
                        if ndots < 2 {
                            // at most one position of s in [start, end) holds a dot
                            assert(false);
                        } else {
                            // three distinct dot positions cannot all be di or dj
                            assert(t[dot1 - start as int] == '.');
                            assert(t[dot2 - start as int] == '.');
                            assert(t[dot3 - start as int] == '.');
                            assert(false);
                        }
                    }
                };
            }
            return Err(ParseFirmwareVersionError::UnmatchedSubversionError);
        }

        let ghost di = dot1 - start as int;
        let ghost dj = dot2 - start as int;
        proof {
            assert(two_dots_at(t, di, dj));
            let (ci, cj) = choose|ci: int, cj: int| two_dots_at(t, ci, cj);
            lemma_two_dots_unique(t, ci, cj, di, dj);
        }

        let t0 = version.substring_char(start, dot1);
        let t1 = version.substring_char(dot1 + 1, dot2);
        let t2 = version.substring_char(dot2 + 1, end);
        proof {
            assert(t0@ =~= t.take(di));
            assert(t1@ =~= t.subrange(di + 1, dj));
            assert(t2@ =~= t.skip(dj + 1));
        }
        let major = Self::parse_subversion(t0);
        let minor = Self::parse_subversion(t1);
        let patch = Self::parse_subversion(t2);
        if major.is_none() || minor.is_none() || patch.is_none() {
            return Err(ParseFirmwareVersionError::InvalidSubversionFormatError);
        }
        Ok(FirmwareVersion { major: major.unwrap(), minor: minor.unwrap(), patch: patch.unwrap() })
    }

    /// Parses a single subversion token, preserving the grammar's quirk for
    /// two-character tokens with a leading zero.
    pub fn parse_subversion(subversion: &str) -> (r: Option<u8>)
        ensures
            r == subversion_spec(subversion@),
    {
        let n = subversion.unicode_len();
        if n == 1 {
            let c = subversion.get_char(0);
            if is_digit(c) {
                Some((c as u32 as u8) - 48)
            } else {
                None
            }
        } else if n == 2 {
            let c0 = subversion.get_char(0);
            let c1 = subversion.get_char(1);
            if c0 == '0' && is_digit(c1) {
                Some(c1 as u32 as u8)
            } else if is_digit(c0) && is_digit(c1) {
                Some(10 * ((c0 as u32 as u8) - 48) + ((c1 as u32 as u8) - 48))
            } else {
                None
            }
        } else {
            None
        }
    }

    /// The display form `"major.minor.patch"`, decimal and unpadded.
    pub fn to_display_string(&self) -> (r: String)
        ensures
            r@ == version_display_spec(*self),
    {
        let mut out = fmt_u8(self.major);
        out.append(".");
        let minor_str = fmt_u8(self.minor);
        out.append(minor_str.as_str());
        out.append(".");
        let patch_str = fmt_u8(self.patch);
        out.append(patch_str.as_str());
        out
    }
}

impl core::str::FromStr for FirmwareVersion {
    type Err = ParseFirmwareVersionError;

    fn from_str(s: &str) -> Result<FirmwareVersion, ParseFirmwareVersionError> {
        FirmwareVersion::parse(s)
    }
}

/// Every string that trims to three dot-separated valid subversion tokens
/// parses successfully, and the parsed version displays as the three
/// numeric components joined by dots, with no zero padding.
pub proof fn lemma_valid_version_parses(s: Seq<char>, i: int, j: int)
    requires
        two_dots_at(trim_spec(s), i, j),
        subversion_spec(trim_spec(s).take(i)) is Some,
        subversion_spec(trim_spec(s).subrange(i + 1, j)) is Some,
        subversion_spec(trim_spec(s).skip(j + 1)) is Some,
    ensures
        parse_version_spec(s) is Ok,
        ({
            let v = parse_version_spec(s)->Ok_0;
            &&& v.major == subversion_spec(trim_spec(s).take(i))->Some_0
            &&& v.minor == subversion_spec(trim_spec(s).subrange(i + 1, j))->Some_0
            &&& v.patch == subversion_spec(trim_spec(s).skip(j + 1))->Some_0
            &&& version_display_spec(v) == dec_str(v.major as nat) + "."@ + dec_str(
                v.minor as nat,
            ) + "."@ + dec_str(v.patch as nat)
        }),
{
    let t = trim_spec(s);
    assert(has_two_dots(t));
    let (ci, cj) = choose|ci: int, cj: int| two_dots_at(t, ci, cj);
    lemma_two_dots_unique(t, ci, cj, i, j);
}

} // verus!
