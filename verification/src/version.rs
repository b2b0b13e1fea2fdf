//! Versions of the game, and requirements on them.

use crate::text::characters;
use crate::McError;
use vstd::prelude::*;
use vstd::string::StringExecFns;

verus! {

/// A version of the game: the release `1.major.minor`, or anything else
/// under its own name.
#[derive(Debug)]
pub struct MCVersion {
    pub major: u8,
    pub minor: u8,
    pub is_release: bool,
    pub extra: String,
}

/// A list of comparators that a version has to satisfy, all of them.
#[derive(Debug)]
pub struct MCVersionReq {
    pub comparators: Vec<Comparator>,
}

/// One comparison against a release.
#[derive(Debug)]
pub struct Comparator {
    pub op: Op,
    pub major: u8,
    pub minor: u8,
}

#[derive(Debug)]
pub enum Op {
    Exact,
    Greater,
    GreaterEq,
    Less,
    LessEq,
    Wildcard,
}

impl Comparator {
    /// Whether `version` satisfies the comparator.
    pub open spec fn accepts(&self, version: &MCVersion) -> bool {
        match self.op {
            Op::Exact => self.major == version.major && self.minor == version.minor,
            Op::Greater => self.major < version.major || (self.major == version.major
                && self.minor < version.minor),
            Op::GreaterEq => self.major <= version.major || (self.major == version.major
                && self.minor <= version.minor),
            Op::Less => self.major > version.major || (self.major == version.major && self.minor
                > version.minor),
            Op::LessEq => self.major >= version.major || (self.major == version.major
                && self.minor >= version.minor),
            Op::Wildcard => true,
        }
    }

    pub fn matches(&self, version: &MCVersion) -> (accepted: bool)
        ensures
            accepted == self.accepts(version),
    {
        match self.op {
            Op::Exact => self.major == version.major && self.minor == version.minor,
            Op::Greater => self.major < version.major || (self.major == version.major
                && self.minor < version.minor),
            Op::GreaterEq => self.major <= version.major || (self.major == version.major
                && self.minor <= version.minor),
            Op::Less => self.major > version.major || (self.major == version.major && self.minor
                > version.minor),
            Op::LessEq => self.major >= version.major || (self.major == version.major
                && self.minor >= version.minor),
            Op::Wildcard => true,
        }
    }
}

impl MCVersionReq {
    /// Whether `version` satisfies every comparator.
    pub open spec fn accepts(&self, version: &MCVersion) -> bool {
        forall|i: int|
            0 <= i < self.comparators@.len() ==> (#[trigger] self.comparators@[i]).accepts(version)
    }

    /// The requirement that every version satisfies.
    pub fn any() -> (req: Self)
        ensures
            req.comparators@.len() == 0,
            forall|version: &MCVersion| req.accepts(version),
    {
        MCVersionReq { comparators: Vec::new() }
    }

    pub fn matches(&self, version: &MCVersion) -> (accepted: bool)
        ensures
            accepted == self.accepts(version),
    {
        let mut i: usize = 0;
        while i < self.comparators.len()
            invariant
                i <= self.comparators@.len(),
                forall|j: int| 0 <= j < i ==> (#[trigger] self.comparators@[j]).accepts(version),
            decreases self.comparators@.len() - i,
        {
            if !self.comparators[i].matches(version) {
                return false;
            }
            i += 1;
        }
        true
    }
}

impl Default for MCVersionReq {
    fn default() -> (req: Self)
        ensures
            req.comparators@.len() == 0,
    {
        MCVersionReq::any()
    }
}

/// The position of the first `.` of `s` at or after `i`, or the length of
/// `s` where there is none.
pub open spec fn dot_from(s: Seq<char>, i: int) -> int
    decreases s.len() - i,
{
    if i < 0 || i >= s.len() {
        s.len() as int
    } else if s[i] == '.' {
        i
    } else {
        dot_from(s, i + 1)
    }
}

/// Every character of `s` is a decimal digit.
pub open spec fn all_digits(s: Seq<char>) -> bool {
    forall|i: int| 0 <= i < s.len() ==> '0' <= #[trigger] s[i] <= '9'
}

/// The number that the decimal digits `s` spell.
pub open spec fn digits_value(s: Seq<char>) -> nat
    decreases s.len(),
{
    if s.len() == 0 {
        0
    } else {
        digits_value(s.drop_last()) * 10 + (s.last() as u32 - '0' as u32) as nat
    }
}

/// The number that `s` stands for in a version: what its digits spell,
/// with or without a `+` before them, where that is at most 255; and 0 for
/// a larger number and for any other text.
pub open spec fn small_number(s: Seq<char>) -> nat {
    let digits = if s.len() > 0 && s[0] == '+' {
        s.drop_first()
    } else {
        s
    };
    if digits.len() > 0 && all_digits(digits) && digits_value(digits) <= 255 {
        digits_value(digits)
    } else {
        0
    }
}

/// The position of the first `.` of `chars` at or after `from`.
fn find_dot(chars: &Vec<char>, from: usize) -> (at: usize)
    requires
        from <= chars@.len(),
    ensures
        at == dot_from(chars@, from as int),
        from <= at <= chars@.len(),
{
    let mut i: usize = from;
    while i < chars.len() && chars[i] != '.'
        invariant
            from <= i <= chars@.len(),
            dot_from(chars@, from as int) == dot_from(chars@, i as int),
        decreases chars@.len() - i,
    {
        i += 1;
    }
    i
}

/// Whether `c` occurs in `chars`.
fn has_char(chars: &Vec<char>, c: char) -> (found: bool)
    ensures
        found == chars@.contains(c),
{
    let mut i: usize = 0;
    while i < chars.len()
        invariant
            i <= chars@.len(),
            forall|j: int| 0 <= j < i ==> chars@[j] != c,
        decreases chars@.len() - i,
    {
        if chars[i] == c {
            return true;
        }
        i += 1;
    }
    false
}

/// The number that the characters from `from` up to `to` stand for.
fn read_number(chars: &Vec<char>, from: usize, to: usize) -> (number: u8)
    requires
        from <= to <= chars@.len(),
    ensures
        number == small_number(chars@.subrange(from as int, to as int)),
{
    let ghost s = chars@.subrange(from as int, to as int);
    let start: usize = if from < to && chars[from] == '+' {
        from + 1
    } else {
        from
    };
    let ghost digits = chars@.subrange(start as int, to as int);
    assert(digits =~= if s.len() > 0 && s[0] == '+' {
        s.drop_first()
    } else {
        s
    });
    if start == to {
        return 0;
    }
    let mut value: u32 = 0;
    let mut too_large = false;
    let mut i: usize = start;
    assert(digits.take(0) =~= Seq::<char>::empty());
    while i < to
        invariant
            start <= i <= to <= chars@.len(),
            digits == chars@.subrange(start as int, to as int),
            s == chars@.subrange(from as int, to as int),
            digits == if s.len() > 0 && s[0] == '+' {
                s.drop_first()
            } else {
                s
            },
            all_digits(digits.take(i - start)),
            !too_large ==> value == digits_value(digits.take(i - start)) && value <= 255,
            too_large ==> digits_value(digits.take(i - start)) > 255,
        decreases to - i,
    {
        let c = chars[i];
        assert(digits.take(i - start + 1).drop_last() =~= digits.take(i - start));
        assert(digits.take(i - start + 1).last() == c);
        if c < '0' || c > '9' {
            assert(digits[i - start] == c);
            return 0;
        }
        if !too_large {
            value = value * 10 + (c as u32 - '0' as u32);
            if value > 255 {
                too_large = true;
            }
        }
        assert forall|j: int| 0 <= j < i - start + 1 implies '0' <= #[trigger] digits.take(
            i - start + 1,
        )[j] <= '9' by {
            if j < i - start {
                assert(digits.take(i - start)[j] == digits.take(i - start + 1)[j]);
            }
        }
        i += 1;
    }
    assert(digits.take(to - start) =~= digits);
    if too_large {
        0
    } else {
        value as u8
    }
}

impl MCVersion {
    /// Whether `text` names something other than a release: it has no `.`,
    /// or it has a `-` or a space.
    pub open spec fn is_name(text: Seq<char>) -> bool {
        dot_from(text, 0) == text.len() || text.contains('-') || text.contains(' ')
    }

    /// Whether `text` starts with `1.`, as every release does.
    pub open spec fn starts_with_one(text: Seq<char>) -> bool {
        dot_from(text, 0) == 1 && text[0] == '1'
    }

    /// Where the second part of `text` ends.
    pub open spec fn second_dot(text: Seq<char>) -> int {
        dot_from(text, dot_from(text, 0) + 1)
    }

    /// Whether `text` can be read as a version or told not to be one: a
    /// text that starts like a release has at least three parts.
    pub open spec fn readable(text: Seq<char>) -> bool {
        !Self::is_name(text) && Self::starts_with_one(text) ==> Self::second_dot(text)
            < text.len()
    }

    /// The major number that the release `text` is written with.
    pub open spec fn major_of(text: Seq<char>) -> nat {
        small_number(text.subrange(dot_from(text, 0) + 1, Self::second_dot(text)))
    }

    /// The minor number that the release `text` is written with.
    pub open spec fn minor_of(text: Seq<char>) -> nat {
        small_number(
            text.subrange(Self::second_dot(text) + 1, dot_from(text, Self::second_dot(text) + 1)),
        )
    }

    /// Reads a version: `1.major.minor`, where a number that cannot be read
    /// counts as 0 and further parts are passed over; anything without a
    /// `.`, or with a `-` or a space, is taken as the name of a version that
    /// is no release. Other texts are no versions.
    pub fn from_str(text: &str) -> (read: Result<MCVersion, McError>)
        requires
            Self::readable(text@),
        ensures
            match read {
                Ok(version) => if Self::is_name(text@) {
                    !version.is_release && version.major == 0 && version.minor == 0
                        && version.extra@ == text@
                } else {
                    Self::starts_with_one(text@) && version.is_release && version.major
                        == Self::major_of(text@) && version.minor == Self::minor_of(text@)
                        && version.extra@.len() == 0
                },
                Err(error) => !Self::is_name(text@) && !Self::starts_with_one(text@) && (
                error matches McError::InvalidVersion(what) && what@ == text@),
            },
    {
        let chars = characters(text);
        let first = find_dot(&chars, 0);
        if first == chars.len() || has_char(&chars, '-') || has_char(&chars, ' ') {
            return Ok(
                Self { major: 0, minor: 0, is_release: false, extra: String::from_str(text) },
            );
        }
        if first != 1 || chars[0] != '1' {
            return Err(McError::InvalidVersion(String::from_str(text)));
        }
        let second = find_dot(&chars, first + 1);
        let third = find_dot(&chars, second + 1);
        let major = read_number(&chars, first + 1, second);
        let minor = read_number(&chars, second + 1, third);
        Ok(Self { major, minor, is_release: true, extra: String::new() })
    }

    /// The release `1.major.minor`.
    pub fn new(major: u8, minor: u8) -> (version: Self)
        ensures
            version.major == major,
            version.minor == minor,
            version.is_release,
            version.extra@.len() == 0,
    {
        Self { major, minor, is_release: true, extra: String::new() }
    }
}

} // verus!
