//! The naming convention of archive candidates: a fixed number of ASCII digits,
//! then a hyphen, then anything.

use vstd::prelude::*;
use vstd::string::*;

verus! {

/// The digit count that a matcher has when none is configured.
pub const DEFAULT_DIGITS: usize = 10;

/// `c` is one of the ten ASCII digits.
pub open spec fn is_ascii_digit(c: char) -> bool {
    '0' <= c && c <= '9'
}

/// `name` begins with exactly `digits` ASCII digits and a hyphen after them.
pub open spec fn matches_pattern(name: Seq<char>, digits: nat) -> bool {
    &&& digits < name.len()
    &&& forall|i: int| 0 <= i < digits ==> is_ascii_digit(#[trigger] name[i])
    &&& name[digits as int] == '-'
}

/// Decides whether a file name is an archive candidate.
#[derive(Clone, Copy, Debug)]
pub struct PatternMatcher {
    digits: usize,
}

impl PatternMatcher {
    /// The number of leading digits that this matcher asks for.
    pub closed spec fn spec_digits(&self) -> nat {
        self.digits as nat
    }

    /// A matcher for names that begin with `digits` ASCII digits and a hyphen.
    pub fn new(digits: usize) -> (matcher: PatternMatcher)
        ensures
            matcher.spec_digits() == digits,
    {
        PatternMatcher { digits }
    }

    /// A matcher with `DEFAULT_DIGITS` leading digits.
    pub fn with_default_digits() -> (matcher: PatternMatcher)
        ensures
            matcher.spec_digits() == DEFAULT_DIGITS,
    {
        PatternMatcher { digits: DEFAULT_DIGITS }
    }

    /// The number of leading digits that this matcher asks for.
    pub fn digits(&self) -> (digits: usize)
        ensures
            digits == self.spec_digits(),
    {
        self.digits
    }

    /// True exactly for the names that follow the convention. Nothing else is
    /// looked at: neither an extension nor the value of the digits.
    pub fn is_match(&self, name: &str) -> (matched: bool)
        ensures
            matched == matches_pattern(name@, self.spec_digits()),
    {
        let len: usize = name.unicode_len();
        if len <= self.digits {
            return false;
        }
        let mut i: usize = 0;
        while i < self.digits
            invariant
                i <= self.digits < len,
                len == name@.len(),
                forall|j: int| 0 <= j < i ==> is_ascii_digit(#[trigger] name@[j]),
            decreases self.digits - i,
        {
            let c: char = name.get_char(i);
            if !(c >= '0' && c <= '9') {
                return false;
            }
            i = i + 1;
        }
        name.get_char(self.digits) == '-'
    }
}

} // verus!
