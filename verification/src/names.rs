//! D-Bus name syntax: bus names (unique and well-known), interface names,
//! member names and object paths, validated against the rules of the D-Bus
//! specification.

use vstd::prelude::*;
use vstd::string::StrSliceExecFns;
use crate::Error;

verus! {

/// Characters allowed in a name element; bus names additionally allow `-`.
pub open spec fn name_char(c: char, hyphen: bool) -> bool {
    ||| ('A' <= c && c <= 'Z')
    ||| ('a' <= c && c <= 'z')
    ||| ('0' <= c && c <= '9')
    ||| c == '_'
    ||| (hyphen && c == '-')
}

pub open spec fn digit_char(c: char) -> bool {
    '0' <= c && c <= '9'
}

/// The dotted part of a bus, interface or error name, read from position
/// `from` on: one or more non-empty elements separated by `.`, with at least
/// two elements, each made of the allowed characters. When `digit_start` is
/// false, no element may begin with a digit.
pub open spec fn valid_name_body(s: Seq<char>, from: int, digit_start: bool, hyphen: bool) -> bool {
    &&& from < s.len()
    &&& s[from] != '.'
    &&& s[s.len() - 1] != '.'
    &&& (exists|i: int| from <= i < s.len() && s[i] == '.')
    &&& (forall|i: int| from <= i < s.len() ==> name_char(#[trigger] s[i], hyphen) || s[i] == '.')
    &&& (forall|i: int| from < i < s.len() && s[i - 1] == '.' ==> #[trigger] s[i] != '.')
    &&& (!digit_start ==> !digit_char(s[from]))
    &&& (!digit_start ==> (forall|i: int|
        from < i < s.len() && s[i - 1] == '.' ==> !digit_char(#[trigger] s[i])))
}

/// A unique connection name: `:` followed by a name body whose elements may
/// begin with digits; at most 255 characters.
pub open spec fn valid_unique_name(s: Seq<char>) -> bool {
    &&& s.len() <= 255
    &&& s.len() >= 1
    &&& s[0] == ':'
    &&& valid_name_body(s, 1, true, true)
}

/// A well-known bus name: a name body whose elements must not begin with a
/// digit; at most 255 characters and no leading `:`.
pub open spec fn valid_well_known_name(s: Seq<char>) -> bool {
    &&& s.len() <= 255
    &&& valid_name_body(s, 0, false, true)
}

/// An interface name: like a well-known name but without `-`.
pub open spec fn valid_interface_name(s: Seq<char>) -> bool {
    &&& s.len() <= 255
    &&& valid_name_body(s, 0, false, false)
}

/// An error name follows the interface name rules.
pub open spec fn valid_error_name(s: Seq<char>) -> bool {
    valid_interface_name(s)
}

/// A member (method or signal) name: 1 to 255 characters from the
/// no-hyphen set, no dots, not beginning with a digit.
pub open spec fn valid_member_name(s: Seq<char>) -> bool {
    &&& 1 <= s.len() <= 255
    &&& !digit_char(s[0])
    &&& (forall|i: int| 0 <= i < s.len() ==> name_char(#[trigger] s[i], false))
}

/// An object path: `/` alone, or `/`-separated non-empty elements of
/// `[A-Za-z0-9_]`, with no trailing `/`.
pub open spec fn valid_object_path(s: Seq<char>) -> bool {
    &&& s.len() >= 1
    &&& s[0] == '/'
    &&& s[s.len() - 1] == '/' ==> s.len() == 1
    &&& (forall|i: int| 0 < i < s.len() ==> name_char(#[trigger] s[i], false) || s[i] == '/')
    &&& (forall|i: int| 0 < i < s.len() && s[i - 1] == '/' ==> #[trigger] s[i] != '/')
}

/// Character-for-character string equality.
pub fn str_eq(a: &str, b: &str) -> (r: bool)
    ensures
        r == (a@ == b@),
{
    let na = a.unicode_len();
    let nb = b.unicode_len();
    if na != nb {
        proof {
            assert(a@ != b@);
        }
        return false;
    }
    let mut i: usize = 0;
    while i < na
        invariant
            0 <= i <= na,
            na == a@.len(),
            nb == b@.len(),
            na == nb,
            forall|j: int| 0 <= j < i ==> a@[j] == b@[j],
        decreases na - i,
    {
        if a.get_char(i) != b.get_char(i) {
            proof {
                assert(a@[i as int] != b@[i as int]);
            }
            return false;
        }
        i = i + 1;
    }
    proof {
        assert(a@ =~= b@);
    }
    true
}

fn char_ok(c: char, hyphen: bool) -> (r: bool)
    ensures
        r == name_char(c, hyphen),
{
    ('A' <= c && c <= 'Z') || ('a' <= c && c <= 'z') || ('0' <= c && c <= '9') || c == '_' || (
    hyphen && c == '-')
}

fn char_digit(c: char) -> (r: bool)
    ensures
        r == digit_char(c),
{
    '0' <= c && c <= '9'
}

/// Checks the dotted part of a name, starting at character `from`.
pub fn check_name_body(s: &str, from: usize, digit_start: bool, hyphen: bool) -> (r: bool)
    ensures
        r == valid_name_body(s@, from as int, digit_start, hyphen),
{
    let n = s.unicode_len();
    if from >= n {
        return false;
    }
    let mut i: usize = from;
    let mut seen_dot: bool = false;
    let mut prev: char = ' ';
    while i < n
        invariant
            from <= i <= n,
            n == s@.len(),
            s@[from as int] != '.' || i == from,
            forall|j: int| from <= j < i ==> name_char(#[trigger] s@[j], hyphen) || s@[j] == '.',
            forall|j: int| from < j < i && s@[j - 1] == '.' ==> #[trigger] s@[j] != '.',
            !digit_start && i > from ==> !digit_char(s@[from as int]),
            !digit_start ==> (forall|j: int|
                from < j < i && s@[j - 1] == '.' ==> !digit_char(#[trigger] s@[j])),
            seen_dot == exists|j: int| from <= j < i && s@[j] == '.',
            i > from ==> prev == s@[i - 1],
        decreases n - i,
    {
        let c = s.get_char(i);
        if c == '.' {
            if i == from {
                return false;
            }
            if prev == '.' {
                return false;
            }
            seen_dot = true;
        } else if !char_ok(c, hyphen) {
            return false;
        } else if !digit_start && char_digit(c) && (i == from || prev == '.') {
            return false;
        }
        prev = c;
        i = i + 1;
    }
    if !seen_dot {
        return false;
    }
    if prev == '.' {
        return false;
    }
    true
}

/// Checks a unique connection name.
pub fn check_unique_name(s: &str) -> (r: bool)
    ensures
        r == valid_unique_name(s@),
{
    let n = s.unicode_len();
    if n < 1 || n > 255 {
        return false;
    }
    if s.get_char(0) != ':' {
        return false;
    }
    check_name_body(s, 1, true, true)
}

/// Checks a well-known bus name.
pub fn check_well_known_name(s: &str) -> (r: bool)
    ensures
        r == valid_well_known_name(s@),
{
    let n = s.unicode_len();
    if n > 255 {
        return false;
    }
    check_name_body(s, 0, false, true)
}

/// Checks an interface name.
pub fn check_interface_name(s: &str) -> (r: bool)
    ensures
        r == valid_interface_name(s@),
{
    let n = s.unicode_len();
    if n > 255 {
        return false;
    }
    check_name_body(s, 0, false, false)
}

/// Checks an error name.
pub fn check_error_name(s: &str) -> (r: bool)
    ensures
        r == valid_error_name(s@),
{
    check_interface_name(s)
}

/// Checks a member (method or signal) name.
pub fn check_member_name(s: &str) -> (r: bool)
    ensures
        r == valid_member_name(s@),
{
    let n = s.unicode_len();
    if n < 1 || n > 255 {
        return false;
    }
    let mut i: usize = 0;
    while i < n
        invariant
            0 <= i <= n,
            n == s@.len(),
            1 <= n <= 255,
            forall|j: int| 0 <= j < i ==> name_char(#[trigger] s@[j], false),
            i > 0 ==> !digit_char(s@[0]),
        decreases n - i,
    {
        let c = s.get_char(i);
        if !char_ok(c, false) {
            return false;
        }
        if i == 0 && char_digit(c) {
            return false;
        }
        i = i + 1;
    }
    true
}

/// Checks an object path.
pub fn check_object_path(s: &str) -> (r: bool)
    ensures
        r == valid_object_path(s@),
{
    let n = s.unicode_len();
    if n < 1 {
        return false;
    }
    if s.get_char(0) != '/' {
        return false;
    }
    let mut i: usize = 1;
    let mut prev: char = '/';
    while i < n
        invariant
            1 <= i <= n,
            n == s@.len(),
            s@[0] == '/',
            forall|j: int| 0 < j < i ==> name_char(#[trigger] s@[j], false) || s@[j] == '/',
            forall|j: int| 0 < j < i && s@[j - 1] == '/' ==> #[trigger] s@[j] != '/',
            prev == s@[i - 1],
        decreases n - i,
    {
        let c = s.get_char(i);
        if c == '/' {
            if prev == '/' {
                return false;
            }
        } else if !char_ok(c, false) {
            return false;
        }
        prev = c;
        i = i + 1;
    }
    if n > 1 && prev == '/' {
        return false;
    }
    true
}

/// A bus name: either a unique connection name or a well-known name.
#[derive(Debug)]
pub enum BusName {
    Unique(String),
    WellKnown(String),
}

impl Clone for BusName {
    fn clone(&self) -> (r: Self)
        ensures
            r == self,
    {
        self.to_owned()
    }
}

impl BusName {
    /// The sequence of characters of the name.
    pub open spec fn name_seq(&self) -> Seq<char> {
        match self {
            BusName::Unique(s) => s@,
            BusName::WellKnown(s) => s@,
        }
    }

    /// The name is syntactically valid for its variant.
    pub open spec fn wf(&self) -> bool {
        match self {
            BusName::Unique(s) => valid_unique_name(s@),
            BusName::WellKnown(s) => valid_well_known_name(s@),
        }
    }

    /// The name as a string.
    pub fn as_str(&self) -> (r: &str)
        ensures
            r@ == self.name_seq(),
    {
        match self {
            BusName::Unique(name) => name.as_str(),
            BusName::WellKnown(name) => name.as_str(),
        }
    }

    /// Creates an owned clone of `self`.
    pub fn to_owned(&self) -> (r: BusName)
        ensures
            r == self,
    {
        match self {
            BusName::Unique(name) => BusName::Unique(name.clone()),
            BusName::WellKnown(name) => BusName::WellKnown(name.clone()),
        }
    }

    /// Creates an owned clone of `self`.
    pub fn into_owned(self) -> (r: BusName)
        ensures
            r == self,
    {
        self
    }

    /// Parses a bus name, classifying it as unique or well-known.
    ///
    /// Returns `Ok` exactly on the strings that satisfy one of the two
    /// syntaxes; a name starting with `:` can only be unique.
    pub fn try_from(value: &str) -> (r: Result<BusName, Error>)
        ensures
            valid_unique_name(value@) ==> (r matches Ok(n) && n is Unique && n.name_seq()
                == value@),
            !valid_unique_name(value@) && valid_well_known_name(value@) ==> (r matches Ok(n)
                && n is WellKnown && n.name_seq() == value@),
            !valid_unique_name(value@) && !valid_well_known_name(value@) ==> (r matches Err(e) && e
                == Error::NameError),
            r matches Ok(n) ==> n.wf(),
    {
        if check_unique_name(value) {
            Ok(BusName::Unique(value.to_owned()))
        } else if check_well_known_name(value) {
            Ok(BusName::WellKnown(value.to_owned()))
        } else {
            Err(Error::NameError)
        }
    }
}

/// Owned sibling of [`BusName`].
#[derive(Debug)]
pub struct OwnedBusName(pub BusName);

impl Clone for OwnedBusName {
    fn clone(&self) -> (r: Self)
        ensures
            r == self,
    {
        OwnedBusName(self.0.to_owned())
    }
}

impl OwnedBusName {
    /// Convert to the inner `BusName`, consuming `self`.
    pub fn into_inner(self) -> (r: BusName)
        ensures
            r == self.0,
    {
        self.0
    }
}

} // verus!
