//! Text checks used on request fields: blank fields and fixed words.
use vstd::prelude::*;
use vstd::string::StrSliceExecFns;

verus! {

/// Whether `c` has Unicode's White_Space property: the set that `str::trim` removes.
pub open spec fn is_white_space(c: char) -> bool {
    ('\u{9}' <= c && c <= '\u{d}') || c == ' ' || c == '\u{85}' || c == '\u{a0}' || c == '\u{1680}'
        || ('\u{2000}' <= c && c <= '\u{200a}') || c == '\u{2028}' || c == '\u{2029}' || c
        == '\u{202f}' || c == '\u{205f}' || c == '\u{3000}'
}

/// Relies on `char::is_whitespace`, which tests the White_Space property.
#[verifier::external_body]
fn white_space(c: char) -> (r: bool)
    ensures
        r == is_white_space(c),
{
    c.is_whitespace()
}

/// The text holds nothing once white space is trimmed from both ends.
pub open spec fn blank(s: Seq<char>) -> bool {
    forall|i: int| 0 <= i < s.len() ==> is_white_space(#[trigger] s[i])
}

/// Whether `s` is empty or white space only.
pub fn is_blank(s: &str) -> (r: bool)
    ensures
        r == blank(s@),
{
    let n = s.unicode_len();
    let mut i: usize = 0;
    while i < n
        invariant
            n == s@.len(),
            0 <= i <= n,
            forall|j: int| 0 <= j < i ==> is_white_space(#[trigger] s@[j]),
        decreases n - i,
    {
        if !white_space(s.get_char(i)) {
            return false;
        }
        i += 1;
    }
    true
}

/// Whether `a` and `b` hold the same characters.
pub fn same_text(a: &str, b: &str) -> (r: bool)
    ensures
        r == (a@ == b@),
{
    let n = a.unicode_len();
    if n != b.unicode_len() {
        return false;
    }
    let mut i: usize = 0;
    while i < n
        invariant
            n == a@.len(),
            n == b@.len(),
            0 <= i <= n,
            forall|j: int| 0 <= j < i ==> a@[j] == b@[j],
        decreases n - i,
    {
        if a.get_char(i) != b.get_char(i) {
            return false;
        }
        i += 1;
    }
    assert(a@ =~= b@);
    true
}

/// What a user may do: book and review as a customer, or run hotels as an owner.
#[derive(Clone, Copy, Debug, PartialEq, Eq, Structural)]
pub enum Role {
    Customer,
    Owner,
}

/// The role written `customer` or `owner`.
pub open spec fn role_of(s: Seq<char>) -> Option<Role> {
    if s == "customer"@ {
        Some(Role::Customer)
    } else if s == "owner"@ {
        Some(Role::Owner)
    } else {
        None
    }
}

impl Role {
    /// The role named by `s`, if any.
    pub fn parse(s: &str) -> (r: Option<Role>)
        ensures
            r == role_of(s@),
    {
        if same_text(s, "customer") {
            Some(Role::Customer)
        } else if same_text(s, "owner") {
            Some(Role::Owner)
        } else {
            None
        }
    }

    pub open spec fn name_spec(self) -> Seq<char> {
        match self {
            Role::Customer => "customer"@,
            Role::Owner => "owner"@,
        }
    }

    /// The word that names the role.
    pub fn name(&self) -> (r: String)
        ensures
            r@ == self.name_spec(),
    {
        match self {
            Role::Customer => "customer".to_owned(),
            Role::Owner => "owner".to_owned(),
        }
    }
}

} // verus!
