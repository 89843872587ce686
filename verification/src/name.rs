//! Project and account identifiers.
//!
//! A project name doubles as the left-most DNS label of the project's
//! hostname, so it must be a valid lowercase DNS label.  Account names are
//! opaque, but must not be empty.

use vstd::prelude::*;
use vstd::string::*;

use crate::error::{Error, ErrorKind};

verus! {

/// May `c` appear in a project name?
pub open spec fn is_name_char(c: char) -> bool {
    ('a' <= c && c <= 'z') || ('0' <= c && c <= '9') || c == '-'
}

/// A valid project name: 1 to 63 characters, each a lowercase ASCII
/// letter, a digit or a hyphen, and neither the first nor the last
/// character a hyphen.
pub open spec fn valid_project_name(s: Seq<char>) -> bool {
    &&& 1 <= s.len() <= 63
    &&& (forall|i: int| 0 <= i < s.len() ==> is_name_char(#[trigger] s[i]))
    &&& s[0] != '-'
    &&& s[s.len() - 1] != '-'
}

/// A project's unique, DNS-label-compatible identifier.
#[derive(Debug, Clone, PartialEq, Eq, Hash)]
pub struct ProjectName {
    inner: String,
}

impl View for ProjectName {
    type V = Seq<char>;

    closed spec fn view(&self) -> Seq<char> {
        self.inner@
    }
}

impl ProjectName {
    pub fn as_str(&self) -> (s: &str)
        ensures
            s@ == self@,
    {
        self.inner.as_str()
    }

    /// Does this name satisfy the project-name rules?
    pub fn is_valid(&self) -> (r: bool)
        ensures
            r == valid_project_name(self@),
    {
        let s = self.inner.as_str();
        let n = s.unicode_len();
        if n == 0 || n > 63 {
            return false;
        }
        if s.get_char(0) == '-' || s.get_char(n - 1) == '-' {
            return false;
        }
        let mut i: usize = 0;
        while i < n
            invariant
                0 < n <= 63,
                s@ == self@,
                n == s@.len(),
                i <= n,
                forall|j: int| 0 <= j < i ==> is_name_char(#[trigger] s@[j]),
            decreases n - i,
        {
            let c = s.get_char(i);
            if !(('a' <= c && c <= 'z') || ('0' <= c && c <= '9') || c == '-') {
                proof {
                    assert(!is_name_char(self@[i as int]));
                }
                return false;
            }
            i = i + 1;
        }
        true
    }

    /// Parses a project name, accepting exactly the valid names.
    pub fn parse(s: &str) -> (r: Result<ProjectName, Error>)
        ensures
            valid_project_name(s@) ==> (r matches Ok(name) && name@ == s@),
            !valid_project_name(s@) ==> (r matches Err(e) && e.spec_kind()
                == ErrorKind::InvalidProjectName),
    {
        let name = ProjectName { inner: String::from_str(s) };
        if name.is_valid() {
            Ok(name)
        } else {
            Err(Error::from_kind(ErrorKind::InvalidProjectName))
        }
    }

    /// Equality on the underlying text, usable in verified code.
    pub fn eq_name(&self, other: &ProjectName) -> (r: bool)
        ensures
            r == (self@ == other@),
    {
        self.inner == other.inner
    }

    /// A copy of the name, usable in verified code.
    pub fn duplicate(&self) -> (r: ProjectName)
        ensures
            r@ == self@,
    {
        ProjectName { inner: self.inner.clone() }
    }
}

/// Character-wise equality of two string slices, usable in verified
/// code.
pub fn str_eq(a: &str, b: &str) -> (r: bool)
    ensures
        r == (a@ == b@),
{
    let an = a.unicode_len();
    let bn = b.unicode_len();
    if an != bn {
        proof {
            assert(a@ != b@);
        }
        return false;
    }
    let mut i: usize = 0;
    while i < an
        invariant
            i <= an,
            an == a@.len(),
            an == b@.len(),
            forall|j: int| 0 <= j < i ==> a@[j] == b@[j],
        decreases an - i,
    {
        if a.get_char(i) != b.get_char(i) {
            return false;
        }
        i = i + 1;
    }
    proof {
        assert(a@ =~= b@);
    }
    true
}

/// The opaque, non-empty name of an account.
#[derive(Debug, Clone, PartialEq, Eq)]
pub struct AccountName {
    inner: String,
}

impl View for AccountName {
    type V = Seq<char>;

    closed spec fn view(&self) -> Seq<char> {
        self.inner@
    }
}

impl AccountName {
    pub fn as_str(&self) -> (s: &str)
        ensures
            s@ == self@,
    {
        self.inner.as_str()
    }

    /// Parses an account name, rejecting only the empty string.
    pub fn parse(s: &str) -> (r: Result<AccountName, Error>)
        ensures
            s@.len() > 0 ==> (r matches Ok(name) && name@ == s@),
            s@.len() == 0 ==> (r matches Err(e) && e.spec_kind() == ErrorKind::InvalidAccountName),
    {
        if s.unicode_len() == 0 {
            Err(Error::from_kind(ErrorKind::InvalidAccountName))
        } else {
            Ok(AccountName { inner: String::from_str(s) })
        }
    }

    /// Equality on the underlying text, usable in verified code.
    pub fn eq_name(&self, other: &AccountName) -> (r: bool)
        ensures
            r == (self@ == other@),
    {
        self.inner == other.inner
    }

    /// A copy of the name, usable in verified code.
    pub fn duplicate(&self) -> (r: AccountName)
        ensures
            r@ == self@,
    {
        AccountName { inner: self.inner.clone() }
    }
}

} // verus!
