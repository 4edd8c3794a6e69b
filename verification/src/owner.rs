//! Who a subscription belongs to.
//!
//! The owner is a tag for bookkeeping and display. It never decides whether
//! or how a message is delivered, which is why an unreadable stored name is
//! read leniently, as the administrator, where malformed key material is not.

use vstd::prelude::*;
use vstd::string::*;
use vstd::utf8::is_ascii_chars;

verus! {

/// The people who can own a subscription.
#[derive(Clone, Copy, Debug, PartialEq, Eq, Hash, Structural)]
pub enum User {
    Maria,
    Admin,
}

/// What is known of the caller of a request.
#[derive(Clone, Copy, Debug, PartialEq, Eq, Structural)]
pub enum MaybeUser {
    /// The caller proved to be this user.
    User(User),
    /// The caller presented credentials that were not accepted.
    Rejected,
    /// The caller presented nothing.
    Anonymous,
}

/// The failures that a caller of the service gets to see.
#[derive(Clone, Copy, Debug, PartialEq, Eq, Structural)]
pub enum EyeError {
    /// The process is not set up to work: a key or a collaborator is missing.
    ConfigError,
    /// The caller is not logged in.
    AuthError,
    /// The subscription store could not be reached.
    StoreError,
}

/// An upper-case ASCII letter becomes its lower-case form; every other
/// character stays.
pub open spec fn ascii_lower(c: char) -> char {
    if 'A' <= c && c <= 'Z' {
        ((c as u8) + 32) as char
    } else {
        c
    }
}

/// Two texts are equal up to the case of their ASCII letters.
pub open spec fn eq_ignore_ascii_case(a: Seq<char>, b: Seq<char>) -> bool {
    a.len() == b.len() && forall|i: int|
        0 <= i < a.len() ==> ascii_lower(#[trigger] a[i]) == ascii_lower(b[i])
}

/// The user that a name stands for, whatever the case of its letters.
pub open spec fn named_user(name: Seq<char>) -> Option<User> {
    if eq_ignore_ascii_case(name, "Maria"@) {
        Some(User::Maria)
    } else if eq_ignore_ascii_case(name, "Admin"@) {
        Some(User::Admin)
    } else {
        None
    }
}

spec fn byte_lower(b: u8) -> u8 {
    if 65 <= b && b <= 90 {
        (b + 32) as u8
    } else {
        b
    }
}

fn lower(b: u8) -> (r: u8)
    ensures
        r == byte_lower(b),
{
    if 65 <= b && b <= 90 {
        b + 32
    } else {
        b
    }
}

proof fn lemma_lower_agrees(c: char, d: char)
    requires
        '\0' <= c <= '\u{7f}',
        '\0' <= d <= '\u{7f}',
    ensures
        (ascii_lower(c) == ascii_lower(d)) == (byte_lower(c as u8) == byte_lower(d as u8)),
{
}

proof fn lemma_match_is_ascii(name: Seq<char>, target: Seq<char>)
    requires
        is_ascii_chars(target),
        eq_ignore_ascii_case(name, target),
    ensures
        is_ascii_chars(name),
{
}

fn matches_name(name: &str, target: &str) -> (r: bool)
    requires
        target.is_ascii(),
    ensures
        r == eq_ignore_ascii_case(name@, target@),
{
    broadcast use is_ascii_spec_bytes;

    if !name.is_ascii() {
        proof {
            if eq_ignore_ascii_case(name@, target@) {
                lemma_match_is_ascii(name@, target@);
            }
        }
        return false;
    }
    let a = name.as_bytes();
    let b = target.as_bytes();
    if a.len() != b.len() {
        return false;
    }
    let n: usize = a.len();
    let mut i: usize = 0;
    while i < n
        invariant
            i <= n,
            n == a@.len(),
            n == b@.len(),
            name@.len() == n,
            target@.len() == n,
            is_ascii(name),
            is_ascii(target),
            a@ == name.spec_bytes(),
            b@ == target.spec_bytes(),
            forall|j: int| 0 <= j < i ==> ascii_lower(#[trigger] name@[j]) == ascii_lower(target@[j]),
        decreases n - i,
    {
        proof {
            lemma_lower_agrees(name@[i as int], target@[i as int]);
        }
        if lower(a[i]) != lower(b[i]) {
            return false;
        }
        i += 1;
    }
    true
}

impl User {
    /// The name under which the user is stored.
    pub fn as_str(&self) -> (r: &'static str)
        ensures
            r@ == (match *self {
                User::Maria => "Maria"@,
                User::Admin => "Admin"@,
            }),
    {
        match self {
            User::Maria => "Maria",
            User::Admin => "Admin",
        }
    }

    /// Reads a user's name, whatever the case of its ASCII letters.
    pub fn parse(name: &str) -> (r: Option<User>)
        ensures
            r == named_user(name@),
    {
        proof {
            reveal_strlit("Maria");
            reveal_strlit("Admin");
        }
        if matches_name(name, "Maria") {
            Some(User::Maria)
        } else if matches_name(name, "Admin") {
            Some(User::Admin)
        } else {
            None
        }
    }

    /// Reads a stored owner's name. A name that stands for no user is read as
    /// the administrator.
    pub fn resolve(name: &str) -> (r: User)
        ensures
            r == (match named_user(name@) {
                Some(user) => user,
                None => User::Admin,
            }),
    {
        match User::parse(name) {
            Some(user) => user,
            None => User::Admin,
        }
    }
}

impl MaybeUser {
    /// Succeeds for a caller who is a known user, and for nobody else.
    pub fn is_logged_in(&self) -> (r: Result<(), EyeError>)
        ensures
            r is Ok <==> *self is User,
            r is Err ==> r->Err_0 == EyeError::AuthError,
    {
        match self {
            MaybeUser::User(_) => Ok(()),
            _ => Err(EyeError::AuthError),
        }
    }
}

/// A user's stored name stands for that user: what `as_str` writes, `parse`
/// and `resolve` read back.
pub proof fn lemma_name_roundtrip(user: User)
    ensures
        named_user(
            match user {
                User::Maria => "Maria"@,
                User::Admin => "Admin"@,
            },
        ) == Some(user),
{
    reveal_strlit("Maria");
    reveal_strlit("Admin");
    assert("Maria"@[0] != "Admin"@[0]);
}

} // verus!
