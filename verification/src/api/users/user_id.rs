//! User identity: either an account ID or an e-mail address.

use core::cmp::Ordering;
use vstd::prelude::*;
use vstd::string::StringSliceAdditionalSpecFns;
use vstd::utf8::encode_utf8;
use crate::json::{
    empty_obj, json_rep, map_insert, map_new, value_object, value_string, JsonRep,
};

verus! {

/// The case-folded form of a string. The result depends on the characters
/// alone; its value is not spelled out here.
pub uninterp spec fn lower_of(s: Seq<char>) -> Seq<char>;

/// Relies on str::to_lowercase: the result depends on the characters
/// alone.
#[verifier::external_body]
fn lowercase(s: &str) -> (r: String)
    ensures
        r@ == lower_of(s@),
{
    s.to_lowercase()
}

/// Lexicographic order on byte strings: the order `str::cmp` induces on
/// the UTF-8 bytes of two strings.
pub open spec fn lex_cmp(a: Seq<u8>, b: Seq<u8>) -> Ordering
    decreases a.len(),
{
    if a.len() == 0 && b.len() == 0 {
        Ordering::Equal
    } else if a.len() == 0 {
        Ordering::Less
    } else if b.len() == 0 {
        Ordering::Greater
    } else if a[0] < b[0] {
        Ordering::Less
    } else if a[0] > b[0] {
        Ordering::Greater
    } else {
        lex_cmp(a.skip(1), b.skip(1))
    }
}

/// Dropping an equal prefix does not change the lexicographic order.
proof fn lemma_lex_cmp_skip(a: Seq<u8>, b: Seq<u8>, i: int)
    requires
        0 <= i <= a.len(),
        i <= b.len(),
        forall|j: int| 0 <= j < i ==> a[j] == b[j],
    ensures
        lex_cmp(a, b) == lex_cmp(a.skip(i), b.skip(i)),
    decreases i,
{
    if i == 0 {
        assert(a.skip(0) =~= a);
        assert(b.skip(0) =~= b);
    } else {
        assert(a[0] == b[0]);
        assert forall|j: int| 0 <= j < i - 1 implies a.skip(1)[j] == b.skip(1)[j] by {
            assert(a[j + 1] == b[j + 1]);
        }
        assert(a.skip(1).skip(i - 1) =~= a.skip(i));
        assert(b.skip(1).skip(i - 1) =~= b.skip(i));
        lemma_lex_cmp_skip(a.skip(1), b.skip(1), i - 1);
    }
}

/// Compare two byte strings lexicographically.
fn cmp_bytes(a: &[u8], b: &[u8]) -> (r: Ordering)
    ensures
        r == lex_cmp(a@, b@),
{
    let n: usize = if a.len() < b.len() {
        a.len()
    } else {
        b.len()
    };
    let mut i: usize = 0;
    while i < n
        invariant
            i <= n,
            n <= a@.len(),
            n <= b@.len(),
            n == a@.len() || n == b@.len(),
            forall|j: int| 0 <= j < i ==> a@[j] == b@[j],
        decreases n - i,
    {
        if a[i] < b[i] {
            proof {
                lemma_lex_cmp_skip(a@, b@, i as int);
            }
            return Ordering::Less;
        }
        if a[i] > b[i] {
            proof {
                lemma_lex_cmp_skip(a@, b@, i as int);
            }
            return Ordering::Greater;
        }
        i = i + 1;
    }
    proof {
        lemma_lex_cmp_skip(a@, b@, n as int);
    }
    if a.len() < b.len() {
        Ordering::Less
    } else if a.len() > b.len() {
        Ordering::Greater
    } else {
        Ordering::Equal
    }
}

#[verifier::external_type_specification]
#[verifier::external_body]
pub struct ExMailbox(email::Mailbox);

/// Relies on the `address` field of email::Mailbox: the bare e-mail
/// address the mailbox was built from.
#[verifier::external_body]
fn mailbox_address(mailbox: email::Mailbox) -> (r: String) {
    mailbox.address
}

/// The JSON a user ID renders to: an object with an `Id` or an `Email`
/// field.
pub open spec fn user_json_of(u: UserId) -> JsonRep {
    match u {
        UserId::Id(id) => JsonRep::Obj(empty_obj().insert("Id"@, JsonRep::Str(id@))),
        UserId::Email(address) => JsonRep::Obj(empty_obj().insert("Email"@, JsonRep::Str(address@))),
    }
}

/// User ID.
#[derive(Debug, Clone, PartialEq, Eq)]
pub enum UserId {
    /// The user identified by account ID.
    Id(String),
    /// The user identified by e-mail address.
    Email(String),
}

impl UserId {
    /// Create a user ID from an account ID.
    pub fn from_id(id: String) -> (r: UserId)
        ensures
            r == UserId::Id(id),
    {
        UserId::Id(id)
    }

    /// Create a user ID from an e-mail address.
    pub fn from_email(email: String) -> (r: UserId)
        ensures
            r == UserId::Email(email),
    {
        UserId::Email(email)
    }

    /// Create a user ID from a mailbox, keeping its address.
    pub fn from_mailbox(mailbox: email::Mailbox) -> (r: UserId)
        ensures
            r matches UserId::Email(_),
    {
        UserId::Email(mailbox_address(mailbox))
    }

    /// The account ID when the user is identified by ID, and the empty
    /// string otherwise.
    pub fn id(&self) -> (r: String)
        ensures
            self matches UserId::Id(id) ==> r@ == id@,
            !(self matches UserId::Id(_)) ==> r@ == Seq::<char>::empty(),
    {
        match self {
            UserId::Id(id) => id.clone(),
            _ => String::new(),
        }
    }

    /// The e-mail address when the user is identified by one, and the
    /// empty string otherwise.
    pub fn email(&self) -> (r: String)
        ensures
            self matches UserId::Email(address) ==> r@ == address@,
            !(self matches UserId::Email(_)) ==> r@ == Seq::<char>::empty(),
    {
        match self {
            UserId::Email(address) => address.clone(),
            _ => String::new(),
        }
    }

    /// Whether the user is identified by account ID.
    pub fn is_id(&self) -> (r: bool)
        ensures
            r == (self matches UserId::Id(_)),
    {
        match self {
            UserId::Id(_) => true,
            _ => false,
        }
    }

    /// Whether the user is identified by e-mail address.
    pub fn is_email(&self) -> (r: bool)
        ensures
            r == (self matches UserId::Email(_)),
    {
        match self {
            UserId::Email(_) => true,
            _ => false,
        }
    }

    /// Render the user ID as JSON: an object with an `Id` or an `Email`
    /// field.
    pub fn to_json(&self) -> (r: serde_json::Value)
        ensures
            json_rep(r) == user_json_of(*self),
    {
        let mut object = map_new();
        match self {
            UserId::Id(id) => {
                map_insert(&mut object, String::from_str("Id"), value_string(id.clone()));
            },
            UserId::Email(address) => {
                map_insert(&mut object, String::from_str("Email"), value_string(address.clone()));
            },
        }
        value_object(object)
    }
}

impl PartialOrd for UserId {
    /// Two IDs order as their strings; two e-mail addresses order as their
    /// case-folded forms; an ID and an e-mail address are unordered.
    fn partial_cmp(&self, other: &UserId) -> (r: Option<Ordering>) {
        match (self, other) {
            (UserId::Id(a), UserId::Id(b)) => Some(cmp_bytes(a.as_str().as_bytes(), b.as_str().as_bytes())),
            (UserId::Email(a), UserId::Email(b)) => {
                let la = lowercase(a.as_str());
                let lb = lowercase(b.as_str());
                Some(cmp_bytes(la.as_str().as_bytes(), lb.as_str().as_bytes()))
            },
            _ => None,
        }
    }
}

impl vstd::std_specs::cmp::PartialOrdSpecImpl for UserId {
    open spec fn obeys_partial_cmp_spec() -> bool {
        true
    }

    open spec fn partial_cmp_spec(&self, other: &UserId) -> Option<Ordering> {
        match (self, other) {
            (UserId::Id(a), UserId::Id(b)) => Some(lex_cmp(encode_utf8(a@), encode_utf8(b@))),
            (UserId::Email(a), UserId::Email(b)) => Some(
                lex_cmp(encode_utf8(lower_of(a@)), encode_utf8(lower_of(b@))),
            ),
            _ => None,
        }
    }
}

} // verus!
