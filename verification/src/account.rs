//! Account identities.
//!
//! An [`AccountId`] is the name of an account on the network. It can only be
//! made from a name that `near_sdk` accepts, so every identity that reaches the
//! wallet is one that the network could hold.

use vstd::prelude::*;
use vstd::std_specs::cmp::PartialEqSpecImpl;
use vstd::utf8::encode_utf8;

verus! {

/// A lower-case letter or a digit.
pub open spec fn is_name_byte(b: u8) -> bool {
    (0x61 <= b <= 0x7a) || (0x30 <= b <= 0x39)
}

/// One of `-`, `_` and `.`, which separate the parts of a name.
pub open spec fn is_separator_byte(b: u8) -> bool {
    b == 0x2d || b == 0x5f || b == 0x2e
}

/// The bytes of a valid account name: 2 to 64 letters, digits and separators,
/// with no separator at either end and no two separators in a row.
pub open spec fn valid_account_bytes(bytes: Seq<u8>) -> bool {
    &&& 2 <= bytes.len() <= 64
    &&& forall|i: int|
        0 <= i < bytes.len() ==> is_name_byte(#[trigger] bytes[i]) || is_separator_byte(bytes[i])
    &&& !is_separator_byte(bytes[0])
    &&& !is_separator_byte(bytes[bytes.len() - 1])
    &&& forall|i: int|
        0 < i < bytes.len() ==> !(is_separator_byte(bytes[i - 1]) && is_separator_byte(
            #[trigger] bytes[i],
        ))
}

/// A name is valid when its UTF-8 encoding is.
pub open spec fn valid_account_name(name: Seq<char>) -> bool {
    valid_account_bytes(encode_utf8(name))
}

/// Calls `near_sdk::env::is_valid_account_id`.
///
/// Trusted: the result is `true` exactly when `bytes` satisfies
/// [`valid_account_bytes`]. The function rejects a length outside 2..=64 and
/// any byte that is not a lower-case letter, a digit, `-`, `_` or `.`; it
/// rejects a separator that follows a separator or starts the name, and a
/// separator at the end.
#[verifier::external_body]
fn check_account_bytes(bytes: &[u8]) -> (ok: bool)
    ensures
        ok == valid_account_bytes(bytes@),
{
    near_sdk::env::is_valid_account_id(bytes)
}

/// The name of an account. Two identities are the same account exactly when
/// their names are equal.
#[derive(Debug)]
pub struct AccountId {
    name: String,
}

impl View for AccountId {
    type V = Seq<char>;

    closed spec fn view(&self) -> Seq<char> {
        self.name@
    }
}

impl AccountId {
    #[verifier::type_invariant]
    spec fn name_is_valid(self) -> bool {
        valid_account_name(self.name@)
    }

    /// Makes an identity from `name`, or returns `None` when `name` is not a
    /// valid account name.
    pub fn parse(name: &str) -> (id: Option<AccountId>)
        ensures
            id is Some <==> valid_account_name(name@),
            id is Some ==> id->0@ == name@,
    {
        if check_account_bytes(name.as_bytes()) {
            Some(AccountId { name: name.to_owned() })
        } else {
            None
        }
    }

    /// The name, which is always a valid account name.
    pub fn as_str(&self) -> (name: &str)
        ensures
            name@ == self@,
            valid_account_name(name@),
    {
        proof {
            use_type_invariant(self);
        }
        self.name.as_str()
    }
}

impl Clone for AccountId {
    fn clone(&self) -> (id: Self)
        ensures
            id@ == self@,
    {
        proof {
            use_type_invariant(self);
        }
        AccountId { name: self.name.clone() }
    }
}

impl PartialEq for AccountId {
    fn eq(&self, other: &Self) -> (same: bool) {
        self.name == other.name
    }
}

impl Eq for AccountId {

}

impl PartialEqSpecImpl for AccountId {
    open spec fn obeys_eq_spec() -> bool {
        true
    }

    open spec fn eq_spec(&self, other: &Self) -> bool {
        self@ == other@
    }
}

} // verus!
