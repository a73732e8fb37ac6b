//! A string that holds a secret and is never shown in full.
use vstd::prelude::*;
use crate::text::lit;

verus! {

/// Wrapper for a string that should be treated as a secret: its shown form
/// is always redacted.
#[derive(Clone)]
pub struct SecretField {
    pub val: String,
}

impl SecretField {
    /// Wraps `val`.
    pub fn new(val: String) -> (r: SecretField)
        ensures
            r.val == val,
    {
        SecretField { val }
    }

    /// The redacted form under which the secret is shown.
    pub fn display(&self) -> (r: String)
        ensures
            r@ == "********"@,
    {
        lit("********")
    }

    /// The secret itself.
    pub fn as_str(&self) -> (r: &str)
        ensures
            r@ == self.val@,
    {
        self.val.as_str()
    }
}

impl From<String> for SecretField {
    fn from(val: String) -> (r: SecretField) {
        SecretField { val }
    }
}

impl vstd::std_specs::convert::FromSpecImpl<String> for SecretField {
    open spec fn obeys_from_spec() -> bool {
        true
    }

    open spec fn from_spec(val: String) -> SecretField {
        SecretField { val }
    }
}

} // verus!
