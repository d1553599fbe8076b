//! A subscriber's email address.

use validator::ValidateEmail;
use vstd::prelude::*;
use vstd::string::*;

verus! {

/// Whether `s` is an email address by the grammar of the crate `validator`
/// (the HTML5 rules for a valid e-mail address).
pub uninterp spec fn is_email_address(s: Seq<char>) -> bool;

/// What every address has, whatever else the grammar asks: it is not empty,
/// it holds an `@`, and something stands before the `@` and after it.
pub open spec fn has_local_part_and_domain(s: Seq<char>) -> bool {
    &&& s.len() > 0
    &&& s.contains('@')
    &&& s.first() != '@'
    &&& s.last() != '@'
}

/// The rules for an address: the grammar accepts it, and it has a local part
/// and a domain around an `@`.
pub open spec fn is_valid_email(s: Seq<char>) -> bool {
    is_email_address(s) && has_local_part_and_domain(s)
}

/// What `parse` answers for an address that it turns down.
pub open spec fn invalid_email_message() -> Seq<char> {
    "Invalid email"@
}

/// Calls `ValidateEmail::validate_email` of the crate `validator` on a string
/// slice. The answer is given its name, `is_email_address`. Beside it stands
/// what the function's first lines and its two patterns show of every string
/// that it accepts: the empty string and one without `@` are refused at once;
/// the part before the last `@` has to match a pattern of one or more
/// characters among which `@` is not, so no accepted string begins with `@`;
/// the part after the last `@` has to begin with a letter or a digit or to
/// hold a bracketed literal, so no accepted string ends with `@`.
#[verifier::external_body]
fn validate_email(s: &str) -> (ok: bool)
    ensures
        ok == is_email_address(s@),
        ok ==> has_local_part_and_domain(s@),
{
    ValidateEmail::validate_email(&s)
}

/// A subscriber's email address. Every value of this type is a valid address,
/// and nothing can change it once it is made.
#[derive(Debug)]
pub struct SubscriberEmail(String);

impl View for SubscriberEmail {
    type V = Seq<char>;

    closed spec fn view(&self) -> Seq<char> {
        self.0@
    }
}

impl SubscriberEmail {
    #[verifier::type_invariant]
    spec fn holds_valid_email(self) -> bool {
        is_valid_email(self.0@)
    }

    /// Accepts `value` as it stands where it is a valid address, and turns it
    /// down with a message where it is not.
    pub fn parse(value: String) -> (r: Result<SubscriberEmail, String>)
        ensures
            r is Ok <==> is_valid_email(value@),
            r is Ok ==> r->Ok_0@ == value@,
            r is Err ==> r->Err_0@ == invalid_email_message(),
    {
        if !validate_email(value.as_str()) {
            return Err("Invalid email".to_owned());
        }
        Ok(SubscriberEmail(value))
    }

    /// The address as a string slice.
    pub fn as_str(&self) -> (r: &str)
        ensures
            r@ == self@,
            is_valid_email(r@),
    {
        proof {
            use_type_invariant(self);
        }
        self.0.as_str()
    }
}

impl AsRef<str> for SubscriberEmail {
    fn as_ref(&self) -> (r: &str)
        ensures
            r@ == self@,
    {
        self.0.as_str()
    }
}

} // verus!
