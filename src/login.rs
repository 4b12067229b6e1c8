use vstd::prelude::*;
use crate::text::collect_chars;

verus! {

/// A request to sign in with an e-mail address and a password.
#[derive(Clone, Debug)]
pub struct LogInWithEmailStruct {
    pub email: String,
    pub password: String,
    pub return_secure_token: Option<bool>,
}

/// The account service's answer to a successful sign-in.
#[derive(Clone, Debug)]
pub struct LogInWithEmailStructResponse {
    pub kind: String,
    pub local_id: String,
    pub email: String,
    pub display_name: String,
    pub id_token: String,
    pub registered: bool,
    pub refresh_token: String,
    pub expires_in: String,
}

/// A field of a sign-in request that breaks its rule.
#[derive(Clone, Copy, Debug, PartialEq, Eq, Structural)]
pub enum LoginField {
    Email,
    Password,
}

/// The fewest characters a password may have.
pub const MIN_PASSWORD_CHARS: usize = 8;

/// Whether `validator` accepts the text as an e-mail address.
pub uninterp spec fn is_valid_email(s: Seq<char>) -> bool;

/// Relies on `validator::ValidateEmail::validate_email` for `&str`: the HTML5
/// address rule with per-part length limits and international domains. Its
/// source rejects an empty text and a text without `@` before any other test.
#[verifier::external_body]
fn email_is_valid(s: &str) -> (r: bool)
    ensures
        r == is_valid_email(s@),
        s@.len() == 0 ==> !r,
        !s@.contains('@') ==> !r,
{
    validator::ValidateEmail::validate_email(&s)
}

/// The fields at fault, in declaration order, given whether the e-mail was
/// accepted as an address and the password's characters.
pub open spec fn fields_at_fault(email_ok: bool, password: Seq<char>) -> Seq<LoginField> {
    (if email_ok {
        seq![]
    } else {
        seq![LoginField::Email]
    }) + (if password.len() >= MIN_PASSWORD_CHARS {
        seq![]
    } else {
        seq![LoginField::Password]
    })
}

/// Lists the fields at fault once the e-mail address has been checked:
/// `Email` when it was refused, `Password` when it has fewer than eight characters.
pub fn check_login_fields(email_ok: bool, password: &str) -> (r: Vec<LoginField>)
    ensures
        r@ == fields_at_fault(email_ok, password@),
{
    let mut faults: Vec<LoginField> = Vec::new();
    if !email_ok {
        faults.push(LoginField::Email);
    }
    let chars = collect_chars(password);
    if chars.len() < MIN_PASSWORD_CHARS {
        faults.push(LoginField::Password);
    }
    assert(faults@ =~= fields_at_fault(email_ok, password@));
    faults
}

impl LogInWithEmailStruct {
    /// The fields that break their rule: the e-mail must be an address, the
    /// password must have at least eight characters.
    pub open spec fn spec_invalid_fields(&self) -> Seq<LoginField> {
        fields_at_fault(is_valid_email(self.email@), self.password@)
    }

    /// Checks the request's fields; on failure lists every field at fault.
    pub fn validate(&self) -> (r: Result<(), Vec<LoginField>>)
        ensures
            self.spec_invalid_fields().len() == 0 ==> r is Ok,
            self.spec_invalid_fields().len() > 0 ==> (r matches Err(f) && f@
                == self.spec_invalid_fields()),
    {
        let email_ok = email_is_valid(self.email.as_str());
        let faults = check_login_fields(email_ok, self.password.as_str());
        if faults.len() == 0 {
            Ok(())
        } else {
            Err(faults)
        }
    }
}

} // verus!
