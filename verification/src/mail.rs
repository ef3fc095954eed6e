use vstd::prelude::*;

verus! {

/// `sendgrid::v3::Email`, one party of a mail. Its inside is not visible to
/// the proofs: they speak of it through [`email_fields`].
#[verifier::external_type_specification]
#[verifier::external_body]
pub struct ExEmail<'a>(sendgrid::v3::Email<'a>);

/// The address that a `sendgrid::v3::Email` holds, and its name where it
/// has one.
pub uninterp spec fn email_fields(email: sendgrid::v3::Email<'_>) -> (
    Seq<char>,
    Option<Seq<char>>,
);

/// `sendgrid::v3::Email::new` keeps the address it is given and sets no name.
pub assume_specification<'a>[ sendgrid::v3::Email::<'a>::new ](email: &'a str) -> (made:
    sendgrid::v3::Email<'a>)
    ensures
        email_fields(made) == (email@, None::<Seq<char>>),
;

} // verus!
