//! The user record as the service holds it.

use vstd::prelude::*;

verus! {

/// The text that `uuid::Uuid` prints for the identifier that the number stands for: its
/// thirty-two hexadecimal digits in lower case, in five groups that hyphens separate.
pub uninterp spec fn id_text(id: u128) -> Seq<char>;

/// The text that `chrono` prints, in the form of RFC 3339, for the instant in universal
/// time that lies the given seconds and nanoseconds after the start of 1970; none where
/// `chrono` knows no such instant.
pub uninterp spec fn instant_text(seconds: i64, nanoseconds: u32) -> Option<Seq<char>>;

/// `Display` of the `uuid::Uuid` that `uuid::Uuid::from_u128` makes of `id`.
#[verifier::external_body]
fn render_id(id: u128) -> (text: String)
    ensures
        text@ == id_text(id),
{
    uuid::Uuid::from_u128(id).to_string()
}

/// `chrono::DateTime::to_rfc3339` of the instant that `chrono::DateTime::from_timestamp`
/// makes of seconds and nanoseconds, where it makes one.
#[verifier::external_body]
fn render_instant(seconds: i64, nanoseconds: u32) -> (text: Option<String>)
    ensures
        text matches Some(rendered) ==> instant_text(seconds, nanoseconds) == Some(rendered@),
        text is None ==> instant_text(seconds, nanoseconds) is None,
{
    match chrono::DateTime::from_timestamp(seconds, nanoseconds) {
        Some(instant) => Some(instant.to_rfc3339()),
        None => None,
    }
}

/// An instant: whole seconds since the start of 1970 in universal time, and the
/// nanoseconds into that second.
#[derive(Debug, PartialEq, Eq, Clone, Copy)]
pub struct Timestamp {
    pub seconds: i64,
    pub nanoseconds: u32,
}

impl Timestamp {
    /// The text of this instant, if it has one.
    pub open spec fn text(&self) -> Option<Seq<char>> {
        instant_text(self.seconds, self.nanoseconds)
    }

    /// This instant in the form of RFC 3339; none where it lies outside the calendar.
    pub fn to_rfc3339(&self) -> (text: Option<String>)
        ensures
            text matches Some(rendered) ==> self.text() == Some(rendered@),
            text is None ==> self.text() is None,
    {
        render_instant(self.seconds, self.nanoseconds)
    }
}

/// A registered user. The identifier is the number that the store's 128-bit identifier
/// stands for.
#[derive(Debug, PartialEq, Eq)]
pub struct User {
    pub id: u128,
    pub name: String,
    pub email: String,
    pub created_at: Timestamp,
    pub updated_at: Timestamp,
}

/// Mathematical value of a [`User`].
pub struct UserView {
    pub id: u128,
    pub name: Seq<char>,
    pub email: Seq<char>,
    pub created_at: Timestamp,
    pub updated_at: Timestamp,
}

impl View for User {
    type V = UserView;

    open spec fn view(&self) -> UserView {
        UserView {
            id: self.id,
            name: self.name@,
            email: self.email@,
            created_at: self.created_at,
            updated_at: self.updated_at,
        }
    }
}

impl DeepView for User {
    type V = UserView;

    open spec fn deep_view(&self) -> UserView {
        self@
    }
}

impl User {
    /// The identifier of this user as text.
    pub fn id_string(&self) -> (text: String)
        ensures
            text@ == id_text(self.id),
    {
        render_id(self.id)
    }
}

impl Clone for User {
    fn clone(&self) -> (copy: User)
        ensures
            copy@ == self@,
    {
        User {
            id: self.id,
            name: self.name.clone(),
            email: self.email.clone(),
            created_at: self.created_at,
            updated_at: self.updated_at,
        }
    }
}

} // verus!
