use vstd::prelude::*;
use crate::error::Error;
use crate::models::User;

verus! {

/// The navigation entry that a page highlights.
#[derive(Copy, Clone, Debug, PartialEq, Eq, Structural)]
pub enum ActiveLink {
    Home,
    Loadouts,
    Guides,
    About,
    NoLink,
}

/// What every page template is given: the signed-in user, if any, and the
/// highlighted navigation entry.
#[derive(Clone, Copy, Debug, PartialEq, Eq, Structural)]
pub struct TmplBase {
    pub user: Option<User>,
    pub active_link: ActiveLink,
}

impl TmplBase {
    pub fn new(user: Option<User>, al: ActiveLink) -> (r: TmplBase)
        ensures
            r.user == user,
            r.active_link == al,
    {
        TmplBase { user, active_link: al }
    }
}

/// The page for creating a loadout needs a signed-in user; without one the
/// browser is sent to sign in.
pub fn create_form(user: Option<User>) -> (r: Result<TmplBase, Error>)
    ensures
        match user {
            Some(u) => r == Ok::<TmplBase, Error>(
                TmplBase { user: Some(u), active_link: ActiveLink::Loadouts },
            ),
            None => r matches Err(Error::RedirectToLogin),
        },
{
    match user {
        Some(u) => Ok(TmplBase::new(Some(u), ActiveLink::Loadouts)),
        None => Err(Error::RedirectToLogin),
    }
}

/// The answer of the API's test endpoint.
#[derive(Clone, Debug)]
pub struct TestResponse {
    pub foo: String,
    pub bar: i32,
    pub baz: bool,
}

pub fn test() -> (r: TestResponse)
    ensures
        r.foo@ == "hello"@,
        r.bar == 123,
        !r.baz,
{
    TestResponse { foo: String::from_str("hello"), bar: 123, baz: false }
}

} // verus!
