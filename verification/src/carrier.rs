//! The session carrier: the cookie in which a session identifier travels.

use crate::session_id::{canonical_text, parsed_session, SessionId};
use vstd::prelude::*;

verus! {

/// The name of the session cookie.
pub const COOKIE_NAME: &'static str = "session";

/// The same-site attribute of a cookie.
#[derive(Clone, Copy, Debug, PartialEq, Eq, Structural)]
pub enum SameSite {
    Strict,
    Lax,
    /// The cookie is sent with cross-origin requests too.
    Unrestricted,
}

/// What the caller is to tell the client about one cookie.
#[derive(Debug, PartialEq, Eq)]
pub struct CookieAttributes {
    pub name: String,
    pub value: String,
    pub http_only: bool,
    pub same_site: Option<SameSite>,
    /// The client is to discard the cookie of this name.
    pub removal: bool,
}

/// A cookie instruction as a mathematical value.
pub struct CookieModel {
    pub name: Seq<char>,
    pub value: Seq<char>,
    pub http_only: bool,
    pub same_site: Option<SameSite>,
    pub removal: bool,
}

impl View for CookieAttributes {
    type V = CookieModel;

    open spec fn view(&self) -> CookieModel {
        CookieModel {
            name: self.name@,
            value: self.value@,
            http_only: self.http_only,
            same_site: self.same_site,
            removal: self.removal,
        }
    }
}

/// A cookie that a request carried.
#[derive(Debug, PartialEq, Eq)]
pub struct IncomingCookie {
    pub name: String,
    pub value: String,
}

/// The cookie that carries a session: named `session`, hidden from scripts,
/// sent cross-origin.
pub open spec fn session_cookie(value: Seq<char>) -> CookieModel {
    CookieModel {
        name: COOKIE_NAME@,
        value,
        http_only: true,
        same_site: Some(SameSite::Unrestricted),
        removal: false,
    }
}

/// The instruction that removes the session cookie.
pub open spec fn removal_cookie() -> CookieModel {
    CookieModel {
        name: COOKIE_NAME@,
        value: Seq::empty(),
        http_only: false,
        same_site: None,
        removal: true,
    }
}

/// Whether position `at` is the first at which `cookies` holds a session
/// cookie.
pub open spec fn first_session_cookie(cookies: Seq<IncomingCookie>, at: int) -> bool {
    &&& 0 <= at < cookies.len()
    &&& cookies[at].name@ == COOKIE_NAME@
    &&& forall|j: int| 0 <= j < at ==> (#[trigger] cookies[j]).name@ != COOKIE_NAME@
}

/// The cookie that carries a session with the given value.
pub fn carry(value: String) -> (cookie: CookieAttributes)
    ensures
        cookie@ == session_cookie(value@),
{
    CookieAttributes {
        name: COOKIE_NAME.to_owned(),
        value,
        http_only: true,
        same_site: Some(SameSite::Unrestricted),
        removal: false,
    }
}

/// The cookie that carries a session identifier: its value is the
/// identifier's canonical text, which reads back as the identifier.
pub fn encode(id: SessionId) -> (cookie: CookieAttributes)
    ensures
        cookie@ == session_cookie(canonical_text(id.value)),
        parsed_session(cookie@.value) == Some(id),
{
    carry(id.to_text())
}

/// The raw value of the session cookie among the cookies of a request: that
/// of the first cookie named `session`, and `None` where there is none. The
/// value is not examined.
pub fn decode(cookies: &Vec<IncomingCookie>) -> (value: Option<String>)
    ensures
        (match value {
            Some(text) => exists|at: int|
                first_session_cookie(cookies@, at) && text@ == (#[trigger] cookies@[at]).value@,
            None => forall|j: int|
                0 <= j < cookies@.len() ==> (#[trigger] cookies@[j]).name@ != COOKIE_NAME@,
        }),
{
    let wanted = COOKIE_NAME.to_owned();
    let mut i: usize = 0;
    while i < cookies.len()
        invariant
            i <= cookies.len(),
            wanted@ == COOKIE_NAME@,
            forall|j: int| 0 <= j < i ==> (#[trigger] cookies@[j]).name@ != COOKIE_NAME@,
        decreases cookies.len() - i,
    {
        if cookies[i].name == wanted {
            assert(first_session_cookie(cookies@, i as int));
            return Some(cookies[i].value.clone());
        }
        i += 1;
    }
    None
}

/// The instruction that removes the session cookie.
pub fn clear() -> (cookie: CookieAttributes)
    ensures
        cookie@ == removal_cookie(),
{
    CookieAttributes {
        name: COOKIE_NAME.to_owned(),
        value: String::new(),
        http_only: false,
        same_site: None,
        removal: true,
    }
}

} // verus!
