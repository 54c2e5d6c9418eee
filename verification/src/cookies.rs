//! Cookies of a request and its response.
use axum_extra::extract::cookie::{Cookie, CookieJar};
use vstd::prelude::*;

verus! {

/// Whether a cookie goes along with requests that other sites start.
#[derive(Clone, Copy, Debug, PartialEq, Eq, Structural)]
pub enum SameSite {
    /// On top-level navigation only.
    Lax,
    /// Never.
    Strict,
}

/// A cookie that a response sets. No cookie of this service has a domain.
pub struct SetCookie {
    pub name: String,
    pub value: String,
    pub path: String,
    pub http_only: bool,
    pub secure: bool,
    pub same_site: SameSite,
    /// Lifetime in seconds.
    pub max_age: i64,
}

/// A cookie that a response takes away.
pub struct RemovedCookie {
    pub name: String,
    pub path: String,
    pub http_only: bool,
    pub secure: bool,
    pub same_site: SameSite,
}

/// What a [`SetCookie`] holds.
pub struct SetCookieView {
    pub name: Seq<char>,
    pub value: Seq<char>,
    pub path: Seq<char>,
    pub http_only: bool,
    pub secure: bool,
    pub same_site: SameSite,
    pub max_age: i64,
}

/// What a [`RemovedCookie`] holds.
pub struct RemovedCookieView {
    pub name: Seq<char>,
    pub path: Seq<char>,
    pub http_only: bool,
    pub secure: bool,
    pub same_site: SameSite,
}

impl View for SetCookie {
    type V = SetCookieView;

    open spec fn view(&self) -> SetCookieView {
        SetCookieView {
            name: self.name@,
            value: self.value@,
            path: self.path@,
            http_only: self.http_only,
            secure: self.secure,
            same_site: self.same_site,
            max_age: self.max_age,
        }
    }
}

impl View for RemovedCookie {
    type V = RemovedCookieView;

    open spec fn view(&self) -> RemovedCookieView {
        RemovedCookieView {
            name: self.name@,
            path: self.path@,
            http_only: self.http_only,
            secure: self.secure,
            same_site: self.same_site,
        }
    }
}

/// What a response does to one cookie.
pub enum CookieChange {
    Added(SetCookieView),
    Removed(RemovedCookieView),
}

/// The cookies of a request and the changes that its response makes to them.
#[verifier::external_type_specification]
#[verifier::external_body]
pub struct ExCookieJar(axum_extra::extract::cookie::CookieJar);

/// The cookies that came with the request: their values by name.
pub uninterp spec fn request_cookies(jar: CookieJar) -> Map<Seq<char>, Seq<char>>;

/// The changes that go out with the response, by the name of the cookie.
pub uninterp spec fn cookie_changes(jar: CookieJar) -> Map<Seq<char>, CookieChange>;

/// The value that a jar shows under a name: what the response sets, else what the request brought.
pub open spec fn shown_cookie(jar: CookieJar, name: Seq<char>) -> Option<Seq<char>> {
    if cookie_changes(jar).contains_key(name) {
        match cookie_changes(jar)[name] {
            CookieChange::Added(cookie) => Some(cookie.value),
            CookieChange::Removed(_) => None,
        }
    } else if request_cookies(jar).contains_key(name) {
        Some(request_cookies(jar)[name])
    } else {
        None
    }
}

/// Whether `after` is `before` with a cookie set.
pub open spec fn sets_cookie(before: CookieJar, cookie: SetCookieView, after: CookieJar) -> bool {
    &&& request_cookies(after) == request_cookies(before)
    &&& cookie_changes(after) == cookie_changes(before).insert(
        cookie.name,
        CookieChange::Added(cookie),
    )
}

/// Whether `after` is `before` with a cookie taken away: one that the request brought is removed
/// from the browser, and one that only the response would have set is not set.
pub open spec fn removes_cookie(
    before: CookieJar,
    cookie: RemovedCookieView,
    after: CookieJar,
) -> bool {
    &&& request_cookies(after) == request_cookies(before)
    &&& cookie_changes(after) == if request_cookies(before).contains_key(cookie.name) {
        cookie_changes(before).insert(cookie.name, CookieChange::Removed(cookie))
    } else {
        cookie_changes(before).remove(cookie.name)
    }
}

/// A cookie that the response sets is shown from then on, and no other is touched.
pub proof fn set_cookie_is_shown(
    before: CookieJar,
    cookie: SetCookieView,
    after: CookieJar,
    other: Seq<char>,
)
    requires
        sets_cookie(before, cookie, after),
        other != cookie.name,
    ensures
        shown_cookie(after, cookie.name) == Some(cookie.value),
        shown_cookie(after, other) == shown_cookie(before, other),
        cookie_changes(after).contains_key(cookie.name),
        cookie_changes(after)[cookie.name] == CookieChange::Added(cookie),
        cookie_changes(after).contains_key(other) == cookie_changes(before).contains_key(other),
        cookie_changes(before).contains_key(other) ==> cookie_changes(after)[other]
            == cookie_changes(before)[other],
        request_cookies(after) == request_cookies(before),
{
}

/// A cookie that the request brought is shown no more once it is taken away, and no other is
/// touched.
pub proof fn removed_cookie_is_gone(
    before: CookieJar,
    cookie: RemovedCookieView,
    after: CookieJar,
    other: Seq<char>,
)
    requires
        removes_cookie(before, cookie, after),
        other != cookie.name,
    ensures
        shown_cookie(after, cookie.name) is None,
        shown_cookie(after, other) == shown_cookie(before, other),
        request_cookies(before).contains_key(cookie.name) ==> cookie_changes(after).contains_key(
            cookie.name,
        ) && cookie_changes(after)[cookie.name] == CookieChange::Removed(cookie),
        !request_cookies(before).contains_key(cookie.name) ==> !cookie_changes(after).contains_key(
            cookie.name,
        ),
        cookie_changes(after).contains_key(other) == cookie_changes(before).contains_key(other),
        cookie_changes(before).contains_key(other) ==> cookie_changes(after)[other]
            == cookie_changes(before)[other],
        request_cookies(after) == request_cookies(before),
{
}

/// [`CookieJar::get`]: the value of the cookie that the jar shows under the name. A change that the
/// response makes goes before what the request brought.
#[verifier::external_body]
pub(crate) fn jar_get(jar: &CookieJar, name: &str) -> (value: Option<String>)
    ensures
        value is Some <==> shown_cookie(*jar, name@) is Some,
        value matches Some(found) ==> shown_cookie(*jar, name@) == Some(found@),
{
    jar.get(name).map(|cookie| cookie.value().to_owned())
}

/// [`CookieJar::add`] with a cookie of [`Cookie::build`]: the cookie takes the place of what the
/// response did under its name before; the cookies of the request stay.
#[verifier::external_body]
pub(crate) fn jar_add(jar: CookieJar, cookie: SetCookie) -> (after: CookieJar)
    ensures
        request_cookies(after) == request_cookies(jar),
        cookie_changes(after) == cookie_changes(jar).insert(
            cookie@.name,
            CookieChange::Added(cookie@),
        ),
{
    let same_site = match cookie.same_site {
        SameSite::Lax => axum_extra::extract::cookie::SameSite::Lax,
        SameSite::Strict => axum_extra::extract::cookie::SameSite::Strict,
    };
    let built = Cookie::build((cookie.name, cookie.value))
        .path(cookie.path)
        .http_only(cookie.http_only)
        .secure(cookie.secure)
        .same_site(same_site)
        .max_age(time::Duration::seconds(cookie.max_age));
    jar.add(built)
}

/// [`CookieJar::remove`] with a cookie of [`Cookie::build`]: where the request brought a cookie of
/// that name, the response removes it from the browser; else the response just does not set it.
/// The cookies of the request stay. Nothing is claimed of the expiry date, in the past, that a
/// removal carries.
#[verifier::external_body]
pub(crate) fn jar_remove(jar: CookieJar, cookie: RemovedCookie) -> (after: CookieJar)
    ensures
        request_cookies(after) == request_cookies(jar),
        cookie_changes(after) == if request_cookies(jar).contains_key(cookie@.name) {
            cookie_changes(jar).insert(cookie@.name, CookieChange::Removed(cookie@))
        } else {
            cookie_changes(jar).remove(cookie@.name)
        },
{
    let same_site = match cookie.same_site {
        SameSite::Lax => axum_extra::extract::cookie::SameSite::Lax,
        SameSite::Strict => axum_extra::extract::cookie::SameSite::Strict,
    };
    let built = Cookie::build(cookie.name)
        .path(cookie.path)
        .http_only(cookie.http_only)
        .secure(cookie.secure)
        .same_site(same_site);
    jar.remove(built)
}

/// Cookies are seen as they are.
pub proof fn cookies_are_seen_as_they_are(set_cookie: SetCookie, removed: RemovedCookie)
    ensures
        set_cookie@.name == set_cookie.name@,
        set_cookie@.value == set_cookie.value@,
        set_cookie@.path == set_cookie.path@,
        set_cookie@.http_only == set_cookie.http_only,
        set_cookie@.secure == set_cookie.secure,
        set_cookie@.same_site == set_cookie.same_site,
        set_cookie@.max_age == set_cookie.max_age,
        removed@.name == removed.name@,
        removed@.path == removed.path@,
        removed@.http_only == removed.http_only,
        removed@.secure == removed.secure,
        removed@.same_site == removed.same_site,
{
}

/// A cookie that the request brought is shown with the value it came with, as long as the response
/// changes nothing under its name; where neither has a cookie of a name, none is shown.
pub proof fn brought_cookie_is_shown(jar: CookieJar, name: Seq<char>, value: Seq<char>)
    requires
        !cookie_changes(jar).contains_key(name),
    ensures
        request_cookies(jar).contains_pair(name, value) ==> shown_cookie(jar, name) == Some(value),
        shown_cookie(jar, name) == Some(value) ==> request_cookies(jar).contains_pair(name, value),
        shown_cookie(jar, name) is None <==> !request_cookies(jar).contains_key(name),
{
}

} // verus!
