//! Whether a browser is signed in.
use crate::cookies::{jar_get, shown_cookie};
use crate::session::{session_cookie_name, session_cookie_name_of, AuthenticatedSession};
use crate::status::StatusCode;
use axum_extra::extract::cookie::CookieJar;
use vstd::prelude::*;

verus! {

/// `Cache-Control` of every answer.
pub const NO_STORE: &'static str = "no-store";

/// Answer to a browser. It tells nothing of the session but whether there is one.
pub struct SessionAnswer {
    pub status: StatusCode,
    /// Value of the `Cache-Control` header.
    pub cache_control: &'static str,
}

/// What a [`SessionAnswer`] holds.
pub struct SessionAnswerView {
    pub status: StatusCode,
    pub cache_control: Seq<char>,
}

impl View for SessionAnswer {
    type V = SessionAnswerView;

    open spec fn view(&self) -> SessionAnswerView {
        SessionAnswerView { status: self.status, cache_control: self.cache_control@ }
    }
}

/// What to do next for a browser that asks.
pub enum SessionCheck {
    /// Look the session up.
    LookUp { session_id: String },
    /// Answer.
    Answer(SessionAnswer),
}

/// What a [`SessionCheck`] holds.
pub enum SessionCheckView {
    LookUp { session_id: Seq<char> },
    Answer(SessionAnswerView),
}

impl View for SessionCheck {
    type V = SessionCheckView;

    open spec fn view(&self) -> SessionCheckView {
        match *self {
            SessionCheck::LookUp { session_id } => SessionCheckView::LookUp {
                session_id: session_id@,
            },
            SessionCheck::Answer(answer) => SessionCheckView::Answer(answer@),
        }
    }
}

/// An answer with a status, which no cache may keep.
pub open spec fn uncached(status: StatusCode) -> SessionAnswerView {
    SessionAnswerView { status, cache_control: NO_STORE@ }
}

/// The beginning of a check: without a session cookie nobody is signed in.
pub open spec fn session_check(cookie: Option<Seq<char>>) -> SessionCheckView {
    match cookie {
        Some(session_id) => SessionCheckView::LookUp { session_id },
        None => SessionCheckView::Answer(uncached(StatusCode::Unauthorized)),
    }
}

/// Begins a check with the cookies of a request.
pub fn check_session(jar: &CookieJar, secure: bool) -> (check: SessionCheck)
    ensures
        check@ == session_check(shown_cookie(*jar, session_cookie_name_of(secure))),
{
    match jar_get(jar, session_cookie_name(secure)) {
        Some(session_id) => SessionCheck::LookUp { session_id },
        None => SessionCheck::Answer(
            SessionAnswer { status: StatusCode::Unauthorized, cache_control: NO_STORE },
        ),
    }
}

/// Status for the outcome of a look-up.
pub open spec fn looked_up_status(found: Result<Option<AuthenticatedSession>, ()>) -> StatusCode {
    match found {
        Ok(Some(_)) => StatusCode::NoContent,
        Ok(None) => StatusCode::Unauthorized,
        Err(_) => StatusCode::ServiceUnavailable,
    }
}

/// Answers with the outcome of the look-up.
pub fn answer_session_check(found: Result<Option<AuthenticatedSession>, ()>) -> (answer:
    SessionAnswer)
    ensures
        answer@ == uncached(looked_up_status(found)),
        answer.cache_control@ == "no-store"@,
        answer.status == match found {
            Ok(Some(_)) => StatusCode::NoContent,
            Ok(None) => StatusCode::Unauthorized,
            Err(_) => StatusCode::ServiceUnavailable,
        },
{
    let status: StatusCode = match found {
        Ok(Some(_)) => StatusCode::NoContent,
        Ok(None) => StatusCode::Unauthorized,
        Err(_) => StatusCode::ServiceUnavailable,
    };
    SessionAnswer { status, cache_control: NO_STORE }
}

/// No answer may be kept by a cache, and none tells anything of a session that exists: for any two
/// sessions the answers are the same.
pub proof fn answers_tell_nothing(
    cookie: Option<Seq<char>>,
    found: Result<Option<AuthenticatedSession>, ()>,
    one: AuthenticatedSession,
    other: AuthenticatedSession,
)
    ensures
        session_check(cookie) matches SessionCheckView::Answer(answer) ==> answer.cache_control
            == NO_STORE@,
        uncached(looked_up_status(found)).cache_control == NO_STORE@,
        uncached(looked_up_status(Ok(Some(one)))) == uncached(looked_up_status(Ok(Some(other)))),
{
}

/// A browser with a session cookie is looked up under the very id in it, and one without is not
/// signed in. It is signed in exactly if its session is found; where the store cannot tell, it is not
/// told so. No answer may be kept.
pub proof fn signed_in_means_found(
    session_id: Seq<char>,
    session: AuthenticatedSession,
)
    ensures
        session_check(Some(session_id)) == (SessionCheckView::LookUp { session_id }),
        session_check(None) == SessionCheckView::Answer(
            SessionAnswerView { status: StatusCode::Unauthorized, cache_control: "no-store"@ },
        ),
        uncached(looked_up_status(Ok(Some(session)))) == (SessionAnswerView {
            status: StatusCode::NoContent,
            cache_control: "no-store"@,
        }),
        uncached(looked_up_status(Ok(None))) == (SessionAnswerView {
            status: StatusCode::Unauthorized,
            cache_control: "no-store"@,
        }),
        uncached(looked_up_status(Err(()))) == (SessionAnswerView {
            status: StatusCode::ServiceUnavailable,
            cache_control: "no-store"@,
        }),
{
}

/// Answers and look-ups are seen as they are.
pub proof fn checks_are_seen_as_they_are(answer: SessionAnswer, check: SessionCheck)
    ensures
        answer@.status == answer.status,
        answer@.cache_control == answer.cache_control@,
        check matches SessionCheck::LookUp { session_id } ==> check@ == (SessionCheckView::LookUp {
            session_id: session_id@,
        }),
        check matches SessionCheck::Answer(given) ==> check@ == SessionCheckView::Answer(given@),
{
}

} // verus!
