//! The pages that belong to no other part of the site, the catchers for
//! requests that were turned away, and the check that every route passes
//! before its handler runs.
//!
//! Pages are returned as the data that their templates are filled with;
//! rendering is the caller's part.

use crate::guards::{
    option_identity_view, GuardError, GuardOutcome, GuardOutcomeView, MaybeLoggedIn, UserGuard,
};
use crate::users::{Identity, IdentityView, Tier};
use vstd::prelude::*;
use vstd::string::StringExecFns;

verus! {

/// The version of the site that the index page shows.
pub const VERSION: &'static str = "0.1.0";

/// The index page.
#[derive(Debug, PartialEq, Eq)]
pub struct IndexTemplate {
    pub logged_in: Option<Identity>,
    pub version: &'static str,
}

/// The dashboard of a logged-in member.
#[derive(Debug, PartialEq, Eq)]
pub struct DashboardTemplate {
    pub logged_in: Option<Identity>,
}

/// The page for a request that its identity's tier does not allow.
#[derive(Debug, PartialEq, Eq)]
pub struct Error403Template {
    pub logged_in: Option<Identity>,
}

/// The page for a request for something that does not exist.
#[derive(Debug, PartialEq, Eq)]
pub struct Error404Template {
    pub logged_in: Option<Identity>,
}

/// The index page of the site. It shows who is logged in, if anyone.
pub fn index(l: MaybeLoggedIn) -> (page: IndexTemplate)
    ensures
        option_identity_view(page.logged_in) == l@,
        page.version@ == VERSION@,
{
    IndexTemplate { logged_in: l.0, version: VERSION }
}

/// The dashboard of the member that the user guard let through.
pub fn dashboard(l: UserGuard) -> (page: DashboardTemplate)
    ensures
        option_identity_view(page.logged_in) == Some(l@),
{
    DashboardTemplate { logged_in: Some(l.0) }
}

/// Where `/favicon.ico` is redirected to.
pub fn favicon() -> (target: &'static str)
    ensures
        target@ == "/static/favicon.webp"@,
{
    "/static/favicon.webp"
}

/// Where a request for `path` is sent when it needs a login: the login
/// page, which is told where to return to.
pub open spec fn login_redirect(path: Seq<char>) -> Seq<char> {
    "/login?to="@ + path
}

/// Catches a request for `path` that was turned away as unauthenticated:
/// the target of the redirect that answers it.
pub fn catch_401(path: &str) -> (target: String)
    ensures
        target@ == login_redirect(path@),
{
    let mut target = String::from_str("/login?to=");
    target.append(path);
    target
}

/// Catches a request that its identity's tier does not allow: the page
/// that answers it, which shows who is logged in.
pub fn catch_403(l: MaybeLoggedIn) -> (page: Error403Template)
    ensures
        option_identity_view(page.logged_in) == l@,
{
    Error403Template { logged_in: l.0 }
}

/// Catches a request for something that does not exist: the page that
/// answers it, which shows who is logged in, if anyone.
pub fn catch_404(l: MaybeLoggedIn) -> (page: Error404Template)
    ensures
        option_identity_view(page.logged_in) == l@,
{
    Error404Template { logged_in: l.0 }
}

// ---------------------------------------------------------------------------
// Failures of a request
// ---------------------------------------------------------------------------

/// Why a request was not answered with what it asked for.
#[derive(Clone, Copy, Debug, PartialEq, Eq, Structural)]
pub enum RequestError {
    /// A guard turned the request away.
    Guard(GuardError),
    /// What was asked for does not exist.
    NotFound,
    /// The database could not be reached. The request fails; it is not
    /// tried again.
    StorageUnavailable,
}

impl RequestError {
    /// The HTTP status that the failure is answered with.
    pub open spec fn spec_status(self) -> u16 {
        match self {
            RequestError::Guard(e) => e.spec_status(),
            RequestError::NotFound => 404,
            RequestError::StorageUnavailable => 500,
        }
    }

    /// The HTTP status that the failure is answered with.
    #[verifier::when_used_as_spec(spec_status)]
    pub fn status(self) -> (code: u16)
        ensures
            code == self.spec_status(),
    {
        match self {
            RequestError::Guard(e) => e.status(),
            RequestError::NotFound => 404,
            RequestError::StorageUnavailable => 500,
        }
    }
}

// ---------------------------------------------------------------------------
// Access to routes
// ---------------------------------------------------------------------------

/// What a route asks of a request before its handler runs.
#[derive(Clone, Copy, Debug, PartialEq, Eq, Structural)]
pub enum GuardLevel {
    /// Anyone may pass; the page may differ for a logged-in member.
    Public,
    /// Only an authenticated request may pass.
    User,
    /// Only an authenticated request whose identity's tier is not below the
    /// given one may pass.
    Tier(Tier),
}

/// What answers a request that was caught.
#[derive(Debug, PartialEq, Eq)]
pub enum Caught {
    /// Status 401: a redirect to the given target.
    Redirect(String),
    /// Status 403.
    Forbidden(Error403Template),
    /// Status 404.
    NotFound(Error404Template),
}

/// What a caught request is answered with, as plain values.
pub ghost enum CaughtView {
    Redirect(Seq<char>),
    Forbidden(Option<IdentityView>),
    NotFound(Option<IdentityView>),
}

impl View for Caught {
    type V = CaughtView;

    open spec fn view(&self) -> CaughtView {
        match self {
            Caught::Redirect(target) => CaughtView::Redirect(target@),
            Caught::Forbidden(page) => CaughtView::Forbidden(
                option_identity_view(page.logged_in),
            ),
            Caught::NotFound(page) => CaughtView::NotFound(option_identity_view(page.logged_in)),
        }
    }
}

impl CaughtView {
    /// The status that the answer stands for.
    pub open spec fn status(self) -> u16 {
        match self {
            CaughtView::Redirect(_) => 401,
            CaughtView::Forbidden(_) => 403,
            CaughtView::NotFound(_) => 404,
        }
    }
}

impl Caught {
    /// The status that the answer stands for.
    pub fn status(&self) -> (code: u16)
        ensures
            code == self@.status(),
    {
        match self {
            Caught::Redirect(_) => 401,
            Caught::Forbidden(_) => 403,
            Caught::NotFound(_) => 404,
        }
    }
}

/// What a request for `path` with the given status is answered with, for
/// the statuses that have a catcher: 401, 403 and 404.
pub open spec fn caught(status: u16, path: Seq<char>, logged_in: Option<IdentityView>) -> Option<
    CaughtView,
> {
    if status == 401 {
        Some(CaughtView::Redirect(login_redirect(path)))
    } else if status == 403 {
        Some(CaughtView::Forbidden(logged_in))
    } else if status == 404 {
        Some(CaughtView::NotFound(logged_in))
    } else {
        None
    }
}

/// The view of an optional answer.
pub open spec fn option_caught_view(c: Option<Caught>) -> Option<CaughtView> {
    match c {
        Some(c) => Some(c@),
        None => None,
    }
}

/// Hands a failed request for `path` to the catcher for `status`, if there
/// is one.
pub fn catch(status: u16, path: &str, l: MaybeLoggedIn) -> (answer: Option<Caught>)
    ensures
        option_caught_view(answer) == caught(status, path@, l@),
{
    if status == 401 {
        Some(Caught::Redirect(catch_401(path)))
    } else if status == 403 {
        Some(Caught::Forbidden(catch_403(l)))
    } else if status == 404 {
        Some(Caught::NotFound(catch_404(l)))
    } else {
        None
    }
}

/// Whether a request may reach its route's handler.
#[derive(Debug, PartialEq, Eq)]
pub enum Access {
    /// The handler runs, on behalf of the identity if there is one.
    Granted(Option<Identity>),
    /// The handler does not run; the request is answered by a catcher.
    Denied(GuardError, Caught),
}

/// Whether a request may reach its route's handler, as plain values.
pub ghost enum AccessView {
    Granted(Option<IdentityView>),
    Denied(GuardError, CaughtView),
}

impl View for Access {
    type V = AccessView;

    open spec fn view(&self) -> AccessView {
        match self {
            Access::Granted(identity) => AccessView::Granted(option_identity_view(*identity)),
            Access::Denied(error, answer) => AccessView::Denied(*error, answer@),
        }
    }
}

/// What becomes of a request for `path` whose credentials resolved to
/// `outcome`, on a route that asks for `level`: a public route lets
/// everyone pass; a route for users turns an unauthenticated request away
/// to the login page; a tier-gated route does the same and answers an
/// identity of too low a tier with the 403 page, which shows that identity.
pub open spec fn access_decision(level: GuardLevel, outcome: GuardOutcomeView, path: Seq<char>)
    -> AccessView {
    match level {
        GuardLevel::Public => AccessView::Granted(outcome.user()),
        GuardLevel::User => match outcome.user_guard() {
            Ok(identity) => AccessView::Granted(Some(identity)),
            Err(e) => AccessView::Denied(e, CaughtView::Redirect(login_redirect(path))),
        },
        GuardLevel::Tier(required) => match outcome.admin_guard(required) {
            Ok(identity) => AccessView::Granted(Some(identity)),
            Err(GuardError::Unauthenticated) => AccessView::Denied(
                GuardError::Unauthenticated,
                CaughtView::Redirect(login_redirect(path)),
            ),
            Err(GuardError::InsufficientTier) => AccessView::Denied(
                GuardError::InsufficientTier,
                CaughtView::Forbidden(outcome.user()),
            ),
        },
    }
}

/// Decides whether a request for `path` may reach the handler of a route
/// that asks for `level`.
pub fn dispatch(level: GuardLevel, outcome: GuardOutcome, path: &str) -> (access: Access)
    ensures
        access@ == access_decision(level, outcome@, path@),
{
    let user = outcome.into_user();
    match level {
        GuardLevel::Public => Access::Granted(user),
        GuardLevel::User => match user {
            Some(identity) => Access::Granted(Some(identity)),
            None => Access::Denied(
                GuardError::Unauthenticated,
                Caught::Redirect(catch_401(path)),
            ),
        },
        GuardLevel::Tier(required) => match user {
            Some(identity) => if identity.tier.permits(required) {
                Access::Granted(Some(identity))
            } else {
                Access::Denied(
                    GuardError::InsufficientTier,
                    Caught::Forbidden(catch_403(MaybeLoggedIn(Some(identity)))),
                )
            },
            None => Access::Denied(
                GuardError::Unauthenticated,
                Caught::Redirect(catch_401(path)),
            ),
        },
    }
}

} // verus!
