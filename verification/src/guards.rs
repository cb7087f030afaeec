//! Resolution of a request's credentials to an identity, and the three
//! guard levels that routes ask for.
//!
//! The caller looks the presented token up in the token store and the bound
//! identity in the user store, and hands over what it found. `resolve`
//! decides what the request amounts to; the guards differ only in how they
//! react to a request that does not resolve to an active identity.

use crate::crypto::secrets_match;
use crate::users::{Identity, IdentityView, Tier};
use vstd::prelude::*;

verus! {

/// A login session: a token bound to one identity until it expires.
#[derive(Debug, PartialEq, Eq)]
pub struct Session {
    pub token: String,
    pub identity_id: i32,
    /// The first second at which the session is no longer valid.
    pub expires_at: i64,
}

/// What a session is, as plain values.
pub ghost struct SessionView {
    pub token: Seq<char>,
    pub identity_id: int,
    pub expires_at: int,
}

impl View for Session {
    type V = SessionView;

    open spec fn view(&self) -> SessionView {
        SessionView {
            token: self.token@,
            identity_id: self.identity_id as int,
            expires_at: self.expires_at as int,
        }
    }
}

impl SessionView {
    /// Whether the session has run out at time `now`.
    pub open spec fn expired_at(self, now: int) -> bool {
        now >= self.expires_at
    }
}

impl Session {
    /// Whether the session has run out at time `now`.
    pub fn is_expired(&self, now: i64) -> (expired: bool)
        ensures
            expired == self@.expired_at(now as int),
    {
        now >= self.expires_at
    }
}

/// What a request's credentials amount to.
#[derive(Clone, Copy, Debug, PartialEq, Eq, Structural)]
pub enum SessionState {
    /// The request carried no token.
    NoToken,
    /// The token names no session, or the session's identity does not exist.
    InvalidToken,
    /// The token names a session that has run out.
    ExpiredSession,
    /// The session is valid, but its identity has been deactivated.
    ValidSessionInactiveUser,
    /// The session is valid and its identity is active: the only state in
    /// which a request is authenticated.
    ValidSessionActiveUser,
}

impl SessionState {
    /// Whether the request is authenticated.
    pub open spec fn spec_is_authenticated(self) -> bool {
        self == SessionState::ValidSessionActiveUser
    }

    /// Whether the request is authenticated.
    #[verifier::when_used_as_spec(spec_is_authenticated)]
    pub fn is_authenticated(self) -> (yes: bool)
        ensures
            yes == self.spec_is_authenticated(),
    {
        match self {
            SessionState::ValidSessionActiveUser => true,
            _ => false,
        }
    }
}

/// The state that the credentials of a request are in at time `now`:
/// `token` is what the request presented, `session` what the token store
/// holds under that token, `identity` what the user store holds under the
/// session's identity id.
pub open spec fn session_state(
    token: Option<Seq<char>>,
    session: Option<SessionView>,
    identity: Option<IdentityView>,
    now: int,
) -> SessionState {
    if token is None {
        SessionState::NoToken
    } else if session is None || session->0.token != token->0 {
        SessionState::InvalidToken
    } else if session->0.expired_at(now) {
        SessionState::ExpiredSession
    } else if identity is None || identity->0.id != session->0.identity_id {
        SessionState::InvalidToken
    } else if !identity->0.active {
        SessionState::ValidSessionInactiveUser
    } else {
        SessionState::ValidSessionActiveUser
    }
}

/// The identity that a request acts as: the one found, if the request is
/// authenticated, and none otherwise.
pub open spec fn resolved_identity(
    token: Option<Seq<char>>,
    session: Option<SessionView>,
    identity: Option<IdentityView>,
    now: int,
) -> Option<IdentityView> {
    if session_state(token, session, identity, now).spec_is_authenticated() {
        identity
    } else {
        None
    }
}

/// Why a guard turned a request away.
#[derive(Clone, Copy, Debug, PartialEq, Eq, Structural)]
pub enum GuardError {
    /// No session, or an invalid or expired one, or a deactivated identity.
    Unauthenticated,
    /// A valid session whose identity's tier is below the required one.
    InsufficientTier,
}

impl GuardError {
    /// The HTTP status that the failure is answered with.
    pub open spec fn spec_status(self) -> u16 {
        match self {
            GuardError::Unauthenticated => 401,
            GuardError::InsufficientTier => 403,
        }
    }

    /// The HTTP status that the failure is answered with.
    #[verifier::when_used_as_spec(spec_status)]
    pub fn status(self) -> (code: u16)
        ensures
            code == self.spec_status(),
    {
        match self {
            GuardError::Unauthenticated => 401,
            GuardError::InsufficientTier => 403,
        }
    }
}

/// The outcome of resolving a request's credentials.
///
/// An outcome made by `resolve` holds an identity exactly when its state is
/// `ValidSessionActiveUser`; the guards treat any other outcome that holds
/// no identity, or an inactive one, as unauthenticated too.
#[derive(Debug, PartialEq, Eq)]
pub struct GuardOutcome {
    pub state: SessionState,
    pub identity: Option<Identity>,
}

/// What an outcome is, as plain values.
pub ghost struct GuardOutcomeView {
    pub state: SessionState,
    pub identity: Option<IdentityView>,
}

impl GuardOutcomeView {
    /// The identity that the guards let through: the outcome's identity, if
    /// the state is the authenticated one and the identity is active.
    pub open spec fn user(self) -> Option<IdentityView> {
        if self.state.spec_is_authenticated() && self.identity is Some && self.identity->0.active {
            self.identity
        } else {
            None
        }
    }

    /// What the user guard makes of the outcome.
    pub open spec fn user_guard(self) -> Result<IdentityView, GuardError> {
        match self.user() {
            Some(identity) => Ok(identity),
            None => Err(GuardError::Unauthenticated),
        }
    }

    /// What the tier-gated guard makes of the outcome for an operation that
    /// asks for `required`.
    pub open spec fn admin_guard(self, required: Tier) -> Result<IdentityView, GuardError> {
        match self.user() {
            Some(identity) => if identity.tier.spec_permits(required) {
                Ok(identity)
            } else {
                Err(GuardError::InsufficientTier)
            },
            None => Err(GuardError::Unauthenticated),
        }
    }
}

/// The view of an optional identity.
pub open spec fn option_identity_view(identity: Option<Identity>) -> Option<IdentityView> {
    match identity {
        Some(i) => Some(i@),
        None => None,
    }
}

impl View for GuardOutcome {
    type V = GuardOutcomeView;

    open spec fn view(&self) -> GuardOutcomeView {
        GuardOutcomeView { state: self.state, identity: option_identity_view(self.identity) }
    }
}

/// The view of an optional token.
pub open spec fn option_str_view(s: Option<&str>) -> Option<Seq<char>> {
    match s {
        Some(t) => Some(t@),
        None => None,
    }
}

/// The view of an optional session.
pub open spec fn option_session_view(s: Option<&Session>) -> Option<SessionView> {
    match s {
        Some(t) => Some(t@),
        None => None,
    }
}

/// The view of an optional borrowed identity.
pub open spec fn option_identity_ref_view(s: Option<&Identity>) -> Option<IdentityView> {
    match s {
        Some(t) => Some(t@),
        None => None,
    }
}

/// Decides what a request's credentials amount to at time `now`.
///
/// `token` is what the request presented, `session` what the token store
/// holds under that token, `identity` what the user store holds under the
/// session's identity id. The token is compared in constant time.
pub fn resolve(
    token: Option<&str>,
    session: Option<&Session>,
    identity: Option<&Identity>,
    now: i64,
) -> (outcome: GuardOutcome)
    ensures
        outcome@.state == session_state(
            option_str_view(token),
            option_session_view(session),
            option_identity_ref_view(identity),
            now as int,
        ),
        outcome@.identity == resolved_identity(
            option_str_view(token),
            option_session_view(session),
            option_identity_ref_view(identity),
            now as int,
        ),
        outcome@.user() == outcome@.identity,
{
    let presented = match token {
        Some(t) => t,
        None => {
            return GuardOutcome { state: SessionState::NoToken, identity: None };
        },
    };
    let found = match session {
        Some(s) => s,
        None => {
            return GuardOutcome { state: SessionState::InvalidToken, identity: None };
        },
    };
    if !secrets_match(found.token.as_str(), presented) {
        return GuardOutcome { state: SessionState::InvalidToken, identity: None };
    }
    if found.is_expired(now) {
        return GuardOutcome { state: SessionState::ExpiredSession, identity: None };
    }
    let who = match identity {
        Some(i) => i,
        None => {
            return GuardOutcome { state: SessionState::InvalidToken, identity: None };
        },
    };
    if who.id != found.identity_id {
        return GuardOutcome { state: SessionState::InvalidToken, identity: None };
    }
    if !who.active {
        return GuardOutcome { state: SessionState::ValidSessionInactiveUser, identity: None };
    }
    GuardOutcome { state: SessionState::ValidSessionActiveUser, identity: Some(who.clone()) }
}

/// The guard of public pages: never fails, and holds the identity if the
/// request is authenticated.
#[derive(Debug, PartialEq, Eq)]
pub struct MaybeLoggedIn(pub Option<Identity>);

impl View for MaybeLoggedIn {
    type V = Option<IdentityView>;

    open spec fn view(&self) -> Option<IdentityView> {
        option_identity_view(self.0)
    }
}

/// The guard of pages for logged-in users: holds the identity of an
/// authenticated request.
#[derive(Debug, PartialEq, Eq)]
pub struct UserGuard(pub Identity);

impl View for UserGuard {
    type V = IdentityView;

    open spec fn view(&self) -> IdentityView {
        self.0@
    }
}

/// The tier-gated guard: holds the identity of an authenticated request
/// whose tier is not below the one the operation asks for.
#[derive(Debug, PartialEq, Eq)]
pub struct AdminGuard(pub Identity);

impl View for AdminGuard {
    type V = IdentityView;

    open spec fn view(&self) -> IdentityView {
        self.0@
    }
}

impl GuardOutcome {
    /// The identity that the guards let through, if any.
    pub fn into_user(self) -> (user: Option<Identity>)
        ensures
            option_identity_view(user) == self@.user(),
    {
        if !self.state.is_authenticated() {
            return None;
        }
        match self.identity {
            Some(identity) => if identity.active {
                Some(identity)
            } else {
                None
            },
            None => None,
        }
    }
}

impl MaybeLoggedIn {
    /// Passes every outcome through: the identity if the request is
    /// authenticated, none otherwise.
    pub fn from_outcome(outcome: GuardOutcome) -> (guard: MaybeLoggedIn)
        ensures
            guard@ == outcome@.user(),
    {
        MaybeLoggedIn(outcome.into_user())
    }

    /// The identity that is logged in, if any.
    pub fn user(&self) -> (user: Option<Identity>)
        ensures
            option_identity_view(user) == self@,
    {
        match &self.0 {
            Some(identity) => Some(identity.clone()),
            None => None,
        }
    }
}

impl UserGuard {
    /// Lets an authenticated request through and fails every other with
    /// `Unauthenticated`.
    pub fn from_outcome(outcome: GuardOutcome) -> (guard: Result<UserGuard, GuardError>)
        ensures
            guard_result_view(guard) == outcome@.user_guard(),
    {
        match outcome.into_user() {
            Some(identity) => Ok(UserGuard(identity)),
            None => Err(GuardError::Unauthenticated),
        }
    }
}

impl AdminGuard {
    /// Lets an authenticated request through if its identity's tier is not
    /// below `required`, fails it with `InsufficientTier` if it is, and fails
    /// an unauthenticated request with `Unauthenticated`.
    pub fn from_outcome(outcome: GuardOutcome, required: Tier) -> (guard: Result<
        AdminGuard,
        GuardError,
    >)
        ensures
            admin_result_view(guard) == outcome@.admin_guard(required),
    {
        match outcome.into_user() {
            Some(identity) => if identity.tier.permits(required) {
                Ok(AdminGuard(identity))
            } else {
                Err(GuardError::InsufficientTier)
            },
            None => Err(GuardError::Unauthenticated),
        }
    }
}

/// The view of what the user guard returned.
pub open spec fn guard_result_view(r: Result<UserGuard, GuardError>) -> Result<
    IdentityView,
    GuardError,
> {
    match r {
        Ok(g) => Ok(g@),
        Err(e) => Err(e),
    }
}

/// The view of what the tier-gated guard returned.
pub open spec fn admin_result_view(r: Result<AdminGuard, GuardError>) -> Result<
    IdentityView,
    GuardError,
> {
    match r {
        Ok(g) => Ok(g@),
        Err(e) => Err(e),
    }
}

} // verus!
