//! What holds of the site's rules whatever the inputs: each function here
//! is a theorem about the models that the contracts are stated in.

use crate::attend::{
    book_after, code_verdict, count_for, lemma_lookup, lemma_present, lemma_push_unique, lookup,
    slot_of, submission_result, unique_slots, AttendError, AttendableView, CodeWindow, RecordView,
};
use crate::crypto::{lemma_password_hash_well_formed, password_hash, DEFAULT_ROUNDS};
use crate::guards::{
    resolved_identity, session_state, GuardError, GuardOutcomeView, SessionState, SessionView,
};
use crate::handlers::{access_decision, AccessView, CaughtView, GuardLevel};
use crate::launch::{
    admin_after, admin_check, phase_after_admin, phase_after_database, AdminCheckOutcomeView,
    LaunchError, LaunchPhase,
};
use crate::users::{IdentityView, Tier};
use vstd::prelude::*;

verus! {

// ---------------------------------------------------------------------------
// Guards
// ---------------------------------------------------------------------------

/// A request whose session is bound to a deactivated identity never
/// resolves to the authenticated state and never to an identity, whatever
/// the token, the session and the time.
pub proof fn law_inactive_never_resolves(
    token: Option<Seq<char>>,
    session: Option<SessionView>,
    identity: IdentityView,
    now: int,
)
    requires
        !identity.active,
    ensures
        session_state(token, session, Some(identity), now) != SessionState::ValidSessionActiveUser,
        resolved_identity(token, session, Some(identity), now) is None,
{
}

/// Every guard level treats a deactivated identity as unauthenticated,
/// whatever state the outcome claims and whatever tier is asked for: the
/// public guard sees nobody, the user guard and the tier-gated guard fail
/// with `Unauthenticated`.
pub proof fn law_inactive_is_unauthenticated(
    state: SessionState,
    identity: IdentityView,
    required: Tier,
)
    requires
        !identity.active,
    ensures
        ({
            let outcome = GuardOutcomeView { state, identity: Some(identity) };
            &&& outcome.user() is None
            &&& outcome.user_guard() == Err::<IdentityView, GuardError>(
                GuardError::Unauthenticated,
            )
            &&& outcome.admin_guard(required) == Err::<IdentityView, GuardError>(
                GuardError::Unauthenticated,
            )
        }),
{
}

/// A request is authenticated in one state only: a token was presented, it
/// is the token of the session found, the session has not run out, and the
/// identity found is the one the session is bound to and is active.
pub proof fn law_authenticated_iff(
    token: Option<Seq<char>>,
    session: Option<SessionView>,
    identity: Option<IdentityView>,
    now: int,
)
    ensures
        session_state(token, session, identity, now).spec_is_authenticated() <==> {
            &&& token is Some
            &&& session is Some
            &&& session->0.token == token->0
            &&& now < session->0.expires_at
            &&& identity is Some
            &&& identity->0.id == session->0.identity_id
            &&& identity->0.active
        },
{
}

/// The order of the tiers is total: any two tiers compare, a tier permits
/// itself, and what permits a tier permits every lower one.
pub proof fn law_tier_order(a: Tier, b: Tier, c: Tier)
    ensures
        a.spec_permits(a),
        a.spec_permits(b) || b.spec_permits(a),
        a.spec_permits(b) && b.spec_permits(a) ==> a == b,
        a.spec_permits(b) && b.spec_permits(c) ==> a.spec_permits(c),
        Tier::Admin.spec_permits(a),
        a.spec_permits(Tier::Guest),
{
}

/// No request reaches a handler at a lower tier than its route declares:
/// whoever passes a tier-gated route is an active identity of at least the
/// required tier, whoever passes a route for users is an active identity,
/// and a public route turns nobody away.
pub proof fn law_access_respects_tier(
    level: GuardLevel,
    outcome: GuardOutcomeView,
    path: Seq<char>,
)
    ensures
        ({
            let access = access_decision(level, outcome, path);
            &&& level matches GuardLevel::Tier(required) ==> (access matches AccessView::Granted(
                who,
            ) ==> who is Some && who->0.active && who->0.tier.spec_permits(required))
            &&& level == GuardLevel::User ==> (access matches AccessView::Granted(who)
                ==> who is Some && who->0.active)
            &&& level == GuardLevel::Public ==> access is Granted
        }),
{
}

/// The tier alone decides what an authenticated identity may reach: a
/// route that lets an identity through lets through every active identity
/// of the same or a higher tier.
pub proof fn law_higher_tier_passes(
    level: GuardLevel,
    lower: IdentityView,
    higher: IdentityView,
    path: Seq<char>,
)
    requires
        lower.active,
        higher.active,
        higher.tier.spec_permits(lower.tier),
    ensures
        ({
            let state = SessionState::ValidSessionActiveUser;
            let as_lower = GuardOutcomeView { state, identity: Some(lower) };
            let as_higher = GuardOutcomeView { state, identity: Some(higher) };
            access_decision(level, as_lower, path) is Granted ==> access_decision(
                level,
                as_higher,
                path,
            ) == AccessView::Granted(Some(higher))
        }),
{
}

/// A request that is turned away is answered by the catcher for its
/// failure: an unauthenticated one by the redirect to the login page, one of
/// too low a tier by the 403 page, and the answer's status is the
/// failure's.
pub proof fn law_denied_is_caught(level: GuardLevel, outcome: GuardOutcomeView, path: Seq<char>)
    ensures
        access_decision(level, outcome, path) matches AccessView::Denied(error, answer) ==> {
            &&& answer.status() == error.spec_status()
            &&& error == GuardError::Unauthenticated ==> answer is Redirect
            &&& error == GuardError::InsufficientTier ==> answer is Forbidden
        },
{
}

// ---------------------------------------------------------------------------
// Password hashes
// ---------------------------------------------------------------------------

/// Hashing is deterministic: equal passwords under equal salts have equal
/// hashes.
pub proof fn law_hash_deterministic(
    password1: Seq<char>,
    salt1: Seq<char>,
    password2: Seq<char>,
    salt2: Seq<char>,
)
    requires
        password1 == password2,
        salt1 == salt2,
    ensures
        password_hash(password1, salt1) == password_hash(password2, salt2),
{
}

// ---------------------------------------------------------------------------
// Attendance
// ---------------------------------------------------------------------------

/// Outside the window a submission fails with `WindowClosed` even when the
/// code is correct, and the book is left as it was.
pub proof fn law_window_closed(
    book: Seq<RecordView>,
    user_id: int,
    attendable: AttendableView,
    submitted: Seq<char>,
    now: int,
    window: CodeWindow,
)
    requires
        !window.spec_is_open(attendable.time, now),
    ensures
        code_verdict(submitted, attendable.code, attendable.time, now, window) == Err::<
            (),
            AttendError,
        >(AttendError::WindowClosed),
        submission_result(book, user_id, attendable, submitted, now, window) == Err::<
            (),
            AttendError,
        >(AttendError::WindowClosed),
        book_after(book, user_id, attendable, submitted, now, window) == book,
{
}

/// A submission that fails changes nothing, and one that succeeds leaves
/// the member recorded for the attendable.
pub proof fn law_submission_outcome(
    book: Seq<RecordView>,
    user_id: int,
    attendable: AttendableView,
    submitted: Seq<char>,
    now: int,
    window: CodeWindow,
)
    requires
        unique_slots(book),
    ensures
        submission_result(book, user_id, attendable, submitted, now, window) is Err ==> book_after(
            book,
            user_id,
            attendable,
            submitted,
            now,
            window,
        ) == book,
        submission_result(book, user_id, attendable, submitted, now, window) is Ok ==> count_for(
            book_after(book, user_id, attendable, submitted, now, window),
            slot_of(user_id, attendable),
        ) == 1,
{
    let slot = slot_of(user_id, attendable);
    if submission_result(book, user_id, attendable, submitted, now, window) is Ok {
        lemma_submission_keeps_unique(book, user_id, attendable, submitted, now, window);
    }
}

/// Whatever is submitted, a book without duplicates stays without, and
/// afterwards holds at most one record for the member and the attendable;
/// exactly one if the code passed its check.
pub proof fn lemma_submission_keeps_unique(
    book: Seq<RecordView>,
    user_id: int,
    attendable: AttendableView,
    submitted: Seq<char>,
    now: int,
    window: CodeWindow,
)
    requires
        unique_slots(book),
    ensures
        unique_slots(book_after(book, user_id, attendable, submitted, now, window)),
        count_for(
            book_after(book, user_id, attendable, submitted, now, window),
            slot_of(user_id, attendable),
        ) <= 1,
        code_verdict(submitted, attendable.code, attendable.time, now, window) is Ok ==> {
            &&& count_for(
                book_after(book, user_id, attendable, submitted, now, window),
                slot_of(user_id, attendable),
            ) == 1
            &&& lookup(
                book_after(book, user_id, attendable, submitted, now, window),
                slot_of(user_id, attendable),
            ) is Some
        },
{
    let slot = slot_of(user_id, attendable);
    let next = book_after(book, user_id, attendable, submitted, now, window);
    lemma_lookup(book, slot);
    if lookup(book, slot) is Some {
        let r = lookup(book, slot)->0;
        let k = choose|k: int| 0 <= k < book.len() && book[k] == r;
        lemma_present(book, k);
        assert(next == book);
    } else if code_verdict(submitted, attendable.code, attendable.time, now, window) is Ok {
        let record = RecordView {
            user_id,
            is_event: attendable.is_event,
            attendable_id: attendable.id,
            time: now,
            code: submitted,
        };
        assert(record.slot() == slot);
        lemma_push_unique(book, record);
    }
}

/// Submitting the correct code twice while the window is open yields
/// exactly one record for the member and the attendable: the second
/// submission changes nothing and is answered as the first was.
pub proof fn law_submission_idempotent(
    book: Seq<RecordView>,
    user_id: int,
    attendable: AttendableView,
    now1: int,
    now2: int,
    window: CodeWindow,
)
    requires
        unique_slots(book),
        window.spec_is_open(attendable.time, now1),
        window.spec_is_open(attendable.time, now2),
    ensures
        ({
            let code = attendable.code;
            let once = book_after(book, user_id, attendable, code, now1, window);
            let twice = book_after(once, user_id, attendable, code, now2, window);
            &&& twice == once
            &&& count_for(twice, slot_of(user_id, attendable)) == 1
            &&& submission_result(once, user_id, attendable, code, now2, window)
                == submission_result(book, user_id, attendable, code, now1, window)
        }),
{
    let code = attendable.code;
    let slot = slot_of(user_id, attendable);
    let once = book_after(book, user_id, attendable, code, now1, window);
    lemma_submission_keeps_unique(book, user_id, attendable, code, now1, window);
    lemma_lookup(book, slot);
    if lookup(book, slot) is None {
        let record = RecordView {
            user_id,
            is_event: attendable.is_event,
            attendable_id: attendable.id,
            time: now1,
            code,
        };
        lemma_push_unique(book, record);
    }
}

/// The book after one submission of `code` for each of `times`, in that
/// order.
pub open spec fn book_after_all(
    book: Seq<RecordView>,
    user_id: int,
    attendable: AttendableView,
    code: Seq<char>,
    times: Seq<int>,
    window: CodeWindow,
) -> Seq<RecordView>
    decreases times.len(),
{
    if times.len() == 0 {
        book
    } else {
        book_after(
            book_after_all(book, user_id, attendable, code, times.drop_last(), window),
            user_id,
            attendable,
            code,
            times.last(),
            window,
        )
    }
}

/// However many times the correct code is submitted for the same member
/// and attendable while the window is open, and in whatever order the
/// submissions arrive, the book ends up with exactly one record for them
/// and grows by one record at most.
pub proof fn law_many_submissions_one_record(
    book: Seq<RecordView>,
    user_id: int,
    attendable: AttendableView,
    times: Seq<int>,
    window: CodeWindow,
)
    requires
        unique_slots(book),
        times.len() >= 1,
        forall|i: int|
            0 <= i < times.len() ==> window.spec_is_open(attendable.time, #[trigger] times[i]),
    ensures
        ({
            let after = book_after_all(book, user_id, attendable, attendable.code, times, window);
            &&& unique_slots(after)
            &&& count_for(after, slot_of(user_id, attendable)) == 1
            &&& after.len() <= book.len() + 1
            &&& after.len() >= book.len()
        }),
    decreases times.len(),
{
    let code = attendable.code;
    let slot = slot_of(user_id, attendable);
    let earlier = times.drop_last();
    let before = book_after_all(book, user_id, attendable, code, earlier, window);
    if earlier.len() == 0 {
        assert(before == book);
        lemma_submission_keeps_unique(book, user_id, attendable, code, times.last(), window);
    } else {
        assert forall|i: int| 0 <= i < earlier.len() implies window.spec_is_open(
            attendable.time,
            #[trigger] earlier[i],
        ) by {
            assert(earlier[i] == times[i]);
        }
        law_many_submissions_one_record(book, user_id, attendable, earlier, window);
        lemma_submission_keeps_unique(before, user_id, attendable, code, times.last(), window);
        lemma_lookup(before, slot);
    }
}

// ---------------------------------------------------------------------------
// Start-up
// ---------------------------------------------------------------------------

/// The check leaves an administrator that has a password exactly as it is,
/// whatever password and salt it would have used.
pub proof fn law_admin_check_keeps_set_password(
    admin: IdentityView,
    password: Seq<char>,
    salt: Seq<char>,
)
    requires
        admin.has_password(),
    ensures
        admin_check(admin, password, salt) == AdminCheckOutcomeView::AlreadySet,
        admin_after(admin, admin_check(admin, password, salt)) == admin,
{
}

/// Run twice in sequence, the check does nothing the second time: after
/// the first run the administrator has a password, which the second run
/// does not alter.
pub proof fn law_admin_check_twice(
    admin: IdentityView,
    password1: Seq<char>,
    salt1: Seq<char>,
    password2: Seq<char>,
    salt2: Seq<char>,
)
    ensures
        ({
            let first = admin_after(admin, admin_check(admin, password1, salt1));
            &&& first.has_password()
            &&& admin_check(first, password2, salt2) == AdminCheckOutcomeView::AlreadySet
            &&& admin_after(first, admin_check(first, password2, salt2)) == first
        }),
{
    lemma_password_hash_well_formed(password1, salt1, DEFAULT_ROUNDS);
}

/// What the check generates can be logged in with: the administrator that
/// it hands back accepts the generated password, and hashing that password
/// under the stored salt gives the stored hash.
pub proof fn law_generated_password_is_accepted(
    admin: IdentityView,
    password: Seq<char>,
    salt: Seq<char>,
)
    requires
        !admin.has_password(),
    ensures
        ({
            let stored = admin_after(admin, admin_check(admin, password, salt));
            &&& password_hash(password, stored.salt) == stored.password_hash
            &&& stored.accepts(password)
            &&& stored == admin.with_credentials(stored.password_hash, stored.salt)
        }),
{
    lemma_password_hash_well_formed(password, salt, DEFAULT_ROUNDS);
}

/// Requests are served only after both hooks have succeeded, in order, and
/// only with an administrator that has a password; a failure at either
/// hook aborts start-up for good.
pub proof fn law_serving_needs_complete_startup(
    database: Result<(), LaunchError>,
    stored: Result<IdentityView, LaunchError>,
)
    ensures
        ({
            let phase = phase_after_admin(
                phase_after_database(LaunchPhase::Ignited, database),
                stored,
            );
            &&& phase == LaunchPhase::Serving || phase == LaunchPhase::Aborted
            &&& phase == LaunchPhase::Serving <==> database is Ok && stored is Ok
                && stored->Ok_0.has_password()
        }),
        phase_after_database(LaunchPhase::Aborted, database) == LaunchPhase::Aborted,
        phase_after_admin(LaunchPhase::Aborted, stored) == LaunchPhase::Aborted,
        phase_after_admin(LaunchPhase::Ignited, stored) == LaunchPhase::Aborted,
{
}

} // verus!
