//! What runs when the site starts, before any request is served: the
//! database is created, then the administrator is given a password if it
//! has none.
//!
//! The functions here decide; reading the configuration, talking to the
//! database and writing to the console are the caller's part.

use crate::crypto::{gen_code, gen_salt, hash_password, is_code, is_salt, password_hash};
use crate::users::{Identity, IdentityView, ADMIN_ID};
use vstd::prelude::*;
use vstd::string::StringExecFns;

verus! {

/// When a start-up hook runs.
#[derive(Clone, Copy, Debug, PartialEq, Eq, Structural)]
pub enum FairingKind {
    Attach,
    Launch,
    Request,
    Response,
}

/// What a start-up hook says of itself.
#[derive(Clone, Copy, Debug, PartialEq, Eq)]
pub struct FairingInfo {
    pub name: &'static str,
    pub kind: FairingKind,
}

/// Why start-up was given up. Each of these is fatal: the site must not
/// serve requests after any of them.
#[derive(Clone, Copy, Debug, PartialEq, Eq, Structural)]
pub enum LaunchError {
    /// The configuration names no database.
    MissingDatabaseUrl,
    /// The database could not be reached to create it.
    DatabaseUnreachable,
    /// The schema migrations failed.
    MigrationsFailed,
    /// The database could not be reached to check the administrator.
    AdminStoreUnreachable,
    /// The administrator identity is not in the database.
    AdminMissing,
    /// No password or salt could be drawn for the administrator.
    EntropyUnavailable,
    /// The administrator's new credentials could not be stored.
    AdminUpdateFailed,
}

impl LaunchError {
    /// What the operator is told.
    pub fn message(&self) -> (text: &'static str)
        ensures
            text@ == launch_error_message(*self),
    {
        match self {
            LaunchError::MissingDatabaseUrl => "No database url in the configuration",
            LaunchError::DatabaseUnreachable => "Failed to connect to database in DatabaseCreate",
            LaunchError::MigrationsFailed => "Failed to run embedded migrations",
            LaunchError::AdminStoreUnreachable => "Failed to connect to database in AdminCheck",
            LaunchError::AdminMissing => "Failed to get admin from database",
            LaunchError::EntropyUnavailable => "Failed to generate admin credentials",
            LaunchError::AdminUpdateFailed => "Failed to update admin user in database",
        }
    }
}

/// What the operator is told of each failure.
pub open spec fn launch_error_message(error: LaunchError) -> Seq<char> {
    match error {
        LaunchError::MissingDatabaseUrl => "No database url in the configuration"@,
        LaunchError::DatabaseUnreachable => "Failed to connect to database in DatabaseCreate"@,
        LaunchError::MigrationsFailed => "Failed to run embedded migrations"@,
        LaunchError::AdminStoreUnreachable => "Failed to connect to database in AdminCheck"@,
        LaunchError::AdminMissing => "Failed to get admin from database"@,
        LaunchError::EntropyUnavailable => "Failed to generate admin credentials"@,
        LaunchError::AdminUpdateFailed => "Failed to update admin user in database"@,
    }
}

// ---------------------------------------------------------------------------
// Creating the database
// ---------------------------------------------------------------------------

/// How far the creation of the database came.
#[derive(Clone, Copy, Debug, PartialEq, Eq, Structural)]
pub struct DatabaseReport {
    /// Whether the configuration names a database.
    pub url_configured: bool,
    /// Whether a connection to it was established.
    pub connected: bool,
    /// Whether the migrations ran to the end.
    pub migrated: bool,
}

/// Creates the database if needed.
#[derive(Clone, Copy, Debug, PartialEq, Eq, Structural)]
pub struct DatabaseCreate;

/// The verdict on a report: the first step that did not succeed, if any.
pub open spec fn database_verdict(report: DatabaseReport) -> Result<(), LaunchError> {
    if !report.url_configured {
        Err(LaunchError::MissingDatabaseUrl)
    } else if !report.connected {
        Err(LaunchError::DatabaseUnreachable)
    } else if !report.migrated {
        Err(LaunchError::MigrationsFailed)
    } else {
        Ok(())
    }
}

impl DatabaseCreate {
    pub fn info(&self) -> (info: FairingInfo)
        ensures
            info.name@ == "Create Database if Needed"@,
            info.kind == FairingKind::Launch,
    {
        FairingInfo { name: "Create Database if Needed", kind: FairingKind::Launch }
    }

    /// Judges how the creation of the database went: it succeeded only if
    /// the database was named, reached and migrated; otherwise the first
    /// step that failed is reported.
    pub fn on_launch(&self, report: &DatabaseReport) -> (r: Result<(), LaunchError>)
        ensures
            r == database_verdict(*report),
    {
        if !report.url_configured {
            Err(LaunchError::MissingDatabaseUrl)
        } else if !report.connected {
            Err(LaunchError::DatabaseUnreachable)
        } else if !report.migrated {
            Err(LaunchError::MigrationsFailed)
        } else {
            Ok(())
        }
    }
}

// ---------------------------------------------------------------------------
// Checking the administrator's password
// ---------------------------------------------------------------------------

/// Checks whether the administrator has a password and generates one if it
/// does not.
#[derive(Clone, Copy, Debug, PartialEq, Eq, Structural)]
pub struct AdminCheck;

/// What the check of the administrator's password came to.
#[derive(Debug, PartialEq, Eq)]
pub enum AdminCheckOutcome {
    /// The administrator has a password; nothing is to be done.
    AlreadySet,
    /// The administrator had none. `password` is to be shown to the operator
    /// once, and `admin`, the administrator with its new credentials, is to
    /// be stored.
    Generated { password: String, admin: Identity },
}

/// What an outcome is, as plain values.
pub ghost enum AdminCheckOutcomeView {
    AlreadySet,
    Generated { password: Seq<char>, admin: IdentityView },
}

impl View for AdminCheckOutcome {
    type V = AdminCheckOutcomeView;

    open spec fn view(&self) -> AdminCheckOutcomeView {
        match self {
            AdminCheckOutcome::AlreadySet => AdminCheckOutcomeView::AlreadySet,
            AdminCheckOutcome::Generated { password, admin } => AdminCheckOutcomeView::Generated {
                password: password@,
                admin: admin@,
            },
        }
    }
}

/// What the check comes to for an administrator, given the password and the
/// salt that would be used: nothing if a password is set, and otherwise the
/// administrator with the salt and the password's hash under it, every
/// other field unchanged.
pub open spec fn admin_check(admin: IdentityView, password: Seq<char>, salt: Seq<char>)
    -> AdminCheckOutcomeView {
    if admin.has_password() {
        AdminCheckOutcomeView::AlreadySet
    } else {
        AdminCheckOutcomeView::Generated {
            password,
            admin: admin.with_credentials(password_hash(password, salt), salt),
        }
    }
}

/// The administrator as it is stored once the outcome has been carried out.
pub open spec fn admin_after(admin: IdentityView, outcome: AdminCheckOutcomeView) -> IdentityView {
    match outcome {
        AdminCheckOutcomeView::AlreadySet => admin,
        AdminCheckOutcomeView::Generated { password, admin: updated } => updated,
    }
}

/// The message that shows a generated password to the operator.
pub open spec fn announcement_text(password: Seq<char>) -> Seq<char> {
    "\tADMIN PASSSWORD: "@ + password + "\n\tCHANGE THIS AS SOON AS POSSIBLE"@
}

impl AdminCheck {
    pub fn info(&self) -> (info: FairingInfo)
        ensures
            info.name@ == "Admin Password Check"@,
            info.kind == FairingKind::Launch,
    {
        FairingInfo { name: "Admin Password Check", kind: FairingKind::Launch }
    }

    /// The check for given secrets: what `on_launch` does once it has drawn
    /// a password and a salt.
    pub fn check_with(admin: &Identity, password: String, salt: String) -> (outcome:
        AdminCheckOutcome)
        ensures
            outcome@ == admin_check(admin@, password@, salt@),
    {
        if admin.has_password() {
            AdminCheckOutcome::AlreadySet
        } else {
            let hash = hash_password(password.as_str(), salt.as_str());
            let updated = admin.clone().with_credentials(hash, salt);
            AdminCheckOutcome::Generated { password, admin: updated }
        }
    }

    /// Checks the administrator that was read from the database.
    ///
    /// Without an administrator, or with an identity that is not the
    /// reserved one, the check fails with `AdminMissing`. An administrator
    /// with a password is left alone, always. For one without, a code is
    /// drawn as its password and a fresh salt with it; the outcome holds the
    /// password and the administrator under its new credentials. The check
    /// can then fail only for want of randomness.
    pub fn on_launch(&self, admin: Option<&Identity>) -> (r: Result<
        AdminCheckOutcome,
        LaunchError,
    >)
        ensures
            admin is None || admin->0@.id != ADMIN_ID ==> r == Err::<
                AdminCheckOutcome,
                LaunchError,
            >(LaunchError::AdminMissing),
            admin is Some && admin->0@.id == ADMIN_ID && admin->0@.has_password() ==> r is Ok
                && r->Ok_0@ == AdminCheckOutcomeView::AlreadySet,
            admin is Some && admin->0@.id == ADMIN_ID && !admin->0@.has_password() ==> match r {
                Ok(outcome) => {
                    &&& outcome@ is Generated
                    &&& is_code(outcome@->password)
                    &&& is_salt(outcome@->admin.salt)
                    &&& outcome@ == admin_check(
                        admin->0@,
                        outcome@->password,
                        outcome@->admin.salt,
                    )
                    &&& outcome@->admin.accepts(outcome@->password)
                },
                Err(e) => e == LaunchError::EntropyUnavailable,
            },
    {
        let found = match admin {
            Some(a) => a,
            None => {
                return Err(LaunchError::AdminMissing);
            },
        };
        if found.id != ADMIN_ID {
            return Err(LaunchError::AdminMissing);
        }
        if found.has_password() {
            return Ok(AdminCheckOutcome::AlreadySet);
        }
        let password = match gen_code() {
            Ok(code) => code,
            Err(_) => {
                return Err(LaunchError::EntropyUnavailable);
            },
        };
        let salt = match gen_salt() {
            Ok(salt) => salt,
            Err(_) => {
                return Err(LaunchError::EntropyUnavailable);
            },
        };
        proof {
            crate::users::lemma_set_password_is_accepted(found@, password@, salt@);
        }
        Ok(AdminCheck::check_with(found, password, salt))
    }

    /// The message that shows a generated password to the operator.
    pub fn announcement(password: &str) -> (text: String)
        ensures
            text@ == announcement_text(password@),
    {
        let mut text = String::from_str("\tADMIN PASSSWORD: ");
        text.append(password);
        text.append("\n\tCHANGE THIS AS SOON AS POSSIBLE");
        text
    }
}

// ---------------------------------------------------------------------------
// The barrier before serving
// ---------------------------------------------------------------------------

/// How far start-up has come. Requests are served in `Serving` only.
#[derive(Clone, Copy, Debug, PartialEq, Eq, Structural)]
pub enum LaunchPhase {
    /// Nothing has run yet.
    Ignited,
    /// The database has been created and migrated.
    DatabaseReady,
    /// The administrator has been checked too: requests may be served.
    Serving,
    /// A step failed: the process must end.
    Aborted,
}

/// The phase after the database hook has run with the given result.
pub open spec fn phase_after_database(phase: LaunchPhase, result: Result<(), LaunchError>)
    -> LaunchPhase {
    if phase == LaunchPhase::Ignited && result is Ok {
        LaunchPhase::DatabaseReady
    } else {
        LaunchPhase::Aborted
    }
}

/// The phase after the administrator hook has run: `stored` is the
/// administrator as the database holds it afterwards, or the failure.
pub open spec fn phase_after_admin(phase: LaunchPhase, stored: Result<IdentityView, LaunchError>)
    -> LaunchPhase {
    if phase == LaunchPhase::DatabaseReady && stored is Ok && stored->Ok_0.has_password() {
        LaunchPhase::Serving
    } else {
        LaunchPhase::Aborted
    }
}

/// The view of what the database holds for the administrator after the
/// check.
pub open spec fn stored_admin_view(stored: Result<&Identity, LaunchError>) -> Result<
    IdentityView,
    LaunchError,
> {
    match stored {
        Ok(admin) => Ok(admin@),
        Err(e) => Err(e),
    }
}

impl LaunchPhase {
    /// Whether requests may be served.
    pub fn may_serve(self) -> (yes: bool)
        ensures
            yes == (self == LaunchPhase::Serving),
    {
        match self {
            LaunchPhase::Serving => true,
            _ => false,
        }
    }

    /// Moves on after the database hook: to `DatabaseReady` if it succeeded
    /// and was the first to run, to `Aborted` otherwise.
    pub fn after_database(self, result: Result<(), LaunchError>) -> (next: LaunchPhase)
        ensures
            next == phase_after_database(self, result),
    {
        match (self, result) {
            (LaunchPhase::Ignited, Ok(())) => LaunchPhase::DatabaseReady,
            _ => LaunchPhase::Aborted,
        }
    }

    /// Moves on after the administrator hook: to `Serving` if the database
    /// was ready and the administrator is now stored with a password, to
    /// `Aborted` otherwise.
    pub fn after_admin_check(self, stored: Result<&Identity, LaunchError>) -> (next: LaunchPhase)
        ensures
            next == phase_after_admin(self, stored_admin_view(stored)),
    {
        match (self, stored) {
            (LaunchPhase::DatabaseReady, Ok(admin)) => if admin.has_password() {
                LaunchPhase::Serving
            } else {
                LaunchPhase::Aborted
            },
            _ => LaunchPhase::Aborted,
        }
    }
}

} // verus!
