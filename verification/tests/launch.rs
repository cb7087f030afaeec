use observatory::crypto::{hash_password, HASH_LEN, SALT_LEN};
use observatory::launch::{
    AdminCheck, AdminCheckOutcome, DatabaseCreate, DatabaseReport, FairingKind, LaunchError,
    LaunchPhase,
};
use observatory::users::{Identity, Tier, ADMIN_ID};

fn admin(hash: &str, salt: &str) -> Identity {
    Identity {
        id: 0,
        handle: String::from("admin"),
        real_name: String::from("Administrator"),
        password_hash: hash.to_string(),
        salt: salt.to_string(),
        bio: String::from("Keeps the lights on"),
        email: String::from("admin@example.org"),
        tier: Tier::Admin,
        active: true,
    }
}

#[test]
fn fairing_infos() {
    let info = DatabaseCreate.info();
    assert_eq!(info.name, "Create Database if Needed");
    assert_eq!(info.kind, FairingKind::Launch);
    let info = AdminCheck.info();
    assert_eq!(info.name, "Admin Password Check");
    assert_eq!(info.kind, FairingKind::Launch);
}

#[test]
fn database_create_reports_the_first_failure() {
    let report = |url_configured, connected, migrated| DatabaseReport {
        url_configured,
        connected,
        migrated,
    };
    assert_eq!(DatabaseCreate.on_launch(&report(true, true, true)), Ok(()));
    assert_eq!(
        DatabaseCreate.on_launch(&report(false, false, false)),
        Err(LaunchError::MissingDatabaseUrl)
    );
    assert_eq!(
        DatabaseCreate.on_launch(&report(false, true, true)),
        Err(LaunchError::MissingDatabaseUrl)
    );
    assert_eq!(
        DatabaseCreate.on_launch(&report(true, false, false)),
        Err(LaunchError::DatabaseUnreachable)
    );
    assert_eq!(
        DatabaseCreate.on_launch(&report(true, false, true)),
        Err(LaunchError::DatabaseUnreachable)
    );
    assert_eq!(
        DatabaseCreate.on_launch(&report(true, true, false)),
        Err(LaunchError::MigrationsFailed)
    );
}

#[test]
fn launch_error_messages() {
    assert_eq!(
        LaunchError::DatabaseUnreachable.message(),
        "Failed to connect to database in DatabaseCreate"
    );
    assert_eq!(LaunchError::MigrationsFailed.message(), "Failed to run embedded migrations");
    assert_eq!(
        LaunchError::AdminStoreUnreachable.message(),
        "Failed to connect to database in AdminCheck"
    );
    assert_eq!(LaunchError::AdminMissing.message(), "Failed to get admin from database");
    assert_eq!(
        LaunchError::AdminUpdateFailed.message(),
        "Failed to update admin user in database"
    );
    assert_eq!(
        LaunchError::MissingDatabaseUrl.message(),
        "No database url in the configuration"
    );
    assert_eq!(
        LaunchError::EntropyUnavailable.message(),
        "Failed to generate admin credentials"
    );
}

#[test]
fn admin_id_is_zero() {
    assert_eq!(ADMIN_ID, 0);
}

#[test]
fn fresh_install_generates_a_password_that_hashes_to_the_stored_hash() {
    let fresh = admin("", "");
    let outcome = AdminCheck.on_launch(Some(&fresh)).expect("credentials can be drawn");
    match outcome {
        AdminCheckOutcome::Generated { password, admin: stored } => {
            assert_eq!(password.chars().count(), 8);
            assert_eq!(stored.salt.len(), SALT_LEN);
            assert_eq!(stored.password_hash.len(), HASH_LEN);
            assert_eq!(hash_password(&password, &stored.salt), stored.password_hash);
            assert!(stored.check_password(&password));
            assert!(stored.has_password());
            assert_eq!(stored.id, 0);
            assert_eq!(stored.handle, "admin");
            assert_eq!(stored.real_name, "Administrator");
            assert_eq!(stored.bio, "Keeps the lights on");
            assert_eq!(stored.email, "admin@example.org");
            assert_eq!(stored.tier, Tier::Admin);
            assert!(stored.active);
            assert!(AdminCheck::announcement(&password).contains(&password));
        }
        AdminCheckOutcome::AlreadySet => panic!("a fresh install was taken for an old one"),
    }
}

#[test]
fn second_run_leaves_the_password_alone() {
    let fresh = admin("", "");
    let first = AdminCheck.on_launch(Some(&fresh)).expect("credentials can be drawn");
    let stored = match first {
        AdminCheckOutcome::Generated { admin: stored, .. } => stored,
        AdminCheckOutcome::AlreadySet => panic!("a fresh install was taken for an old one"),
    };
    let before = stored.clone();
    let second = AdminCheck.on_launch(Some(&stored)).expect("nothing is drawn");
    assert_eq!(second, AdminCheckOutcome::AlreadySet);
    assert_eq!(stored, before);
}

#[test]
fn set_password_is_never_altered() {
    let set = admin("not even a real hash", "salt");
    assert_eq!(AdminCheck.on_launch(Some(&set)), Ok(AdminCheckOutcome::AlreadySet));
    assert_eq!(
        AdminCheck::check_with(&set, String::from("AHJNPZ29"), String::from("00ff")),
        AdminCheckOutcome::AlreadySet
    );
}

#[test]
fn check_with_given_secrets() {
    let fresh = admin("", "old salt");
    let salt = "000102030405060708090a0b0c0d0e0f";
    let outcome = AdminCheck::check_with(&fresh, String::from("AHJNPZ29"), salt.to_string());
    let expected = admin(&hash_password("AHJNPZ29", salt), salt);
    assert_eq!(
        outcome,
        AdminCheckOutcome::Generated { password: String::from("AHJNPZ29"), admin: expected }
    );
}

#[test]
fn missing_admin_fails_the_check() {
    assert_eq!(AdminCheck.on_launch(None), Err(LaunchError::AdminMissing));
    let mut other = admin("", "");
    other.id = 1;
    assert_eq!(AdminCheck.on_launch(Some(&other)), Err(LaunchError::AdminMissing));
    let mut other = admin("hash", "salt");
    other.id = -1;
    assert_eq!(AdminCheck.on_launch(Some(&other)), Err(LaunchError::AdminMissing));
}

#[test]
fn two_fresh_installs_get_different_secrets() {
    let fresh = admin("", "");
    let a = AdminCheck.on_launch(Some(&fresh)).expect("credentials can be drawn");
    let b = AdminCheck.on_launch(Some(&fresh)).expect("credentials can be drawn");
    assert_ne!(a, b);
}

#[test]
fn announcement_text() {
    assert_eq!(
        AdminCheck::announcement("AHJNPZ29"),
        "\tADMIN PASSSWORD: AHJNPZ29\n\tCHANGE THIS AS SOON AS POSSIBLE"
    );
}

#[test]
fn serving_needs_both_hooks() {
    let ready = admin("hash", "salt");
    let blank = admin("", "");
    let phase = LaunchPhase::Ignited;
    assert!(!phase.may_serve());
    let phase = phase.after_database(Ok(()));
    assert_eq!(phase, LaunchPhase::DatabaseReady);
    assert!(!phase.may_serve());
    let serving = phase.after_admin_check(Ok(&ready));
    assert_eq!(serving, LaunchPhase::Serving);
    assert!(serving.may_serve());

    assert_eq!(phase.after_admin_check(Ok(&blank)), LaunchPhase::Aborted);
    assert_eq!(
        phase.after_admin_check(Err(LaunchError::AdminUpdateFailed)),
        LaunchPhase::Aborted
    );
    assert_eq!(LaunchPhase::Ignited.after_admin_check(Ok(&ready)), LaunchPhase::Aborted);
    assert_eq!(
        LaunchPhase::Ignited.after_database(Err(LaunchError::MigrationsFailed)),
        LaunchPhase::Aborted
    );
    assert_eq!(LaunchPhase::DatabaseReady.after_database(Ok(())), LaunchPhase::Aborted);
    assert_eq!(LaunchPhase::Aborted.after_database(Ok(())), LaunchPhase::Aborted);
    assert_eq!(LaunchPhase::Aborted.after_admin_check(Ok(&ready)), LaunchPhase::Aborted);
    assert_eq!(LaunchPhase::Serving.after_admin_check(Ok(&ready)), LaunchPhase::Aborted);
    assert!(!LaunchPhase::Aborted.may_serve());
}
