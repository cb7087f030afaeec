//! Identities.

use crate::crypto::{is_password_hash, password_hash, verify_password};
pub use crate::tier::Tier;
use vstd::prelude::*;

verus! {

/// The id of the reserved administrator identity.
pub const ADMIN_ID: i32 = 0;

/// A member of the site.
#[derive(Debug, PartialEq, Eq)]
pub struct Identity {
    pub id: i32,
    /// Unique and stable.
    pub handle: String,
    pub real_name: String,
    /// Empty while no password has been set.
    pub password_hash: String,
    pub salt: String,
    pub bio: String,
    pub email: String,
    pub tier: Tier,
    /// Identities are never deleted, only deactivated.
    pub active: bool,
}

/// What an identity is, as plain values.
pub ghost struct IdentityView {
    pub id: int,
    pub handle: Seq<char>,
    pub real_name: Seq<char>,
    pub password_hash: Seq<char>,
    pub salt: Seq<char>,
    pub bio: Seq<char>,
    pub email: Seq<char>,
    pub tier: Tier,
    pub active: bool,
}

impl IdentityView {
    /// Whether a password has been set.
    pub open spec fn has_password(self) -> bool {
        self.password_hash.len() > 0
    }

    /// The same identity with new credentials.
    pub open spec fn with_credentials(self, hash: Seq<char>, salt: Seq<char>) -> IdentityView {
        IdentityView { password_hash: hash, salt: salt, ..self }
    }

    /// Whether `password` is the identity's password: hashed under the
    /// stored salt it gives the stored hash.
    pub open spec fn accepts(self, password: Seq<char>) -> bool {
        self.has_password() && password_hash(password, self.salt) == self.password_hash
    }
}

impl View for Identity {
    type V = IdentityView;

    open spec fn view(&self) -> IdentityView {
        IdentityView {
            id: self.id as int,
            handle: self.handle@,
            real_name: self.real_name@,
            password_hash: self.password_hash@,
            salt: self.salt@,
            bio: self.bio@,
            email: self.email@,
            tier: self.tier,
            active: self.active,
        }
    }
}

impl Clone for Identity {
    fn clone(&self) -> (copy: Self)
        ensures
            copy@ == self@,
    {
        Identity {
            id: self.id,
            handle: self.handle.clone(),
            real_name: self.real_name.clone(),
            password_hash: self.password_hash.clone(),
            salt: self.salt.clone(),
            bio: self.bio.clone(),
            email: self.email.clone(),
            tier: self.tier,
            active: self.active,
        }
    }
}

impl Identity {
    /// Whether a password has been set.
    pub fn has_password(&self) -> (set: bool)
        ensures
            set == self@.has_password(),
    {
        !self.password_hash.as_str().is_empty()
    }

    /// The identity with `hash` and `salt` as its credentials and every
    /// other field as it was.
    pub fn with_credentials(self, hash: String, salt: String) -> (updated: Identity)
        ensures
            updated@ == self@.with_credentials(hash@, salt@),
    {
        Identity {
            id: self.id,
            handle: self.handle,
            real_name: self.real_name,
            password_hash: hash,
            salt: salt,
            bio: self.bio,
            email: self.email,
            tier: self.tier,
            active: self.active,
        }
    }

    /// Whether `password` is the identity's password. An identity without a
    /// password accepts none.
    pub fn check_password(&self, password: &str) -> (ok: bool)
        ensures
            ok == self@.accepts(password@),
    {
        if !self.has_password() {
            return false;
        }
        verify_password(password, self.salt.as_str(), self.password_hash.as_str())
    }
}

/// A password that was set through `hash_password` is accepted afterwards,
/// under the salt it was hashed with.
pub proof fn lemma_set_password_is_accepted(
    identity: IdentityView,
    password: Seq<char>,
    salt: Seq<char>,
)
    ensures
        identity.with_credentials(password_hash(password, salt), salt).accepts(password),
{
    crate::crypto::lemma_password_hash_well_formed(
        password,
        salt,
        crate::crypto::DEFAULT_ROUNDS,
    );
    assert(is_password_hash(password_hash(password, salt)));
}

} // verus!
