//! The credential store: a client-scoped holder of the access-key /
//! secret-key pair.
//!
//! The pair is configured once at startup and read on every signed call.
//! Rather than hiding the pair in process-wide state, the store is an
//! explicit handle that the caller constructs and passes into every call,
//! so a half-configured store is visible in the types and a read always
//! sees a whole pair.

use vstd::prelude::*;
use crate::errors::{ErrorKind, ResponseError};

verus! {

/// An access-key / secret-key pair.
pub struct Credentials {
    pub access_key: String,
    pub secret_key: String,
}

/// Holds the credential pair for one client. Reading fails until both
/// keys have been supplied; the keys are only ever handed out as a pair.
pub struct CredentialStore {
    access_key: Option<String>,
    secret_key: Option<String>,
}

impl CredentialStore {
    /// The configured access key, if any.
    pub closed spec fn spec_access_key(&self) -> Option<Seq<char>> {
        match self.access_key {
            Some(k) => Some(k@),
            None => None,
        }
    }

    /// The configured secret key, if any.
    pub closed spec fn spec_secret_key(&self) -> Option<Seq<char>> {
        match self.secret_key {
            Some(k) => Some(k@),
            None => None,
        }
    }

    /// Whether both keys have been supplied, so signed calls can proceed.
    pub open spec fn is_configured(&self) -> bool {
        self.spec_access_key() is Some && self.spec_secret_key() is Some
    }

    /// An empty store: no key configured, every read fails.
    pub fn new() -> (r: Self)
        ensures
            r.spec_access_key() is None,
            r.spec_secret_key() is None,
    {
        CredentialStore { access_key: None, secret_key: None }
    }

    /// Supplies (or replaces) the access key, leaving the secret key as it was.
    pub fn set_access_key(&mut self, key: &str)
        ensures
            final(self).spec_access_key() == Some(key@),
            final(self).spec_secret_key() == old(self).spec_secret_key(),
    {
        self.access_key = Some(key.to_owned());
    }

    /// Supplies (or replaces) the secret key, leaving the access key as it was.
    pub fn set_secret_key(&mut self, key: &str)
        ensures
            final(self).spec_secret_key() == Some(key@),
            final(self).spec_access_key() == old(self).spec_access_key(),
    {
        self.secret_key = Some(key.to_owned());
    }

    /// Replaces the whole pair at once.
    pub fn set_credentials(&mut self, access_key: &str, secret_key: &str)
        ensures
            final(self).spec_access_key() == Some(access_key@),
            final(self).spec_secret_key() == Some(secret_key@),
    {
        self.access_key = Some(access_key.to_owned());
        self.secret_key = Some(secret_key.to_owned());
    }

    /// Reads the pair. Fails with `LocalMissingCredentials` unless both
    /// keys have been supplied; never hands out a partial pair.
    pub fn credentials(&self) -> (r: Result<Credentials, ResponseError>)
        ensures
            self.is_configured() <==> r is Ok,
            r matches Ok(c) ==> Some(c.access_key@) == self.spec_access_key()
                && Some(c.secret_key@) == self.spec_secret_key(),
            r matches Err(e) ==> e.kind == ErrorKind::LocalMissingCredentials
                && e.name@ == "internal_missing_credentials"@
                && e.message@ == "access key or secret key is not set."@,
    {
        match (&self.access_key, &self.secret_key) {
            (Some(access_key), Some(secret_key)) => Ok(Credentials {
                access_key: access_key.clone(),
                secret_key: secret_key.clone(),
            }),
            _ => Err(ResponseError {
                kind: ErrorKind::LocalMissingCredentials,
                name: "internal_missing_credentials".to_owned(),
                message: "access key or secret key is not set.".to_owned(),
            }),
        }
    }
}

} // verus!
