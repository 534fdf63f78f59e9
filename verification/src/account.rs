//! Account and login records. These are plain data records around the
//! packed version value: a service label lookup is their only behaviour.

use vstd::prelude::*;

verus! {

/// Authentication service that a login comes through.
#[derive(Debug)]
pub enum Service {
    Local,
    GitHub,
}

/// Where a user record came from.
pub struct UserSource<'a> {
    pub id: usize,
    pub domain: &'a str,
    pub authorised: bool,
    pub banned: bool,
}

/// Relies on ulid::Ulid, carried opaquely as a user identifier; nothing
/// inside the identifier is read here.
#[verifier::external_type_specification]
#[verifier::external_body]
pub struct ExUlid(ulid::Ulid);

/// A login record.
#[derive(Debug)]
pub struct Login<'a> {
    /// The service that the user is using for auth.
    pub service: Service,
    /// User ID in the service provider.
    pub service_user: &'a str,
    /// User's ID that the login belongs to.
    pub uid: ulid::Ulid,
}

impl Service {
    /// The human-readable label of the service.
    pub open spec fn spec_label(self) -> Seq<char> {
        match self {
            Service::Local => "Local"@,
            Service::GitHub => "GitHub"@,
        }
    }

    /// The label of the service, `"Local"` or `"GitHub"`.
    pub fn as_str(&self) -> (s: &str)
        ensures
            s@ == self.spec_label(),
    {
        match self {
            Service::Local => "Local",
            Service::GitHub => "GitHub",
        }
    }
}

} // verus!
