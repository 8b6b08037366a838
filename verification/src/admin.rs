//! Admin accounts and the decision cores of the account endpoints. The
//! persistence and HTTP layers are external collaborators: the functions
//! here take what those collaborators reported and decide what must happen,
//! and the token work delegates to the capability-token service.

use vstd::prelude::*;

use crate::ids::UuidBytes;
use crate::token;
use crate::token::spec_authority_fact;
use crate::AuthzError;

verus! {

/// The issued token, as the endpoint returns it.
pub struct TokenReply {
    /// The opaque encoded capability token.
    pub token: String,
}

/// The authorization code an identity provider sends to the callback.
pub struct OauthCode {
    /// The code to exchange for an access token.
    pub code: String,
}

/// The identity provider's reply to the code exchange.
pub struct GithubOauthResponse {
    /// The bearer token for user-info requests.
    pub access_token: String,
}

/// An external identity record, as the provider reports it.
pub struct GithubUser {
    /// The provider-side login name.
    pub login: String,
    /// The provider-side numeric id.
    pub id: u32,
}

/// An admin account: just an id, optionally linked 1:1 to an external
/// identity record by the persistence collaborator.
pub struct AdminAccount {
    /// The account id, bound into every token issued for it.
    pub id: UuidBytes,
}

impl AdminAccount {
    /// The authority fact binding this account's id.
    pub fn as_biscuit_fact(&self) -> (r: String)
        ensures
            r@ == spec_authority_fact(self.id@),
    {
        token::authority_fact_string(&self.id)
    }

    /// Extracts the account bound by an already-authorized context's
    /// queried fact value; any shape other than a canonical id is the same
    /// opaque error as every other verification failure.
    pub fn from_fact_value(value: &str) -> (r: Result<AdminAccount, AuthzError>)
        ensures
            r matches Ok(acc) ==> value@ == crate::ids::spec_hyphenated(acc.id@),
            r is Err <==> !crate::ids::is_hyphenated_format(value@),
    {
        match token::subject_of_fact_value(value) {
            Ok(id) => Ok(AdminAccount { id }),
            Err(e) => Err(e),
        }
    }

    /// Issues this account's capability token: on success the token binds
    /// exactly this account's id and carries exactly the one expiry check
    /// at `now + ttl_seconds`.
    pub fn create_biscuit(
        &self,
        root: &biscuit_auth::KeyPair,
        ttl_seconds: u64,
        now: u64,
    ) -> (r: Result<String, AuthzError>)
        ensures
            now + ttl_seconds > token::TOKEN_TIME_MAX ==> r is Err,
            r matches Ok(s) ==> now + ttl_seconds <= token::TOKEN_TIME_MAX
                && token::encoded_subjects(s@) =~= set![crate::ids::spec_hyphenated(self.id@)]
                && token::encoded_expiries(s@) =~= set![(now + ttl_seconds) as u64],
    {
        token::issue(root, &self.id, ttl_seconds, now)
    }
}

/// What the new-account endpoint must do, given what the persistence
/// collaborator reported about the requested id.
#[derive(Clone, Copy, Debug, PartialEq, Eq, Structural)]
pub enum NewAccountDecision {
    /// The id is already linked to an external identity: refuse outright,
    /// issuing nothing.
    Reject,
    /// The id is unknown: create the account, then issue its token.
    CreateThenIssue,
    /// The id exists and is unlinked: issue its token.
    IssueOnly,
}

/// The new-account endpoint's decision: an id linked to an external
/// identity is rejected; an unknown id is created first; an existing
/// unlinked id goes straight to issuance.
pub fn new_account_decision(account_exists: bool, has_external_identity: bool) -> (r:
    NewAccountDecision)
    ensures
        has_external_identity ==> r == NewAccountDecision::Reject,
        !has_external_identity && !account_exists ==> r == NewAccountDecision::CreateThenIssue,
        !has_external_identity && account_exists ==> r == NewAccountDecision::IssueOnly,
{
    match (account_exists, has_external_identity) {
        (_, true) => NewAccountDecision::Reject,
        (false, false) => NewAccountDecision::CreateThenIssue,
        (true, false) => NewAccountDecision::IssueOnly,
    }
}

/// What the identity-exchange callback must do, once the collaborator has
/// said whether the external identity record already exists.
#[derive(Clone, Copy, Debug, PartialEq, Eq, Structural)]
pub enum OauthDecision {
    /// The record exists: issue for the admin account it is linked to.
    UseLinkedAdmin,
    /// The record is new: create a fresh admin account, link the record to
    /// it, and issue for it.
    CreateAndLink,
}

/// The callback's decision: a known external identity keeps its linked
/// admin account; an unknown one gets a fresh account and a link.
pub fn oauth_decision(identity_exists: bool) -> (r: OauthDecision)
    ensures
        identity_exists ==> r == OauthDecision::UseLinkedAdmin,
        !identity_exists ==> r == OauthDecision::CreateAndLink,
{
    if identity_exists {
        OauthDecision::UseLinkedAdmin
    } else {
        OauthDecision::CreateAndLink
    }
}

} // verus!
