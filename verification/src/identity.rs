//! The authentication context of an inbound request: one of the five
//! authorization modes, resolved structurally from the payload.
//!
//! The structural matching itself is (de)serialization work and happens at the
//! process edge; these are the plain values the dispatch logic reads. The
//! match order is: Cognito, then IAM, then OIDC, then Lambda authorizer, and a
//! null identity falls through to API key.
use std::collections::HashMap;
use vstd::prelude::*;

verus! {

/// Authorization strategy AppSync applies to fields without an explicit
/// authorizer.
#[derive(Debug, Clone, Copy, PartialEq, Eq, Structural)]
pub enum AppsyncAuthStrategy {
    /// Allows the operation by default.
    Allow,
    /// Denies the operation by default.
    Deny,
}

/// Authentication type inside a Cognito identity pool.
#[derive(Debug, Clone, Copy, PartialEq, Eq, Structural)]
pub enum CognitoIdentityAuthType {
    /// The identity is authenticated with an identity provider.
    Authenticated,
    /// The identity is an unauthenticated guest.
    Unauthenticated,
}

/// Identity information for Cognito User Pools authenticated requests.
pub struct AppsyncIdentityCognito {
    /// Unique identifier of the authenticated user.
    pub sub: String,
    /// Username of the authenticated user.
    pub username: String,
    /// Identity provider that authenticated the request.
    pub issuer: String,
    /// Default authorization strategy for the authenticated identity.
    pub default_auth_strategy: AppsyncAuthStrategy,
    /// Source IP addresses associated with the request.
    pub source_ip: Vec<String>,
    /// Groups the authenticated user belongs to.
    pub groups: Option<Vec<String>>,
    /// Additional claims associated with the identity.
    pub claims: serde_json::Value,
}

/// Cognito identity pool information for federated IAM authentication.
pub struct CognitoFederatedIdentity {
    /// Identity assigned within the identity pool.
    pub identity_id: String,
    /// The identity pool used for federation, as `region:pool-id`.
    pub identity_pool_id: String,
    /// Whether the identity is authenticated or a guest.
    pub auth_type: CognitoIdentityAuthType,
    /// Information about the identity provider used for authentication.
    pub auth_provider: String,
}

/// Identity information for IAM-authenticated requests.
pub struct AppsyncIdentityIam {
    /// AWS account ID of the caller.
    pub account_id: String,
    /// Source IP addresses of the caller.
    pub source_ip: Vec<String>,
    /// IAM username of the caller.
    pub username: String,
    /// Full IAM ARN of the caller.
    pub user_arn: String,
    /// Federated identity information when an identity pool is used.
    pub federated_identity: Option<CognitoFederatedIdentity>,
}

/// The claims of an OIDC token.
pub struct AppsyncIdentityOidcClaims {
    /// The token issuer.
    pub iss: String,
    /// The subject.
    pub sub: String,
    /// The audience: one entry for a single value, several for an array.
    pub aud: Vec<String>,
    /// Expiration time.
    pub exp: i64,
    /// Issued-at time.
    pub iat: i64,
    /// Additional custom claims from the provider.
    pub additional_claims: HashMap<String, serde_json::Value>,
}

/// Identity information for OIDC-authenticated requests.
pub struct AppsyncIdentityOidc {
    /// The claims.
    pub claims: AppsyncIdentityOidcClaims,
    /// The subject.
    pub sub: String,
    /// The token issuer.
    pub issuer: String,
}

/// Identity information for Lambda-authorized requests.
pub struct AppsyncIdentityLambda {
    /// Custom resolver context returned by the authorizer.
    pub resolver_context: serde_json::Value,
}

/// The identity context of a request: one of the five authorization modes.
pub enum AppsyncIdentity {
    /// Amazon Cognito User Pools authentication.
    Cognito(AppsyncIdentityCognito),
    /// AWS IAM authentication.
    Iam(AppsyncIdentityIam),
    /// OpenID Connect authentication.
    Oidc(AppsyncIdentityOidc),
    /// Lambda authorizer authentication.
    Lambda(AppsyncIdentityLambda),
    /// API key authentication: a null identity in the payload.
    ApiKey,
}

} // verus!
