//! The entities that the framework stores, and the inputs it stores them from,
//! as the adapter hands them over and takes them in.
//!
//! Instants are `Timestamp`s, JSON metadata is a `serde_json::Value`.

use crate::time::Timestamp;
use vstd::prelude::*;

verus! {

/// A user account.
#[derive(Debug)]
pub struct User {
    pub id: String,
    pub name: Option<String>,
    pub email: Option<String>,
    pub email_verified: bool,
    pub image: Option<String>,
    pub created_at: Timestamp,
    pub updated_at: Timestamp,
    pub username: Option<String>,
    pub display_username: Option<String>,
    pub two_factor_enabled: bool,
    pub role: Option<String>,
    pub banned: bool,
    pub ban_reason: Option<String>,
    pub ban_expires: Option<Timestamp>,
    pub metadata: serde_json::Value,
}

/// The data a user is created from.
#[derive(Debug)]
pub struct CreateUser {
    pub id: Option<String>,
    pub email: Option<String>,
    pub name: Option<String>,
    pub image: Option<String>,
    pub email_verified: Option<bool>,
    pub username: Option<String>,
    pub display_username: Option<String>,
    pub role: Option<String>,
    pub metadata: Option<serde_json::Value>,
}

/// A partial update of a user: `None` leaves a field as it is.
#[derive(Debug)]
pub struct UpdateUser {
    pub email: Option<String>,
    pub name: Option<String>,
    pub image: Option<String>,
    pub email_verified: Option<bool>,
    pub username: Option<String>,
    pub display_username: Option<String>,
    pub role: Option<String>,
    pub banned: Option<bool>,
    pub ban_reason: Option<String>,
    pub ban_expires: Option<Timestamp>,
    pub two_factor_enabled: Option<bool>,
    pub metadata: Option<serde_json::Value>,
}

/// A login session.
#[derive(Debug, Clone, PartialEq, Eq)]
pub struct Session {
    pub id: String,
    pub expires_at: Timestamp,
    pub token: String,
    pub created_at: Timestamp,
    pub updated_at: Timestamp,
    pub ip_address: Option<String>,
    pub user_agent: Option<String>,
    pub user_id: String,
    pub impersonated_by: Option<String>,
    pub active_organization_id: Option<String>,
    pub active: bool,
}

/// The data a session is created from.
#[derive(Debug, Clone, PartialEq, Eq)]
pub struct CreateSession {
    pub user_id: String,
    pub expires_at: Timestamp,
    pub ip_address: Option<String>,
    pub user_agent: Option<String>,
    pub impersonated_by: Option<String>,
    pub active_organization_id: Option<String>,
}

/// A link between a user and a provider account.
#[derive(Debug, Clone, PartialEq, Eq)]
pub struct Account {
    pub id: String,
    pub account_id: String,
    pub provider_id: String,
    pub user_id: String,
    pub access_token: Option<String>,
    pub refresh_token: Option<String>,
    pub id_token: Option<String>,
    pub access_token_expires_at: Option<Timestamp>,
    pub refresh_token_expires_at: Option<Timestamp>,
    pub scope: Option<String>,
    pub password: Option<String>,
    pub created_at: Timestamp,
    pub updated_at: Timestamp,
}

/// The data an account link is created from.
#[derive(Debug, Clone, PartialEq, Eq)]
pub struct CreateAccount {
    pub user_id: String,
    pub account_id: String,
    pub provider_id: String,
    pub access_token: Option<String>,
    pub refresh_token: Option<String>,
    pub id_token: Option<String>,
    pub access_token_expires_at: Option<Timestamp>,
    pub refresh_token_expires_at: Option<Timestamp>,
    pub scope: Option<String>,
    pub password: Option<String>,
}

/// A partial update of an account link: `None` leaves a field as it is.
#[derive(Debug, Clone, PartialEq, Eq, Default)]
pub struct UpdateAccount {
    pub access_token: Option<String>,
    pub refresh_token: Option<String>,
    pub id_token: Option<String>,
    pub access_token_expires_at: Option<Timestamp>,
    pub refresh_token_expires_at: Option<Timestamp>,
    pub scope: Option<String>,
    pub password: Option<String>,
}

/// A verification token (email confirmation, password reset, ...).
#[derive(Debug, Clone, PartialEq, Eq)]
pub struct Verification {
    pub id: String,
    pub identifier: String,
    pub value: String,
    pub expires_at: Timestamp,
    pub created_at: Timestamp,
    pub updated_at: Timestamp,
}

/// The data a verification token is created from.
#[derive(Debug, Clone, PartialEq, Eq)]
pub struct CreateVerification {
    pub identifier: String,
    pub value: String,
    pub expires_at: Timestamp,
}

/// An organization.
#[derive(Debug)]
pub struct Organization {
    pub id: String,
    pub name: String,
    pub slug: String,
    pub logo: Option<String>,
    pub metadata: Option<serde_json::Value>,
    pub created_at: Timestamp,
    pub updated_at: Timestamp,
}

/// The data an organization is created from.
#[derive(Debug)]
pub struct CreateOrganization {
    pub id: Option<String>,
    pub name: String,
    pub slug: String,
    pub logo: Option<String>,
    pub metadata: Option<serde_json::Value>,
}

/// A partial update of an organization: `None` leaves a field as it is.
#[derive(Debug)]
pub struct UpdateOrganization {
    pub name: Option<String>,
    pub slug: Option<String>,
    pub logo: Option<String>,
    pub metadata: Option<serde_json::Value>,
}

/// A user's membership in an organization.
#[derive(Debug, Clone, PartialEq, Eq)]
pub struct Member {
    pub id: String,
    pub organization_id: String,
    pub user_id: String,
    pub role: String,
    pub created_at: Timestamp,
}

/// The data a membership is created from.
#[derive(Debug, Clone, PartialEq, Eq)]
pub struct CreateMember {
    pub organization_id: String,
    pub user_id: String,
    pub role: String,
}

/// Where an invitation stands.
#[derive(Debug, Clone, Copy, PartialEq, Eq)]
pub enum InvitationStatus {
    Pending,
    Accepted,
    Rejected,
    Canceled,
}

/// An invitation to join an organization.
#[derive(Debug, Clone, PartialEq, Eq)]
pub struct Invitation {
    pub id: String,
    pub organization_id: String,
    pub email: String,
    pub role: String,
    pub status: InvitationStatus,
    pub inviter_id: String,
    pub expires_at: Timestamp,
    pub created_at: Timestamp,
}

/// The data an invitation is created from.
#[derive(Debug, Clone, PartialEq, Eq)]
pub struct CreateInvitation {
    pub organization_id: String,
    pub email: String,
    pub role: String,
    pub inviter_id: String,
    pub expires_at: Timestamp,
}

/// A user's two-factor secret and backup codes.
#[derive(Debug, Clone, PartialEq, Eq)]
pub struct TwoFactor {
    pub id: String,
    pub secret: String,
    pub backup_codes: Option<String>,
    pub user_id: String,
    pub created_at: Timestamp,
    pub updated_at: Timestamp,
}

/// The data a two-factor record is created from.
#[derive(Debug, Clone, PartialEq, Eq)]
pub struct CreateTwoFactor {
    pub user_id: String,
    pub secret: String,
    pub backup_codes: Option<String>,
}

/// An API key (its hash, never the key itself) with its limits.
#[derive(Debug, Clone, PartialEq, Eq)]
pub struct ApiKey {
    pub id: String,
    pub name: Option<String>,
    pub start: Option<String>,
    pub prefix: Option<String>,
    pub key_hash: String,
    pub user_id: String,
    pub refill_interval: Option<i64>,
    pub refill_amount: Option<i64>,
    pub last_refill_at: Option<String>,
    pub enabled: bool,
    pub rate_limit_enabled: bool,
    pub rate_limit_time_window: Option<i64>,
    pub rate_limit_max: Option<i64>,
    pub request_count: Option<i64>,
    pub remaining: Option<i64>,
    pub last_request: Option<String>,
    pub expires_at: Option<String>,
    pub created_at: String,
    pub updated_at: String,
    pub permissions: Option<String>,
    pub metadata: Option<String>,
}

/// The data an API key is created from.
#[derive(Debug, Clone, PartialEq, Eq)]
pub struct CreateApiKey {
    pub user_id: String,
    pub name: Option<String>,
    pub prefix: Option<String>,
    pub key_hash: String,
    pub start: Option<String>,
    pub expires_at: Option<String>,
    pub remaining: Option<i64>,
    pub rate_limit_enabled: bool,
    pub rate_limit_time_window: Option<i64>,
    pub rate_limit_max: Option<i64>,
    pub refill_interval: Option<i64>,
    pub refill_amount: Option<i64>,
    pub permissions: Option<String>,
    pub metadata: Option<String>,
    pub enabled: bool,
}

/// A partial update of an API key: `None` leaves a field as it is; for the
/// nullable text columns, `Some(None)` clears them.
#[derive(Debug, Clone, PartialEq, Eq, Default)]
pub struct UpdateApiKey {
    pub name: Option<String>,
    pub enabled: Option<bool>,
    pub remaining: Option<i64>,
    pub rate_limit_enabled: Option<bool>,
    pub rate_limit_time_window: Option<i64>,
    pub rate_limit_max: Option<i64>,
    pub refill_interval: Option<i64>,
    pub refill_amount: Option<i64>,
    pub permissions: Option<String>,
    pub metadata: Option<String>,
    pub expires_at: Option<Option<String>>,
    pub last_request: Option<Option<String>>,
    pub request_count: Option<i64>,
    pub last_refill_at: Option<Option<String>>,
}

/// A WebAuthn credential.
#[derive(Debug, Clone, PartialEq, Eq)]
pub struct Passkey {
    pub id: String,
    pub name: String,
    pub public_key: String,
    pub user_id: String,
    pub credential_id: String,
    pub counter: u64,
    pub device_type: String,
    pub backed_up: bool,
    pub transports: Option<String>,
    pub created_at: Timestamp,
}

/// The data a passkey is created from.
#[derive(Debug, Clone, PartialEq, Eq)]
pub struct CreatePasskey {
    pub user_id: String,
    pub name: String,
    pub credential_id: String,
    pub public_key: String,
    pub counter: u64,
    pub device_type: String,
    pub backed_up: bool,
    pub transports: Option<String>,
}

} // verus!
