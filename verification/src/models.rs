//! Table rows: what the adapter reads from and writes to each auth table.
//!
//! Timestamps are stored as RFC 3339 text, booleans as booleans, JSON as text.

use vstd::prelude::*;

verus! {

/// A stored `users` row.
#[derive(Debug, Clone, PartialEq, Eq)]
pub struct UserRow {
    pub id: String,
    pub name: Option<String>,
    pub email: String,
    pub username: Option<String>,
    pub display_username: Option<String>,
    pub email_verified: bool,
    pub image: Option<String>,
    pub role: String,
    pub banned: bool,
    pub ban_reason: Option<String>,
    pub ban_expires: Option<String>,
    pub two_factor_enabled: bool,
    pub metadata: Option<String>,
    pub created_at: String,
    pub updated_at: String,
}

/// A `users` row to insert.
#[derive(Debug, Clone, PartialEq, Eq)]
pub struct NewUserRow {
    pub id: String,
    pub name: Option<String>,
    pub email: String,
    pub username: Option<String>,
    pub display_username: Option<String>,
    pub email_verified: bool,
    pub image: Option<String>,
    pub role: String,
    pub banned: bool,
    pub ban_reason: Option<String>,
    pub ban_expires: Option<String>,
    pub two_factor_enabled: bool,
    pub metadata: Option<String>,
    pub created_at: String,
    pub updated_at: String,
}

/// A partial update of a `users` row: `None` leaves a column as it is.
#[derive(Debug, Clone, PartialEq, Eq, Default)]
pub struct UpdateUserRow {
    pub name: Option<Option<String>>,
    pub email: Option<String>,
    pub username: Option<Option<String>>,
    pub display_username: Option<Option<String>>,
    pub email_verified: Option<bool>,
    pub image: Option<Option<String>>,
    pub role: Option<String>,
    pub banned: Option<bool>,
    pub ban_reason: Option<Option<String>>,
    pub ban_expires: Option<Option<String>>,
    pub two_factor_enabled: Option<bool>,
    pub metadata: Option<Option<String>>,
    pub updated_at: Option<String>,
}

/// A stored `sessions` row.
#[derive(Debug, Clone, PartialEq, Eq)]
pub struct SessionRow {
    pub id: String,
    pub user_id: String,
    pub token: String,
    pub ip_address: Option<String>,
    pub user_agent: Option<String>,
    pub expires_at: String,
    pub active_organization_id: Option<String>,
    pub impersonated_by: Option<String>,
    pub active: bool,
    pub created_at: String,
    pub updated_at: String,
}

/// A `sessions` row to insert.
#[derive(Debug, Clone, PartialEq, Eq)]
pub struct NewSessionRow {
    pub id: String,
    pub user_id: String,
    pub token: String,
    pub ip_address: Option<String>,
    pub user_agent: Option<String>,
    pub expires_at: String,
    pub active_organization_id: Option<String>,
    pub impersonated_by: Option<String>,
    pub active: bool,
    pub created_at: String,
    pub updated_at: String,
}

/// A stored `accounts` row.
#[derive(Debug, Clone, PartialEq, Eq)]
pub struct AccountRow {
    pub id: String,
    pub user_id: String,
    pub account_id: String,
    pub provider_id: String,
    pub access_token: Option<String>,
    pub refresh_token: Option<String>,
    pub id_token: Option<String>,
    pub access_token_expires_at: Option<String>,
    pub refresh_token_expires_at: Option<String>,
    pub scope: Option<String>,
    pub password: Option<String>,
    pub created_at: String,
    pub updated_at: String,
}

/// An `accounts` row to insert.
#[derive(Debug, Clone, PartialEq, Eq)]
pub struct NewAccountRow {
    pub id: String,
    pub user_id: String,
    pub account_id: String,
    pub provider_id: String,
    pub access_token: Option<String>,
    pub refresh_token: Option<String>,
    pub id_token: Option<String>,
    pub access_token_expires_at: Option<String>,
    pub refresh_token_expires_at: Option<String>,
    pub scope: Option<String>,
    pub password: Option<String>,
    pub created_at: String,
    pub updated_at: String,
}

/// A partial update of an `accounts` row: `None` leaves a column as it is.
#[derive(Debug, Clone, PartialEq, Eq, Default)]
pub struct UpdateAccountRow {
    pub access_token: Option<Option<String>>,
    pub refresh_token: Option<Option<String>>,
    pub id_token: Option<Option<String>>,
    pub access_token_expires_at: Option<Option<String>>,
    pub refresh_token_expires_at: Option<Option<String>>,
    pub scope: Option<Option<String>>,
    pub password: Option<Option<String>>,
    pub updated_at: Option<String>,
}

/// A stored `verifications` row.
#[derive(Debug, Clone, PartialEq, Eq)]
pub struct VerificationRow {
    pub id: String,
    pub identifier: String,
    pub value: String,
    pub expires_at: String,
    pub created_at: String,
    pub updated_at: String,
}

/// A `verifications` row to insert.
#[derive(Debug, Clone, PartialEq, Eq)]
pub struct NewVerificationRow {
    pub id: String,
    pub identifier: String,
    pub value: String,
    pub expires_at: String,
    pub created_at: String,
    pub updated_at: String,
}

/// A stored `organization` row.
#[derive(Debug, Clone, PartialEq, Eq)]
pub struct OrganizationRow {
    pub id: String,
    pub name: String,
    pub slug: String,
    pub logo: Option<String>,
    pub metadata: Option<String>,
    pub created_at: String,
    pub updated_at: String,
}

/// An `organization` row to insert.
#[derive(Debug, Clone, PartialEq, Eq)]
pub struct NewOrganizationRow {
    pub id: String,
    pub name: String,
    pub slug: String,
    pub logo: Option<String>,
    pub metadata: Option<String>,
    pub created_at: String,
    pub updated_at: String,
}

/// A partial update of an `organization` row: `None` leaves a column as it is.
#[derive(Debug, Clone, PartialEq, Eq, Default)]
pub struct UpdateOrganizationRow {
    pub name: Option<String>,
    pub slug: Option<String>,
    pub logo: Option<Option<String>>,
    pub metadata: Option<Option<String>>,
    pub updated_at: Option<String>,
}

/// A stored `member` row.
#[derive(Debug, Clone, PartialEq, Eq)]
pub struct MemberRow {
    pub id: String,
    pub user_id: String,
    pub organization_id: String,
    pub role: String,
    pub created_at: String,
}

/// A `member` row to insert.
#[derive(Debug, Clone, PartialEq, Eq)]
pub struct NewMemberRow {
    pub id: String,
    pub user_id: String,
    pub organization_id: String,
    pub role: String,
    pub created_at: String,
}

/// A stored `invitation` row.
#[derive(Debug, Clone, PartialEq, Eq)]
pub struct InvitationRow {
    pub id: String,
    pub organization_id: String,
    pub email: String,
    pub role: String,
    pub status: String,
    pub inviter_id: String,
    pub expires_at: String,
    pub created_at: String,
}

/// An `invitation` row to insert.
#[derive(Debug, Clone, PartialEq, Eq)]
pub struct NewInvitationRow {
    pub id: String,
    pub organization_id: String,
    pub email: String,
    pub role: String,
    pub status: String,
    pub inviter_id: String,
    pub expires_at: String,
    pub created_at: String,
}

/// A stored `two_factor` row.
#[derive(Debug, Clone, PartialEq, Eq)]
pub struct TwoFactorRow {
    pub id: String,
    pub user_id: String,
    pub secret: String,
    pub backup_codes: Option<String>,
    pub created_at: String,
    pub updated_at: String,
}

/// A `two_factor` row to insert.
#[derive(Debug, Clone, PartialEq, Eq)]
pub struct NewTwoFactorRow {
    pub id: String,
    pub user_id: String,
    pub secret: String,
    pub backup_codes: Option<String>,
    pub created_at: String,
    pub updated_at: String,
}

/// A stored `api_keys` row.
#[derive(Debug, Clone, PartialEq, Eq)]
pub struct ApiKeyRow {
    pub id: String,
    pub user_id: String,
    pub name: Option<String>,
    pub start: Option<String>,
    pub prefix: Option<String>,
    pub key: String,
    pub enabled: bool,
    pub rate_limit_enabled: bool,
    pub rate_limit_time_window: Option<i64>,
    pub rate_limit_max: Option<i64>,
    pub request_count: Option<i64>,
    pub remaining: Option<i64>,
    pub refill_interval: Option<i64>,
    pub refill_amount: Option<i64>,
    pub last_refill_at: Option<String>,
    pub last_request: Option<String>,
    pub expires_at: Option<String>,
    pub created_at: String,
    pub updated_at: String,
    pub permissions: Option<String>,
    pub metadata: Option<String>,
}

/// An `api_keys` row to insert.
#[derive(Debug, Clone, PartialEq, Eq)]
pub struct NewApiKeyRow {
    pub id: String,
    pub user_id: String,
    pub name: Option<String>,
    pub start: Option<String>,
    pub prefix: Option<String>,
    pub key: String,
    pub enabled: bool,
    pub rate_limit_enabled: bool,
    pub rate_limit_time_window: Option<i64>,
    pub rate_limit_max: Option<i64>,
    pub request_count: Option<i64>,
    pub remaining: Option<i64>,
    pub refill_interval: Option<i64>,
    pub refill_amount: Option<i64>,
    pub last_refill_at: Option<String>,
    pub last_request: Option<String>,
    pub expires_at: Option<String>,
    pub created_at: String,
    pub updated_at: String,
    pub permissions: Option<String>,
    pub metadata: Option<String>,
}

/// A partial update of an `api_keys` row: `None` leaves a column as it is.
#[derive(Debug, Clone, PartialEq, Eq, Default)]
pub struct UpdateApiKeyRow {
    pub name: Option<Option<String>>,
    pub enabled: Option<bool>,
    pub remaining: Option<Option<i64>>,
    pub rate_limit_enabled: Option<bool>,
    pub rate_limit_time_window: Option<Option<i64>>,
    pub rate_limit_max: Option<Option<i64>>,
    pub refill_interval: Option<Option<i64>>,
    pub refill_amount: Option<Option<i64>>,
    pub request_count: Option<Option<i64>>,
    pub last_refill_at: Option<Option<String>>,
    pub last_request: Option<Option<String>>,
    pub expires_at: Option<Option<String>>,
    pub permissions: Option<Option<String>>,
    pub metadata: Option<Option<String>>,
    pub updated_at: Option<String>,
}

/// A stored `passkeys` row.
#[derive(Debug, Clone, PartialEq, Eq)]
pub struct PasskeyRow {
    pub id: String,
    pub user_id: String,
    pub name: String,
    pub credential_id: String,
    pub public_key: String,
    pub counter: i64,
    pub device_type: String,
    pub backed_up: bool,
    pub transports: Option<String>,
    pub created_at: String,
}

/// A `passkeys` row to insert.
#[derive(Debug, Clone, PartialEq, Eq)]
pub struct NewPasskeyRow {
    pub id: String,
    pub user_id: String,
    pub name: String,
    pub credential_id: String,
    pub public_key: String,
    pub counter: i64,
    pub device_type: String,
    pub backed_up: bool,
    pub transports: Option<String>,
    pub created_at: String,
}


/// What the database holds for an inserted row: the same columns.
impl NewUserRow {
    /// The stored row that this insert leaves in the table.
    pub open spec fn as_stored(self) -> UserRow {
        UserRow {
            id: self.id,
            name: self.name,
            email: self.email,
            username: self.username,
            display_username: self.display_username,
            email_verified: self.email_verified,
            image: self.image,
            role: self.role,
            banned: self.banned,
            ban_reason: self.ban_reason,
            ban_expires: self.ban_expires,
            two_factor_enabled: self.two_factor_enabled,
            metadata: self.metadata,
            created_at: self.created_at,
            updated_at: self.updated_at,
        }
    }
}

impl NewSessionRow {
    /// The stored row that this insert leaves in the table.
    pub open spec fn as_stored(self) -> SessionRow {
        SessionRow {
            id: self.id,
            user_id: self.user_id,
            token: self.token,
            ip_address: self.ip_address,
            user_agent: self.user_agent,
            expires_at: self.expires_at,
            active_organization_id: self.active_organization_id,
            impersonated_by: self.impersonated_by,
            active: self.active,
            created_at: self.created_at,
            updated_at: self.updated_at,
        }
    }
}

impl NewAccountRow {
    /// The stored row that this insert leaves in the table.
    pub open spec fn as_stored(self) -> AccountRow {
        AccountRow {
            id: self.id,
            user_id: self.user_id,
            account_id: self.account_id,
            provider_id: self.provider_id,
            access_token: self.access_token,
            refresh_token: self.refresh_token,
            id_token: self.id_token,
            access_token_expires_at: self.access_token_expires_at,
            refresh_token_expires_at: self.refresh_token_expires_at,
            scope: self.scope,
            password: self.password,
            created_at: self.created_at,
            updated_at: self.updated_at,
        }
    }
}

impl NewVerificationRow {
    /// The stored row that this insert leaves in the table.
    pub open spec fn as_stored(self) -> VerificationRow {
        VerificationRow {
            id: self.id,
            identifier: self.identifier,
            value: self.value,
            expires_at: self.expires_at,
            created_at: self.created_at,
            updated_at: self.updated_at,
        }
    }
}

impl NewOrganizationRow {
    /// The stored row that this insert leaves in the table.
    pub open spec fn as_stored(self) -> OrganizationRow {
        OrganizationRow {
            id: self.id,
            name: self.name,
            slug: self.slug,
            logo: self.logo,
            metadata: self.metadata,
            created_at: self.created_at,
            updated_at: self.updated_at,
        }
    }
}

impl NewMemberRow {
    /// The stored row that this insert leaves in the table.
    pub open spec fn as_stored(self) -> MemberRow {
        MemberRow {
            id: self.id,
            user_id: self.user_id,
            organization_id: self.organization_id,
            role: self.role,
            created_at: self.created_at,
        }
    }
}

impl NewInvitationRow {
    /// The stored row that this insert leaves in the table.
    pub open spec fn as_stored(self) -> InvitationRow {
        InvitationRow {
            id: self.id,
            organization_id: self.organization_id,
            email: self.email,
            role: self.role,
            status: self.status,
            inviter_id: self.inviter_id,
            expires_at: self.expires_at,
            created_at: self.created_at,
        }
    }
}

impl NewTwoFactorRow {
    /// The stored row that this insert leaves in the table.
    pub open spec fn as_stored(self) -> TwoFactorRow {
        TwoFactorRow {
            id: self.id,
            user_id: self.user_id,
            secret: self.secret,
            backup_codes: self.backup_codes,
            created_at: self.created_at,
            updated_at: self.updated_at,
        }
    }
}

impl NewApiKeyRow {
    /// The stored row that this insert leaves in the table.
    pub open spec fn as_stored(self) -> ApiKeyRow {
        ApiKeyRow {
            id: self.id,
            user_id: self.user_id,
            name: self.name,
            start: self.start,
            prefix: self.prefix,
            key: self.key,
            enabled: self.enabled,
            rate_limit_enabled: self.rate_limit_enabled,
            rate_limit_time_window: self.rate_limit_time_window,
            rate_limit_max: self.rate_limit_max,
            request_count: self.request_count,
            remaining: self.remaining,
            refill_interval: self.refill_interval,
            refill_amount: self.refill_amount,
            last_refill_at: self.last_refill_at,
            last_request: self.last_request,
            expires_at: self.expires_at,
            created_at: self.created_at,
            updated_at: self.updated_at,
            permissions: self.permissions,
            metadata: self.metadata,
        }
    }
}

impl NewPasskeyRow {
    /// The stored row that this insert leaves in the table.
    pub open spec fn as_stored(self) -> PasskeyRow {
        PasskeyRow {
            id: self.id,
            user_id: self.user_id,
            name: self.name,
            credential_id: self.credential_id,
            public_key: self.public_key,
            counter: self.counter,
            device_type: self.device_type,
            backed_up: self.backed_up,
            transports: self.transports,
            created_at: self.created_at,
        }
    }
}

} // verus!
