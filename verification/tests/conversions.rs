use better_auth_diesel_sqlite::conversions::api_key::{
    api_key_from_row, api_key_update_row_at, new_api_key_row_at,
};
use better_auth_diesel_sqlite::conversions::account::{
    account_from_row, account_update_row_at, new_account_row, new_account_row_at,
};
use better_auth_diesel_sqlite::conversions::invitation::{
    invitation_from_row, invitation_status_from_text, invitation_status_to_string,
    new_invitation_row_at,
};
use better_auth_diesel_sqlite::conversions::member::{count_from_sql, new_member_row_at, OWNER_ROLE};
use better_auth_diesel_sqlite::conversions::organization::{
    new_organization_row_at, organization_from_row, organization_update_row_at,
};
use better_auth_diesel_sqlite::conversions::passkey::{
    counter_from_stored, counter_to_stored, new_passkey_row_at, passkey_from_row,
};
use better_auth_diesel_sqlite::conversions::session::{
    new_session_row, new_session_row_at, session_from_row, session_token,
};
use better_auth_diesel_sqlite::conversions::two_factor::{new_two_factor_row_at, two_factor_from_row};
use better_auth_diesel_sqlite::conversions::user::{
    new_user_row, new_user_row_at, user_from_row, user_update_row_at,
};
use better_auth_diesel_sqlite::conversions::verification::{
    consume_found, new_verification_row_at, verification_from_row,
};
use better_auth_diesel_sqlite::models::{
    AccountRow, ApiKeyRow, InvitationRow, OrganizationRow, PasskeyRow, SessionRow, TwoFactorRow, UserRow,
    VerificationRow,
};
use better_auth_diesel_sqlite::time::Timestamp;
use better_auth_diesel_sqlite::types::{
    CreateAccount, CreateApiKey, CreateInvitation, CreateMember, CreateOrganization, CreatePasskey,
    CreateSession, CreateTwoFactor, CreateUser, CreateVerification, InvitationStatus,
    UpdateAccount, UpdateApiKey, UpdateOrganization, UpdateUser,
};

const NOW: &str = "2025-01-15T10:30:00+00:00";
const NOW_SECS: i64 = 1_736_937_000;

fn create_user(email: Option<&str>) -> CreateUser {
    CreateUser {
        id: None,
        email: email.map(String::from),
        name: None,
        image: None,
        email_verified: None,
        username: None,
        display_username: None,
        role: None,
        metadata: None,
    }
}

fn update_user() -> UpdateUser {
    UpdateUser {
        email: None,
        name: None,
        image: None,
        email_verified: None,
        username: None,
        display_username: None,
        role: None,
        banned: None,
        ban_reason: None,
        ban_expires: None,
        two_factor_enabled: None,
        metadata: None,
    }
}

fn user_row() -> UserRow {
    UserRow {
        id: "u1".to_string(),
        name: Some("Alice".to_string()),
        email: "alice@example.com".to_string(),
        username: None,
        display_username: None,
        email_verified: true,
        image: None,
        role: "admin".to_string(),
        banned: false,
        ban_reason: None,
        ban_expires: None,
        two_factor_enabled: false,
        metadata: Some("{\"plan\":\"pro\"}".to_string()),
        created_at: NOW.to_string(),
        updated_at: "garbage".to_string(),
    }
}

#[test]
fn create_user_defaults() {
    let row = new_user_row_at(create_user(Some("defaults@example.com")), "fresh".to_string(), NOW.to_string());
    assert_eq!(row.id, "fresh");
    assert_eq!(row.email, "defaults@example.com");
    assert_eq!(row.role, "user");
    assert!(!row.banned);
    assert!(!row.email_verified);
    assert!(!row.two_factor_enabled);
    assert_eq!(row.ban_reason, None);
    assert_eq!(row.ban_expires, None);
    assert_eq!(row.metadata, None);
    assert_eq!(row.created_at, NOW);
    assert_eq!(row.updated_at, NOW);
}

#[test]
fn create_user_keeps_given_fields() {
    let data = CreateUser {
        id: Some("given-id".to_string()),
        email: None,
        name: Some("Bob".to_string()),
        image: Some("img".to_string()),
        email_verified: Some(true),
        username: Some("bob".to_string()),
        display_username: Some("Bob B".to_string()),
        role: Some("admin".to_string()),
        metadata: Some(serde_json::from_str("{\"tier\":\"gold\"}").unwrap()),
    };
    let row = new_user_row_at(data, "fresh".to_string(), NOW.to_string());
    assert_eq!(row.id, "given-id");
    assert_eq!(row.email, "");
    assert_eq!(row.name.as_deref(), Some("Bob"));
    assert_eq!(row.username.as_deref(), Some("bob"));
    assert_eq!(row.display_username.as_deref(), Some("Bob B"));
    assert!(row.email_verified);
    assert_eq!(row.role, "admin");
    assert_eq!(row.metadata.as_deref(), Some("{\"tier\":\"gold\"}"));
}

#[test]
fn new_user_row_draws_uuid_and_time() {
    let row = new_user_row(create_user(Some("x@example.com")));
    assert_eq!(row.id.len(), 36);
    assert_eq!(row.created_at, row.updated_at);
    assert!(chrono::DateTime::parse_from_rfc3339(&row.created_at).is_ok());
}

#[test]
fn user_from_row_reads_fields() {
    let u = user_from_row(user_row());
    assert_eq!(u.id, "u1");
    assert_eq!(u.email.as_deref(), Some("alice@example.com"));
    assert_eq!(u.role.as_deref(), Some("admin"));
    assert!(u.email_verified);
    assert_eq!(u.created_at, Timestamp { secs: NOW_SECS, nanos: 0 });
    assert_eq!(u.updated_at, Timestamp { secs: 0, nanos: 0 });
    assert_eq!(u.metadata["plan"], "pro");
}

#[test]
fn user_metadata_falls_back_to_empty_object() {
    let mut row = user_row();
    row.metadata = None;
    assert_eq!(user_from_row(row).metadata.to_string(), "{}");
    let mut row = user_row();
    row.metadata = Some("not json".to_string());
    assert_eq!(user_from_row(row).metadata.to_string(), "{}");
}

#[test]
fn update_user_sets_name_and_ban() {
    let mut data = update_user();
    data.name = Some("David".to_string());
    data.banned = Some(true);
    data.ban_reason = Some("test ban".to_string());
    let upd = user_update_row_at(data, NOW.to_string());
    assert_eq!(upd.name, Some(Some("David".to_string())));
    assert_eq!(upd.banned, Some(true));
    assert_eq!(upd.ban_reason, Some(Some("test ban".to_string())));
    assert_eq!(upd.ban_expires, None);
    assert_eq!(upd.updated_at.as_deref(), Some(NOW));
    assert_eq!(upd.email, None);
}

#[test]
fn update_user_unban_clears_fields() {
    let mut data = update_user();
    data.banned = Some(false);
    let upd = user_update_row_at(data, NOW.to_string());
    assert_eq!(upd.banned, Some(false));
    assert_eq!(upd.ban_reason, Some(None));
    assert_eq!(upd.ban_expires, Some(None));
}

#[test]
fn update_user_ban_expiry_is_formatted() {
    let mut data = update_user();
    data.banned = Some(true);
    data.ban_expires = Some(Timestamp { secs: NOW_SECS, nanos: 0 });
    let upd = user_update_row_at(data, NOW.to_string());
    assert_eq!(upd.ban_expires, Some(Some(NOW.to_string())));
    assert_eq!(upd.ban_reason, None);
}

#[test]
fn update_user_without_ban_fields_leaves_them() {
    let upd = user_update_row_at(update_user(), NOW.to_string());
    assert_eq!(upd.banned, None);
    assert_eq!(upd.ban_reason, None);
    assert_eq!(upd.ban_expires, None);
    assert_eq!(upd.metadata, None);
}

fn create_session() -> CreateSession {
    CreateSession {
        user_id: "user-1".to_string(),
        expires_at: Timestamp { secs: NOW_SECS, nanos: 0 },
        ip_address: Some("127.0.0.1".to_string()),
        user_agent: Some("test-agent".to_string()),
        impersonated_by: None,
        active_organization_id: None,
    }
}

#[test]
fn session_token_has_prefix() {
    assert_eq!(session_token("abc"), "session_abc");
}

#[test]
fn new_session_row_at_fields() {
    let row = new_session_row_at(create_session(), "sid".to_string(), "uuid".to_string(), NOW.to_string());
    assert_eq!(row.id, "sid");
    assert_eq!(row.token, "session_uuid");
    assert_eq!(row.user_id, "user-1");
    assert_eq!(row.expires_at, NOW);
    assert!(row.active);
    assert_eq!(row.ip_address.as_deref(), Some("127.0.0.1"));
    assert_eq!(row.created_at, NOW);
}

#[test]
fn new_session_row_token_is_session_uuid() {
    let row = new_session_row(create_session());
    assert!(row.token.starts_with("session_"));
    assert_eq!(row.token.len(), 44);
    assert_ne!(&row.token[8..], row.id);
}

#[test]
fn session_from_row_reads_fields() {
    let s = session_from_row(SessionRow {
        id: "s".to_string(),
        user_id: "u".to_string(),
        token: "session_t".to_string(),
        ip_address: None,
        user_agent: None,
        expires_at: "2025-01-15T10:30:00.5Z".to_string(),
        active_organization_id: Some("org-123".to_string()),
        impersonated_by: None,
        active: false,
        created_at: NOW.to_string(),
        updated_at: NOW.to_string(),
    });
    assert_eq!(s.expires_at, Timestamp { secs: NOW_SECS, nanos: 500_000_000 });
    assert_eq!(s.active_organization_id.as_deref(), Some("org-123"));
    assert!(!s.active);
    assert_eq!(s.token, "session_t");
}

#[test]
fn account_rows() {
    let data = CreateAccount {
        user_id: "u".to_string(),
        account_id: "oauth-id-123".to_string(),
        provider_id: "github".to_string(),
        access_token: Some("access-tok".to_string()),
        refresh_token: None,
        id_token: None,
        access_token_expires_at: Some(Timestamp { secs: NOW_SECS, nanos: 0 }),
        refresh_token_expires_at: None,
        scope: Some("read:user".to_string()),
        password: None,
    };
    let row = new_account_row_at(data, "aid".to_string(), NOW.to_string());
    assert_eq!(row.provider_id, "github");
    assert_eq!(row.access_token_expires_at.as_deref(), Some(NOW));
    assert_eq!(row.refresh_token_expires_at, None);
    let upd = account_update_row_at(
        UpdateAccount { access_token: Some("new-access".to_string()), ..Default::default() },
        NOW.to_string(),
    );
    assert_eq!(upd.access_token, Some(Some("new-access".to_string())));
    assert_eq!(upd.scope, None);
    assert_eq!(upd.access_token_expires_at, None);
}

#[test]
fn verification_rows_and_consumption() {
    let row = new_verification_row_at(
        CreateVerification {
            identifier: "user@example.com".to_string(),
            value: "token-abc-123".to_string(),
            expires_at: Timestamp { secs: NOW_SECS, nanos: 0 },
        },
        "vid".to_string(),
        NOW.to_string(),
    );
    assert_eq!(row.expires_at, NOW);
    let stored = VerificationRow {
        id: row.id.clone(),
        identifier: row.identifier.clone(),
        value: row.value.clone(),
        expires_at: row.expires_at.clone(),
        created_at: row.created_at.clone(),
        updated_at: row.updated_at.clone(),
    };
    let v = verification_from_row(stored.clone());
    assert_eq!(v.value, "token-abc-123");
    assert_eq!(v.expires_at, Timestamp { secs: NOW_SECS, nanos: 0 });
    let (id, consumed) = consume_found(Some(stored)).expect("found row is consumed");
    assert_eq!(id, "vid");
    assert_eq!(consumed, v);
    assert!(consume_found(None).is_none());
}

#[test]
fn organization_rows() {
    let row = new_organization_row_at(
        CreateOrganization {
            id: None,
            name: "Acme Corp".to_string(),
            slug: "acme-corp".to_string(),
            logo: None,
            metadata: None,
        },
        "oid".to_string(),
        NOW.to_string(),
    );
    assert_eq!(row.id, "oid");
    assert_eq!(row.metadata, None);
    let o = organization_from_row(OrganizationRow {
        id: "o".to_string(),
        name: "n".to_string(),
        slug: "s".to_string(),
        logo: None,
        metadata: Some("oops".to_string()),
        created_at: NOW.to_string(),
        updated_at: NOW.to_string(),
    });
    assert!(o.metadata.is_none());
    let upd = organization_update_row_at(
        UpdateOrganization {
            name: Some("New Name".to_string()),
            slug: None,
            logo: Some("https://example.com/new-logo.png".to_string()),
            metadata: None,
        },
        NOW.to_string(),
    );
    assert_eq!(upd.name.as_deref(), Some("New Name"));
    assert_eq!(upd.logo, Some(Some("https://example.com/new-logo.png".to_string())));
    assert_eq!(upd.metadata, None);
}

#[test]
fn member_rows_and_counts() {
    let row = new_member_row_at(
        CreateMember {
            organization_id: "org".to_string(),
            user_id: "u".to_string(),
            role: "owner".to_string(),
        },
        "mid".to_string(),
        NOW.to_string(),
    );
    assert_eq!(row.role, OWNER_ROLE);
    assert_eq!(count_from_sql(3), 3);
    assert_eq!(count_from_sql(0), 0);
    assert_eq!(count_from_sql(-1), 0);
}

#[test]
fn invitation_status_text() {
    for (s, t) in [
        (InvitationStatus::Pending, "pending"),
        (InvitationStatus::Accepted, "accepted"),
        (InvitationStatus::Rejected, "rejected"),
        (InvitationStatus::Canceled, "canceled"),
    ] {
        assert_eq!(invitation_status_to_string(&s), t);
        assert_eq!(invitation_status_from_text(&t.to_string()), s);
    }
    assert_eq!(invitation_status_from_text(&"weird".to_string()), InvitationStatus::Pending);
}

#[test]
fn invitation_rows() {
    let row = new_invitation_row_at(
        CreateInvitation {
            organization_id: "org".to_string(),
            email: "invited@example.com".to_string(),
            role: "member".to_string(),
            inviter_id: "inv".to_string(),
            expires_at: Timestamp { secs: NOW_SECS, nanos: 0 },
        },
        "iid".to_string(),
        NOW.to_string(),
    );
    assert_eq!(row.status, "pending");
    let i = invitation_from_row(InvitationRow {
        id: row.id,
        organization_id: row.organization_id,
        email: row.email,
        role: row.role,
        status: "accepted".to_string(),
        inviter_id: row.inviter_id,
        expires_at: row.expires_at,
        created_at: row.created_at,
    });
    assert_eq!(i.status, InvitationStatus::Accepted);
    assert_eq!(i.expires_at, Timestamp { secs: NOW_SECS, nanos: 0 });
}

#[test]
fn two_factor_rows() {
    let row = new_two_factor_row_at(
        CreateTwoFactor { user_id: "u".to_string(), secret: "sec".to_string(), backup_codes: None },
        "tid".to_string(),
        NOW.to_string(),
    );
    assert_eq!(row.secret, "sec");
    let t = two_factor_from_row(TwoFactorRow {
        id: row.id,
        user_id: row.user_id,
        secret: row.secret,
        backup_codes: Some("a,b".to_string()),
        created_at: row.created_at,
        updated_at: row.updated_at,
    });
    assert_eq!(t.backup_codes.as_deref(), Some("a,b"));
    assert_eq!(t.created_at, Timestamp { secs: NOW_SECS, nanos: 0 });
}

#[test]
fn api_key_rows() {
    let data = CreateApiKey {
        user_id: "u".to_string(),
        name: Some("test-key".to_string()),
        prefix: Some("sk_".to_string()),
        key_hash: "hash_abc123".to_string(),
        start: Some("sk_test".to_string()),
        expires_at: None,
        remaining: Some(100),
        rate_limit_enabled: false,
        rate_limit_time_window: None,
        rate_limit_max: None,
        refill_interval: None,
        refill_amount: None,
        permissions: None,
        metadata: None,
        enabled: true,
    };
    let row = new_api_key_row_at(data, "kid".to_string(), NOW.to_string());
    assert_eq!(row.key, "hash_abc123");
    assert_eq!(row.request_count, Some(0));
    assert_eq!(row.last_refill_at, None);
    let k = api_key_from_row(ApiKeyRow {
        id: row.id,
        user_id: row.user_id,
        name: row.name,
        start: row.start,
        prefix: row.prefix,
        key: row.key,
        enabled: row.enabled,
        rate_limit_enabled: row.rate_limit_enabled,
        rate_limit_time_window: row.rate_limit_time_window,
        rate_limit_max: row.rate_limit_max,
        request_count: row.request_count,
        remaining: row.remaining,
        refill_interval: row.refill_interval,
        refill_amount: row.refill_amount,
        last_refill_at: row.last_refill_at,
        last_request: row.last_request,
        expires_at: row.expires_at,
        created_at: row.created_at,
        updated_at: row.updated_at,
        permissions: row.permissions,
        metadata: row.metadata,
    });
    assert_eq!(k.key_hash, "hash_abc123");
    assert_eq!(k.remaining, Some(100));
    assert_eq!(k.created_at, NOW);
    let upd = api_key_update_row_at(
        UpdateApiKey {
            name: Some("renamed-key".to_string()),
            enabled: Some(false),
            expires_at: Some(None),
            ..Default::default()
        },
        NOW.to_string(),
    );
    assert_eq!(upd.name, Some(Some("renamed-key".to_string())));
    assert_eq!(upd.enabled, Some(false));
    assert_eq!(upd.expires_at, Some(None));
    assert_eq!(upd.remaining, None);
}

#[test]
fn passkey_counter_round_trips() {
    for c in [0u64, 42, i64::MAX as u64, i64::MAX as u64 + 1, u64::MAX] {
        assert_eq!(counter_from_stored(counter_to_stored(c)), c);
    }
    assert_eq!(counter_to_stored(42), 42);
    assert_eq!(counter_to_stored(u64::MAX), -1);
}

#[test]
fn passkey_rows() {
    let row = new_passkey_row_at(
        CreatePasskey {
            user_id: "u".to_string(),
            name: "My Security Key".to_string(),
            credential_id: "cred_abc123".to_string(),
            public_key: "pk_test_base64data".to_string(),
            counter: u64::MAX,
            device_type: "single_device".to_string(),
            backed_up: false,
            transports: Some("usb,nfc".to_string()),
        },
        "pid".to_string(),
        NOW.to_string(),
    );
    assert_eq!(row.counter, -1);
    let p = passkey_from_row(PasskeyRow {
        id: row.id,
        user_id: row.user_id,
        name: row.name,
        credential_id: row.credential_id,
        public_key: row.public_key,
        counter: row.counter,
        device_type: row.device_type,
        backed_up: row.backed_up,
        transports: row.transports,
        created_at: row.created_at,
    });
    assert_eq!(p.counter, u64::MAX);
    assert_eq!(p.transports.as_deref(), Some("usb,nfc"));
}

#[test]
fn user_written_and_read_back() {
    let mut data = create_user(Some("alice@example.com"));
    data.name = Some("Alice".to_string());
    let n = new_user_row_at(data, "fresh".to_string(), NOW.to_string());
    let u = user_from_row(UserRow {
        id: n.id,
        name: n.name,
        email: n.email,
        username: n.username,
        display_username: n.display_username,
        email_verified: n.email_verified,
        image: n.image,
        role: n.role,
        banned: n.banned,
        ban_reason: n.ban_reason,
        ban_expires: n.ban_expires,
        two_factor_enabled: n.two_factor_enabled,
        metadata: n.metadata,
        created_at: n.created_at,
        updated_at: n.updated_at,
    });
    assert_eq!(u.id, "fresh");
    assert_eq!(u.name.as_deref(), Some("Alice"));
    assert_eq!(u.email.as_deref(), Some("alice@example.com"));
    assert_eq!(u.role.as_deref(), Some("user"));
    assert!(!u.banned && !u.email_verified && !u.two_factor_enabled);
    assert_eq!(u.created_at, Timestamp { secs: NOW_SECS, nanos: 0 });
    assert_eq!(u.metadata.to_string(), "{}");
}

#[test]
fn session_written_and_read_back() {
    let n = new_session_row(create_session());
    let s = session_from_row(SessionRow {
        id: n.id.clone(),
        user_id: n.user_id,
        token: n.token.clone(),
        ip_address: n.ip_address,
        user_agent: n.user_agent,
        expires_at: n.expires_at,
        active_organization_id: n.active_organization_id,
        impersonated_by: n.impersonated_by,
        active: n.active,
        created_at: n.created_at,
        updated_at: n.updated_at,
    });
    assert_eq!(s.id, n.id);
    assert_eq!(s.token, n.token);
    assert_eq!(s.user_id, "user-1");
    assert!(s.active);
    assert_eq!(s.expires_at, Timestamp { secs: NOW_SECS, nanos: 0 });
    assert_eq!(s.user_agent.as_deref(), Some("test-agent"));
}

#[test]
fn account_written_and_read_back_keeps_expiry_times() {
    let access = Timestamp { secs: NOW_SECS, nanos: 123_456_789 };
    let refresh = Timestamp { secs: NOW_SECS + 3_600, nanos: 1_000 };
    let n = new_account_row(CreateAccount {
        user_id: "u".to_string(),
        account_id: "acc".to_string(),
        provider_id: "github".to_string(),
        access_token: None,
        refresh_token: None,
        id_token: None,
        access_token_expires_at: Some(access),
        refresh_token_expires_at: Some(refresh),
        scope: None,
        password: None,
    });
    let a = account_from_row(AccountRow {
        id: n.id,
        user_id: n.user_id,
        account_id: n.account_id,
        provider_id: n.provider_id,
        access_token: n.access_token,
        refresh_token: n.refresh_token,
        id_token: n.id_token,
        access_token_expires_at: n.access_token_expires_at,
        refresh_token_expires_at: n.refresh_token_expires_at,
        scope: n.scope,
        password: n.password,
        created_at: n.created_at,
        updated_at: n.updated_at,
    });
    assert_eq!(a.access_token_expires_at, Some(access));
    assert_eq!(a.refresh_token_expires_at, Some(refresh));
}

#[test]
fn update_metadata_is_always_written() {
    let mut data = update_user();
    data.metadata = Some(serde_json::from_str("{\"a\":[1,2.5,null],\"b\":{\"c\":\"d\"}}").unwrap());
    let upd = user_update_row_at(data, NOW.to_string());
    assert_eq!(upd.metadata, Some(Some("{\"a\":[1,2.5,null],\"b\":{\"c\":\"d\"}}".to_string())));
    let upd = organization_update_row_at(
        UpdateOrganization {
            name: None,
            slug: None,
            logo: None,
            metadata: Some(serde_json::from_str("[]").unwrap()),
        },
        NOW.to_string(),
    );
    assert_eq!(upd.metadata, Some(Some("[]".to_string())));
}
