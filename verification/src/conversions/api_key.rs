//! Conversions for `api_keys` rows.

use super::{set_column, set_column_of};
use crate::ids::{is_uuid_text, new_id};
use crate::models::{ApiKeyRow, NewApiKeyRow, UpdateApiKeyRow};
use crate::time::{is_instant_text, now_iso};
use crate::types::{ApiKey, CreateApiKey, UpdateApiKey};
use vstd::prelude::*;

verus! {

/// The API key that a stored row reads as: the `key` column is the key's hash.
pub open spec fn is_api_key_of_row(row: ApiKeyRow, k: ApiKey) -> bool {
    &&& k.id == row.id
    &&& k.user_id == row.user_id
    &&& k.name == row.name
    &&& k.start == row.start
    &&& k.prefix == row.prefix
    &&& k.key_hash == row.key
    &&& k.enabled == row.enabled
    &&& k.rate_limit_enabled == row.rate_limit_enabled
    &&& k.rate_limit_time_window == row.rate_limit_time_window
    &&& k.rate_limit_max == row.rate_limit_max
    &&& k.request_count == row.request_count
    &&& k.remaining == row.remaining
    &&& k.refill_interval == row.refill_interval
    &&& k.refill_amount == row.refill_amount
    &&& k.last_refill_at == row.last_refill_at
    &&& k.last_request == row.last_request
    &&& k.expires_at == row.expires_at
    &&& k.created_at == row.created_at
    &&& k.updated_at == row.updated_at
    &&& k.permissions == row.permissions
    &&& k.metadata == row.metadata
}

/// The row that a new API key is written as, given its fresh identifier and
/// the time: the key has served no request and has never been refilled.
pub open spec fn is_new_api_key_row(data: CreateApiKey, fresh_id: String, now: String, r: NewApiKeyRow) -> bool {
    &&& r.id == fresh_id
    &&& r.user_id == data.user_id
    &&& r.name == data.name
    &&& r.start == data.start
    &&& r.prefix == data.prefix
    &&& r.key == data.key_hash
    &&& r.enabled == data.enabled
    &&& r.rate_limit_enabled == data.rate_limit_enabled
    &&& r.rate_limit_time_window == data.rate_limit_time_window
    &&& r.rate_limit_max == data.rate_limit_max
    &&& r.request_count == Some(0i64)
    &&& r.remaining == data.remaining
    &&& r.refill_interval == data.refill_interval
    &&& r.refill_amount == data.refill_amount
    &&& r.last_refill_at is None
    &&& r.last_request is None
    &&& r.expires_at == data.expires_at
    &&& r.created_at == now
    &&& r.updated_at == now
    &&& r.permissions == data.permissions
    &&& r.metadata == data.metadata
}

/// The changeset that an API key update is written as at time `now`.
pub open spec fn is_api_key_update_row(data: UpdateApiKey, now: String, r: UpdateApiKeyRow) -> bool {
    &&& r.name == set_column(data.name)
    &&& r.enabled == data.enabled
    &&& r.remaining == set_column(data.remaining)
    &&& r.rate_limit_enabled == data.rate_limit_enabled
    &&& r.rate_limit_time_window == set_column(data.rate_limit_time_window)
    &&& r.rate_limit_max == set_column(data.rate_limit_max)
    &&& r.refill_interval == set_column(data.refill_interval)
    &&& r.refill_amount == set_column(data.refill_amount)
    &&& r.request_count == set_column(data.request_count)
    &&& r.last_refill_at == data.last_refill_at
    &&& r.last_request == data.last_request
    &&& r.expires_at == data.expires_at
    &&& r.permissions == set_column(data.permissions)
    &&& r.metadata == set_column(data.metadata)
    &&& r.updated_at == Some(now)
}

/// Read a stored API key row.
pub fn api_key_from_row(row: ApiKeyRow) -> (k: ApiKey)
    ensures
        is_api_key_of_row(row, k),
{
    ApiKey {
        id: row.id,
        user_id: row.user_id,
        name: row.name,
        start: row.start,
        prefix: row.prefix,
        key_hash: row.key,
        enabled: row.enabled,
        rate_limit_enabled: row.rate_limit_enabled,
        rate_limit_time_window: row.rate_limit_time_window,
        rate_limit_max: row.rate_limit_max,
        request_count: row.request_count,
        remaining: row.remaining,
        refill_interval: row.refill_interval,
        refill_amount: row.refill_amount,
        last_refill_at: row.last_refill_at,
        last_request: row.last_request,
        expires_at: row.expires_at,
        created_at: row.created_at,
        updated_at: row.updated_at,
        permissions: row.permissions,
        metadata: row.metadata,
    }
}

/// The row for a new API key, given a fresh identifier and the time.
pub fn new_api_key_row_at(data: CreateApiKey, fresh_id: String, now: String) -> (r: NewApiKeyRow)
    ensures
        is_new_api_key_row(data, fresh_id, now, r),
{
    NewApiKeyRow {
        id: fresh_id,
        user_id: data.user_id,
        name: data.name,
        start: data.start,
        prefix: data.prefix,
        key: data.key_hash,
        enabled: data.enabled,
        rate_limit_enabled: data.rate_limit_enabled,
        rate_limit_time_window: data.rate_limit_time_window,
        rate_limit_max: data.rate_limit_max,
        request_count: Some(0),
        remaining: data.remaining,
        refill_interval: data.refill_interval,
        refill_amount: data.refill_amount,
        last_refill_at: None,
        last_request: None,
        expires_at: data.expires_at,
        created_at: now.clone(),
        updated_at: now,
        permissions: data.permissions,
        metadata: data.metadata,
    }
}

/// The row for a new API key, with a fresh identifier and the current time.
pub fn new_api_key_row(data: CreateApiKey) -> (r: NewApiKeyRow)
    ensures
        is_uuid_text(r.id@),
        is_instant_text(r.created_at@),
        is_new_api_key_row(data, r.id, r.created_at, r),
{
    let now = now_iso();
    let fresh_id = new_id();
    new_api_key_row_at(data, fresh_id, now)
}

/// The changeset for an API key update at time `now`.
pub fn api_key_update_row_at(data: UpdateApiKey, now: String) -> (r: UpdateApiKeyRow)
    ensures
        is_api_key_update_row(data, now, r),
{
    UpdateApiKeyRow {
        name: set_column_of(data.name),
        enabled: data.enabled,
        remaining: set_column_of(data.remaining),
        rate_limit_enabled: data.rate_limit_enabled,
        rate_limit_time_window: set_column_of(data.rate_limit_time_window),
        rate_limit_max: set_column_of(data.rate_limit_max),
        refill_interval: set_column_of(data.refill_interval),
        refill_amount: set_column_of(data.refill_amount),
        request_count: set_column_of(data.request_count),
        last_refill_at: data.last_refill_at,
        last_request: data.last_request,
        expires_at: data.expires_at,
        permissions: set_column_of(data.permissions),
        metadata: set_column_of(data.metadata),
        updated_at: Some(now),
    }
}

/// The changeset for an API key update at the current time.
pub fn api_key_update_row(data: UpdateApiKey) -> (r: UpdateApiKeyRow)
    ensures
        r.updated_at matches Some(now) && is_instant_text(now@) && is_api_key_update_row(data, now, r),
{
    let now = now_iso();
    api_key_update_row_at(data, now)
}

/// An API key written with `create` and read back keeps every field it was
/// given, its hash included, has served no request, has never been refilled,
/// and was created and last updated at the same time.
pub proof fn lemma_api_key_read_back(data: CreateApiKey, fresh_id: String, now: String, row: NewApiKeyRow, k: ApiKey)
    requires
        is_new_api_key_row(data, fresh_id, now, row),
        is_api_key_of_row(row.as_stored(), k),
    ensures
        k.id == fresh_id,
        k.user_id == data.user_id,
        k.name == data.name,
        k.start == data.start,
        k.prefix == data.prefix,
        k.key_hash == data.key_hash,
        k.enabled == data.enabled,
        k.rate_limit_enabled == data.rate_limit_enabled,
        k.rate_limit_time_window == data.rate_limit_time_window,
        k.rate_limit_max == data.rate_limit_max,
        k.request_count == Some(0i64),
        k.remaining == data.remaining,
        k.refill_interval == data.refill_interval,
        k.refill_amount == data.refill_amount,
        k.last_refill_at is None,
        k.last_request is None,
        k.expires_at == data.expires_at,
        k.created_at == now,
        k.updated_at == now,
        k.permissions == data.permissions,
        k.metadata == data.metadata,
{
}

/// The stored API key row that a changeset leaves: a column the changeset
/// sets takes its value, every other column keeps its own.
pub open spec fn apply_api_key_update(row: ApiKeyRow, upd: UpdateApiKeyRow) -> ApiKeyRow {
    ApiKeyRow {
        name: match upd.name {
            Some(v) => v,
            None => row.name,
        },
        enabled: match upd.enabled {
            Some(v) => v,
            None => row.enabled,
        },
        remaining: match upd.remaining {
            Some(v) => v,
            None => row.remaining,
        },
        rate_limit_enabled: match upd.rate_limit_enabled {
            Some(v) => v,
            None => row.rate_limit_enabled,
        },
        rate_limit_time_window: match upd.rate_limit_time_window {
            Some(v) => v,
            None => row.rate_limit_time_window,
        },
        rate_limit_max: match upd.rate_limit_max {
            Some(v) => v,
            None => row.rate_limit_max,
        },
        refill_interval: match upd.refill_interval {
            Some(v) => v,
            None => row.refill_interval,
        },
        refill_amount: match upd.refill_amount {
            Some(v) => v,
            None => row.refill_amount,
        },
        request_count: match upd.request_count {
            Some(v) => v,
            None => row.request_count,
        },
        last_refill_at: match upd.last_refill_at {
            Some(v) => v,
            None => row.last_refill_at,
        },
        last_request: match upd.last_request {
            Some(v) => v,
            None => row.last_request,
        },
        expires_at: match upd.expires_at {
            Some(v) => v,
            None => row.expires_at,
        },
        permissions: match upd.permissions {
            Some(v) => v,
            None => row.permissions,
        },
        metadata: match upd.metadata {
            Some(v) => v,
            None => row.metadata,
        },
        updated_at: match upd.updated_at {
            Some(v) => v,
            None => row.updated_at,
        },
        ..row
    }
}

/// An API key updated and read back has every field the update gave (an
/// expiry, last request or last refill of `Some(None)` cleared), keeps every
/// other field, and never changes its identifier, owner, hash or creation
/// time; its update time is the time of the update.
pub proof fn lemma_api_key_update_read_back(
    data: UpdateApiKey,
    now: String,
    upd: UpdateApiKeyRow,
    row: ApiKeyRow,
    k: ApiKey,
)
    requires
        is_api_key_update_row(data, now, upd),
        is_api_key_of_row(apply_api_key_update(row, upd), k),
    ensures
        k.id == row.id,
        k.user_id == row.user_id,
        k.key_hash == row.key,
        k.created_at == row.created_at,
        k.updated_at == now,
        k.name == (match data.name {
            Some(n) => Some(n),
            None => row.name,
        }),
        k.enabled == (match data.enabled {
            Some(e) => e,
            None => row.enabled,
        }),
        k.remaining == (match data.remaining {
            Some(r) => Some(r),
            None => row.remaining,
        }),
        k.request_count == (match data.request_count {
            Some(c) => Some(c),
            None => row.request_count,
        }),
        k.expires_at == (match data.expires_at {
            Some(e) => e,
            None => row.expires_at,
        }),
        k.last_request == (match data.last_request {
            Some(l) => l,
            None => row.last_request,
        }),
        k.last_refill_at == (match data.last_refill_at {
            Some(l) => l,
            None => row.last_refill_at,
        }),
        k.permissions == (match data.permissions {
            Some(p) => Some(p),
            None => row.permissions,
        }),
        k.metadata == (match data.metadata {
            Some(m) => Some(m),
            None => row.metadata,
        }),
{
}

} // verus!
