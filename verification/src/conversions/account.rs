//! Conversions for `accounts` rows.

use super::{
    format_opt_datetime, opt_is_text_of, opt_reads_back_as, opt_representable, opt_stored_instant,
    parse_opt_datetime, set_column, set_column_of,
};
use crate::ids::{is_uuid_text, new_id};
use crate::models::{AccountRow, NewAccountRow, UpdateAccountRow};
use crate::time::{is_instant_text, now_iso, parse_datetime, stored_instant};
use crate::types::{Account, CreateAccount, UpdateAccount};
use vstd::prelude::*;

verus! {

/// The account link that a stored row reads as.
pub open spec fn is_account_of_row(row: AccountRow, a: Account) -> bool {
    &&& a.id == row.id
    &&& a.user_id == row.user_id
    &&& a.account_id == row.account_id
    &&& a.provider_id == row.provider_id
    &&& a.access_token == row.access_token
    &&& a.refresh_token == row.refresh_token
    &&& a.id_token == row.id_token
    &&& a.access_token_expires_at == opt_stored_instant(row.access_token_expires_at)
    &&& a.refresh_token_expires_at == opt_stored_instant(row.refresh_token_expires_at)
    &&& a.scope == row.scope
    &&& a.password == row.password
    &&& a.created_at == stored_instant(row.created_at@)
    &&& a.updated_at == stored_instant(row.updated_at@)
}

/// The row that a new account link is written as, given its fresh identifier
/// and the time.
pub open spec fn is_new_account_row(data: CreateAccount, fresh_id: String, now: String, r: NewAccountRow) -> bool {
    &&& r.id == fresh_id
    &&& r.user_id == data.user_id
    &&& r.account_id == data.account_id
    &&& r.provider_id == data.provider_id
    &&& r.access_token == data.access_token
    &&& r.refresh_token == data.refresh_token
    &&& r.id_token == data.id_token
    &&& opt_is_text_of(data.access_token_expires_at, r.access_token_expires_at)
    &&& opt_is_text_of(data.refresh_token_expires_at, r.refresh_token_expires_at)
    &&& r.scope == data.scope
    &&& r.password == data.password
    &&& r.created_at == now
    &&& r.updated_at == now
}

/// A column to set to an instant's text, or left as it is.
pub open spec fn instant_column_is(o: Option<crate::time::Timestamp>, col: Option<Option<String>>) -> bool {
    match o {
        Some(t) => col matches Some(Some(s)) && crate::time::is_text_of(t, s@),
        None => col is None,
    }
}

/// The changeset that an account update is written as at time `now`.
pub open spec fn is_account_update_row(data: UpdateAccount, now: String, r: UpdateAccountRow) -> bool {
    &&& r.access_token == set_column(data.access_token)
    &&& r.refresh_token == set_column(data.refresh_token)
    &&& r.id_token == set_column(data.id_token)
    &&& instant_column_is(data.access_token_expires_at, r.access_token_expires_at)
    &&& instant_column_is(data.refresh_token_expires_at, r.refresh_token_expires_at)
    &&& r.scope == set_column(data.scope)
    &&& r.password == set_column(data.password)
    &&& r.updated_at == Some(now)
}

/// Read a stored account row.
pub fn account_from_row(row: AccountRow) -> (a: Account)
    ensures
        is_account_of_row(row, a),
{
    let access_token_expires_at = parse_opt_datetime(&row.access_token_expires_at);
    let refresh_token_expires_at = parse_opt_datetime(&row.refresh_token_expires_at);
    let created_at = parse_datetime(row.created_at.as_str());
    let updated_at = parse_datetime(row.updated_at.as_str());
    Account {
        id: row.id,
        user_id: row.user_id,
        account_id: row.account_id,
        provider_id: row.provider_id,
        access_token: row.access_token,
        refresh_token: row.refresh_token,
        id_token: row.id_token,
        access_token_expires_at,
        refresh_token_expires_at,
        scope: row.scope,
        password: row.password,
        created_at,
        updated_at,
    }
}

/// The row for a new account link, given a fresh identifier and the time.
pub fn new_account_row_at(data: CreateAccount, fresh_id: String, now: String) -> (r: NewAccountRow)
    requires
        opt_representable(data.access_token_expires_at),
        opt_representable(data.refresh_token_expires_at),
    ensures
        is_new_account_row(data, fresh_id, now, r),
{
    let access_token_expires_at = format_opt_datetime(&data.access_token_expires_at);
    let refresh_token_expires_at = format_opt_datetime(&data.refresh_token_expires_at);
    NewAccountRow {
        id: fresh_id,
        user_id: data.user_id,
        account_id: data.account_id,
        provider_id: data.provider_id,
        access_token: data.access_token,
        refresh_token: data.refresh_token,
        id_token: data.id_token,
        access_token_expires_at,
        refresh_token_expires_at,
        scope: data.scope,
        password: data.password,
        created_at: now.clone(),
        updated_at: now,
    }
}

/// The row for a new account link, with a fresh identifier and the current time.
pub fn new_account_row(data: CreateAccount) -> (r: NewAccountRow)
    requires
        opt_representable(data.access_token_expires_at),
        opt_representable(data.refresh_token_expires_at),
    ensures
        is_uuid_text(r.id@),
        is_instant_text(r.created_at@),
        is_new_account_row(data, r.id, r.created_at, r),
{
    let now = now_iso();
    let fresh_id = new_id();
    new_account_row_at(data, fresh_id, now)
}

/// The changeset for an account update at time `now`.
pub fn account_update_row_at(data: UpdateAccount, now: String) -> (r: UpdateAccountRow)
    requires
        opt_representable(data.access_token_expires_at),
        opt_representable(data.refresh_token_expires_at),
    ensures
        is_account_update_row(data, now, r),
{
    let access_token_expires_at = set_column_of(format_opt_datetime(&data.access_token_expires_at));
    let refresh_token_expires_at = set_column_of(format_opt_datetime(&data.refresh_token_expires_at));
    UpdateAccountRow {
        access_token: set_column_of(data.access_token),
        refresh_token: set_column_of(data.refresh_token),
        id_token: set_column_of(data.id_token),
        access_token_expires_at,
        refresh_token_expires_at,
        scope: set_column_of(data.scope),
        password: set_column_of(data.password),
        updated_at: Some(now),
    }
}

/// The changeset for an account update at the current time.
pub fn account_update_row(data: UpdateAccount) -> (r: UpdateAccountRow)
    requires
        opt_representable(data.access_token_expires_at),
        opt_representable(data.refresh_token_expires_at),
    ensures
        r.updated_at matches Some(now) && is_instant_text(now@) && is_account_update_row(data, now, r),
{
    let now = now_iso();
    account_update_row_at(data, now)
}

/// An account link written with `create` and read back keeps its user,
/// provider, provider account, tokens, scope and password, and its token
/// expiry times (those with a four-digit year).
pub proof fn lemma_account_read_back(data: CreateAccount, fresh_id: String, now: String, row: NewAccountRow, a: Account)
    requires
        is_new_account_row(data, fresh_id, now, row),
        is_account_of_row(row.as_stored(), a),
    ensures
        a.id == fresh_id,
        a.user_id == data.user_id,
        a.account_id == data.account_id,
        a.provider_id == data.provider_id,
        a.access_token == data.access_token,
        a.refresh_token == data.refresh_token,
        a.id_token == data.id_token,
        a.scope == data.scope,
        a.password == data.password,
        opt_reads_back_as(data.access_token_expires_at, a.access_token_expires_at),
        opt_reads_back_as(data.refresh_token_expires_at, a.refresh_token_expires_at),
{
}

/// The stored account row that a changeset leaves: a column the changeset
/// sets takes its value, every other column keeps its own.
pub open spec fn apply_account_update(row: AccountRow, upd: UpdateAccountRow) -> AccountRow {
    AccountRow {
        access_token: match upd.access_token {
            Some(v) => v,
            None => row.access_token,
        },
        refresh_token: match upd.refresh_token {
            Some(v) => v,
            None => row.refresh_token,
        },
        id_token: match upd.id_token {
            Some(v) => v,
            None => row.id_token,
        },
        access_token_expires_at: match upd.access_token_expires_at {
            Some(v) => v,
            None => row.access_token_expires_at,
        },
        refresh_token_expires_at: match upd.refresh_token_expires_at {
            Some(v) => v,
            None => row.refresh_token_expires_at,
        },
        scope: match upd.scope {
            Some(v) => v,
            None => row.scope,
        },
        password: match upd.password {
            Some(v) => v,
            None => row.password,
        },
        updated_at: match upd.updated_at {
            Some(v) => v,
            None => row.updated_at,
        },
        ..row
    }
}

/// An account link updated and read back has the tokens, scope, password and
/// expiry times the update gave (an expiry time when its year has four
/// digits), keeps those it did not give, and keeps its identifier, user and
/// provider.
pub proof fn lemma_account_update_read_back(
    data: UpdateAccount,
    now: String,
    upd: UpdateAccountRow,
    row: AccountRow,
    a: Account,
)
    requires
        is_account_update_row(data, now, upd),
        is_account_of_row(apply_account_update(row, upd), a),
    ensures
        a.id == row.id,
        a.user_id == row.user_id,
        a.account_id == row.account_id,
        a.provider_id == row.provider_id,
        a.access_token == (match data.access_token {
            Some(t) => Some(t),
            None => row.access_token,
        }),
        a.refresh_token == (match data.refresh_token {
            Some(t) => Some(t),
            None => row.refresh_token,
        }),
        a.id_token == (match data.id_token {
            Some(t) => Some(t),
            None => row.id_token,
        }),
        a.scope == (match data.scope {
            Some(s) => Some(s),
            None => row.scope,
        }),
        a.password == (match data.password {
            Some(p) => Some(p),
            None => row.password,
        }),
        data.access_token_expires_at is None ==> a.access_token_expires_at == opt_stored_instant(
            row.access_token_expires_at,
        ),
        data.refresh_token_expires_at is None ==> a.refresh_token_expires_at == opt_stored_instant(
            row.refresh_token_expires_at,
        ),
        data.access_token_expires_at is Some ==> opt_reads_back_as(
            data.access_token_expires_at,
            a.access_token_expires_at,
        ),
        data.refresh_token_expires_at is Some ==> opt_reads_back_as(
            data.refresh_token_expires_at,
            a.refresh_token_expires_at,
        ),
{
}

} // verus!
