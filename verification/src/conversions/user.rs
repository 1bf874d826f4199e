//! Conversions for `users` rows.

use super::{metadata_text, metadata_text_is, opt_representable, opt_stored_instant, parse_opt_datetime, set_column, set_column_of};
use crate::ids::{is_uuid_text, new_id};
use crate::json::{empty_json_object, json_parse, json_render, parse_json};
use crate::models::{NewUserRow, UpdateUserRow, UserRow};
use crate::time::{
    format_datetime, four_digit_year, is_instant_text, is_text_of, now_iso, parse_datetime,
    stored_instant,
};
use crate::types::{CreateUser, UpdateUser, User};
use vstd::prelude::*;

verus! {

/// The metadata of a stored user: its JSON text read as a value, or the empty
/// object when there is no text or it is not JSON.
pub open spec fn user_metadata_is(text: Option<String>, value: serde_json::Value) -> bool {
    match text {
        Some(t) => match json_parse(t@) {
            Some(v) => value == v,
            None => json_render(value) == Some("{}"@),
        },
        None => json_render(value) == Some("{}"@),
    }
}

/// The user that a stored row reads as.
pub open spec fn is_user_of_row(row: UserRow, u: User) -> bool {
    &&& u.id == row.id
    &&& u.name == row.name
    &&& u.email == Some(row.email)
    &&& u.email_verified == row.email_verified
    &&& u.image == row.image
    &&& u.created_at == stored_instant(row.created_at@)
    &&& u.updated_at == stored_instant(row.updated_at@)
    &&& u.username == row.username
    &&& u.display_username == row.display_username
    &&& u.two_factor_enabled == row.two_factor_enabled
    &&& u.role == Some(row.role)
    &&& u.banned == row.banned
    &&& u.ban_reason == row.ban_reason
    &&& u.ban_expires == opt_stored_instant(row.ban_expires)
    &&& user_metadata_is(row.metadata, u.metadata)
}

/// The row that a new user is written as, given its fresh identifier and the
/// time: the given identifier wins over the fresh one, a missing email is
/// stored empty, the role defaults to `user`, and the user starts unverified
/// (unless told otherwise), unbanned and without two-factor authentication.
pub open spec fn is_new_user_row(data: CreateUser, fresh_id: String, now: String, r: NewUserRow) -> bool {
    &&& r.id == (match data.id {
        Some(i) => i,
        None => fresh_id,
    })
    &&& r.name == data.name
    &&& r.email@ == (match data.email {
        Some(e) => e@,
        None => Seq::<char>::empty(),
    })
    &&& r.username == data.username
    &&& r.display_username == data.display_username
    &&& r.email_verified == (match data.email_verified {
        Some(b) => b,
        None => false,
    })
    &&& r.image == data.image
    &&& r.role@ == (match data.role {
        Some(role) => role@,
        None => "user"@,
    })
    &&& !r.banned
    &&& r.ban_reason is None
    &&& r.ban_expires is None
    &&& !r.two_factor_enabled
    &&& metadata_text_is(data.metadata, r.metadata)
    &&& r.created_at == now
    &&& r.updated_at == now
}

/// The ban reason column of a user update: a given reason is set; without one,
/// unbanning clears the column; otherwise it is left as it is.
pub open spec fn ban_reason_update(data: UpdateUser) -> Option<Option<String>> {
    match data.ban_reason {
        Some(reason) => Some(Some(reason)),
        None => if data.banned == Some(false) {
            Some(None)
        } else {
            None
        },
    }
}

/// The ban expiry column of a user update, as text: a given expiry is set;
/// without one, unbanning clears the column; otherwise it is left as it is.
pub open spec fn ban_expires_update_is(data: UpdateUser, col: Option<Option<String>>) -> bool {
    match data.ban_expires {
        Some(t) => col matches Some(Some(s)) && is_text_of(t, s@),
        None => if data.banned == Some(false) {
            col == Some(None::<String>)
        } else {
            col is None
        },
    }
}

/// The changeset that a user update is written as at time `now`.
pub open spec fn is_user_update_row(data: UpdateUser, now: String, r: UpdateUserRow) -> bool {
    &&& r.name == set_column(data.name)
    &&& r.email == data.email
    &&& r.username == set_column(data.username)
    &&& r.display_username == set_column(data.display_username)
    &&& r.email_verified == data.email_verified
    &&& r.image == set_column(data.image)
    &&& r.role == data.role
    &&& r.banned == data.banned
    &&& r.ban_reason == ban_reason_update(data)
    &&& ban_expires_update_is(data, r.ban_expires)
    &&& r.two_factor_enabled == data.two_factor_enabled
    &&& match data.metadata {
        Some(v) => r.metadata matches Some(Some(m)) && json_render(v) == Some(m@),
        None => r.metadata is None,
    }
    &&& r.updated_at == Some(now)
}

/// Read a stored user row.
pub fn user_from_row(row: UserRow) -> (u: User)
    ensures
        is_user_of_row(row, u),
{
    let metadata = match &row.metadata {
        Some(text) => match parse_json(text.as_str()) {
            Some(v) => v,
            None => empty_json_object(),
        },
        None => empty_json_object(),
    };
    let created_at = parse_datetime(row.created_at.as_str());
    let updated_at = parse_datetime(row.updated_at.as_str());
    let ban_expires = parse_opt_datetime(&row.ban_expires);
    User {
        id: row.id,
        name: row.name,
        email: Some(row.email),
        email_verified: row.email_verified,
        image: row.image,
        created_at,
        updated_at,
        username: row.username,
        display_username: row.display_username,
        two_factor_enabled: row.two_factor_enabled,
        role: Some(row.role),
        banned: row.banned,
        ban_reason: row.ban_reason,
        ban_expires,
        metadata,
    }
}

/// The row for a new user, given a fresh identifier and the time.
pub fn new_user_row_at(data: CreateUser, fresh_id: String, now: String) -> (r: NewUserRow)
    ensures
        is_new_user_row(data, fresh_id, now, r),
{
    let metadata = metadata_text(&data.metadata);
    let id = match data.id {
        Some(i) => i,
        None => fresh_id,
    };
    let email = match data.email {
        Some(e) => e,
        None => String::new(),
    };
    let email_verified = match data.email_verified {
        Some(b) => b,
        None => false,
    };
    let role = match data.role {
        Some(role) => role,
        None => String::from_str("user"),
    };
    NewUserRow {
        id,
        name: data.name,
        email,
        username: data.username,
        display_username: data.display_username,
        email_verified,
        image: data.image,
        role,
        banned: false,
        ban_reason: None,
        ban_expires: None,
        two_factor_enabled: false,
        metadata,
        created_at: now.clone(),
        updated_at: now,
    }
}

/// The row for a new user, with a fresh identifier (unless one is given) and
/// the current time.
pub fn new_user_row(data: CreateUser) -> (r: NewUserRow)
    ensures
        is_new_user_row(data, r.id, r.created_at, r),
        data.id is None ==> is_uuid_text(r.id@),
        is_instant_text(r.created_at@),
{
    let now = now_iso();
    let fresh_id = match &data.id {
        Some(id) => id.clone(),
        None => new_id(),
    };
    new_user_row_at(data, fresh_id, now)
}

/// The changeset for a user update at time `now`. Unbanning without a reason
/// or an expiry clears both.
pub fn user_update_row_at(data: UpdateUser, now: String) -> (r: UpdateUserRow)
    requires
        opt_representable(data.ban_expires),
    ensures
        is_user_update_row(data, now, r),
{
    let metadata = match metadata_text(&data.metadata) {
        Some(text) => Some(Some(text)),
        None => None,
    };
    let unbanning = match data.banned {
        Some(b) => !b,
        None => false,
    };
    let ban_reason = match data.ban_reason {
        Some(reason) => Some(Some(reason)),
        None => if unbanning {
            Some(None)
        } else {
            None
        },
    };
    let ban_expires = match data.ban_expires {
        Some(t) => Some(Some(format_datetime(t))),
        None => if unbanning {
            Some(None)
        } else {
            None
        },
    };
    UpdateUserRow {
        name: set_column_of(data.name),
        email: data.email,
        username: set_column_of(data.username),
        display_username: set_column_of(data.display_username),
        email_verified: data.email_verified,
        image: set_column_of(data.image),
        role: data.role,
        banned: data.banned,
        ban_reason,
        ban_expires,
        two_factor_enabled: data.two_factor_enabled,
        metadata,
        updated_at: Some(now),
    }
}

/// The changeset for a user update at the current time.
pub fn user_update_row(data: UpdateUser) -> (r: UpdateUserRow)
    requires
        opt_representable(data.ban_expires),
    ensures
        r.updated_at matches Some(now) && is_instant_text(now@) && is_user_update_row(data, now, r),
{
    let now = now_iso();
    user_update_row_at(data, now)
}

/// A user written with `create` and read back has the identifier it was given
/// (or the fresh one), its name, image, usernames and email (empty when none was
/// given), the role it was given or `user`, its verification flag (unverified
/// by default), and is neither banned nor using two-factor authentication; when
/// no metadata was given, it reads back as the empty object.
pub proof fn lemma_user_read_back(
    data: CreateUser,
    fresh_id: String,
    now: String,
    row: NewUserRow,
    u: User,
)
    requires
        is_new_user_row(data, fresh_id, now, row),
        is_user_of_row(row.as_stored(), u),
    ensures
        u.id == (match data.id {
            Some(i) => i,
            None => fresh_id,
        }),
        u.name == data.name,
        u.image == data.image,
        u.username == data.username,
        u.display_username == data.display_username,
        u.email matches Some(e) && e@ == (match data.email {
            Some(e) => e@,
            None => Seq::<char>::empty(),
        }),
        u.role matches Some(role) && role@ == (match data.role {
            Some(role) => role@,
            None => "user"@,
        }),
        u.email_verified == (data.email_verified == Some(true)),
        !u.banned,
        u.ban_reason is None,
        u.ban_expires is None,
        !u.two_factor_enabled,
        data.metadata is None ==> json_render(u.metadata) == Some("{}"@),
{
}

/// The stored user that a changeset leaves: a column the changeset sets takes
/// its value, every other column keeps its own.
pub open spec fn apply_user_update(row: UserRow, upd: UpdateUserRow) -> UserRow {
    UserRow {
        id: row.id,
        name: match upd.name {
            Some(v) => v,
            None => row.name,
        },
        email: match upd.email {
            Some(v) => v,
            None => row.email,
        },
        username: match upd.username {
            Some(v) => v,
            None => row.username,
        },
        display_username: match upd.display_username {
            Some(v) => v,
            None => row.display_username,
        },
        email_verified: match upd.email_verified {
            Some(v) => v,
            None => row.email_verified,
        },
        image: match upd.image {
            Some(v) => v,
            None => row.image,
        },
        role: match upd.role {
            Some(v) => v,
            None => row.role,
        },
        banned: match upd.banned {
            Some(v) => v,
            None => row.banned,
        },
        ban_reason: match upd.ban_reason {
            Some(v) => v,
            None => row.ban_reason,
        },
        ban_expires: match upd.ban_expires {
            Some(v) => v,
            None => row.ban_expires,
        },
        two_factor_enabled: match upd.two_factor_enabled {
            Some(v) => v,
            None => row.two_factor_enabled,
        },
        metadata: match upd.metadata {
            Some(v) => v,
            None => row.metadata,
        },
        created_at: row.created_at,
        updated_at: match upd.updated_at {
            Some(v) => v,
            None => row.updated_at,
        },
    }
}

/// Unbanning a user without giving a reason or an expiry leaves it unbanned,
/// with neither a ban reason nor a ban expiry, whatever it was before.
pub proof fn lemma_unban_clears_ban(data: UpdateUser, now: String, upd: UpdateUserRow, row: UserRow, u: User)
    requires
        data.banned == Some(false),
        data.ban_reason is None,
        data.ban_expires is None,
        is_user_update_row(data, now, upd),
        is_user_of_row(apply_user_update(row, upd), u),
    ensures
        !u.banned,
        u.ban_reason is None,
        u.ban_expires is None,
{
}

/// Banning a user with a reason stores that reason, and with an expiry (of a
/// four-digit year) stores what reads back as that expiry; an update that
/// says nothing of the ban leaves ban, reason and expiry as they were.
pub proof fn lemma_ban_fields_update(data: UpdateUser, now: String, upd: UpdateUserRow, row: UserRow)
    requires
        is_user_update_row(data, now, upd),
    ensures
        data.ban_reason matches Some(reason) ==> apply_user_update(row, upd).ban_reason == Some(
            reason,
        ),
        data.ban_expires matches Some(t) ==> (four_digit_year(t) ==> opt_stored_instant(
            apply_user_update(row, upd).ban_expires,
        ) == Some(t)),
        data.banned is None && data.ban_reason is None && data.ban_expires is None ==> {
            let after = apply_user_update(row, upd);
            &&& after.banned == row.banned
            &&& after.ban_reason == row.ban_reason
            &&& after.ban_expires == row.ban_expires
        },
{
}

} // verus!
