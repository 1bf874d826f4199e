//! Conversions for `sessions` rows.

use crate::ids::{is_uuid_text, new_id};
use crate::models::{NewSessionRow, SessionRow};
use crate::time::{
    format_datetime, is_instant_text, now_iso, parse_datetime, representable, is_text_of, four_digit_year,
    stored_instant,
};
use crate::types::{CreateSession, Session};
use vstd::prelude::*;

verus! {

/// The session that a stored row reads as.
pub open spec fn is_session_of_row(row: SessionRow, s: Session) -> bool {
    &&& s.id == row.id
    &&& s.expires_at == stored_instant(row.expires_at@)
    &&& s.token == row.token
    &&& s.created_at == stored_instant(row.created_at@)
    &&& s.updated_at == stored_instant(row.updated_at@)
    &&& s.ip_address == row.ip_address
    &&& s.user_agent == row.user_agent
    &&& s.user_id == row.user_id
    &&& s.impersonated_by == row.impersonated_by
    &&& s.active_organization_id == row.active_organization_id
    &&& s.active == row.active
}

/// The token of a session: `session_` followed by a UUID.
pub open spec fn session_token_text(uuid: Seq<char>) -> Seq<char> {
    "session_"@ + uuid
}

/// The row that a new session is written as, given its fresh identifier, the
/// UUID its token is made from, and the time: the session starts active.
pub open spec fn is_new_session_row(
    data: CreateSession,
    fresh_id: String,
    token_uuid: String,
    now: String,
    r: NewSessionRow,
) -> bool {
    &&& r.id == fresh_id
    &&& r.user_id == data.user_id
    &&& r.token@ == session_token_text(token_uuid@)
    &&& r.ip_address == data.ip_address
    &&& r.user_agent == data.user_agent
    &&& is_text_of(data.expires_at, r.expires_at@)
    &&& r.active_organization_id == data.active_organization_id
    &&& r.impersonated_by == data.impersonated_by
    &&& r.active
    &&& r.created_at == now
    &&& r.updated_at == now
}

/// Read a stored session row.
pub fn session_from_row(row: SessionRow) -> (s: Session)
    ensures
        is_session_of_row(row, s),
{
    let expires_at = parse_datetime(row.expires_at.as_str());
    let created_at = parse_datetime(row.created_at.as_str());
    let updated_at = parse_datetime(row.updated_at.as_str());
    Session {
        id: row.id,
        expires_at,
        token: row.token,
        created_at,
        updated_at,
        ip_address: row.ip_address,
        user_agent: row.user_agent,
        user_id: row.user_id,
        impersonated_by: row.impersonated_by,
        active_organization_id: row.active_organization_id,
        active: row.active,
    }
}

/// The token of a new session, made from a UUID.
pub fn session_token(token_uuid: &str) -> (t: String)
    ensures
        t@ == session_token_text(token_uuid@),
{
    String::from_str("session_").concat(token_uuid)
}

/// The row for a new session, given a fresh identifier, the UUID of its token
/// and the time.
pub fn new_session_row_at(data: CreateSession, fresh_id: String, token_uuid: String, now: String) -> (r: NewSessionRow)
    requires
        representable(data.expires_at),
    ensures
        is_new_session_row(data, fresh_id, token_uuid, now, r),
{
    let token = session_token(token_uuid.as_str());
    let expires_at = format_datetime(data.expires_at);
    NewSessionRow {
        id: fresh_id,
        user_id: data.user_id,
        token,
        ip_address: data.ip_address,
        user_agent: data.user_agent,
        expires_at,
        active_organization_id: data.active_organization_id,
        impersonated_by: data.impersonated_by,
        active: true,
        created_at: now.clone(),
        updated_at: now,
    }
}

/// The row for a new session, with a fresh identifier, a fresh token and the
/// current time.
pub fn new_session_row(data: CreateSession) -> (r: NewSessionRow)
    requires
        representable(data.expires_at),
    ensures
        is_uuid_text(r.id@),
        is_instant_text(r.created_at@),
        exists|token_uuid: String|
            is_uuid_text(token_uuid@) && #[trigger] is_new_session_row(
                data,
                r.id,
                token_uuid,
                r.created_at,
                r,
            ),
{
    let now = now_iso();
    let fresh_id = new_id();
    let token_uuid = new_id();
    new_session_row_at(data, fresh_id, token_uuid, now)
}

/// A session written with `create` and read back belongs to the user it was
/// created for, is active, keeps its client data, active organization and
/// expiry time (when that has a four-digit year), and has a token made of
/// `session_` and a version 4 UUID.
pub proof fn lemma_session_read_back(
    data: CreateSession,
    fresh_id: String,
    token_uuid: String,
    now: String,
    row: NewSessionRow,
    s: Session,
)
    requires
        is_uuid_text(token_uuid@),
        is_new_session_row(data, fresh_id, token_uuid, now, row),
        is_session_of_row(row.as_stored(), s),
    ensures
        s.id == fresh_id,
        s.user_id == data.user_id,
        s.active,
        s.ip_address == data.ip_address,
        s.user_agent == data.user_agent,
        s.impersonated_by == data.impersonated_by,
        s.active_organization_id == data.active_organization_id,
        s.token@.len() == 44,
        s.token@.subrange(0, 8) == "session_"@,
        is_uuid_text(s.token@.subrange(8, 44)),
        four_digit_year(data.expires_at) ==> s.expires_at == data.expires_at,
{
    reveal_strlit("session_");
    assert(s.token@.subrange(0, 8) =~= "session_"@);
    assert(s.token@.subrange(8, 44) =~= token_uuid@);
}

} // verus!
