//! Conversions for `verifications` rows.

use crate::ids::{is_uuid_text, new_id};
use crate::models::{NewVerificationRow, VerificationRow};
use crate::time::{
    format_datetime, is_instant_text, now_iso, parse_datetime, representable, is_text_of, four_digit_year,
    stored_instant,
};
use crate::types::{CreateVerification, Verification};
use vstd::prelude::*;

verus! {

/// The verification token that a stored row reads as.
pub open spec fn is_verification_of_row(row: VerificationRow, v: Verification) -> bool {
    &&& v.id == row.id
    &&& v.identifier == row.identifier
    &&& v.value == row.value
    &&& v.expires_at == stored_instant(row.expires_at@)
    &&& v.created_at == stored_instant(row.created_at@)
    &&& v.updated_at == stored_instant(row.updated_at@)
}

/// The row that a new verification token is written as, given its fresh
/// identifier and the time.
pub open spec fn is_new_verification_row(
    data: CreateVerification,
    fresh_id: String,
    now: String,
    r: NewVerificationRow,
) -> bool {
    &&& r.id == fresh_id
    &&& r.identifier == data.identifier
    &&& r.value == data.value
    &&& is_text_of(data.expires_at, r.expires_at@)
    &&& r.created_at == now
    &&& r.updated_at == now
}

/// Read a stored verification row.
pub fn verification_from_row(row: VerificationRow) -> (v: Verification)
    ensures
        is_verification_of_row(row, v),
{
    let expires_at = parse_datetime(row.expires_at.as_str());
    let created_at = parse_datetime(row.created_at.as_str());
    let updated_at = parse_datetime(row.updated_at.as_str());
    Verification {
        id: row.id,
        identifier: row.identifier,
        value: row.value,
        expires_at,
        created_at,
        updated_at,
    }
}

/// The row for a new verification token, given a fresh identifier and the time.
pub fn new_verification_row_at(data: CreateVerification, fresh_id: String, now: String) -> (r: NewVerificationRow)
    requires
        representable(data.expires_at),
    ensures
        is_new_verification_row(data, fresh_id, now, r),
{
    let expires_at = format_datetime(data.expires_at);
    NewVerificationRow {
        id: fresh_id,
        identifier: data.identifier,
        value: data.value,
        expires_at,
        created_at: now.clone(),
        updated_at: now,
    }
}

/// The row for a new verification token, with a fresh identifier and the
/// current time.
pub fn new_verification_row(data: CreateVerification) -> (r: NewVerificationRow)
    requires
        representable(data.expires_at),
    ensures
        is_uuid_text(r.id@),
        is_instant_text(r.created_at@),
        is_new_verification_row(data, r.id, r.created_at, r),
{
    let now = now_iso();
    let fresh_id = new_id();
    new_verification_row_at(data, fresh_id, now)
}

/// A verification token written with `create` and read back keeps its
/// identifier and value, and its expiry time when that has a four-digit year.
pub proof fn lemma_verification_read_back(
    data: CreateVerification,
    fresh_id: String,
    now: String,
    row: NewVerificationRow,
    v: Verification,
)
    requires
        is_new_verification_row(data, fresh_id, now, row),
        is_verification_of_row(row.as_stored(), v),
    ensures
        v.id == fresh_id,
        v.identifier == data.identifier,
        v.value == data.value,
        four_digit_year(data.expires_at) ==> v.expires_at == data.expires_at,
{
}

/// What consuming a verification token does with the row found for its
/// identifier and value: delete that row (by its identifier) and hand it back
/// read as a token; nothing when no row was found.
pub open spec fn is_consumption_of(found: Option<VerificationRow>, r: Option<(String, Verification)>) -> bool {
    match found {
        Some(row) => r matches Some((id, v)) && id == row.id && is_verification_of_row(row, v),
        None => r is None,
    }
}

/// Decide what consuming a verification token does with the row found: the
/// identifier of the row to delete, and the token to hand back.
pub fn consume_found(found: Option<VerificationRow>) -> (r: Option<(String, Verification)>)
    ensures
        is_consumption_of(found, r),
{
    match found {
        Some(row) => {
            let id = row.id.clone();
            Some((id, verification_from_row(row)))
        },
        None => None,
    }
}

/// A consumed token is the very row that is deleted: the token handed back
/// carries the identifier of the deleted row.
pub proof fn lemma_consumed_is_deleted(found: Option<VerificationRow>, r: Option<(String, Verification)>)
    requires
        is_consumption_of(found, r),
    ensures
        r matches Some((id, v)) ==> v.id == id,
        r is Some <==> found is Some,
{
}

} // verus!
