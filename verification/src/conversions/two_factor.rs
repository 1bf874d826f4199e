//! Conversions for `two_factor` rows.

use crate::ids::{is_uuid_text, new_id};
use crate::models::{NewTwoFactorRow, TwoFactorRow};
use crate::time::{is_instant_text, now_iso, parse_datetime, stored_instant};
use crate::types::{CreateTwoFactor, TwoFactor};
use vstd::prelude::*;

verus! {

/// The two-factor record that a stored row reads as.
pub open spec fn is_two_factor_of_row(row: TwoFactorRow, t: TwoFactor) -> bool {
    &&& t.id == row.id
    &&& t.user_id == row.user_id
    &&& t.secret == row.secret
    &&& t.backup_codes == row.backup_codes
    &&& t.created_at == stored_instant(row.created_at@)
    &&& t.updated_at == stored_instant(row.updated_at@)
}

/// The row that a new two-factor record is written as, given its fresh
/// identifier and the time.
pub open spec fn is_new_two_factor_row(data: CreateTwoFactor, fresh_id: String, now: String, r: NewTwoFactorRow) -> bool {
    &&& r.id == fresh_id
    &&& r.user_id == data.user_id
    &&& r.secret == data.secret
    &&& r.backup_codes == data.backup_codes
    &&& r.created_at == now
    &&& r.updated_at == now
}

/// Read a stored two-factor row.
pub fn two_factor_from_row(row: TwoFactorRow) -> (t: TwoFactor)
    ensures
        is_two_factor_of_row(row, t),
{
    let created_at = parse_datetime(row.created_at.as_str());
    let updated_at = parse_datetime(row.updated_at.as_str());
    TwoFactor {
        id: row.id,
        user_id: row.user_id,
        secret: row.secret,
        backup_codes: row.backup_codes,
        created_at,
        updated_at,
    }
}

/// The row for a new two-factor record, given a fresh identifier and the time.
pub fn new_two_factor_row_at(data: CreateTwoFactor, fresh_id: String, now: String) -> (r: NewTwoFactorRow)
    ensures
        is_new_two_factor_row(data, fresh_id, now, r),
{
    NewTwoFactorRow {
        id: fresh_id,
        user_id: data.user_id,
        secret: data.secret,
        backup_codes: data.backup_codes,
        created_at: now.clone(),
        updated_at: now,
    }
}

/// The row for a new two-factor record, with a fresh identifier and the
/// current time.
pub fn new_two_factor_row(data: CreateTwoFactor) -> (r: NewTwoFactorRow)
    ensures
        is_uuid_text(r.id@),
        is_instant_text(r.created_at@),
        is_new_two_factor_row(data, r.id, r.created_at, r),
{
    let now = now_iso();
    let fresh_id = new_id();
    new_two_factor_row_at(data, fresh_id, now)
}

/// A two-factor record written with `create` and read back keeps its user,
/// secret and backup codes.
pub proof fn lemma_two_factor_read_back(
    data: CreateTwoFactor,
    fresh_id: String,
    now: String,
    row: NewTwoFactorRow,
    t: TwoFactor,
)
    requires
        is_new_two_factor_row(data, fresh_id, now, row),
        is_two_factor_of_row(row.as_stored(), t),
    ensures
        t.id == fresh_id,
        t.user_id == data.user_id,
        t.secret == data.secret,
        t.backup_codes == data.backup_codes,
{
}

} // verus!
