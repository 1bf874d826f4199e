//! Conversions for `member` rows, and for the counts of members.

use crate::ids::{is_uuid_text, new_id};
use crate::models::{MemberRow, NewMemberRow};
use crate::time::{is_instant_text, now_iso, parse_datetime, stored_instant};
use crate::types::{CreateMember, Member};
use vstd::prelude::*;

verus! {

/// The role whose members own an organization.
pub const OWNER_ROLE: &'static str = "owner";

/// The membership that a stored row reads as.
pub open spec fn is_member_of_row(row: MemberRow, m: Member) -> bool {
    &&& m.id == row.id
    &&& m.organization_id == row.organization_id
    &&& m.user_id == row.user_id
    &&& m.role == row.role
    &&& m.created_at == stored_instant(row.created_at@)
}

/// The row that a new membership is written as, given its fresh identifier
/// and the time.
pub open spec fn is_new_member_row(data: CreateMember, fresh_id: String, now: String, r: NewMemberRow) -> bool {
    &&& r.id == fresh_id
    &&& r.organization_id == data.organization_id
    &&& r.user_id == data.user_id
    &&& r.role == data.role
    &&& r.created_at == now
}

/// The number of rows that a `COUNT(*)` result stands for: the count itself,
/// or zero when it does not fit in a `usize` (a negative count included).
pub open spec fn count_of(count: i64) -> usize {
    if 0 <= count && count <= usize::MAX {
        count as usize
    } else {
        0
    }
}

/// Read a stored membership row.
pub fn member_from_row(row: MemberRow) -> (m: Member)
    ensures
        is_member_of_row(row, m),
{
    let created_at = parse_datetime(row.created_at.as_str());
    Member {
        id: row.id,
        organization_id: row.organization_id,
        user_id: row.user_id,
        role: row.role,
        created_at,
    }
}

/// The row for a new membership, given a fresh identifier and the time.
pub fn new_member_row_at(data: CreateMember, fresh_id: String, now: String) -> (r: NewMemberRow)
    ensures
        is_new_member_row(data, fresh_id, now, r),
{
    NewMemberRow {
        id: fresh_id,
        organization_id: data.organization_id,
        user_id: data.user_id,
        role: data.role,
        created_at: now,
    }
}

/// The row for a new membership, with a fresh identifier and the current time.
pub fn new_member_row(data: CreateMember) -> (r: NewMemberRow)
    ensures
        is_uuid_text(r.id@),
        is_instant_text(r.created_at@),
        is_new_member_row(data, r.id, r.created_at, r),
{
    let now = now_iso();
    let fresh_id = new_id();
    new_member_row_at(data, fresh_id, now)
}

/// Turn a `COUNT(*)` result into a number of rows.
pub fn count_from_sql(count: i64) -> (n: usize)
    ensures
        n == count_of(count),
{
    if 0 <= count && (count as u64) <= (usize::MAX as u64) {
        count as usize
    } else {
        0
    }
}

/// A membership written with `create` and read back keeps its organization,
/// user and role.
pub proof fn lemma_member_read_back(data: CreateMember, fresh_id: String, now: String, row: NewMemberRow, m: Member)
    requires
        is_new_member_row(data, fresh_id, now, row),
        is_member_of_row(row.as_stored(), m),
    ensures
        m.id == fresh_id,
        m.organization_id == data.organization_id,
        m.user_id == data.user_id,
        m.role == data.role,
{
}

/// A count that fits is the number of rows; a negative count is no rows.
pub proof fn lemma_count_of(count: i64)
    ensures
        0 <= count <= usize::MAX ==> count_of(count) == count,
        count < 0 ==> count_of(count) == 0,
{
}

} // verus!
