//! Conversions for `invitation` rows and invitation states.

use crate::ids::{is_uuid_text, new_id};
use crate::models::{InvitationRow, NewInvitationRow};
use crate::time::{
    format_datetime, is_instant_text, now_iso, parse_datetime, representable, is_text_of, four_digit_year,
    stored_instant,
};
use crate::types::{CreateInvitation, Invitation, InvitationStatus};
use vstd::prelude::*;

verus! {

/// The text an invitation state is stored as.
pub open spec fn status_text(status: InvitationStatus) -> Seq<char> {
    match status {
        InvitationStatus::Pending => "pending"@,
        InvitationStatus::Accepted => "accepted"@,
        InvitationStatus::Rejected => "rejected"@,
        InvitationStatus::Canceled => "canceled"@,
    }
}

/// The invitation state a stored text reads as: `accepted`, `rejected` and
/// `canceled` as themselves, anything else as pending.
pub open spec fn status_of_text(text: Seq<char>) -> InvitationStatus {
    if text == "accepted"@ {
        InvitationStatus::Accepted
    } else if text == "rejected"@ {
        InvitationStatus::Rejected
    } else if text == "canceled"@ {
        InvitationStatus::Canceled
    } else {
        InvitationStatus::Pending
    }
}

/// The invitation that a stored row reads as.
pub open spec fn is_invitation_of_row(row: InvitationRow, i: Invitation) -> bool {
    &&& i.id == row.id
    &&& i.organization_id == row.organization_id
    &&& i.email == row.email
    &&& i.role == row.role
    &&& i.status == status_of_text(row.status@)
    &&& i.inviter_id == row.inviter_id
    &&& i.expires_at == stored_instant(row.expires_at@)
    &&& i.created_at == stored_instant(row.created_at@)
}

/// The row that a new invitation is written as, given its fresh identifier and
/// the time: every invitation starts pending.
pub open spec fn is_new_invitation_row(
    data: CreateInvitation,
    fresh_id: String,
    now: String,
    r: NewInvitationRow,
) -> bool {
    &&& r.id == fresh_id
    &&& r.organization_id == data.organization_id
    &&& r.email == data.email
    &&& r.role == data.role
    &&& r.status@ == status_text(InvitationStatus::Pending)
    &&& r.inviter_id == data.inviter_id
    &&& is_text_of(data.expires_at, r.expires_at@)
    &&& r.created_at == now
}

/// Convert an invitation state to its lowercase text.
pub fn invitation_status_to_string(status: &InvitationStatus) -> (s: String)
    ensures
        s@ == status_text(*status),
{
    match status {
        InvitationStatus::Pending => String::from_str("pending"),
        InvitationStatus::Accepted => String::from_str("accepted"),
        InvitationStatus::Rejected => String::from_str("rejected"),
        InvitationStatus::Canceled => String::from_str("canceled"),
    }
}

/// Read a stored invitation state.
pub fn invitation_status_from_text(text: &String) -> (status: InvitationStatus)
    ensures
        status == status_of_text(text@),
{
    if *text == String::from_str("accepted") {
        InvitationStatus::Accepted
    } else if *text == String::from_str("rejected") {
        InvitationStatus::Rejected
    } else if *text == String::from_str("canceled") {
        InvitationStatus::Canceled
    } else {
        InvitationStatus::Pending
    }
}

/// Read a stored invitation row.
pub fn invitation_from_row(row: InvitationRow) -> (i: Invitation)
    ensures
        is_invitation_of_row(row, i),
{
    let status = invitation_status_from_text(&row.status);
    let expires_at = parse_datetime(row.expires_at.as_str());
    let created_at = parse_datetime(row.created_at.as_str());
    Invitation {
        id: row.id,
        organization_id: row.organization_id,
        email: row.email,
        role: row.role,
        status,
        inviter_id: row.inviter_id,
        expires_at,
        created_at,
    }
}

/// The row for a new invitation, given a fresh identifier and the time.
pub fn new_invitation_row_at(data: CreateInvitation, fresh_id: String, now: String) -> (r: NewInvitationRow)
    requires
        representable(data.expires_at),
    ensures
        is_new_invitation_row(data, fresh_id, now, r),
{
    let expires_at = format_datetime(data.expires_at);
    NewInvitationRow {
        id: fresh_id,
        organization_id: data.organization_id,
        email: data.email,
        role: data.role,
        status: invitation_status_to_string(&InvitationStatus::Pending),
        inviter_id: data.inviter_id,
        expires_at,
        created_at: now,
    }
}

/// The row for a new invitation, with a fresh identifier and the current time.
pub fn new_invitation_row(data: CreateInvitation) -> (r: NewInvitationRow)
    requires
        representable(data.expires_at),
    ensures
        is_uuid_text(r.id@),
        is_instant_text(r.created_at@),
        is_new_invitation_row(data, r.id, r.created_at, r),
{
    let now = now_iso();
    let fresh_id = new_id();
    new_invitation_row_at(data, fresh_id, now)
}

/// Storing an invitation state and reading it back gives the same state.
pub proof fn lemma_status_round_trip(status: InvitationStatus)
    ensures
        status_of_text(status_text(status)) == status,
{
    reveal_strlit("pending");
    reveal_strlit("accepted");
    reveal_strlit("rejected");
    reveal_strlit("canceled");
    assert("pending"@.len() != "accepted"@.len());
    assert("pending"@.len() != "rejected"@.len());
    assert("pending"@.len() != "canceled"@.len());
    assert("rejected"@[0] != "accepted"@[0]);
    assert("canceled"@[0] != "accepted"@[0]);
    assert("canceled"@[0] != "rejected"@[0]);
}

/// Every stored text reads as one of the four states, and a text that is not
/// the text of accepted, rejected or canceled reads as pending.
pub proof fn lemma_unknown_status_is_pending(text: Seq<char>)
    requires
        text != status_text(InvitationStatus::Accepted),
        text != status_text(InvitationStatus::Rejected),
        text != status_text(InvitationStatus::Canceled),
    ensures
        status_of_text(text) == InvitationStatus::Pending,
{
}

/// An invitation written with `create` and read back is pending, and keeps
/// its organization, email, role and inviter, and its expiry time when that
/// has a four-digit year.
pub proof fn lemma_invitation_read_back(
    data: CreateInvitation,
    fresh_id: String,
    now: String,
    row: NewInvitationRow,
    i: Invitation,
)
    requires
        is_new_invitation_row(data, fresh_id, now, row),
        is_invitation_of_row(row.as_stored(), i),
    ensures
        i.id == fresh_id,
        i.status == InvitationStatus::Pending,
        i.organization_id == data.organization_id,
        i.email == data.email,
        i.role == data.role,
        i.inviter_id == data.inviter_id,
        four_digit_year(data.expires_at) ==> i.expires_at == data.expires_at,
{
    lemma_status_round_trip(InvitationStatus::Pending);
}

} // verus!
