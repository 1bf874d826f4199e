//! Conversions for `organization` rows.

use super::{metadata_text, metadata_text_is, set_column, set_column_of};
use crate::ids::{is_uuid_text, new_id};
use crate::json::{json_parse, json_render, parse_json};
use crate::models::{NewOrganizationRow, OrganizationRow, UpdateOrganizationRow};
use crate::time::{is_instant_text, now_iso, parse_datetime, stored_instant};
use crate::types::{CreateOrganization, Organization, UpdateOrganization};
use vstd::prelude::*;

verus! {

/// The metadata of a stored organization: its JSON text read as a value, or
/// none when there is no text or it is not JSON.
pub open spec fn organization_metadata(text: Option<String>) -> Option<serde_json::Value> {
    match text {
        Some(t) => json_parse(t@),
        None => None,
    }
}

/// The organization that a stored row reads as.
pub open spec fn is_organization_of_row(row: OrganizationRow, o: Organization) -> bool {
    &&& o.id == row.id
    &&& o.name == row.name
    &&& o.slug == row.slug
    &&& o.logo == row.logo
    &&& o.metadata == organization_metadata(row.metadata)
    &&& o.created_at == stored_instant(row.created_at@)
    &&& o.updated_at == stored_instant(row.updated_at@)
}

/// The row that a new organization is written as, given its fresh identifier
/// and the time: the given identifier wins over the fresh one.
pub open spec fn is_new_organization_row(
    data: CreateOrganization,
    fresh_id: String,
    now: String,
    r: NewOrganizationRow,
) -> bool {
    &&& r.id == (match data.id {
        Some(i) => i,
        None => fresh_id,
    })
    &&& r.name == data.name
    &&& r.slug == data.slug
    &&& r.logo == data.logo
    &&& metadata_text_is(data.metadata, r.metadata)
    &&& r.created_at == now
    &&& r.updated_at == now
}

/// The changeset that an organization update is written as at time `now`.
pub open spec fn is_organization_update_row(
    data: UpdateOrganization,
    now: String,
    r: UpdateOrganizationRow,
) -> bool {
    &&& r.name == data.name
    &&& r.slug == data.slug
    &&& r.logo == set_column(data.logo)
    &&& match data.metadata {
        Some(v) => r.metadata matches Some(Some(m)) && json_render(v) == Some(m@),
        None => r.metadata is None,
    }
    &&& r.updated_at == Some(now)
}

/// Read a stored organization row.
pub fn organization_from_row(row: OrganizationRow) -> (o: Organization)
    ensures
        is_organization_of_row(row, o),
{
    let metadata = match &row.metadata {
        Some(text) => parse_json(text.as_str()),
        None => None,
    };
    let created_at = parse_datetime(row.created_at.as_str());
    let updated_at = parse_datetime(row.updated_at.as_str());
    Organization {
        id: row.id,
        name: row.name,
        slug: row.slug,
        logo: row.logo,
        metadata,
        created_at,
        updated_at,
    }
}

/// The row for a new organization, given a fresh identifier and the time.
pub fn new_organization_row_at(data: CreateOrganization, fresh_id: String, now: String) -> (r: NewOrganizationRow)
    ensures
        is_new_organization_row(data, fresh_id, now, r),
{
    let metadata = metadata_text(&data.metadata);
    let id = match data.id {
        Some(i) => i,
        None => fresh_id,
    };
    NewOrganizationRow {
        id,
        name: data.name,
        slug: data.slug,
        logo: data.logo,
        metadata,
        created_at: now.clone(),
        updated_at: now,
    }
}

/// The row for a new organization, with a fresh identifier (unless one is
/// given) and the current time.
pub fn new_organization_row(data: CreateOrganization) -> (r: NewOrganizationRow)
    ensures
        is_new_organization_row(data, r.id, r.created_at, r),
        data.id is None ==> is_uuid_text(r.id@),
        is_instant_text(r.created_at@),
{
    let now = now_iso();
    let fresh_id = match &data.id {
        Some(id) => id.clone(),
        None => new_id(),
    };
    new_organization_row_at(data, fresh_id, now)
}

/// The changeset for an organization update at time `now`.
pub fn organization_update_row_at(data: UpdateOrganization, now: String) -> (r: UpdateOrganizationRow)
    ensures
        is_organization_update_row(data, now, r),
{
    let metadata = set_column_of(metadata_text(&data.metadata));
    UpdateOrganizationRow {
        name: data.name,
        slug: data.slug,
        logo: set_column_of(data.logo),
        metadata,
        updated_at: Some(now),
    }
}

/// The changeset for an organization update at the current time.
pub fn organization_update_row(data: UpdateOrganization) -> (r: UpdateOrganizationRow)
    ensures
        r.updated_at matches Some(now) && is_instant_text(now@) && is_organization_update_row(data, now, r),
{
    let now = now_iso();
    organization_update_row_at(data, now)
}

/// An organization written with `create` and read back keeps its identifier
/// (or the fresh one), name, slug and logo, and has no metadata when none was
/// given.
pub proof fn lemma_organization_read_back(
    data: CreateOrganization,
    fresh_id: String,
    now: String,
    row: NewOrganizationRow,
    o: Organization,
)
    requires
        is_new_organization_row(data, fresh_id, now, row),
        is_organization_of_row(row.as_stored(), o),
    ensures
        o.id == (match data.id {
            Some(i) => i,
            None => fresh_id,
        }),
        o.name == data.name,
        o.slug == data.slug,
        o.logo == data.logo,
        data.metadata is None ==> o.metadata is None,
{
}

/// The stored organization row that a changeset leaves: a column the
/// changeset sets takes its value, every other column keeps its own.
pub open spec fn apply_organization_update(row: OrganizationRow, upd: UpdateOrganizationRow) -> OrganizationRow {
    OrganizationRow {
        name: match upd.name {
            Some(v) => v,
            None => row.name,
        },
        slug: match upd.slug {
            Some(v) => v,
            None => row.slug,
        },
        logo: match upd.logo {
            Some(v) => v,
            None => row.logo,
        },
        metadata: match upd.metadata {
            Some(v) => v,
            None => row.metadata,
        },
        updated_at: match upd.updated_at {
            Some(v) => v,
            None => row.updated_at,
        },
        ..row
    }
}

/// An organization updated and read back has the name, slug and logo the
/// update gave, keeps those it did not give, keeps its identifier, and keeps
/// its metadata when the update gave none.
pub proof fn lemma_organization_update_read_back(
    data: UpdateOrganization,
    now: String,
    upd: UpdateOrganizationRow,
    row: OrganizationRow,
    o: Organization,
)
    requires
        is_organization_update_row(data, now, upd),
        is_organization_of_row(apply_organization_update(row, upd), o),
    ensures
        o.id == row.id,
        o.name == (match data.name {
            Some(n) => n,
            None => row.name,
        }),
        o.slug == (match data.slug {
            Some(s) => s,
            None => row.slug,
        }),
        o.logo == (match data.logo {
            Some(l) => Some(l),
            None => row.logo,
        }),
        data.metadata is None ==> o.metadata == organization_metadata(row.metadata),
{
}

} // verus!
