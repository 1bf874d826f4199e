//! Conversions for `passkeys` rows, and for signature counters.

use crate::ids::{is_uuid_text, new_id};
use crate::models::{NewPasskeyRow, PasskeyRow};
use crate::time::{is_instant_text, now_iso, parse_datetime, stored_instant};
use crate::types::{CreatePasskey, Passkey};
use vstd::prelude::*;

verus! {

/// The stored form of a signature counter: the same 64 bits, read as signed.
pub open spec fn counter_stored(counter: u64) -> i64 {
    counter as i64
}

/// The signature counter that a stored integer reads as: the same 64 bits,
/// read as unsigned.
pub open spec fn counter_read(stored: i64) -> u64 {
    stored as u64
}

/// The passkey that a stored row reads as.
pub open spec fn is_passkey_of_row(row: PasskeyRow, p: Passkey) -> bool {
    &&& p.id == row.id
    &&& p.user_id == row.user_id
    &&& p.name == row.name
    &&& p.credential_id == row.credential_id
    &&& p.public_key == row.public_key
    &&& p.counter == counter_read(row.counter)
    &&& p.device_type == row.device_type
    &&& p.backed_up == row.backed_up
    &&& p.transports == row.transports
    &&& p.created_at == stored_instant(row.created_at@)
}

/// The row that a new passkey is written as, given its fresh identifier and
/// the time.
pub open spec fn is_new_passkey_row(data: CreatePasskey, fresh_id: String, now: String, r: NewPasskeyRow) -> bool {
    &&& r.id == fresh_id
    &&& r.user_id == data.user_id
    &&& r.name == data.name
    &&& r.credential_id == data.credential_id
    &&& r.public_key == data.public_key
    &&& r.counter == counter_stored(data.counter)
    &&& r.device_type == data.device_type
    &&& r.backed_up == data.backed_up
    &&& r.transports == data.transports
    &&& r.created_at == now
}

/// The integer a signature counter is stored as.
pub fn counter_to_stored(counter: u64) -> (stored: i64)
    ensures
        stored == counter_stored(counter),
{
    counter as i64
}

/// The signature counter a stored integer reads as.
pub fn counter_from_stored(stored: i64) -> (counter: u64)
    ensures
        counter == counter_read(stored),
{
    stored as u64
}

/// Read a stored passkey row.
pub fn passkey_from_row(row: PasskeyRow) -> (p: Passkey)
    ensures
        is_passkey_of_row(row, p),
{
    let counter = counter_from_stored(row.counter);
    let created_at = parse_datetime(row.created_at.as_str());
    Passkey {
        id: row.id,
        user_id: row.user_id,
        name: row.name,
        credential_id: row.credential_id,
        public_key: row.public_key,
        counter,
        device_type: row.device_type,
        backed_up: row.backed_up,
        transports: row.transports,
        created_at,
    }
}

/// The row for a new passkey, given a fresh identifier and the time.
pub fn new_passkey_row_at(data: CreatePasskey, fresh_id: String, now: String) -> (r: NewPasskeyRow)
    ensures
        is_new_passkey_row(data, fresh_id, now, r),
{
    let counter = counter_to_stored(data.counter);
    NewPasskeyRow {
        id: fresh_id,
        user_id: data.user_id,
        name: data.name,
        credential_id: data.credential_id,
        public_key: data.public_key,
        counter,
        device_type: data.device_type,
        backed_up: data.backed_up,
        transports: data.transports,
        created_at: now,
    }
}

/// The row for a new passkey, with a fresh identifier and the current time.
pub fn new_passkey_row(data: CreatePasskey) -> (r: NewPasskeyRow)
    ensures
        is_uuid_text(r.id@),
        is_instant_text(r.created_at@),
        is_new_passkey_row(data, r.id, r.created_at, r),
{
    let now = now_iso();
    let fresh_id = new_id();
    new_passkey_row_at(data, fresh_id, now)
}

/// Storing a signature counter and reading it back gives the same counter,
/// for every 64-bit value, also those above `i64::MAX`.
pub proof fn lemma_counter_round_trip(counter: u64)
    ensures
        counter_read(counter_stored(counter)) == counter,
{
    assert((counter as i64) as u64 == counter) by (bit_vector);
}

/// Reading a stored integer as a counter and storing it again gives the same
/// integer, negative ones included.
pub proof fn lemma_stored_counter_round_trip(stored: i64)
    ensures
        counter_stored(counter_read(stored)) == stored,
{
    assert((stored as u64) as i64 == stored) by (bit_vector);
}

/// Counters up to `i64::MAX` are stored as the same number.
pub proof fn lemma_small_counter_stored_unchanged(counter: u64)
    requires
        counter <= i64::MAX,
    ensures
        counter_stored(counter) == counter,
{
    assert(counter <= 0x7fff_ffff_ffff_ffffu64 ==> (counter as i64) == counter) by (bit_vector);
}

/// A passkey written with `create` and read back keeps its user, name,
/// credential, public key, device type, backup flag, transports, and its
/// signature counter, whatever its value.
pub proof fn lemma_passkey_read_back(data: CreatePasskey, fresh_id: String, now: String, row: NewPasskeyRow, p: Passkey)
    requires
        is_new_passkey_row(data, fresh_id, now, row),
        is_passkey_of_row(row.as_stored(), p),
    ensures
        p.id == fresh_id,
        p.user_id == data.user_id,
        p.name == data.name,
        p.credential_id == data.credential_id,
        p.public_key == data.public_key,
        p.counter == data.counter,
        p.device_type == data.device_type,
        p.backed_up == data.backed_up,
        p.transports == data.transports,
{
    lemma_counter_round_trip(data.counter);
}

} // verus!
