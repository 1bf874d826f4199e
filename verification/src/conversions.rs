//! Conversions between table rows and entities.
//!
//! Reading a row gives an entity: RFC 3339 text becomes an instant (the epoch
//! when it is unreadable), JSON text becomes a value. Writing an entity gives a
//! row: instants become RFC 3339 text, values become JSON text, new rows get a
//! fresh UUID and the current time. Each writing conversion comes twice: one
//! that is handed the fresh identifier and the time (and whose result is fixed
//! by them), and one that draws them.

use crate::time::{format_datetime, four_digit_year, is_text_of, parse_datetime, representable, stored_instant, Timestamp};
use vstd::prelude::*;

pub mod account;
pub mod api_key;
pub mod invitation;
pub mod member;
pub mod organization;
pub mod passkey;
pub mod session;
pub mod two_factor;
pub mod user;
pub mod verification;

verus! {

/// `Some(Some(x))` for `Some(x)`, `None` for `None`: a present field becomes a
/// column set to that value.
pub open spec fn set_column<T>(o: Option<T>) -> Option<Option<T>> {
    match o {
        Some(x) => Some(Some(x)),
        None => None,
    }
}

/// `text` is what an optional instant is stored as: none for none, and
/// otherwise the instant's stored text.
pub open spec fn opt_is_text_of(o: Option<Timestamp>, text: Option<String>) -> bool {
    match o {
        Some(t) => text matches Some(s) && is_text_of(t, s@),
        None => text is None,
    }
}

/// What an optional instant reads back as from its stored text: nothing for
/// nothing, and the instant itself when its year has four digits.
pub open spec fn opt_reads_back_as(o: Option<Timestamp>, r: Option<Timestamp>) -> bool {
    match o {
        Some(t) => four_digit_year(t) ==> r == Some(t),
        None => r is None,
    }
}

/// The instant read from an optional stored text.
pub open spec fn opt_stored_instant(o: Option<String>) -> Option<Timestamp> {
    match o {
        Some(s) => Some(stored_instant(s@)),
        None => None,
    }
}

/// An absent instant, or a representable one.
pub open spec fn opt_representable(o: Option<Timestamp>) -> bool {
    match o {
        Some(t) => representable(t),
        None => true,
    }
}

/// The JSON text stored for optional metadata: the value's text, or none when
/// there is no value.
pub open spec fn metadata_text_is(value: Option<serde_json::Value>, text: Option<String>) -> bool {
    match value {
        Some(v) => text matches Some(t) && crate::json::json_render(v) == Some(t@),
        None => text is None,
    }
}

/// The JSON text of optional metadata, or none when there is none.
pub(crate) fn metadata_text(value: &Option<serde_json::Value>) -> (r: Option<String>)
    ensures
        metadata_text_is(*value, r),
{
    match value {
        Some(v) => crate::json::render_json(v),
        None => None,
    }
}

/// Wrap a present value as a column to set.
pub fn set_column_of<T>(o: Option<T>) -> (r: Option<Option<T>>)
    ensures
        r == set_column(o),
{
    match o {
        Some(x) => Some(Some(x)),
        None => None,
    }
}

/// Format an optional instant as optional RFC 3339 text.
pub fn format_opt_datetime(o: &Option<Timestamp>) -> (r: Option<String>)
    requires
        opt_representable(*o),
    ensures
        opt_is_text_of(*o, r),
{
    match o {
        Some(t) => Some(format_datetime(*t)),
        None => None,
    }
}

/// Parse optional RFC 3339 text as an optional instant.
pub fn parse_opt_datetime(o: &Option<String>) -> (r: Option<Timestamp>)
    ensures
        r == opt_stored_instant(*o),
        opt_representable(r),
{
    match o {
        Some(s) => Some(parse_datetime(s.as_str())),
        None => None,
    }
}

} // verus!
