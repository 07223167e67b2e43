//! Message formatting for the request context of an API error.

use std::borrow::Cow;

use vstd::prelude::*;

use crate::error::redaction::{truncate_for_display, MAX_PAYLOAD_DISPLAY_LEN};

verus! {

/// A payload as it appears in an error message: cut after
/// [`MAX_PAYLOAD_DISPLAY_LEN`] characters and ended by an ellipsis when
/// longer.
pub open spec fn display_cut(s: Seq<char>) -> Seq<char> {
    if s.len() > MAX_PAYLOAD_DISPLAY_LEN {
        s.subrange(0, MAX_PAYLOAD_DISPLAY_LEN as int).push('\u{2026}')
    } else {
        s
    }
}

/// The suffix an API error message gets from its method and its rendered
/// parameters: empty when both are absent, so the message without context
/// is exactly `API error <code>: <message>`.
pub open spec fn api_context_text(method: Option<Seq<char>>, params: Option<Seq<char>>) -> Seq<char> {
    match (method, params) {
        (None, None) => Seq::<char>::empty(),
        (Some(m), None) => " (method="@ + m + ")"@,
        (None, Some(p)) => " (params="@ + display_cut(p) + ")"@,
        (Some(m), Some(p)) => " (method="@ + m + ", params="@ + display_cut(p) + ")"@,
    }
}

fn append_cow(r: &mut String, c: &Cow<'_, str>)
    ensures
        final(r)@ == old(r)@ + c@,
{
    match c {
        Cow::Borrowed(b) => r.append(b),
        Cow::Owned(o) => r.append(o.as_str()),
    }
}

/// Format the optional `method` / `params` context of an API error;
/// `params` is the JSON text of the request parameters.
pub fn fmt_api_context(method: &Option<String>, params: &Option<String>) -> (r: String)
    ensures
        r@ == api_context_text(
            match method {
                Some(m) => Some(m@),
                None => None,
            },
            match params {
                Some(p) => Some(p@),
                None => None,
            },
        ),
{
    let mut r = String::new();
    match (method, params) {
        (None, None) => {},
        (Some(m), None) => {
            r.append(" (method=");
            r.append(m.as_str());
            r.append(")");
        },
        (None, Some(p)) => {
            r.append(" (params=");
            let cut = truncate_for_display(p.as_str());
            append_cow(&mut r, &cut);
            r.append(")");
        },
        (Some(m), Some(p)) => {
            r.append(" (method=");
            r.append(m.as_str());
            r.append(", params=");
            let cut = truncate_for_display(p.as_str());
            append_cow(&mut r, &cut);
            r.append(")");
        },
    }
    r
}

} // verus!
