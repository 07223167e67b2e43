//! Sensitive-value redaction helpers for enriched error contexts.
//!
//! An API error may carry the originating request `params` and the
//! server's response. Authentication and signed private requests contain
//! secrets that must never reach logs, so every value stored under a
//! sensitive key is replaced before the error is built.

use std::borrow::Cow;

use vstd::prelude::*;

use crate::json::{json_eq, JsonValue};
use crate::text::{eq_ignore_ascii_case, owned, push_char, same_text_ignore_ascii_case};

verus! {

/// Replacement string written in place of any redacted value.
pub const REDACTION_MARKER: &'static str = "***";

/// Maximum length, in characters, of any payload rendered inside an error
/// message; longer payloads are cut and get an ellipsis.
pub const MAX_PAYLOAD_DISPLAY_LEN: usize = 512;

/// Keys whose values are redacted, compared without ASCII case, at any
/// depth: `access_token`, `refresh_token`, `client_secret`, `signature`
/// and `password`.
pub open spec fn sensitive_key(k: Seq<char>) -> bool {
    ||| eq_ignore_ascii_case(k, "access_token"@)
    ||| eq_ignore_ascii_case(k, "refresh_token"@)
    ||| eq_ignore_ascii_case(k, "client_secret"@)
    ||| eq_ignore_ascii_case(k, "signature"@)
    ||| eq_ignore_ascii_case(k, "password"@)
}

/// `v` is the string `***`.
pub open spec fn is_marker(v: JsonValue) -> bool {
    match v {
        JsonValue::String(s) => s@ == "***"@,
        _ => false,
    }
}

/// `b` is `a` with the value of every sensitive object key, at any depth,
/// replaced by `***`; everything else is kept as it was.
pub open spec fn redacted(a: JsonValue, b: JsonValue) -> bool
    decreases a,
{
    match a {
        JsonValue::Object(xs) => match b {
            JsonValue::Object(ys) => redacted_fields(xs@, ys@),
            _ => false,
        },
        JsonValue::Array(xs) => match b {
            JsonValue::Array(ys) => redacted_items(xs@, ys@),
            _ => false,
        },
        _ => json_eq(a, b),
    }
}

/// Array items redacted one by one.
pub open spec fn redacted_items(xs: Seq<JsonValue>, ys: Seq<JsonValue>) -> bool
    decreases xs,
{
    if xs.len() == 0 {
        ys.len() == 0
    } else {
        &&& ys.len() == xs.len()
        &&& redacted_items(xs.drop_last(), ys.drop_last())
        &&& redacted(xs.last(), ys.last())
    }
}

/// Object entries redacted one by one: keys are kept, sensitive values
/// become `***`, other values are redacted in turn.
pub open spec fn redacted_fields(xs: Seq<(String, JsonValue)>, ys: Seq<(String, JsonValue)>) -> bool
    decreases xs,
{
    if xs.len() == 0 {
        ys.len() == 0
    } else {
        &&& ys.len() == xs.len()
        &&& redacted_fields(xs.drop_last(), ys.drop_last())
        &&& ys.last().0@ == xs.last().0@
        &&& if sensitive_key(xs.last().0@) {
            is_marker(ys.last().1)
        } else {
            redacted(xs.last().1, ys.last().1)
        }
    }
}

/// Every sensitive object key, at any depth, holds `***`.
pub open spec fn no_secrets(v: JsonValue) -> bool
    decreases v,
{
    match v {
        JsonValue::Object(xs) => no_secrets_fields(xs@),
        JsonValue::Array(xs) => no_secrets_items(xs@),
        _ => true,
    }
}

/// No array item holds a secret.
pub open spec fn no_secrets_items(xs: Seq<JsonValue>) -> bool
    decreases xs,
{
    xs.len() > 0 ==> no_secrets_items(xs.drop_last()) && no_secrets(xs.last())
}

/// No object entry holds a secret.
pub open spec fn no_secrets_fields(xs: Seq<(String, JsonValue)>) -> bool
    decreases xs,
{
    xs.len() > 0 ==> {
        &&& no_secrets_fields(xs.drop_last())
        &&& if sensitive_key(xs.last().0@) {
            is_marker(xs.last().1)
        } else {
            no_secrets(xs.last().1)
        }
    }
}

/// No object key, at any depth, is sensitive.
pub open spec fn no_sensitive_keys(v: JsonValue) -> bool
    decreases v,
{
    match v {
        JsonValue::Object(xs) => no_sensitive_keys_fields(xs@),
        JsonValue::Array(xs) => no_sensitive_keys_items(xs@),
        _ => true,
    }
}

/// No array item has a sensitive key.
pub open spec fn no_sensitive_keys_items(xs: Seq<JsonValue>) -> bool
    decreases xs,
{
    xs.len() > 0 ==> no_sensitive_keys_items(xs.drop_last()) && no_sensitive_keys(xs.last())
}

/// No object entry has a sensitive key.
pub open spec fn no_sensitive_keys_fields(xs: Seq<(String, JsonValue)>) -> bool
    decreases xs,
{
    xs.len() > 0 ==> {
        &&& no_sensitive_keys_fields(xs.drop_last())
        &&& !sensitive_key(xs.last().0@)
        &&& no_sensitive_keys(xs.last().1)
    }
}

/// `key` is one of the sensitive keys, compared without ASCII case.
pub fn is_sensitive_key(key: &str) -> (r: bool)
    ensures
        r == sensitive_key(key@),
{
    same_text_ignore_ascii_case(key, "access_token")
        || same_text_ignore_ascii_case(key, "refresh_token")
        || same_text_ignore_ascii_case(key, "client_secret")
        || same_text_ignore_ascii_case(key, "signature")
        || same_text_ignore_ascii_case(key, "password")
}

/// The marker value.
fn marker() -> (r: JsonValue)
    ensures
        is_marker(r),
{
    JsonValue::String(owned(REDACTION_MARKER))
}

/// Recursively redact sensitive values inside a JSON payload.
///
/// The comparison is case-insensitive and performed on object keys only.
/// Arrays and nested objects are traversed; scalar values that are not
/// under a sensitive key are left untouched.
pub fn redact_params(value: JsonValue) -> (r: JsonValue)
    ensures
        redacted(value, r),
    decreases value,
{
    let ghost whole = value;
    match value {
        JsonValue::Object(mut fields) => {
            let ghost orig_vec = fields;
            let ghost orig = fields@;
            let n = fields.len();
            let mut rev: Vec<(String, JsonValue)> = Vec::new();
            while fields.len() > 0
                invariant
                    orig.len() == n,
                    fields@ == orig.subrange(0, fields@.len() as int),
                    rev@.len() + fields@.len() == n,
                    forall|m: int| 0 <= m < rev@.len() ==> #[trigger] rev@[m] == orig[n - 1 - m],
                decreases fields@.len(),
            {
                let x = fields.pop().unwrap();
                rev.push(x);
            }
            let mut out: Vec<(String, JsonValue)> = Vec::new();
            while rev.len() > 0
                invariant
                    orig.len() == n,
                    whole == JsonValue::Object(orig_vec),
                    whole == value,
                    orig == orig_vec@,
                    rev@.len() + out@.len() == n,
                    forall|m: int| 0 <= m < rev@.len() ==> #[trigger] rev@[m] == orig[n - 1 - m],
                    redacted_fields(orig.subrange(0, out@.len() as int), out@),
                decreases rev@.len(),
            {
                let k = out.len();
                let (key, v) = rev.pop().unwrap();
                proof {
                    assert(rev@.len() == n - 1 - k);
                    vstd::std_specs::vec::axiom_vec_index_decreases(orig_vec, k as int);
                    assert(decreases_to!(whole => whole->Object_0));
                    assert((key, v) == orig[k as int]);
                    assert(decreases_to!(orig_vec[k as int] => orig_vec[k as int].1));
                }
                let ghost before = out@;
                if is_sensitive_key(key.as_str()) {
                    out.push((key, marker()));
                } else {
                    let rv = redact_params(v);
                    out.push((key, rv));
                }
                proof {
                    assert(orig.subrange(0, k + 1).drop_last() =~= orig.subrange(0, k as int));
                    assert(out@.drop_last() =~= before);
                }
            }
            assert(orig.subrange(0, n as int) =~= orig);
            JsonValue::Object(out)
        },
        JsonValue::Array(mut items) => {
            let ghost orig_vec = items;
            let ghost orig = items@;
            let n = items.len();
            let mut rev: Vec<JsonValue> = Vec::new();
            while items.len() > 0
                invariant
                    orig.len() == n,
                    items@ == orig.subrange(0, items@.len() as int),
                    rev@.len() + items@.len() == n,
                    forall|m: int| 0 <= m < rev@.len() ==> #[trigger] rev@[m] == orig[n - 1 - m],
                decreases items@.len(),
            {
                let x = items.pop().unwrap();
                rev.push(x);
            }
            let mut out: Vec<JsonValue> = Vec::new();
            while rev.len() > 0
                invariant
                    orig.len() == n,
                    whole == JsonValue::Array(orig_vec),
                    whole == value,
                    orig == orig_vec@,
                    rev@.len() + out@.len() == n,
                    forall|m: int| 0 <= m < rev@.len() ==> #[trigger] rev@[m] == orig[n - 1 - m],
                    redacted_items(orig.subrange(0, out@.len() as int), out@),
                decreases rev@.len(),
            {
                let k = out.len();
                let v = rev.pop().unwrap();
                proof {
                    assert(rev@.len() == n - 1 - k);
                    vstd::std_specs::vec::axiom_vec_index_decreases(orig_vec, k as int);
                    assert(v == orig[k as int]);
                    assert(decreases_to!(whole => whole->Array_0));
                    assert(whole->Array_0 == orig_vec);
                    assert(decreases_to!(orig_vec => orig_vec[k as int]));
                    assert(decreases_to!(whole => v));
                    assert(decreases_to!(whole => whole->Array_0));
                }
                let ghost before = out@;
                let rv = redact_params(v);
                out.push(rv);
                proof {
                    assert(orig.subrange(0, k + 1).drop_last() =~= orig.subrange(0, k as int));
                    assert(out@.drop_last() =~= before);
                }
            }
            assert(orig.subrange(0, n as int) =~= orig);
            JsonValue::Array(out)
        },
        other => other,
    }
}

/// Truncate a string to [`MAX_PAYLOAD_DISPLAY_LEN`] characters, adding an
/// ellipsis, for safe inclusion in error messages. Shorter inputs are
/// borrowed unchanged.
pub fn truncate_for_display(s: &str) -> (r: Cow<'_, str>)
    ensures
        s@.len() <= MAX_PAYLOAD_DISPLAY_LEN ==> r is Borrowed && r@ == s@,
        s@.len() > MAX_PAYLOAD_DISPLAY_LEN ==> r is Owned && r@ == s@.subrange(
            0,
            MAX_PAYLOAD_DISPLAY_LEN as int,
        ).push('\u{2026}'),
{
    let n = s.unicode_len();
    if n > MAX_PAYLOAD_DISPLAY_LEN {
        let head = s.substring_char(0, MAX_PAYLOAD_DISPLAY_LEN);
        let mut truncated = owned(head);
        push_char(&mut truncated, '\u{2026}');
        Cow::Owned(truncated)
    } else {
        Cow::Borrowed(s)
    }
}

} // verus!

verus! {

/// A redacted document holds no secret: every sensitive key, at any depth,
/// holds `***`.
pub proof fn lemma_redacted_has_no_secrets(a: JsonValue, b: JsonValue)
    requires
        redacted(a, b),
    ensures
        no_secrets(b),
    decreases a,
{
    match a {
        JsonValue::Object(xs) => {
            let ys = b->Object_0;
            lemma_redacted_fields_have_no_secrets(xs@, ys@);
        },
        JsonValue::Array(xs) => {
            let ys = b->Array_0;
            lemma_redacted_items_have_no_secrets(xs@, ys@);
        },
        _ => {},
    }
}

/// Redacted array items hold no secret.
pub proof fn lemma_redacted_items_have_no_secrets(xs: Seq<JsonValue>, ys: Seq<JsonValue>)
    requires
        redacted_items(xs, ys),
    ensures
        no_secrets_items(ys),
    decreases xs,
{
    if xs.len() > 0 {
        lemma_redacted_items_have_no_secrets(xs.drop_last(), ys.drop_last());
        lemma_redacted_has_no_secrets(xs.last(), ys.last());
    }
}

/// Redacted object entries hold no secret.
pub proof fn lemma_redacted_fields_have_no_secrets(
    xs: Seq<(String, JsonValue)>,
    ys: Seq<(String, JsonValue)>,
)
    requires
        redacted_fields(xs, ys),
    ensures
        no_secrets_fields(ys),
    decreases xs,
{
    if xs.len() > 0 {
        lemma_redacted_fields_have_no_secrets(xs.drop_last(), ys.drop_last());
        if !sensitive_key(xs.last().0@) {
            lemma_redacted_has_no_secrets(xs.last().1, ys.last().1);
        }
    }
}

/// Every document is the same document as itself.
pub proof fn lemma_json_eq_refl(a: JsonValue)
    ensures
        json_eq(a, a),
    decreases a,
{
    match a {
        JsonValue::Object(xs) => lemma_json_eq_fields_refl(xs@),
        JsonValue::Array(xs) => lemma_json_eq_items_refl(xs@),
        _ => {},
    }
}

/// Every array is the same array as itself.
pub proof fn lemma_json_eq_items_refl(xs: Seq<JsonValue>)
    ensures
        crate::json::json_eq_items(xs, xs),
    decreases xs,
{
    if xs.len() > 0 {
        lemma_json_eq_items_refl(xs.drop_last());
        lemma_json_eq_refl(xs.last());
    }
}

/// Every object is the same object as itself.
pub proof fn lemma_json_eq_fields_refl(xs: Seq<(String, JsonValue)>)
    ensures
        crate::json::json_eq_fields(xs, xs),
    decreases xs,
{
    if xs.len() > 0 {
        lemma_json_eq_fields_refl(xs.drop_last());
        lemma_json_eq_refl(xs.last().1);
    }
}

/// Redacting twice gives the same document as redacting once.
pub proof fn lemma_redaction_idempotent(a: JsonValue, b: JsonValue, c: JsonValue)
    requires
        redacted(a, b),
        redacted(b, c),
    ensures
        json_eq(b, c),
    decreases a,
{
    match a {
        JsonValue::Object(xs) => {
            lemma_redaction_idempotent_fields(xs@, b->Object_0@, c->Object_0@);
        },
        JsonValue::Array(xs) => {
            lemma_redaction_idempotent_items(xs@, b->Array_0@, c->Array_0@);
        },
        _ => {},
    }
}

/// Redacting array items twice gives the items redacted once.
pub proof fn lemma_redaction_idempotent_items(xs: Seq<JsonValue>, ys: Seq<JsonValue>, zs: Seq<JsonValue>)
    requires
        redacted_items(xs, ys),
        redacted_items(ys, zs),
    ensures
        crate::json::json_eq_items(ys, zs),
    decreases xs,
{
    if xs.len() > 0 {
        lemma_redaction_idempotent_items(xs.drop_last(), ys.drop_last(), zs.drop_last());
        lemma_redaction_idempotent(xs.last(), ys.last(), zs.last());
    }
}

/// Redacting object entries twice gives the entries redacted once.
pub proof fn lemma_redaction_idempotent_fields(
    xs: Seq<(String, JsonValue)>,
    ys: Seq<(String, JsonValue)>,
    zs: Seq<(String, JsonValue)>,
)
    requires
        redacted_fields(xs, ys),
        redacted_fields(ys, zs),
    ensures
        crate::json::json_eq_fields(ys, zs),
    decreases xs,
{
    if xs.len() > 0 {
        lemma_redaction_idempotent_fields(xs.drop_last(), ys.drop_last(), zs.drop_last());
        if !sensitive_key(xs.last().0@) {
            lemma_redaction_idempotent(xs.last().1, ys.last().1, zs.last().1);
        } else {
            assert(ys.last().0@ == xs.last().0@);
            assert(is_marker(ys.last().1) && is_marker(zs.last().1));
            let y = ys.last().1;
            let z = zs.last().1;
            assert(y->String_0@ == z->String_0@);
            assert(json_eq(y, z));
        }
    }
}

/// A document without sensitive keys comes out of redaction unchanged.
pub proof fn lemma_redaction_keeps_clean_documents(a: JsonValue, b: JsonValue)
    requires
        no_sensitive_keys(a),
        redacted(a, b),
    ensures
        json_eq(a, b),
    decreases a,
{
    match a {
        JsonValue::Object(xs) => lemma_redaction_keeps_clean_fields(xs@, b->Object_0@),
        JsonValue::Array(xs) => lemma_redaction_keeps_clean_items(xs@, b->Array_0@),
        _ => {},
    }
}

/// Array items without sensitive keys come out of redaction unchanged.
pub proof fn lemma_redaction_keeps_clean_items(xs: Seq<JsonValue>, ys: Seq<JsonValue>)
    requires
        no_sensitive_keys_items(xs),
        redacted_items(xs, ys),
    ensures
        crate::json::json_eq_items(xs, ys),
    decreases xs,
{
    if xs.len() > 0 {
        lemma_redaction_keeps_clean_items(xs.drop_last(), ys.drop_last());
        lemma_redaction_keeps_clean_documents(xs.last(), ys.last());
    }
}

/// Object entries without sensitive keys come out of redaction unchanged.
pub proof fn lemma_redaction_keeps_clean_fields(
    xs: Seq<(String, JsonValue)>,
    ys: Seq<(String, JsonValue)>,
)
    requires
        no_sensitive_keys_fields(xs),
        redacted_fields(xs, ys),
    ensures
        crate::json::json_eq_fields(xs, ys),
    decreases xs,
{
    if xs.len() > 0 {
        lemma_redaction_keeps_clean_fields(xs.drop_last(), ys.drop_last());
        lemma_redaction_keeps_clean_documents(xs.last().1, ys.last().1);
    }
}

} // verus!

verus! {

/// Redaction depends on the document only: two copies of one document
/// redact to the same result.
pub proof fn lemma_redaction_of_equal_documents(a: JsonValue, b: JsonValue, c: JsonValue)
    requires
        json_eq(a, b),
        redacted(b, c),
    ensures
        redacted(a, c),
    decreases a,
{
    match a {
        JsonValue::Object(xs) => {
            assert(b is Object);
            assert(c is Object);
            lemma_redaction_of_equal_fields(xs@, b->Object_0@, c->Object_0@);
            assert(redacted_fields(xs@, c->Object_0@));
        },
        JsonValue::Array(xs) => lemma_redaction_of_equal_items(xs@, b->Array_0@, c->Array_0@),
        _ => {},
    }
}

/// Array items version of [`lemma_redaction_of_equal_documents`].
pub proof fn lemma_redaction_of_equal_items(xs: Seq<JsonValue>, ys: Seq<JsonValue>, zs: Seq<JsonValue>)
    requires
        crate::json::json_eq_items(xs, ys),
        redacted_items(ys, zs),
    ensures
        redacted_items(xs, zs),
    decreases xs,
{
    if xs.len() > 0 {
        lemma_redaction_of_equal_items(xs.drop_last(), ys.drop_last(), zs.drop_last());
        lemma_redaction_of_equal_documents(xs.last(), ys.last(), zs.last());
    }
}

/// Object entries version of [`lemma_redaction_of_equal_documents`].
pub proof fn lemma_redaction_of_equal_fields(
    xs: Seq<(String, JsonValue)>,
    ys: Seq<(String, JsonValue)>,
    zs: Seq<(String, JsonValue)>,
)
    requires
        crate::json::json_eq_fields(xs, ys),
        redacted_fields(ys, zs),
    ensures
        redacted_fields(xs, zs),
    decreases xs,
{
    if xs.len() > 0 {
        lemma_redaction_of_equal_fields(xs.drop_last(), ys.drop_last(), zs.drop_last());
        if !sensitive_key(xs.last().0@) {
            lemma_redaction_of_equal_documents(xs.last().1, ys.last().1, zs.last().1);
        }
    }
}

} // verus!

verus! {

/// `a` and `b` are the same document except, possibly, for the values under
/// sensitive keys: same shape, same keys in the same order, same scalars
/// everywhere a secret is not kept.
pub open spec fn same_but_secrets(a: JsonValue, b: JsonValue) -> bool
    decreases a,
{
    match a {
        JsonValue::Object(xs) => match b {
            JsonValue::Object(ys) => same_fields_but_secrets(xs@, ys@),
            _ => false,
        },
        JsonValue::Array(xs) => match b {
            JsonValue::Array(ys) => same_items_but_secrets(xs@, ys@),
            _ => false,
        },
        _ => json_eq(a, b),
    }
}

/// Array items that agree one by one except for secrets.
pub open spec fn same_items_but_secrets(xs: Seq<JsonValue>, ys: Seq<JsonValue>) -> bool
    decreases xs,
{
    if xs.len() == 0 {
        ys.len() == 0
    } else {
        &&& ys.len() == xs.len()
        &&& same_items_but_secrets(xs.drop_last(), ys.drop_last())
        &&& same_but_secrets(xs.last(), ys.last())
    }
}

/// Object entries with the same keys, whose values agree except under
/// sensitive keys.
pub open spec fn same_fields_but_secrets(xs: Seq<(String, JsonValue)>, ys: Seq<(String, JsonValue)>) -> bool
    decreases xs,
{
    if xs.len() == 0 {
        ys.len() == 0
    } else {
        &&& ys.len() == xs.len()
        &&& same_fields_but_secrets(xs.drop_last(), ys.drop_last())
        &&& ys.last().0@ == xs.last().0@
        &&& (sensitive_key(xs.last().0@) || same_but_secrets(xs.last().1, ys.last().1))
    }
}

/// Two documents that differ only in the values of sensitive keys redact to
/// the same document: what an error keeps of a request does not depend on
/// its secrets.
pub proof fn lemma_secrets_do_not_change_redaction(a: JsonValue, b: JsonValue, qa: JsonValue, qb: JsonValue)
    requires
        same_but_secrets(a, b),
        redacted(a, qa),
        redacted(b, qb),
    ensures
        json_eq(qa, qb),
    decreases a,
{
    match a {
        JsonValue::Object(xs) => {
            lemma_secrets_do_not_change_redaction_fields(xs@, b->Object_0@, qa->Object_0@, qb->Object_0@);
        },
        JsonValue::Array(xs) => {
            lemma_secrets_do_not_change_redaction_items(xs@, b->Array_0@, qa->Array_0@, qb->Array_0@);
        },
        _ => {},
    }
}

/// Array items version of [`lemma_secrets_do_not_change_redaction`].
pub proof fn lemma_secrets_do_not_change_redaction_items(
    xs: Seq<JsonValue>,
    ys: Seq<JsonValue>,
    qxs: Seq<JsonValue>,
    qys: Seq<JsonValue>,
)
    requires
        same_items_but_secrets(xs, ys),
        redacted_items(xs, qxs),
        redacted_items(ys, qys),
    ensures
        crate::json::json_eq_items(qxs, qys),
    decreases xs,
{
    if xs.len() > 0 {
        lemma_secrets_do_not_change_redaction_items(xs.drop_last(), ys.drop_last(), qxs.drop_last(), qys.drop_last());
        lemma_secrets_do_not_change_redaction(xs.last(), ys.last(), qxs.last(), qys.last());
    }
}

/// Object entries version of [`lemma_secrets_do_not_change_redaction`].
pub proof fn lemma_secrets_do_not_change_redaction_fields(
    xs: Seq<(String, JsonValue)>,
    ys: Seq<(String, JsonValue)>,
    qxs: Seq<(String, JsonValue)>,
    qys: Seq<(String, JsonValue)>,
)
    requires
        same_fields_but_secrets(xs, ys),
        redacted_fields(xs, qxs),
        redacted_fields(ys, qys),
    ensures
        crate::json::json_eq_fields(qxs, qys),
    decreases xs,
{
    if xs.len() > 0 {
        lemma_secrets_do_not_change_redaction_fields(xs.drop_last(), ys.drop_last(), qxs.drop_last(), qys.drop_last());
        if !sensitive_key(xs.last().0@) {
            lemma_secrets_do_not_change_redaction(xs.last().1, ys.last().1, qxs.last().1, qys.last().1);
        } else {
            assert(is_marker(qxs.last().1) && is_marker(qys.last().1));
            assert(qxs.last().1 is String && qys.last().1 is String);
            assert(json_eq(qxs.last().1, qys.last().1));
        }
    }
}

} // verus!
