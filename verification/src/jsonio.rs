//! The JSON carrier of the channel configuration.
//!
//! A channel file's text is parsed into the plain facts the session decides
//! over — a [`ChannelDoc`](crate::channels::ChannelDoc) — and rewritten by
//! setting or removing one boolean key before being serialised back;
//! everything else in the document is carried through untouched. Parsing,
//! extraction and rewriting are deterministic in the text and the key names
//! alone, so the JSON library is trusted through wrappers whose results are
//! named: `doc_of` for the extracted facts, and one name per rewritten
//! serialization. Every decision — which documents are valid, which edit to
//! apply, which error to surface — is made by the verified code around the
//! wrappers. The read-modify-write-truncate protocol on the file itself is
//! the unverified shell's business: this module goes from text to text.

use vstd::prelude::*;

use crate::channels::{enable_channel_doc, revert_channel_doc, AutoUpdateField, ChannelDoc};
use crate::channels::{channel_doc_wf, enable_doc_spec, revert_doc_spec};
use crate::errors::UpdateError;

verus! {

/// Whether `text` parses as a complete JSON document.
pub uninterp spec fn json_ok(text: Seq<char>) -> bool;

/// The facts read from the document `text` parses to: whether `object_key`
/// names an object at the top level, and which boolean `field_key` holds
/// inside that object.
pub uninterp spec fn doc_of(text: Seq<char>, object_key: Seq<char>, field_key: Seq<char>) -> ChannelDoc;

/// The pretty serialization of the document `text` parses to, unchanged.
pub uninterp spec fn reserialized_text_of(text: Seq<char>) -> Seq<char>;

/// The pretty serialization of the document `text` parses to, with
/// `field_key` of the `object_key` object set to the boolean `value`.
pub uninterp spec fn set_field_text_of(
    text: Seq<char>,
    object_key: Seq<char>,
    field_key: Seq<char>,
    value: bool,
) -> Seq<char>;

/// The pretty serialization of the document `text` parses to, with
/// `field_key` removed from the `object_key` object.
pub uninterp spec fn removed_field_text_of(
    text: Seq<char>,
    object_key: Seq<char>,
    field_key: Seq<char>,
) -> Seq<char>;

/// Relies on `serde_json::from_str`, `Value::get`, `Value::is_object` and
/// `Value::as_bool`: parses `text` and reads whether `object_key` names an
/// object and which boolean `field_key` holds inside it (`get` on a
/// non-object returns `None`, so a non-object `object_key` reads as having
/// no field). Parsing and extraction depend on the arguments alone.
#[verifier::external_body]
fn parse_doc(text: &str, object_key: &str, field_key: &str) -> (r: Result<
    ChannelDoc,
    serde_json::Error,
>)
    ensures
        r is Ok <==> json_ok(text@),
        (r matches Ok(d) ==> d == doc_of(text@, object_key@, field_key@)),
        (r is Ok ==> channel_doc_wf(doc_of(text@, object_key@, field_key@))),
{
    let v: serde_json::Value = serde_json::from_str(text)?;
    let field = v.get(object_key);
    let channel_present = field.is_some();
    let channel_is_object = field.map_or(false, |c| c.is_object());
    let auto_update = match field.and_then(|c| c.get(field_key)).map(|f| f.as_bool()) {
        None => AutoUpdateField::Absent,
        Some(Some(true)) => AutoUpdateField::Enabled,
        Some(_) => AutoUpdateField::OtherValue,
    };
    Ok(ChannelDoc { channel_present, channel_is_object, auto_update })
}

/// Relies on `serde_json::from_str` and `serde_json::to_string_pretty`:
/// parses `text` and serialises the document back unchanged. Serialising a
/// parsed `Value` cannot fail — its maps have string keys — so the result
/// is `Err` exactly when parsing fails.
#[verifier::external_body]
fn reserialize(text: &str) -> (r: Result<String, serde_json::Error>)
    ensures
        r is Ok <==> json_ok(text@),
        (r matches Ok(s) ==> s@ == reserialized_text_of(text@)),
{
    let v: serde_json::Value = serde_json::from_str(text)?;
    serde_json::to_string_pretty(&v)
}

/// Relies on `serde_json::from_str`, `Value::get_mut`,
/// `Value::as_object_mut`, `Map::insert` and `to_string_pretty`: parses
/// `text`, sets `field_key` of the `object_key` object to the boolean
/// `value` — doing nothing when `object_key` is absent or not an object —
/// and serialises the result, which cannot fail; so `Err` exactly when
/// parsing fails.
#[verifier::external_body]
fn rewrite_set_field(text: &str, object_key: &str, field_key: &str, value: bool) -> (r: Result<
    String,
    serde_json::Error,
>)
    ensures
        r is Ok <==> json_ok(text@),
        (r matches Ok(s) ==> s@ == set_field_text_of(text@, object_key@, field_key@, value)),
{
    let mut v: serde_json::Value = serde_json::from_str(text)?;
    if let Some(obj) = v.get_mut(object_key).and_then(serde_json::Value::as_object_mut) {
        obj.insert(field_key.to_string(), serde_json::Value::Bool(value));
    }
    serde_json::to_string_pretty(&v)
}

/// Relies on `serde_json::from_str`, `Value::get_mut`,
/// `Value::as_object_mut`, `Map::remove` and `to_string_pretty`: parses
/// `text`, removes `field_key` from the `object_key` object — doing nothing
/// when `object_key` is absent or not an object — and serialises the
/// result, which cannot fail; so `Err` exactly when parsing fails.
#[verifier::external_body]
fn rewrite_remove_field(text: &str, object_key: &str, field_key: &str) -> (r: Result<
    String,
    serde_json::Error,
>)
    ensures
        r is Ok <==> json_ok(text@),
        (r matches Ok(s) ==> s@ == removed_field_text_of(text@, object_key@, field_key@)),
{
    let mut v: serde_json::Value = serde_json::from_str(text)?;
    if let Some(obj) = v.get_mut(object_key).and_then(serde_json::Value::as_object_mut) {
        obj.remove(field_key);
    }
    serde_json::to_string_pretty(&v)
}

/// The facts the session reads of a channel file's text.
pub open spec fn channel_doc_of(text: Seq<char>) -> ChannelDoc {
    doc_of(text, "channel"@, "autoUpdate"@)
}

/// Rewrites one channel file's text for the enable sweep: parses it,
/// applies the enable transform, and serialises the result. Returns the new
/// text and whether the channel was already auto-updating and must be
/// skipped on revert. Fails with `Json` exactly when the text does not
/// parse, and with `InvalidChannel` exactly when the enable transform
/// rejects the document.
pub fn enable_channel_file(text: &str) -> (r: Result<(String, bool), UpdateError>)
    ensures
        r is Ok <==> (json_ok(text@) && enable_doc_spec(channel_doc_of(text@)) is Ok),
        (r matches Ok(p) ==> {
            &&& p.1 == (channel_doc_of(text@).auto_update is Enabled)
            &&& (channel_doc_of(text@).auto_update is Enabled ==> p.0@ == reserialized_text_of(
                text@,
            ))
            &&& (channel_doc_of(text@).auto_update is Absent ==> p.0@ == set_field_text_of(
                text@,
                "channel"@,
                "autoUpdate"@,
                true,
            ))
        }),
        (r matches Err(e) ==> (e is Json <==> !json_ok(text@))),
        (r matches Err(e) ==> (e is InvalidChannel <==> (json_ok(text@) && enable_doc_spec(
            channel_doc_of(text@),
        ) is Err))),
        (r matches Err(e) ==> (e is Json || e is InvalidChannel)),
{
    let doc = match parse_doc(text, "channel", "autoUpdate") {
        Err(e) => {
            return Err(UpdateError::Json(e));
        },
        Ok(d) => d,
    };
    let skip = match enable_channel_doc(doc) {
        Err(e) => {
            return Err(e);
        },
        Ok((_, skip)) => skip,
    };
    let out = if skip {
        reserialize(text)
    } else {
        rewrite_set_field(text, "channel", "autoUpdate", true)
    };
    match out {
        Err(e) => Err(UpdateError::Json(e)),
        Ok(s) => Ok((s, skip)),
    }
}

/// Rewrites one channel file's text for the revert sweep: parses it,
/// applies the revert transform — leaving a skipped channel's flag in
/// place — and serialises the result. Fails with `Json` exactly when the
/// text does not parse, and with `InvalidChannel` exactly when the revert
/// transform rejects the document.
pub fn revert_channel_file(text: &str, skipped: bool) -> (r: Result<String, UpdateError>)
    ensures
        r is Ok <==> (json_ok(text@) && revert_doc_spec(channel_doc_of(text@), skipped) is Ok),
        (r matches Ok(s) ==> {
            &&& (skipped ==> s@ == reserialized_text_of(text@))
            &&& (!skipped ==> s@ == removed_field_text_of(text@, "channel"@, "autoUpdate"@))
        }),
        (r matches Err(e) ==> (e is Json <==> !json_ok(text@))),
        (r matches Err(e) ==> (e is InvalidChannel <==> (json_ok(text@) && revert_doc_spec(
            channel_doc_of(text@),
            skipped,
        ) is Err))),
        (r matches Err(e) ==> (e is Json || e is InvalidChannel)),
{
    let doc = match parse_doc(text, "channel", "autoUpdate") {
        Err(e) => {
            return Err(UpdateError::Json(e));
        },
        Ok(d) => d,
    };
    match revert_channel_doc(doc, skipped) {
        Err(e) => {
            return Err(e);
        },
        Ok(_) => {},
    }
    let out = if skipped {
        reserialize(text)
    } else {
        rewrite_remove_field(text, "channel", "autoUpdate")
    };
    match out {
        Err(e) => Err(UpdateError::Json(e)),
        Ok(s) => Ok(s),
    }
}

} // verus!
