use vstd::prelude::*;

use crate::error::{Error, Result};
use crate::model::AudioMetadata;
use crate::text::{decimal, push_decimal};
use crate::time::{rfc3339_millis, rfc3339_millis_of, UtcTime};

verus! {

/// One part of an upload: the file name the client gave and its bytes.
#[derive(Clone, Debug)]
pub struct UploadedFile {
    pub name: String,
    pub data: Vec<u8>,
}

/// The two parts that every upload carries.
#[derive(Clone, Debug)]
pub struct UploadData {
    pub json: UploadedFile,
    pub audio: UploadedFile,
}

/// The notification posted for a transcribed call.
#[derive(Clone, Debug)]
pub struct Webhook {
    pub username: String,
    pub avatar_url: String,
    pub embeds: Vec<WebhookEmbed>,
}

#[derive(Clone, Debug)]
pub struct WebhookEmbed {
    pub color: String,
    pub timestamp: String,
    pub title: String,
    pub fields: Vec<EmbedField>,
}

#[derive(Clone, Debug)]
pub struct EmbedField {
    pub name: String,
    pub value: String,
}

/// The kinds of field that a notification shows.
#[derive(Clone, Debug)]
pub enum EmbedFieldType {
    Timestamp(String),
    RadioIds(Vec<i32>),
    Transcription(String),
}

/// Radio ids in decimal, separated by `", "`.
pub open spec fn joined_ids(ids: Seq<i32>) -> Seq<char>
    decreases ids.len(),
{
    if ids.len() == 0 {
        Seq::empty()
    } else if ids.len() == 1 {
        decimal(ids[0] as int)
    } else {
        joined_ids(ids.drop_last()) + ", "@ + decimal(ids.last() as int)
    }
}

/// The field that a notification shows for `t`.
pub open spec fn embed_field_of(t: EmbedFieldType) -> (Seq<char>, Seq<char>) {
    match t {
        EmbedFieldType::Timestamp(ts) => ("Start timestamp:"@, ts@),
        EmbedFieldType::RadioIds(ids) => ("Radio IDs:"@, joined_ids(ids@)),
        EmbedFieldType::Transcription(text) => ("Transcription:"@, text@),
    }
}

pub fn join_ids(ids: &Vec<i32>) -> (r: String)
    ensures
        r@ == joined_ids(ids@),
{
    let mut s = String::new();
    let mut i: usize = 0;
    while i < ids.len()
        invariant
            i <= ids@.len(),
            s@ == joined_ids(ids@.subrange(0, i as int)),
        decreases ids@.len() - i,
    {
        assert(ids@.subrange(0, i + 1).drop_last() =~= ids@.subrange(0, i as int));
        if i > 0 {
            s.append(", ");
        }
        push_decimal(&mut s, ids[i] as i64);
        i += 1;
    }
    assert(ids@.subrange(0, ids@.len() as int) =~= ids@);
    s
}

impl EmbedFieldType {
    pub fn into_embed_field(self) -> (r: EmbedField)
        ensures
            (r.name@, r.value@) == embed_field_of(self),
    {
        match self {
            EmbedFieldType::Timestamp(timestamp) => EmbedField {
                name: String::from_str("Start timestamp:"),
                value: timestamp,
            },
            EmbedFieldType::RadioIds(ids) => EmbedField {
                name: String::from_str("Radio IDs:"),
                value: join_ids(&ids),
            },
            EmbedFieldType::Transcription(text) => EmbedField {
                name: String::from_str("Transcription:"),
                value: text,
            },
        }
    }
}

/// RFC 3339 text of a time, in UTC, with milliseconds.
pub fn format_timestamp_from_datetime(dt: UtcTime) -> (r: String)
    requires
        dt.wf(),
    ensures
        r@ == rfc3339_millis_of(dt.secs as int, dt.nanos as int),
{
    rfc3339_millis(dt)
}

/// A flag that the metadata document writes as an integer.
pub open spec fn int_flag(v: int) -> Option<bool> {
    if v == 0 {
        Some(false)
    } else if v == 1 {
        Some(true)
    } else {
        None
    }
}

/// Reads a flag written as `0` or `1`; any other integer is a parse error.
pub fn map_int_to_bool(v: i64) -> (r: Result<bool>)
    ensures
        int_flag(v as int) matches Some(b) ==> r == Ok::<bool, Error>(b),
        int_flag(v as int) is None ==> (r matches Err(Error::JsonParsing(m)) && m@
            == "Expected 0 or 1, got "@ + decimal(v as int)),
{
    if v == 0 {
        Ok(false)
    } else if v == 1 {
        Ok(true)
    } else {
        let mut m = String::from_str("Expected 0 or 1, got ");
        push_decimal(&mut m, v);
        Err(Error::JsonParsing(m))
    }
}

/// The body of the health check for the time `timestamp`.
pub fn health_report(timestamp: &String) -> (r: String)
    ensures
        r@ == "{\"status\":\"healthy\",\"timestamp\":\""@ + timestamp@
            + "\",\"service\":\"trunk-processor\"}"@,
{
    let mut r = String::from_str("{\"status\":\"healthy\",\"timestamp\":\"");
    r.append(timestamp.as_str());
    r.append("\",\"service\":\"trunk-processor\"}");
    r
}

} // verus!
