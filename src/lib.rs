//! Ingestion core of a radio call processor: validation of uploads, metadata
//! normalisation with content-addressed child records, storage path derivation,
//! the transcription filter, the retry policy of storage writes, and the
//! persistence plan with the upsert semantics it relies on.

pub mod common;
pub mod config;
pub mod error;
pub mod flow;
pub mod model;
pub mod persist;
pub mod retry;
pub mod text;
pub mod time;
pub mod upload;

pub use common::{
    format_timestamp_from_datetime, health_report, join_ids, map_int_to_bool, EmbedField,
    EmbedFieldType, UploadData, UploadedFile, Webhook, WebhookEmbed,
};
pub use config::{filter_on_metadata, should_transcribe, EnvConfig, FilterConfig};
pub use error::{Error, Result};
pub use flow::{FlowAction, FlowEvent, FlowPhase, UploadFlow};
pub use model::{
    hash_words, rehash_all, set_call_ids, AudioMetadata, AudioMetadataRaw, AudioType, Call,
    FreqList, IsList, Source, SrcList, SrcListRaw, Talkgroups, FNV_OFFSET, FNV_PRIME,
};
pub use persist::{write_plan, WritePlan};
pub use retry::{RetryPolicy, RetryStep};
pub use text::{decimal_string, ends_with, last_segment};
pub use time::{UtcTime, MAX_UTC_SECS, MIN_UTC_SECS};
pub use upload::{
    create_webhook, join_key, object_key, path_from_json, plan_upload, set_transcription,
    validate_part, PartKind, Route, UploadParts, UploadPlan, MAX_FILE_SIZE,
};
