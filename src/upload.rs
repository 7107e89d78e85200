use vstd::prelude::*;

use crate::common::{
    format_timestamp_from_datetime, joined_ids, EmbedField, EmbedFieldType,
    UploadData, UploadedFile, Webhook, WebhookEmbed,
};
use crate::config::{should_transcribe, transcribes, FilterConfig};
use crate::error::{Error, Result};
use crate::model::{AudioMetadata, Call, SrcList};
use crate::text::{after_last, ends_with, has_suffix, last_segment};
use crate::time::{rfc3339_millis_of, utc_date_path, utc_date_path_of};

verus! {

/// The largest part that an upload may carry: 50 MiB.
pub const MAX_FILE_SIZE: usize = 52428800;

/// Which of the two parts of an upload a part is.
#[derive(Clone, Copy, Debug, PartialEq, Eq, Structural)]
pub enum PartKind {
    Json,
    Audio,
}

/// `file_name` ends with one of `exts`.
pub open spec fn has_allowed_ext(file_name: Seq<char>, exts: Seq<Seq<char>>) -> bool {
    exists|i: int| 0 <= i < exts.len() && has_suffix(file_name, #[trigger] exts[i])
}

fn ends_with_any(file_name: &String, exts: &Vec<String>) -> (r: bool)
    ensures
        r == has_allowed_ext(file_name@, exts@.map_values(|e: String| e@)),
{
    let ghost es = exts@.map_values(|e: String| e@);
    let mut i: usize = 0;
    while i < exts.len()
        invariant
            i <= exts@.len(),
            es == exts@.map_values(|e: String| e@),
            forall|j: int| 0 <= j < i ==> !has_suffix(file_name@, #[trigger] es[j]),
        decreases exts@.len() - i,
    {
        if ends_with(file_name.as_str(), exts[i].as_str()) {
            assert(has_suffix(file_name@, es[i as int]));
            return true;
        }
        i += 1;
    }
    false
}

/// What a part is, when it passes: it must be named, carry a file name, hold
/// at most `MAX_FILE_SIZE` bytes, and be the `json` part with a `.json` file or
/// the `audio` part with a file ending in one of `exts`.
pub open spec fn part_kind(
    name: Option<String>,
    file_name: Option<String>,
    size: int,
    exts: Seq<Seq<char>>,
) -> Option<PartKind> {
    match (name, file_name) {
        (Some(n), Some(f)) => {
            if size > MAX_FILE_SIZE {
                None
            } else if n@ == "json"@ {
                if has_suffix(f@, ".json"@) {
                    Some(PartKind::Json)
                } else {
                    None
                }
            } else if n@ == "audio"@ {
                if has_allowed_ext(f@, exts) {
                    Some(PartKind::Audio)
                } else {
                    None
                }
            } else {
                None
            }
        },
        _ => None,
    }
}

/// The error for a part that does not pass: a missing name or file name,
/// then the size, then the name and extension.
pub open spec fn part_error(
    name: Option<String>,
    file_name: Option<String>,
    size: int,
    e: Error,
) -> bool {
    if name is None {
        e matches Error::MissingField(m) && m@ == "Field missing name"@
    } else if file_name is None {
        e matches Error::MissingField(m) && m@ == "Missing filename for field: "@
            + name->Some_0@
    } else if size > MAX_FILE_SIZE {
        e == Error::FileTooLarge { size: size as usize, max_size: MAX_FILE_SIZE }
    } else {
        e is InvalidFileType
    }
}

pub open spec fn ext_texts(exts: &Vec<String>) -> Seq<Seq<char>> {
    exts@.map_values(|e: String| e@)
}

/// Checks one part of an upload.
pub fn validate_part(
    name: &Option<String>,
    file_name: &Option<String>,
    size: usize,
    audio_exts: &Vec<String>,
) -> (r: Result<PartKind>)
    ensures
        part_kind(*name, *file_name, size as int, ext_texts(audio_exts)) matches Some(k) ==> r
            == Ok::<PartKind, Error>(k),
        part_kind(*name, *file_name, size as int, ext_texts(audio_exts)) is None ==> (r matches Err(
            e,
        ) && part_error(*name, *file_name, size as int, e)),
{
    let n = match name {
        Some(n) => n,
        None => {
            return Err(Error::MissingField(String::from_str("Field missing name")));
        },
    };
    let f = match file_name {
        Some(f) => f,
        None => {
            let mut m = String::from_str("Missing filename for field: ");
            m.append(n.as_str());
            return Err(Error::MissingField(m));
        },
    };
    if size > MAX_FILE_SIZE {
        return Err(Error::FileTooLarge { size, max_size: MAX_FILE_SIZE });
    }
    if *n == String::from_str("json") {
        if ends_with(f.as_str(), ".json") {
            Ok(PartKind::Json)
        } else {
            Err(Error::InvalidFileType(String::from_str("JSON file must have .json extension")))
        }
    } else if *n == String::from_str("audio") {
        if ends_with_any(f, audio_exts) {
            Ok(PartKind::Audio)
        } else {
            Err(
                Error::InvalidFileType(
                    String::from_str("Audio file must have an allowed audio extension"),
                ),
            )
        }
    } else {
        Err(Error::InvalidFileType(String::from_str("Filename must match 'audio' or 'json'")))
    }
}

/// The parts of an upload received so far; a later part of the same name
/// replaces an earlier one.
#[derive(Clone, Debug)]
pub struct UploadParts {
    pub json: Option<UploadedFile>,
    pub audio: Option<UploadedFile>,
}

impl UploadParts {
    pub fn new() -> (r: UploadParts)
        ensures
            r.json is None,
            r.audio is None,
    {
        UploadParts { json: None, audio: None }
    }

    /// Receives one part: checks it as `validate_part` does and, when it
    /// passes, keeps it under its name.
    pub fn accept(
        &mut self,
        name: Option<String>,
        file_name: Option<String>,
        data: Vec<u8>,
        audio_exts: &Vec<String>,
    ) -> (r: Result<()>)
        ensures
            part_kind(name, file_name, data@.len() as int, ext_texts(audio_exts)) is None ==> (r matches Err(
                e,
            ) && part_error(name, file_name, data@.len() as int, e) && *final(self) == *old(self)),
            part_kind(name, file_name, data@.len() as int, ext_texts(audio_exts)) == Some(
                PartKind::Json,
            ) ==> r is Ok && final(self).audio == old(self).audio && final(self).json == Some(
                (UploadedFile { name: file_name->Some_0, data }),
            ),
            part_kind(name, file_name, data@.len() as int, ext_texts(audio_exts)) == Some(
                PartKind::Audio,
            ) ==> r is Ok && final(self).json == old(self).json && final(self).audio == Some(
                (UploadedFile { name: file_name->Some_0, data }),
            ),
    {
        let kind = validate_part(&name, &file_name, data.len(), audio_exts);
        match kind {
            Err(e) => Err(e),
            Ok(k) => {
                let file = match file_name {
                    Some(f) => UploadedFile { name: f, data },
                    None => {
                        return Ok(());
                    },
                };
                match k {
                    PartKind::Json => {
                        self.json = Some(file);
                    },
                    PartKind::Audio => {
                        self.audio = Some(file);
                    },
                }
                Ok(())
            },
        }
    }

    /// The upload, once both parts have arrived.
    pub fn validate_and_build(self) -> (r: Result<UploadData>)
        ensures
            self.json is None ==> (r matches Err(Error::MissingField(m)) && m@ == "json"@),
            self.json is Some && self.audio is None ==> (r matches Err(Error::MissingField(m))
                && m@ == "audio"@),
            self.json is Some && self.audio is Some ==> r == Ok::<UploadData, Error>(
                (UploadData { json: self.json->Some_0, audio: self.audio->Some_0 }),
            ),
    {
        let json = match self.json {
            Some(j) => j,
            None => {
                return Err(Error::MissingField(String::from_str("json")));
            },
        };
        let audio = match self.audio {
            Some(a) => a,
            None => {
                return Err(Error::MissingField(String::from_str("audio")));
            },
        };
        Ok(UploadData { json, audio })
    }
}

/// The storage prefix of a call: the last `-`-separated token of its system's
/// short name, then its UTC start date as `YYYY/MM/DD`.
pub open spec fn storage_prefix(c: Call) -> Seq<char> {
    after_last(c.short_name@, '-') + "/"@ + utc_date_path_of(c.start_time.secs as int)
}

/// The storage key of a call depends on its system's short name, its start
/// second and its audio file's name alone, so deriving it twice from the same
/// document gives the same key.
pub proof fn lemma_call_key_stable(a: Call, b: Call, name: Seq<char>)
    requires
        a.short_name@ == b.short_name@,
        a.start_time.secs == b.start_time.secs,
    ensures
        storage_prefix(a) == storage_prefix(b),
        joined_key(storage_prefix(a), name) == joined_key(storage_prefix(b), name),
{
}

/// A key that is already a valid path is stored under exactly that text.
pub proof fn lemma_valid_key_kept(s: Seq<char>)
    requires
        valid_object_path(s),
    ensures
        object_path_of(s) == Some(s),
{
}

/// Derives the storage prefix of the call that `j` describes. It fails when
/// the short name is empty or the start time lies outside the calendar.
pub fn path_from_json(j: &AudioMetadata) -> (r: Result<String>)
    ensures
        j.call.short_name@.len() == 0 ==> r matches Err(Error::Multipart(_)),
        j.call.short_name@.len() > 0 && !j.call.start_time.wf() ==> r matches Err(
            Error::PathParse(_),
        ),
        j.call.short_name@.len() > 0 && j.call.start_time.wf() ==> (r matches Ok(p) && p@
            == storage_prefix(j.call)),
{
    if j.call.short_name.as_str().unicode_len() == 0 {
        return Err(Error::Multipart(String::from_str("short name must be populated")));
    }
    if !j.call.start_time.is_representable() {
        return Err(Error::PathParse(String::from_str("start time is outside the calendar")));
    }
    let mut path = last_segment(j.call.short_name.as_str(), '-');
    path.append("/");
    let date_path = utc_date_path(j.call.start_time);
    path.append(date_path.as_str());
    Ok(path)
}

/// `prefix`, a slash, and `name`.
pub open spec fn joined_key(prefix: Seq<char>, name: Seq<char>) -> Seq<char> {
    prefix + "/"@ + name
}

pub fn join_key(prefix: &String, name: &String) -> (r: String)
    ensures
        r@ == joined_key(prefix@, name@),
{
    let mut key = prefix.clone();
    key.append("/");
    key.append(name.as_str());
    key
}

pub open spec fn is_ascii_control(c: char) -> bool {
    (c as u32) < 0x20 || c as u32 == 0x7f
}

/// A segment of a path starts at `i`: at the start, or after a `/`.
pub open spec fn segment_starts(s: Seq<char>, i: int) -> bool {
    0 <= i < s.len() && (i == 0 || s[i - 1] == '/')
}

/// The segment starting at `i` is `.` or `..`.
pub open spec fn dot_segment_at(s: Seq<char>, i: int) -> bool {
    &&& s[i] == '.'
    &&& (i + 1 == s.len() || s[i + 1] == '/' || (s[i + 1] == '.' && (i + 2 == s.len() || s[i
        + 2] == '/')))
}

/// A path without leading or trailing `/` whose segments are all non-empty,
/// none `.` or `..`, and free of ASCII control characters.
pub open spec fn valid_object_path(s: Seq<char>) -> bool {
    &&& s.len() > 0
    &&& s[0] != '/'
    &&& s.last() != '/'
    &&& forall|i: int| 0 <= i < s.len() ==> !is_ascii_control(#[trigger] s[i])
    &&& forall|i: int| 0 <= i < s.len() - 1 ==> !(#[trigger] s[i] == '/' && s[i + 1] == '/')
    &&& forall|i: int| #[trigger] segment_starts(s, i) ==> !dot_segment_at(s, i)
}

/// What object_store's `Path::parse` makes of a text: one leading `/` and
/// then one trailing `/` are removed; what is left must be empty or a valid
/// path.
pub open spec fn object_path_of(s: Seq<char>) -> Option<Seq<char>> {
    let a = if s.len() > 0 && s[0] == '/' {
        s.drop_first()
    } else {
        s
    };
    if a.len() == 0 {
        Some(a)
    } else {
        let b = if a.last() == '/' {
            a.drop_last()
        } else {
            a
        };
        if valid_object_path(b) {
            Some(b)
        } else {
            None
        }
    }
}

/// Relies on object_store's `Path::parse`: a valid path comes back as its
/// text, an invalid one as the error's message.
#[verifier::external_body]
fn parse_object_path(s: &String) -> (r: core::result::Result<String, String>)
    ensures
        r is Ok <==> object_path_of(s@) is Some,
        r matches Ok(p) ==> object_path_of(s@) == Some(p@),
{
    match object_store::path::Path::parse(s) {
        Ok(p) => Ok(p.as_ref().to_string()),
        Err(e) => Err(e.to_string()),
    }
}

/// The object key of a file stored under `prefix`.
pub fn object_key(prefix: &String, name: &String) -> (r: Result<String>)
    ensures
        object_path_of(joined_key(prefix@, name@)) matches Some(p) ==> (r matches Ok(k) && k@
            == p),
        object_path_of(joined_key(prefix@, name@)) is None ==> r matches Err(Error::PathParse(_)),
{
    let key = join_key(prefix, name);
    match parse_object_path(&key) {
        Ok(p) => Ok(p),
        Err(m) => Err(Error::PathParse(m)),
    }
}

/// Which way an upload goes after its files are stored.
#[derive(Clone, Copy, Debug, PartialEq, Eq, Structural)]
pub enum Route {
    /// Store the files and the record, without a transcript.
    Archive,
    /// Store the files, transcribe the audio, then store the record and notify.
    Transcribe,
}

/// Everything an upload needs once its metadata is read: where its files go,
/// the record to persist, and its route.
#[derive(Clone, Debug)]
pub struct UploadPlan {
    pub prefix: String,
    pub json_key: String,
    pub audio_key: String,
    pub meta: AudioMetadata,
    pub route: Route,
}

/// The upload can be stored: the prefix can be derived and both object keys
/// are valid paths.
pub open spec fn plannable(files: UploadData, meta: AudioMetadata) -> bool {
    &&& meta.call.short_name@.len() > 0
    &&& meta.call.start_time.wf()
    &&& object_path_of(joined_key(storage_prefix(meta.call), files.json.name@)) is Some
    &&& object_path_of(joined_key(storage_prefix(meta.call), files.audio.name@)) is Some
}

pub open spec fn route_of(archive: bool, meta: AudioMetadata, filter: FilterConfig) -> Route {
    if transcribes(archive, meta, filter) {
        Route::Transcribe
    } else {
        Route::Archive
    }
}

/// The plan for an upload whose record is `meta`: the call gets its key (the
/// storage prefix, a slash, and the audio file's name) and its talkgroup; on
/// the archive route it carries no transcript.
pub open spec fn is_plan_for(
    p: UploadPlan,
    files: UploadData,
    meta: AudioMetadata,
    archive: bool,
    filter: FilterConfig,
) -> bool {
    let prefix = storage_prefix(meta.call);
    let route = route_of(archive, meta, filter);
    &&& p.prefix@ == prefix
    &&& Some(p.json_key@) == object_path_of(joined_key(prefix, files.json.name@))
    &&& Some(p.audio_key@) == object_path_of(joined_key(prefix, files.audio.name@))
    &&& p.route == route
    &&& p.meta.call.filename@ == joined_key(prefix, files.audio.name@)
    &&& p.meta.call == (Call {
        filename: p.meta.call.filename,
        talkgroup: meta.talkgroup.talkgroup,
        transcription: if route == Route::Archive {
            None
        } else {
            meta.call.transcription
        },
        ..meta.call
    })
    &&& p.meta.talkgroup == meta.talkgroup
    &&& p.meta.freq_list == meta.freq_list
    &&& p.meta.src_list == meta.src_list
    &&& p.meta.sources == meta.sources
}

/// Prepares an upload: derives the storage prefix and object keys, gives the
/// call its key and talkgroup, and picks the route (`archive` is the request's
/// archive marker).
pub fn plan_upload(files: &UploadData, meta: AudioMetadata, archive: bool, filter: &FilterConfig) -> (r:
    Result<UploadPlan>)
    ensures
        r is Ok <==> plannable(*files, meta),
        r matches Ok(p) ==> is_plan_for(p, *files, meta, archive, *filter),
        meta.call.short_name@.len() == 0 ==> r matches Err(Error::Multipart(_)),
        meta.call.short_name@.len() > 0 && !plannable(*files, meta) ==> r matches Err(
            Error::PathParse(_),
        ),
{
    let prefix = path_from_json(&meta)?;
    let json_key = object_key(&prefix, &files.json.name)?;
    let audio_key = object_key(&prefix, &files.audio.name)?;
    let route = if should_transcribe(archive, &meta, filter) {
        Route::Transcribe
    } else {
        Route::Archive
    };
    let mut meta = meta;
    meta.call.filename = join_key(&prefix, &files.audio.name);
    meta.call.talkgroup = meta.talkgroup.talkgroup;
    if let Route::Archive = route {
        meta.call.transcription = None;
    }
    Ok(UploadPlan { prefix, json_key, audio_key, meta, route })
}

/// Records the transcript of the call.
pub fn set_transcription(m: &mut AudioMetadata, text: String)
    ensures
        final(m).call == (Call { transcription: Some(text), ..old(m).call }),
        final(m).talkgroup == old(m).talkgroup,
        final(m).freq_list == old(m).freq_list,
        final(m).src_list == old(m).src_list,
        final(m).sources == old(m).sources,
{
    m.call.transcription = Some(text);
}

pub open spec fn radio_ids(m: AudioMetadata) -> Seq<i32> {
    m.src_list@.map_values(|e: SrcList| e.src)
}

/// `w` is the notification for the record `m` with transcript `tr`.
pub open spec fn is_webhook_for(w: Webhook, m: AudioMetadata, tr: String) -> bool {
    &&& w.username@ == "Trunk Recorder"@
    &&& w.avatar_url@ == AVATAR_URL@
    &&& w.embeds@.len() == 1
    &&& w.embeds@[0].color@ == "12110930"@
    &&& w.embeds@[0].timestamp@ == rfc3339_millis_of(
        m.call.start_time.secs as int,
        m.call.start_time.nanos as int,
    )
    &&& w.embeds@[0].title@ == m.talkgroup.talkgroup_group@ + " - "@
        + m.talkgroup.talkgroup_description@
    &&& w.embeds@[0].fields@.len() == 3
    &&& w.embeds@[0].fields@[0].name@ == "Start timestamp:"@
    &&& w.embeds@[0].fields@[0].value@ == w.embeds@[0].timestamp@
    &&& w.embeds@[0].fields@[1].name@ == "Radio IDs:"@
    &&& w.embeds@[0].fields@[1].value@ == joined_ids(radio_ids(m))
    &&& w.embeds@[0].fields@[2].name@ == "Transcription:"@
    &&& w.embeds@[0].fields@[2].value@ == tr@
}

/// The notification for a transcribed call: titled with the talkgroup's group
/// and description, showing the start time, the radios heard and the
/// transcript.
pub fn create_webhook(m: &AudioMetadata, tr: String) -> (r: Webhook)
    requires
        m.call.start_time.wf(),
    ensures
        is_webhook_for(r, *m, tr),
{
    let timestamp = format_timestamp_from_datetime(m.call.start_time);
    let mut ids: Vec<i32> = Vec::new();
    let mut i: usize = 0;
    while i < m.src_list.len()
        invariant
            i <= m.src_list@.len(),
            ids@ == radio_ids(*m).subrange(0, i as int),
        decreases m.src_list@.len() - i,
    {
        ids.push(m.src_list[i].src);
        i += 1;
        assert(ids@ =~= radio_ids(*m).subrange(0, i as int));
    }
    assert(ids@ =~= radio_ids(*m));
    let f0 = EmbedFieldType::Timestamp(timestamp.clone()).into_embed_field();
    let f1 = EmbedFieldType::RadioIds(ids).into_embed_field();
    let f2 = EmbedFieldType::Transcription(tr).into_embed_field();
    let mut fields: Vec<EmbedField> = Vec::new();
    fields.push(f0);
    fields.push(f1);
    fields.push(f2);
    let mut title = m.talkgroup.talkgroup_group.clone();
    title.append(" - ");
    title.append(m.talkgroup.talkgroup_description.as_str());
    let mut embeds: Vec<WebhookEmbed> = Vec::new();
    embeds.push(
        WebhookEmbed { color: String::from_str("12110930"), timestamp, title, fields },
    );
    Webhook {
        username: String::from_str("Trunk Recorder"),
        avatar_url: String::from_str(AVATAR_URL),
        embeds,
    }
}

pub const AVATAR_URL: &'static str =
    "https://raw.githubusercontent.com/TrunkRecorder/trunkrecorder.github.io/refs/heads/main/static/img/radio.png";

/// An upload with the archive marker is planned for archiving: both files go
/// under the call's storage prefix (at prefix, slash, file name, wherever that
/// text is a valid path), and the call is persisted under the audio file's key
/// with no transcript.
pub proof fn lemma_archive_upload_plan(
    p: UploadPlan,
    files: UploadData,
    meta: AudioMetadata,
    filter: FilterConfig,
)
    requires
        is_plan_for(p, files, meta, true, filter),
    ensures
        p.route == Route::Archive,
        p.meta.call.transcription is None,
        p.meta.call.filename@ == joined_key(storage_prefix(meta.call), files.audio.name@),
        valid_object_path(joined_key(storage_prefix(meta.call), files.json.name@))
            ==> p.json_key@ == joined_key(storage_prefix(meta.call), files.json.name@),
        valid_object_path(joined_key(storage_prefix(meta.call), files.audio.name@))
            ==> p.audio_key@ == joined_key(storage_prefix(meta.call), files.audio.name@),
{
    let prefix = storage_prefix(meta.call);
    if valid_object_path(joined_key(prefix, files.json.name@)) {
        lemma_valid_key_kept(joined_key(prefix, files.json.name@));
    }
    if valid_object_path(joined_key(prefix, files.audio.name@)) {
        lemma_valid_key_kept(joined_key(prefix, files.audio.name@));
    }
}

/// Without the archive marker and with no filter list configured, an upload
/// is planned for transcription when the filter's default is to transcribe.
pub proof fn lemma_unfiltered_upload_transcribes(
    p: UploadPlan,
    files: UploadData,
    meta: AudioMetadata,
    filter: FilterConfig,
)
    requires
        is_plan_for(p, files, meta, false, filter),
        !filter.spec_enabled(),
        filter.spec_unfiltered_default(),
    ensures
        p.route == Route::Transcribe,
{
}

} // verus!
