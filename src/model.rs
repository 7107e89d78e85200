use vstd::prelude::*;

use crate::time::UtcTime;
use vstd::utf8::char_u32_cast;

verus! {

/// How a call was carried on the air.
#[derive(Clone, Copy, Debug, PartialEq, Eq, Structural)]
pub enum AudioType {
    Analog,
    Digital,
    DigitalTdma,
}

/// A named channel that calls belong to; keyed by `talkgroup`.
#[derive(Clone, Debug)]
pub struct Talkgroups {
    pub talkgroup: i32,
    pub talkgroup_tag: String,
    pub talkgroup_description: String,
    pub talkgroup_group_tag: String,
    pub talkgroup_group: String,
}

/// One recorded call; keyed by `filename`, the storage key of its audio.
#[derive(Clone, Debug)]
pub struct Call {
    pub freq: i32,
    pub freq_error: i16,
    pub signal: i16,
    pub noise: i16,
    pub source_num: i16,
    pub recorder_num: i16,
    pub tdma_slot: i16,
    pub phase2_tdma: i16,
    pub start_time: UtcTime,
    pub stop_time: UtcTime,
    pub emergency: bool,
    pub priority: i16,
    pub mode: i16,
    pub duplex: i16,
    pub encrypted: bool,
    pub call_length: i16,
    pub talkgroup: i32,
    pub audio_type: AudioType,
    pub short_name: String,
    pub transcription: Option<String>,
    pub filename: String,
}

/// One frequency observation of a call. `pos` and `len` are nanoseconds;
/// `hashed` is the content key of the entry together with `call_id`.
#[derive(Clone, Debug)]
pub struct FreqList {
    pub call_id: String,
    pub hashed: i64,
    pub freq: i32,
    pub time: UtcTime,
    pub pos: i64,
    pub len: i64,
    pub error_count: i16,
    pub spike_count: i16,
}

/// One transmitting radio within a call. `pos` is nanoseconds; `hashed` is
/// the content key of the entry together with `call_id`.
#[derive(Clone, Debug)]
pub struct SrcList {
    pub call_id: String,
    pub hashed: i64,
    pub src: i32,
    pub time: UtcTime,
    pub pos: i64,
    pub emergency: bool,
    pub signal_system: Option<String>,
}

/// A radio unit; keyed by `src`.
#[derive(Clone, Debug)]
pub struct Source {
    pub src: i32,
    pub tag: Option<String>,
}

/// A source observation as the metadata document carries it: the entry and
/// the radio's tag together.
#[derive(Clone, Debug)]
pub struct SrcListRaw {
    pub src: i32,
    pub time: UtcTime,
    pub pos: i64,
    pub emergency: bool,
    pub signal_system: Option<String>,
    pub tag: Option<String>,
}

/// The metadata document with its values already decoded.
#[derive(Clone, Debug)]
pub struct AudioMetadataRaw {
    pub call: Call,
    pub talkgroup: Talkgroups,
    pub freq_list: Vec<FreqList>,
    pub src_list_raw: Vec<SrcListRaw>,
}

/// The normalised record of one upload.
#[derive(Clone, Debug)]
pub struct AudioMetadata {
    pub call: Call,
    pub talkgroup: Talkgroups,
    pub freq_list: Vec<FreqList>,
    pub src_list: Vec<SrcList>,
    pub sources: Vec<Source>,
}

// ---------------------------------------------------------------------------
// Content keys.
//
// An entry is written out as a sequence of 64-bit words, field by field in the
// order below, and the words are folded with FNV-1a (one word per step):
//   text:           its length in characters, then each character's code point
//   optional text:  0 when absent; 1 followed by the text when present
//   time:           seconds, then nanoseconds
//   signed integer: its two's-complement value widened to 64 bits
//   flag:           0 or 1
// FreqList: call_id, freq, time, pos, len, error_count, spike_count
// SrcList:  call_id, src, time, pos, emergency, signal_system
// ---------------------------------------------------------------------------

pub const FNV_OFFSET: u64 = 0xcbf29ce484222325;

pub const FNV_PRIME: u64 = 0x100000001b3;

/// A signed integer of at most 64 bits as its two's-complement word.
pub open spec fn signed_word(x: int) -> u64 {
    if x >= 0 {
        x as u64
    } else {
        (x + 0x1_0000_0000_0000_0000) as u64
    }
}

pub open spec fn char_word(c: char) -> u64 {
    (c as u32) as u64
}

pub open spec fn text_words(s: Seq<char>) -> Seq<u64> {
    seq![s.len() as u64] + s.map_values(|c: char| char_word(c))
}

pub open spec fn opt_text_words(o: Option<String>) -> Seq<u64> {
    match o {
        None => seq![0u64],
        Some(s) => seq![1u64] + text_words(s@),
    }
}

pub open spec fn time_words(t: UtcTime) -> Seq<u64> {
    seq![signed_word(t.secs as int), t.nanos as u64]
}

pub open spec fn flag_word(b: bool) -> u64 {
    if b {
        1
    } else {
        0
    }
}

pub open spec fn mix(h: u64, w: u64) -> u64 {
    (((h ^ w) as nat * FNV_PRIME as nat) % 0x1_0000_0000_0000_0000nat) as u64
}

/// FNV-1a over words.
pub open spec fn fold_hash(ws: Seq<u64>) -> u64
    decreases ws.len(),
{
    if ws.len() == 0 {
        FNV_OFFSET
    } else {
        mix(fold_hash(ws.drop_last()), ws.last())
    }
}

pub open spec fn word_hash(ws: Seq<u64>) -> i64 {
    fold_hash(ws) as i64
}

impl FreqList {
    pub open spec fn words(self) -> Seq<u64> {
        text_words(self.call_id@) + seq![signed_word(self.freq as int)] + time_words(self.time)
            + seq![
            signed_word(self.pos as int),
            signed_word(self.len as int),
            signed_word(self.error_count as int),
            signed_word(self.spike_count as int),
        ]
    }

    /// The content key of this entry under its current `call_id`.
    pub open spec fn content_key(self) -> i64 {
        word_hash(self.words())
    }

    fn encode(&self) -> (r: Vec<u64>)
        ensures
            r@ == self.words(),
    {
        let mut v: Vec<u64> = Vec::new();
        push_text(&mut v, &self.call_id);
        v.push(word_of(self.freq as i64));
        push_time(&mut v, self.time);
        v.push(word_of(self.pos));
        v.push(word_of(self.len));
        v.push(word_of(self.error_count as i64));
        v.push(word_of(self.spike_count as i64));
        assert(v@ =~= self.words());
        v
    }
}

impl SrcList {
    pub open spec fn words(self) -> Seq<u64> {
        text_words(self.call_id@) + seq![signed_word(self.src as int)] + time_words(self.time)
            + seq![signed_word(self.pos as int), flag_word(self.emergency)] + opt_text_words(
            self.signal_system,
        )
    }

    /// The content key of this entry under its current `call_id`.
    pub open spec fn content_key(self) -> i64 {
        word_hash(self.words())
    }

    fn encode(&self) -> (r: Vec<u64>)
        ensures
            r@ == self.words(),
    {
        let mut v: Vec<u64> = Vec::new();
        push_text(&mut v, &self.call_id);
        v.push(word_of(self.src as i64));
        push_time(&mut v, self.time);
        v.push(word_of(self.pos));
        v.push(if self.emergency { 1u64 } else { 0u64 });
        match &self.signal_system {
            None => v.push(0u64),
            Some(s) => {
                v.push(1u64);
                push_text(&mut v, s);
            },
        }
        assert(v@ =~= self.words());
        v
    }
}

fn push_text(v: &mut Vec<u64>, s: &String)
    ensures
        final(v)@ == old(v)@ + text_words(s@),
{
    let n = s.as_str().unicode_len();
    v.push(n as u64);
    let ghost start = v@;
    let mut i: usize = 0;
    while i < n
        invariant
            n == s@.len(),
            i <= n,
            v@ == start + s@.subrange(0, i as int).map_values(|c: char| char_word(c)),
        decreases n - i,
    {
        let c = s.as_str().get_char(i);
        v.push((c as u32) as u64);
        assert(s@.subrange(0, i + 1) =~= s@.subrange(0, i as int).push(c));
        assert(s@.subrange(0, i + 1).map_values(|c: char| char_word(c)) =~= s@.subrange(
            0,
            i as int,
        ).map_values(|c: char| char_word(c)).push(char_word(c)));
        i += 1;
    }
    assert(s@.subrange(0, n as int) =~= s@);
    assert(final(v)@ =~= old(v)@ + text_words(s@));
}

/// The two's-complement word of `x`.
fn word_of(x: i64) -> (r: u64)
    ensures
        r == signed_word(x as int),
{
    if x >= 0 {
        x as u64
    } else {
        let y: u64 = (-(x + 1)) as u64;
        u64::MAX - y
    }
}

fn push_time(v: &mut Vec<u64>, t: UtcTime)
    ensures
        final(v)@ == old(v)@ + time_words(t),
{
    v.push(word_of(t.secs));
    v.push(t.nanos as u64);
    assert(final(v)@ =~= old(v)@ + time_words(t));
}

/// The words of two texts of machine size are equal only if the texts are.
pub proof fn lemma_text_words_injective(s: Seq<char>, t: Seq<char>, rest_s: Seq<u64>, rest_t: Seq<u64>)
    requires
        s.len() <= usize::MAX,
        t.len() <= usize::MAX,
        text_words(s) + rest_s == text_words(t) + rest_t,
    ensures
        s == t,
        rest_s == rest_t,
{
    let ws = text_words(s) + rest_s;
    let wt = text_words(t) + rest_t;
    assert(text_words(s).len() == 1 + s.len());
    assert(text_words(t).len() == 1 + t.len());
    assert(ws[0] == s.len() as u64);
    assert(wt[0] == t.len() as u64);
    assert(s.len() == t.len());
    assert forall|i: int| 0 <= i < s.len() implies s[i] == t[i] by {
        assert(ws[1 + i] == char_word(s[i]));
        assert(wt[1 + i] == char_word(t[i]));
        char_u32_cast(s[i], s[i] as u32);
        char_u32_cast(t[i], t[i] as u32);
    }
    assert(s =~= t);
    assert(ws.len() == 1 + s.len() + rest_s.len());
    assert(wt.len() == 1 + t.len() + rest_t.len());
    assert(rest_s.len() == rest_t.len());
    assert forall|i: int| 0 <= i < rest_s.len() implies rest_s[i] == rest_t[i] by {
        assert(ws[1 + s.len() + i] == rest_s[i]);
        assert(wt[1 + t.len() + i] == rest_t[i]);
    }
    assert(rest_s =~= rest_t);
}

impl FreqList {
    /// Two frequency entries with the same words agree in every field but
    /// their stored key: entries that differ in a field are hashed from
    /// different words.
    pub proof fn lemma_words_injective(a: FreqList, b: FreqList)
        requires
            a.call_id@.len() <= usize::MAX,
            b.call_id@.len() <= usize::MAX,
            a.words() == b.words(),
        ensures
            a.call_id@ == b.call_id@,
            a.freq == b.freq,
            a.time == b.time,
            a.pos == b.pos,
            a.len == b.len,
            a.error_count == b.error_count,
            a.spike_count == b.spike_count,
    {
        let ra = seq![signed_word(a.freq as int)] + time_words(a.time) + seq![
            signed_word(a.pos as int),
            signed_word(a.len as int),
            signed_word(a.error_count as int),
            signed_word(a.spike_count as int),
        ];
        let rb = seq![signed_word(b.freq as int)] + time_words(b.time) + seq![
            signed_word(b.pos as int),
            signed_word(b.len as int),
            signed_word(b.error_count as int),
            signed_word(b.spike_count as int),
        ];
        assert(a.words() =~= text_words(a.call_id@) + ra);
        assert(b.words() =~= text_words(b.call_id@) + rb);
        lemma_text_words_injective(a.call_id@, b.call_id@, ra, rb);
        assert(ra[0] == rb[0]);
        assert(ra[1] == rb[1]);
        assert(ra[2] == rb[2]);
        assert(ra[3] == rb[3]);
        assert(ra[4] == rb[4]);
        assert(ra[5] == rb[5]);
        assert(ra[6] == rb[6]);
    }
}

impl SrcList {
    /// Two source entries with the same words agree in every field but their
    /// stored key: entries that differ in a field are hashed from different
    /// words.
    pub proof fn lemma_words_injective(a: SrcList, b: SrcList)
        requires
            a.call_id@.len() <= usize::MAX,
            b.call_id@.len() <= usize::MAX,
            a.signal_system matches Some(x) ==> x@.len() <= usize::MAX,
            b.signal_system matches Some(y) ==> y@.len() <= usize::MAX,
            a.words() == b.words(),
        ensures
            a.call_id@ == b.call_id@,
            a.src == b.src,
            a.time == b.time,
            a.pos == b.pos,
            a.emergency == b.emergency,
            a.signal_system is Some <==> b.signal_system is Some,
            a.signal_system is Some ==> a.signal_system->Some_0@ == b.signal_system->Some_0@,
    {
        let fa = seq![signed_word(a.src as int)] + time_words(a.time) + seq![
            signed_word(a.pos as int),
            flag_word(a.emergency),
        ];
        let fb = seq![signed_word(b.src as int)] + time_words(b.time) + seq![
            signed_word(b.pos as int),
            flag_word(b.emergency),
        ];
        let ra = fa + opt_text_words(a.signal_system);
        let rb = fb + opt_text_words(b.signal_system);
        assert(a.words() =~= text_words(a.call_id@) + ra);
        assert(b.words() =~= text_words(b.call_id@) + rb);
        lemma_text_words_injective(a.call_id@, b.call_id@, ra, rb);
        assert(ra[0] == rb[0]);
        assert(ra[1] == rb[1]);
        assert(ra[2] == rb[2]);
        assert(ra[3] == rb[3]);
        assert(ra[4] == rb[4]);
        assert(ra.len() == rb.len());
        let oa = opt_text_words(a.signal_system);
        let ob = opt_text_words(b.signal_system);
        assert(oa =~= ra.subrange(5, ra.len() as int));
        assert(ob =~= rb.subrange(5, rb.len() as int));
        assert(oa[0] == ob[0]);
        if let Some(x) = a.signal_system {
            let y = b.signal_system->Some_0;
            assert(oa =~= seq![1u64] + (text_words(x@) + Seq::<u64>::empty()));
            assert(ob =~= seq![1u64] + (text_words(y@) + Seq::<u64>::empty()));
            assert(oa.drop_first() =~= text_words(x@) + Seq::<u64>::empty());
            assert(ob.drop_first() =~= text_words(y@) + Seq::<u64>::empty());
            lemma_text_words_injective(x@, y@, Seq::<u64>::empty(), Seq::<u64>::empty());
        }
    }
}

/// FNV-1a over `ws`, one word per step, read as a signed integer.
pub fn hash_words(ws: &Vec<u64>) -> (r: i64)
    ensures
        r == word_hash(ws@),
{
    let mut h: u64 = FNV_OFFSET;
    let mut i: usize = 0;
    while i < ws.len()
        invariant
            i <= ws@.len(),
            h == fold_hash(ws@.subrange(0, i as int)),
        decreases ws@.len() - i,
    {
        assert(ws@.subrange(0, i + 1).drop_last() =~= ws@.subrange(0, i as int));
        h = (h ^ ws[i]).wrapping_mul(FNV_PRIME);
        i += 1;
    }
    assert(ws@.subrange(0, ws@.len() as int) =~= ws@);
    h as i64
}

/// An entry that belongs to a call and is keyed by its content together with
/// the call's key.
pub trait IsList: Sized {
    /// The stored key of the entry.
    spec fn key(&self) -> i64;

    /// The entry with its owner set to `id`.
    spec fn with_call_id(&self, id: String) -> Self;

    /// The entry with `hashed` set to its content key.
    spec fn rehashed(&self) -> Self;

    fn set_call_id(&mut self, id: String)
        ensures
            *final(self) == old(self).with_call_id(id),
    ;

    fn calculate_hash(&mut self)
        ensures
            *final(self) == old(self).rehashed(),
    ;
}

impl IsList for FreqList {
    open spec fn key(&self) -> i64 {
        self.hashed
    }

    open spec fn with_call_id(&self, id: String) -> Self {
        FreqList { call_id: id, ..*self }
    }

    open spec fn rehashed(&self) -> Self {
        FreqList { hashed: self.content_key(), ..*self }
    }

    fn set_call_id(&mut self, id: String) {
        self.call_id = id;
    }

    fn calculate_hash(&mut self) {
        let ws = self.encode();
        self.hashed = hash_words(&ws);
    }
}

impl IsList for SrcList {
    open spec fn key(&self) -> i64 {
        self.hashed
    }

    open spec fn with_call_id(&self, id: String) -> Self {
        SrcList { call_id: id, ..*self }
    }

    open spec fn rehashed(&self) -> Self {
        SrcList { hashed: self.content_key(), ..*self }
    }

    fn set_call_id(&mut self, id: String) {
        self.call_id = id;
    }

    fn calculate_hash(&mut self) {
        let ws = self.encode();
        self.hashed = hash_words(&ws);
    }
}

pub(crate) fn copy_text(o: &Option<String>) -> (r: Option<String>)
    ensures
        r == *o,
{
    match o {
        None => None,
        Some(s) => Some(s.clone()),
    }
}

impl SrcListRaw {
    /// The entry that this observation contributes, before it has an owner
    /// (its key aside).
    pub open spec fn is_entry(self, e: SrcList) -> bool {
        &&& e.call_id@ == Seq::<char>::empty()
        &&& e.src == self.src
        &&& e.time == self.time
        &&& e.pos == self.pos
        &&& e.emergency == self.emergency
        &&& e.signal_system == self.signal_system
    }

    /// The radio that this observation names.
    pub open spec fn is_source(self, s: Source) -> bool {
        s.src == self.src && s.tag == self.tag
    }
}

impl AudioMetadataRaw {
    /// Separates each source observation into its entry and its radio, in
    /// document order.
    pub fn split_src_list(&self) -> (r: (Vec<SrcList>, Vec<Source>))
        ensures
            r.0@.len() == self.src_list_raw@.len(),
            r.1@.len() == self.src_list_raw@.len(),
            forall|i: int|
                0 <= i < self.src_list_raw@.len() ==> self.src_list_raw@[i].is_entry(#[trigger] r.0@[i])
                    && r.0@[i].hashed == 0,
            forall|i: int|
                0 <= i < self.src_list_raw@.len() ==> self.src_list_raw@[i].is_source(#[trigger] r.1@[i]),
    {
        let mut src_list: Vec<SrcList> = Vec::new();
        let mut sources: Vec<Source> = Vec::new();
        let mut i: usize = 0;
        while i < self.src_list_raw.len()
            invariant
                i <= self.src_list_raw@.len(),
                src_list@.len() == i,
                sources@.len() == i,
                forall|j: int|
                    0 <= j < i ==> self.src_list_raw@[j].is_entry(#[trigger] src_list@[j])
                        && src_list@[j].hashed == 0,
                forall|j: int| 0 <= j < i ==> self.src_list_raw@[j].is_source(#[trigger] sources@[j]),
            decreases self.src_list_raw@.len() - i,
        {
            let item = &self.src_list_raw[i];
            src_list.push(
                SrcList {
                    call_id: String::new(),
                    hashed: 0,
                    src: item.src,
                    time: item.time,
                    pos: item.pos,
                    emergency: item.emergency,
                    signal_system: copy_text(&item.signal_system),
                },
            );
            sources.push(Source { src: item.src, tag: copy_text(&item.tag) });
            i += 1;
        }
        (src_list, sources)
    }
}

/// Gives every entry the owner `id` and then its content key.
pub fn set_call_ids<T: IsList>(v: &mut Vec<T>, id: String)
    ensures
        final(v)@.len() == old(v)@.len(),
        forall|i: int|
            0 <= i < old(v)@.len() ==> #[trigger] final(v)@[i] == old(v)@[i].with_call_id(
                id,
            ).rehashed(),
{
    let mut i: usize = 0;
    while i < v.len()
        invariant
            i <= v@.len(),
            v@.len() == old(v)@.len(),
            forall|j: int| 0 <= j < i ==> #[trigger] v@[j] == old(v)@[j].with_call_id(id).rehashed(),
            forall|j: int| i <= j < v@.len() ==> #[trigger] v@[j] == old(v)@[j],
        decreases v@.len() - i,
    {
        v[i].set_call_id(id.clone());
        v[i].calculate_hash();
        i += 1;
    }
}

/// Gives every entry its content key under its current owner.
pub fn rehash_all<T: IsList>(v: &mut Vec<T>)
    ensures
        final(v)@.len() == old(v)@.len(),
        forall|i: int| 0 <= i < old(v)@.len() ==> #[trigger] final(v)@[i] == old(v)@[i].rehashed(),
{
    let mut i: usize = 0;
    while i < v.len()
        invariant
            i <= v@.len(),
            v@.len() == old(v)@.len(),
            forall|j: int| 0 <= j < i ==> #[trigger] v@[j] == old(v)@[j].rehashed(),
            forall|j: int| i <= j < v@.len() ==> #[trigger] v@[j] == old(v)@[j],
        decreases v@.len() - i,
    {
        v[i].calculate_hash();
        i += 1;
    }
}

impl AudioMetadata {
    /// Normalises a decoded document: the source observations are split into
    /// entries and radios, and every entry gets its content key over its own
    /// fields (no owner yet).
    pub fn from_raw(raw: AudioMetadataRaw) -> (r: AudioMetadata)
        ensures
            r.call == raw.call,
            r.talkgroup == raw.talkgroup,
            r.freq_list@.len() == raw.freq_list@.len(),
            forall|i: int|
                0 <= i < raw.freq_list@.len() ==> #[trigger] r.freq_list@[i]
                    == raw.freq_list@[i].rehashed(),
            r.src_list@.len() == raw.src_list_raw@.len(),
            r.sources@.len() == raw.src_list_raw@.len(),
            forall|i: int|
                0 <= i < raw.src_list_raw@.len() ==> raw.src_list_raw@[i].is_entry(
                    #[trigger] r.src_list@[i],
                ) && r.src_list@[i].hashed == r.src_list@[i].content_key(),
            forall|i: int|
                0 <= i < raw.src_list_raw@.len() ==> raw.src_list_raw@[i].is_source(
                    #[trigger] r.sources@[i],
                ),
    {
        let (mut src_list, sources) = raw.split_src_list();
        let ghost split = src_list@;
        rehash_all(&mut src_list);
        assert forall|i: int| 0 <= i < raw.src_list_raw@.len() implies raw.src_list_raw@[i].is_entry(
            #[trigger] src_list@[i],
        ) && src_list@[i].hashed == src_list@[i].content_key() by {
            assert(src_list@[i] == split[i].rehashed());
        }
        let mut freq_list = raw.freq_list;
        rehash_all(&mut freq_list);
        AudioMetadata { call: raw.call, talkgroup: raw.talkgroup, freq_list, src_list, sources }
    }
}

} // verus!
