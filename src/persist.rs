use vstd::prelude::*;

use crate::model::{
    set_call_ids, AudioMetadata, Call, FreqList, IsList, Source, SrcList, Talkgroups,
};

verus! {

/// The rows that one upload writes, in the order they are written: each
/// source (insert, or overwrite on a matching `src`), the talkgroup (insert,
/// or overwrite on a matching id), then in one transaction the call (insert,
/// or overwrite on a matching filename) and its entries (insert; an entry
/// whose key is already stored is left as it is).
#[derive(Clone, Debug)]
pub struct WritePlan {
    pub sources: Vec<Source>,
    pub talkgroup: Talkgroups,
    pub call: Call,
    pub src_list: Vec<SrcList>,
    pub freq_list: Vec<FreqList>,
}

/// The contents of the relational store, table by table, each keyed by its
/// primary key.
pub struct StoreModel {
    pub talkgroups: Map<i32, Talkgroups>,
    pub sources: Map<i32, Source>,
    pub calls: Map<Seq<char>, Call>,
    pub freqlist: Map<i64, FreqList>,
    pub srclist: Map<i64, SrcList>,
}

/// The entries of a call, each owned by `id` and keyed by its content.
pub open spec fn keyed_entries<T: IsList>(s: Seq<T>, id: String) -> Seq<T> {
    s.map_values(|e: T| e.with_call_id(id).rehashed())
}

/// Inserts or overwrites each source in turn.
pub open spec fn upsert_sources(t: Map<i32, Source>, s: Seq<Source>) -> Map<i32, Source>
    decreases s.len(),
{
    if s.len() == 0 {
        t
    } else {
        upsert_sources(t, s.drop_last()).insert(s.last().src, s.last())
    }
}

/// Inserts each entry whose key is not yet stored; a stored row is left as
/// it is.
pub open spec fn insert_new<T: IsList>(t: Map<i64, T>, s: Seq<T>) -> Map<i64, T>
    decreases s.len(),
{
    if s.len() == 0 {
        t
    } else {
        let before = insert_new(t, s.drop_last());
        if before.contains_key(s.last().key()) {
            before
        } else {
            before.insert(s.last().key(), s.last())
        }
    }
}

/// The store after a plan has been written to it.
pub open spec fn apply_plan(
    st: StoreModel,
    sources: Seq<Source>,
    talkgroup: Talkgroups,
    call: Call,
    src_list: Seq<SrcList>,
    freq_list: Seq<FreqList>,
) -> StoreModel {
    StoreModel {
        sources: upsert_sources(st.sources, sources),
        talkgroups: st.talkgroups.insert(talkgroup.talkgroup, talkgroup),
        calls: st.calls.insert(call.filename@, call),
        srclist: insert_new(st.srclist, src_list),
        freqlist: insert_new(st.freqlist, freq_list),
    }
}

/// The store after the record `m` has been persisted.
pub open spec fn ingest(st: StoreModel, m: AudioMetadata) -> StoreModel {
    apply_plan(
        st,
        m.sources@,
        m.talkgroup,
        m.call,
        keyed_entries(m.src_list@, m.call.filename),
        keyed_entries(m.freq_list@, m.call.filename),
    )
}

impl WritePlan {
    pub open spec fn apply(self, st: StoreModel) -> StoreModel {
        apply_plan(st, self.sources@, self.talkgroup, self.call, self.src_list@, self.freq_list@)
    }
}

/// The rows to write for the record `m`: its entries take the call's key as
/// their owner and are keyed by their content under it.
pub fn write_plan(m: AudioMetadata) -> (r: WritePlan)
    ensures
        r.sources@ == m.sources@,
        r.talkgroup == m.talkgroup,
        r.call == m.call,
        r.src_list@ == keyed_entries(m.src_list@, m.call.filename),
        r.freq_list@ == keyed_entries(m.freq_list@, m.call.filename),
        forall|st: StoreModel| #[trigger] r.apply(st) == ingest(st, m),
{
    let mut src_list = m.src_list;
    let mut freq_list = m.freq_list;
    set_call_ids(&mut src_list, m.call.filename.clone());
    set_call_ids(&mut freq_list, m.call.filename.clone());
    assert(src_list@ =~= keyed_entries(m.src_list@, m.call.filename));
    assert(freq_list@ =~= keyed_entries(m.freq_list@, m.call.filename));
    WritePlan { sources: m.sources, talkgroup: m.talkgroup, call: m.call, src_list, freq_list }
}

/// The keys of `s`.
pub open spec fn has_key<T: IsList>(s: Seq<T>, k: i64) -> bool {
    exists|j: int| 0 <= j < s.len() && #[trigger] s[j].key() == k
}

/// After inserting `s`, the stored keys are those stored before and those of
/// `s`, and every row stored before is unchanged.
pub proof fn lemma_insert_new<T: IsList>(t: Map<i64, T>, s: Seq<T>)
    ensures
        forall|k: i64| #[trigger]
            insert_new(t, s).contains_key(k) <==> t.contains_key(k) || has_key(s, k),
        forall|k: i64| t.contains_key(k) ==> #[trigger] insert_new(t, s)[k] == t[k],
    decreases s.len(),
{
    if s.len() > 0 {
        let p = s.drop_last();
        lemma_insert_new(t, p);
        assert forall|k: i64| #[trigger]
            insert_new(t, s).contains_key(k) <==> t.contains_key(k) || has_key(s, k) by {
            assert(insert_new(t, p).contains_key(k) <==> t.contains_key(k) || has_key(p, k));
            if has_key(s, k) {
                let j = choose|j: int| 0 <= j < s.len() && #[trigger] s[j].key() == k;
                if j < s.len() - 1 {
                    assert(p[j] == s[j]);
                    assert(has_key(p, k));
                }
            }
            if has_key(p, k) {
                let j = choose|j: int| 0 <= j < p.len() && #[trigger] p[j].key() == k;
                assert(s[j] == p[j]);
                assert(has_key(s, k));
            }
            if s.last().key() == k {
                assert(s[s.len() - 1].key() == k);
                assert(has_key(s, k));
            }
        }
        assert forall|k: i64| t.contains_key(k) implies #[trigger] insert_new(t, s)[k] == t[k] by {
            assert(insert_new(t, p).contains_key(k));
        }
    }
}

/// Inserting entries whose keys are all stored changes nothing.
pub proof fn lemma_insert_stored<T: IsList>(t: Map<i64, T>, s: Seq<T>)
    requires
        forall|j: int| 0 <= j < s.len() ==> t.contains_key(#[trigger] s[j].key()),
    ensures
        insert_new(t, s) == t,
    decreases s.len(),
{
    if s.len() > 0 {
        lemma_insert_stored(t, s.drop_last());
        assert(t.contains_key(s[s.len() - 1].key()));
    }
}

/// Persisting the same record twice adds no entry row the second time:
/// both entry tables are as the first time left them.
pub proof fn lemma_reingest_adds_no_entries(st: StoreModel, m: AudioMetadata)
    ensures
        ingest(ingest(st, m), m).freqlist == ingest(st, m).freqlist,
        ingest(ingest(st, m), m).srclist == ingest(st, m).srclist,
{
    let f = keyed_entries(m.freq_list@, m.call.filename);
    let s = keyed_entries(m.src_list@, m.call.filename);
    lemma_insert_new(st.freqlist, f);
    lemma_insert_new(st.srclist, s);
    assert forall|j: int| 0 <= j < f.len() implies insert_new(st.freqlist, f).contains_key(
        #[trigger] f[j].key(),
    ) by {
        assert(has_key(f, f[j].key()));
    }
    assert forall|j: int| 0 <= j < s.len() implies insert_new(st.srclist, s).contains_key(
        #[trigger] s[j].key(),
    ) by {
        assert(has_key(s, s[j].key()));
    }
    lemma_insert_stored(insert_new(st.freqlist, f), f);
    lemma_insert_stored(insert_new(st.srclist, s), s);
}

/// Persisting a record again with one frequency entry changed adds exactly
/// one row, the changed entry's, provided its key is not stored yet (only a
/// collision of content keys could make it so).
pub proof fn lemma_changed_freq_entry_adds_one_row(
    st: StoreModel,
    m1: AudioMetadata,
    m2: AudioMetadata,
    i: int,
    f: FreqList,
)
    requires
        0 <= i < m1.freq_list@.len(),
        m2.call.filename == m1.call.filename,
        m2.freq_list@ == m1.freq_list@.update(i, f),
        !ingest(st, m1).freqlist.contains_key(f.with_call_id(m1.call.filename).rehashed().key()),
    ensures
        ingest(ingest(st, m1), m2).freqlist.dom() == ingest(st, m1).freqlist.dom().insert(
            f.with_call_id(m1.call.filename).rehashed().key(),
        ),
        ingest(ingest(st, m1), m2).freqlist[f.with_call_id(m1.call.filename).rehashed().key()]
            == f.with_call_id(m1.call.filename).rehashed(),
{
    let id = m1.call.filename;
    let e1 = keyed_entries(m1.freq_list@, id);
    let e2 = keyed_entries(m2.freq_list@, id);
    let t1 = ingest(st, m1).freqlist;
    let k = f.with_call_id(id).rehashed().key();
    lemma_insert_new(st.freqlist, e1);
    lemma_insert_new(t1, e2);
    assert(e2[i] == f.with_call_id(id).rehashed());
    assert(has_key(e2, k));
    assert forall|x: i64| has_key(e2, x) implies t1.contains_key(x) || x == k by {
        let j = choose|j: int| 0 <= j < e2.len() && #[trigger] e2[j].key() == x;
        if j != i {
            assert(e2[j] == e1[j]);
            assert(has_key(e1, x));
        }
    }
    assert(ingest(ingest(st, m1), m2).freqlist.dom() =~= t1.dom().insert(k));
    assert forall|j: int| 0 <= j < e2.len() && j != i implies #[trigger] e2[j].key() != e2[i].key() by {
        assert(e2[j] == e1[j]);
        assert(has_key(e1, e1[j].key()));
    }
    lemma_new_key_row(t1, e2, i);
}

/// Persisting a record again with one source entry changed adds exactly
/// one row, the changed entry's, provided its key is not stored yet (only a
/// collision of content keys could make it so).
pub proof fn lemma_changed_src_entry_adds_one_row(
    st: StoreModel,
    m1: AudioMetadata,
    m2: AudioMetadata,
    i: int,
    f: SrcList,
)
    requires
        0 <= i < m1.src_list@.len(),
        m2.call.filename == m1.call.filename,
        m2.src_list@ == m1.src_list@.update(i, f),
        !ingest(st, m1).srclist.contains_key(f.with_call_id(m1.call.filename).rehashed().key()),
    ensures
        ingest(ingest(st, m1), m2).srclist.dom() == ingest(st, m1).srclist.dom().insert(
            f.with_call_id(m1.call.filename).rehashed().key(),
        ),
        ingest(ingest(st, m1), m2).srclist[f.with_call_id(m1.call.filename).rehashed().key()]
            == f.with_call_id(m1.call.filename).rehashed(),
{
    let id = m1.call.filename;
    let e1 = keyed_entries(m1.src_list@, id);
    let e2 = keyed_entries(m2.src_list@, id);
    let t1 = ingest(st, m1).srclist;
    let k = f.with_call_id(id).rehashed().key();
    lemma_insert_new(st.srclist, e1);
    lemma_insert_new(t1, e2);
    assert(e2[i] == f.with_call_id(id).rehashed());
    assert(has_key(e2, k));
    assert forall|x: i64| has_key(e2, x) implies t1.contains_key(x) || x == k by {
        let j = choose|j: int| 0 <= j < e2.len() && #[trigger] e2[j].key() == x;
        if j != i {
            assert(e2[j] == e1[j]);
            assert(has_key(e1, x));
        }
    }
    assert(ingest(ingest(st, m1), m2).srclist.dom() =~= t1.dom().insert(k));
    assert forall|j: int| 0 <= j < e2.len() && j != i implies #[trigger] e2[j].key() != e2[i].key() by {
        assert(e2[j] == e1[j]);
        assert(has_key(e1, e1[j].key()));
    }
    lemma_new_key_row(t1, e2, i);
}

/// The row stored for a key that only entry `i` of `s` has, and that was not
/// stored before, is that entry.
proof fn lemma_new_key_row<T: IsList>(t: Map<i64, T>, s: Seq<T>, i: int)
    requires
        0 <= i < s.len(),
        !t.contains_key(s[i].key()),
        forall|j: int| 0 <= j < s.len() && j != i ==> #[trigger] s[j].key() != s[i].key(),
    ensures
        insert_new(t, s)[s[i].key()] == s[i],
    decreases s.len(),
{
    let p = s.drop_last();
    if i == s.len() - 1 {
        lemma_insert_new(t, p);
        if has_key(p, s[i].key()) {
            let j = choose|j: int| 0 <= j < p.len() && #[trigger] p[j].key() == s[i].key();
            assert(s[j].key() == s[i].key());
        }
        assert(!insert_new(t, p).contains_key(s.last().key()));
        assert(insert_new(t, s) == insert_new(t, p).insert(s.last().key(), s.last()));
    } else {
        assert forall|j: int| 0 <= j < p.len() && j != i implies #[trigger] p[j].key() != p[i].key() by {
            assert(s[j].key() != s[i].key());
        }
        lemma_new_key_row(t, p, i);
        assert(p[i] == s[i]);
        assert(s.last().key() != s[i].key());
    }
}

/// Ingesting two calls of the same talkgroup leaves the talkgroup stored as
/// the later call describes it.
pub proof fn lemma_talkgroup_last_write_wins(st: StoreModel, a: AudioMetadata, b: AudioMetadata)
    requires
        a.talkgroup.talkgroup == b.talkgroup.talkgroup,
    ensures
        ingest(ingest(st, a), b).talkgroups[b.talkgroup.talkgroup] == b.talkgroup,
{
}

} // verus!
