use vstd::prelude::*;

use crate::model::AudioMetadata;
use crate::text::{decimal, push_char, push_decimal};

verus! {

/// Settings that the service reads from its environment.
#[derive(Clone, Debug)]
pub struct EnvConfig {
    pub transcription_endpoint: String,
    pub bucket_name: String,
    pub discord_webhook: String,
    pub model_name: String,
    pub database_url: String,
}

/// Which calls are transcribed: talkgroup ids to allow (`"100"`) or deny
/// (`"!100"`), and talkgroup groups to allow. Either list may be absent; when
/// both are, `unfiltered_default` decides for every call.
#[derive(Clone, Debug)]
pub struct FilterConfig {
    tg_group: Option<Vec<String>>,
    tg_id: Option<Vec<String>>,
    unfiltered_default: bool,
}

pub open spec fn texts(v: Option<Vec<String>>) -> Seq<Seq<char>> {
    match v {
        Some(v) => v@.map_values(|s: String| s@),
        None => Seq::empty(),
    }
}

/// Whether a call of talkgroup `tgid` in group `group` is transcribed under
/// the id list `ids` and the group list `groups`: a denied id wins, then an
/// allowed id, then an allowed group; anything else is not transcribed.
pub open spec fn filter_allows(
    ids: Seq<Seq<char>>,
    groups: Seq<Seq<char>>,
    tgid: int,
    group: Seq<char>,
) -> bool {
    if ids.contains(seq!['!'] + decimal(tgid)) {
        false
    } else if ids.contains(decimal(tgid)) {
        true
    } else {
        groups.contains(group)
    }
}

fn copy_texts(v: &Vec<String>) -> (r: Vec<String>)
    ensures
        r@ == v@,
{
    let mut r: Vec<String> = Vec::new();
    let mut i: usize = 0;
    while i < v.len()
        invariant
            i <= v@.len(),
            r@ == v@.subrange(0, i as int),
        decreases v@.len() - i,
    {
        r.push(v[i].clone());
        i += 1;
        assert(r@ =~= v@.subrange(0, i as int));
    }
    assert(v@.subrange(0, v@.len() as int) =~= v@);
    r
}

fn contains_text(v: &Vec<String>, s: &String) -> (r: bool)
    ensures
        r == v@.map_values(|t: String| t@).contains(s@),
{
    let ghost vs = v@.map_values(|t: String| t@);
    let mut i: usize = 0;
    while i < v.len()
        invariant
            i <= v@.len(),
            vs == v@.map_values(|t: String| t@),
            forall|j: int| 0 <= j < i ==> vs[j] != s@,
        decreases v@.len() - i,
    {
        if v[i] == *s {
            assert(vs[i as int] == s@);
            return true;
        }
        i += 1;
    }
    false
}

impl FilterConfig {
    pub closed spec fn group_list(&self) -> Seq<Seq<char>> {
        texts(self.tg_group)
    }

    pub closed spec fn id_list(&self) -> Seq<Seq<char>> {
        texts(self.tg_id)
    }

    pub closed spec fn spec_enabled(&self) -> bool {
        self.tg_group is Some || self.tg_id is Some
    }

    /// The decision when no list is configured.
    pub closed spec fn spec_unfiltered_default(&self) -> bool {
        self.unfiltered_default
    }

    pub fn new(
        tg_group: Option<Vec<String>>,
        tg_id: Option<Vec<String>>,
        unfiltered_default: bool,
    ) -> (r: FilterConfig)
        ensures
            r.group_list() == texts(tg_group),
            r.id_list() == texts(tg_id),
            r.spec_enabled() == (tg_group is Some || tg_id is Some),
            r.spec_unfiltered_default() == unfiltered_default,
    {
        FilterConfig { tg_group, tg_id, unfiltered_default }
    }

    pub fn unfiltered_default(&self) -> (r: bool)
        ensures
            r == self.spec_unfiltered_default(),
    {
        self.unfiltered_default
    }

    /// Whether any list is configured.
    pub fn enabled(&self) -> (r: bool)
        ensures
            r == self.spec_enabled(),
    {
        self.tg_group.is_some() || self.tg_id.is_some()
    }

    /// The group list, empty when absent.
    pub fn group(&self) -> (r: Vec<String>)
        ensures
            r@.map_values(|s: String| s@) == self.group_list(),
    {
        match &self.tg_group {
            Some(group) => {
                let r = copy_texts(group);
                assert(r@.map_values(|s: String| s@) =~= self.group_list());
                r
            },
            None => {
                let r: Vec<String> = Vec::new();
                assert(r@.map_values(|s: String| s@) =~= Seq::<Seq<char>>::empty());
                r
            },
        }
    }

    /// The id list, empty when absent.
    pub fn tgid(&self) -> (r: Vec<String>)
        ensures
            r@.map_values(|s: String| s@) == self.id_list(),
    {
        match &self.tg_id {
            Some(tgid) => {
                let r = copy_texts(tgid);
                assert(r@.map_values(|s: String| s@) =~= self.id_list());
                r
            },
            None => {
                let r: Vec<String> = Vec::new();
                assert(r@.map_values(|s: String| s@) =~= Seq::<Seq<char>>::empty());
                r
            },
        }
    }
}

/// The filter's decision for the call that `m` describes.
pub fn filter_on_metadata(m: &AudioMetadata, c: &FilterConfig) -> (r: bool)
    ensures
        r == filter_allows(
            c.id_list(),
            c.group_list(),
            m.talkgroup.talkgroup as int,
            m.talkgroup.talkgroup_group@,
        ),
{
    let mut tgid_as_string = String::new();
    push_decimal(&mut tgid_as_string, m.talkgroup.talkgroup as i64);
    let mut deny_tgid = String::new();
    push_char(&mut deny_tgid, '!');
    push_decimal(&mut deny_tgid, m.talkgroup.talkgroup as i64);
    assert(tgid_as_string@ =~= decimal(m.talkgroup.talkgroup as int));
    assert(deny_tgid@ =~= seq!['!'] + decimal(m.talkgroup.talkgroup as int));
    let ids = c.tgid();
    if contains_text(&ids, &deny_tgid) {
        return false;
    }
    if contains_text(&ids, &tgid_as_string) {
        return true;
    }
    let groups = c.group();
    contains_text(&groups, &m.talkgroup.talkgroup_group)
}

/// Whether an upload is transcribed: an upload marked for archiving never is;
/// otherwise the filter decides, or the configured default when no list is set.
pub open spec fn transcribes(archive: bool, m: AudioMetadata, c: FilterConfig) -> bool {
    if archive {
        false
    } else if c.spec_enabled() {
        filter_allows(
            c.id_list(),
            c.group_list(),
            m.talkgroup.talkgroup as int,
            m.talkgroup.talkgroup_group@,
        )
    } else {
        c.spec_unfiltered_default()
    }
}

pub fn should_transcribe(archive: bool, m: &AudioMetadata, c: &FilterConfig) -> (r: bool)
    ensures
        r == transcribes(archive, *m, *c),
{
    if archive {
        false
    } else if c.enabled() {
        filter_on_metadata(m, c)
    } else {
        c.unfiltered_default()
    }
}

} // verus!
