use trunk_processor::{
    filter_on_metadata, should_transcribe, AudioMetadata, AudioType, Call, FilterConfig,
    Talkgroups, UtcTime,
};

fn meta(tgid: i32, group: &str) -> AudioMetadata {
    let t = UtcTime { secs: 1700000000, nanos: 0 };
    AudioMetadata {
        call: Call {
            freq: 851012500,
            freq_error: 0,
            signal: 0,
            noise: 0,
            source_num: 0,
            recorder_num: 1,
            tdma_slot: 0,
            phase2_tdma: 0,
            start_time: t,
            stop_time: UtcTime { secs: 1700000010, nanos: 0 },
            emergency: false,
            priority: 4,
            mode: 0,
            duplex: 0,
            encrypted: false,
            call_length: 10,
            talkgroup: 0,
            audio_type: AudioType::Digital,
            short_name: "county-metro".to_string(),
            transcription: None,
            filename: String::new(),
        },
        talkgroup: Talkgroups {
            talkgroup: tgid,
            talkgroup_tag: "Fire Dispatch".to_string(),
            talkgroup_description: "Fire Dispatch Main".to_string(),
            talkgroup_group_tag: "Fire-Tac".to_string(),
            talkgroup_group: group.to_string(),
        },
        freq_list: vec![],
        src_list: vec![],
        sources: vec![],
    }
}

fn texts(v: &[&str]) -> Vec<String> {
    v.iter().map(|s| s.to_string()).collect()
}

#[test]
fn denied_id_wins_over_group() {
    let c = FilterConfig::new(Some(texts(&["Fire"])), Some(texts(&["!100"])), false);
    assert!(!filter_on_metadata(&meta(100, "Fire"), &c));
    assert!(!should_transcribe(false, &meta(100, "Fire"), &c));
}

#[test]
fn allowed_id_is_transcribed() {
    let c = FilterConfig::new(None, Some(texts(&["200", "100"])), false);
    assert!(filter_on_metadata(&meta(100, "Police"), &c));
}

#[test]
fn allowed_group_is_transcribed() {
    let c = FilterConfig::new(Some(texts(&["EMS", "Fire"])), Some(texts(&["!5"])), false);
    assert!(filter_on_metadata(&meta(100, "Fire"), &c));
}

#[test]
fn unmatched_call_is_not_transcribed() {
    let c = FilterConfig::new(Some(texts(&["EMS"])), Some(texts(&["101"])), true);
    assert!(!filter_on_metadata(&meta(100, "Fire"), &c));
    assert!(!should_transcribe(false, &meta(100, "Fire"), &c));
}

#[test]
fn negative_id_is_matched_in_decimal() {
    let c = FilterConfig::new(None, Some(texts(&["-7"])), false);
    assert!(filter_on_metadata(&meta(-7, "Fire"), &c));
    let d = FilterConfig::new(None, Some(texts(&["!-7"])), false);
    assert!(!filter_on_metadata(&meta(-7, "Fire"), &d));
}

#[test]
fn archive_marker_forces_archiving() {
    let c = FilterConfig::new(None, Some(texts(&["100"])), true);
    assert!(should_transcribe(false, &meta(100, "Fire"), &c));
    assert!(!should_transcribe(true, &meta(100, "Fire"), &c));
}

#[test]
fn unfiltered_default_decides_without_lists() {
    let deny = FilterConfig::new(None, None, false);
    let allow = FilterConfig::new(None, None, true);
    assert!(!deny.enabled());
    assert!(!should_transcribe(false, &meta(100, "Fire"), &deny));
    assert!(should_transcribe(false, &meta(100, "Fire"), &allow));
}

#[test]
fn filter_lists_read_back() {
    let c = FilterConfig::new(Some(texts(&["Fire"])), None, false);
    assert!(c.enabled());
    assert_eq!(c.group(), texts(&["Fire"]));
    assert!(c.tgid().is_empty());
    assert!(!c.unfiltered_default());
}
