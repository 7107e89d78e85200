use trunk_processor::{
    create_webhook, format_timestamp_from_datetime, hash_words, object_key, path_from_json,
    plan_upload, set_call_ids, set_transcription, write_plan, AudioMetadata, AudioMetadataRaw,
    AudioType, Call, EmbedFieldType, Error, FilterConfig, FlowAction, FlowEvent, FlowPhase,
    FreqList, IsList, Route, SrcListRaw, UploadFlow,
    Talkgroups, UploadData, UploadedFile, UtcTime, FNV_OFFSET, MAX_UTC_SECS, MIN_UTC_SECS,
};

fn call(short_name: &str, secs: i64) -> Call {
    Call {
        freq: 851012500,
        freq_error: -12,
        signal: -40,
        noise: -90,
        source_num: 0,
        recorder_num: 2,
        tdma_slot: 0,
        phase2_tdma: 0,
        start_time: UtcTime { secs, nanos: 0 },
        stop_time: UtcTime { secs: secs + 12, nanos: 0 },
        emergency: false,
        priority: 4,
        mode: 0,
        duplex: 0,
        encrypted: false,
        call_length: 12,
        talkgroup: 0,
        audio_type: AudioType::DigitalTdma,
        short_name: short_name.to_string(),
        transcription: None,
        filename: String::new(),
    }
}

fn talkgroup(id: i32, description: &str) -> Talkgroups {
    Talkgroups {
        talkgroup: id,
        talkgroup_tag: "FD Disp".to_string(),
        talkgroup_description: description.to_string(),
        talkgroup_group_tag: "Fire-Tac".to_string(),
        talkgroup_group: "Fire".to_string(),
    }
}

fn freq(pos: i64) -> FreqList {
    FreqList {
        call_id: String::new(),
        hashed: 0,
        freq: 851012500,
        time: UtcTime { secs: 1700000000, nanos: 0 },
        pos,
        len: 1_500_000_000,
        error_count: 0,
        spike_count: 1,
    }
}

fn raw_src(src: i32, tag: Option<&str>) -> SrcListRaw {
    SrcListRaw {
        src,
        time: UtcTime { secs: 1700000001, nanos: 0 },
        pos: 250_000_000,
        emergency: false,
        signal_system: Some("p25".to_string()),
        tag: tag.map(|t| t.to_string()),
    }
}

fn meta() -> AudioMetadata {
    AudioMetadata::from_raw(AudioMetadataRaw {
        call: call("county-sys-metro", 1700000000),
        talkgroup: talkgroup(100, "Fire Dispatch Main"),
        freq_list: vec![freq(0), freq(1_500_000_000)],
        src_list_raw: vec![raw_src(7001, Some("Engine 1")), raw_src(7002, None)],
    })
}

fn files() -> UploadData {
    UploadData {
        json: UploadedFile { name: "100-1700000000.json".to_string(), data: vec![b'{', b'}'] },
        audio: UploadedFile { name: "100-1700000000.m4a".to_string(), data: vec![0, 1, 2] },
    }
}

#[test]
fn storage_path_from_metadata() {
    let m = meta();
    let first = path_from_json(&m).unwrap();
    let second = path_from_json(&m).unwrap();
    assert_eq!(first, "metro/2023/11/14");
    assert_eq!(first, second);
}

#[test]
fn storage_path_failures() {
    let mut m = meta();
    m.call.short_name = String::new();
    assert!(matches!(path_from_json(&m), Err(Error::Multipart(_))));
    let mut m = meta();
    m.call.start_time = UtcTime { secs: MAX_UTC_SECS + 1, nanos: 0 };
    assert!(matches!(path_from_json(&m), Err(Error::PathParse(_))));
    m.call.start_time = UtcTime { secs: MAX_UTC_SECS, nanos: 0 };
    assert!(path_from_json(&m).is_ok());
    m.call.start_time = UtcTime { secs: MIN_UTC_SECS, nanos: 0 };
    assert!(path_from_json(&m).is_ok());
}

#[test]
fn representable_times() {
    assert!(UtcTime { secs: 59, nanos: 1_500_000_000 }.is_representable());
    assert!(!UtcTime { secs: 58, nanos: 1_500_000_000 }.is_representable());
    assert!(UtcTime { secs: -1, nanos: 1_000_000_000 }.is_representable());
    assert!(!UtcTime { secs: MIN_UTC_SECS - 1, nanos: 0 }.is_representable());
}

#[test]
fn object_keys() {
    let prefix = "metro/2023/11/14".to_string();
    assert_eq!(object_key(&prefix, &"a.m4a".to_string()).unwrap(), "metro/2023/11/14/a.m4a");
    assert!(matches!(object_key(&prefix, &"..".to_string()), Err(Error::PathParse(_))));
    assert!(matches!(object_key(&prefix, &"a\u{1}b".to_string()), Err(Error::PathParse(_))));
    assert_eq!(object_key(&prefix, &"".to_string()).unwrap(), "metro/2023/11/14");
    assert_eq!(object_key(&"/a".to_string(), &"b/".to_string()).unwrap(), "a/b");
    assert!(matches!(object_key(&"a/.".to_string(), &"b".to_string()), Err(Error::PathParse(_))));
    assert!(object_key(&"a/.x".to_string(), &"b".to_string()).is_ok());
}

#[test]
fn rfc3339_timestamps() {
    let t = UtcTime { secs: 1700000000, nanos: 123_456_789 };
    assert_eq!(format_timestamp_from_datetime(t), "2023-11-14T22:13:20.123Z");
}

#[test]
fn word_hash_values() {
    assert_eq!(hash_words(&vec![]), FNV_OFFSET as i64);
    assert_eq!(hash_words(&vec![]), -3750763034362895579);
    assert_eq!(hash_words(&vec![1, 2, 3]), -3410805910829992533);
    assert_eq!(hash_words(&vec![0]), -5808590958014384161);
}

#[test]
fn normalised_entries_are_keyed() {
    let m = meta();
    assert_eq!(m.sources.len(), 2);
    assert_eq!(m.sources[0].src, 7001);
    assert_eq!(m.sources[0].tag.as_deref(), Some("Engine 1"));
    assert_eq!(m.sources[1].tag, None);
    assert_eq!(m.src_list[1].src, 7002);
    assert_eq!(m.src_list[1].signal_system.as_deref(), Some("p25"));
    assert_ne!(m.src_list[0].hashed, 0);
    assert_ne!(m.freq_list[0].hashed, m.freq_list[1].hashed);
    let mut again = freq(0);
    again.calculate_hash();
    assert_eq!(again.hashed, m.freq_list[0].hashed);
}

#[test]
fn reingesting_gives_identical_entry_keys() {
    let mut a = meta();
    a.call.filename = "metro/2023/11/14/x.m4a".to_string();
    let b = a.clone();
    let pa = write_plan(a);
    let pb = write_plan(b);
    for (x, y) in pa.freq_list.iter().zip(pb.freq_list.iter()) {
        assert_eq!(x.hashed, y.hashed);
        assert_eq!(x.call_id, "metro/2023/11/14/x.m4a");
    }
    for (x, y) in pa.src_list.iter().zip(pb.src_list.iter()) {
        assert_eq!(x.hashed, y.hashed);
    }
}

#[test]
fn changed_entry_gets_a_new_key() {
    let mut v = vec![freq(0), freq(0)];
    v[1].spike_count = 2;
    set_call_ids(&mut v, "k".to_string());
    assert_ne!(v[0].hashed, v[1].hashed);
    let mut w = vec![freq(0)];
    set_call_ids(&mut w, "other".to_string());
    assert_ne!(w[0].hashed, v[0].hashed);
}

#[test]
fn later_talkgroup_description_is_written() {
    let a = meta();
    let mut b = meta();
    b.talkgroup = talkgroup(100, "Fire Dispatch North");
    let pa = write_plan(a);
    let pb = write_plan(b);
    assert_eq!(pa.talkgroup.talkgroup, pb.talkgroup.talkgroup);
    assert_eq!(pb.talkgroup.talkgroup_description, "Fire Dispatch North");
}

#[test]
fn archive_upload_plan() {
    let filter = FilterConfig::new(None, Some(vec!["100".to_string()]), true);
    let mut m = meta();
    m.call.transcription = Some("stale".to_string());
    let plan = plan_upload(&files(), m, true, &filter).unwrap();
    assert_eq!(plan.route, Route::Archive);
    assert_eq!(plan.prefix, "metro/2023/11/14");
    assert_eq!(plan.json_key, "metro/2023/11/14/100-1700000000.json");
    assert_eq!(plan.audio_key, "metro/2023/11/14/100-1700000000.m4a");
    assert_eq!(plan.meta.call.filename, "metro/2023/11/14/100-1700000000.m4a");
    assert_eq!(plan.meta.call.talkgroup, 100);
    assert_eq!(plan.meta.call.transcription, None);
}

#[test]
fn transcribe_upload_plan_and_notification() {
    let filter = FilterConfig::new(None, None, true);
    let plan = plan_upload(&files(), meta(), false, &filter).unwrap();
    assert_eq!(plan.route, Route::Transcribe);
    let mut m = plan.meta;
    set_transcription(&mut m, "engine one responding".to_string());
    assert_eq!(m.call.transcription.as_deref(), Some("engine one responding"));
    let w = create_webhook(&m, "engine one responding".to_string());
    assert_eq!(w.username, "Trunk Recorder");
    assert_eq!(w.embeds.len(), 1);
    let e = &w.embeds[0];
    assert_eq!(e.color, "12110930");
    assert_eq!(e.title, "Fire - Fire Dispatch Main");
    assert_eq!(e.timestamp, "2023-11-14T22:13:20.000Z");
    assert_eq!(e.fields.len(), 3);
    assert_eq!(e.fields[0].name, "Start timestamp:");
    assert_eq!(e.fields[0].value, "2023-11-14T22:13:20.000Z");
    assert_eq!(e.fields[1].name, "Radio IDs:");
    assert_eq!(e.fields[1].value, "7001, 7002");
    assert_eq!(e.fields[2].name, "Transcription:");
    assert_eq!(e.fields[2].value, "engine one responding");
}

#[test]
fn plan_fails_on_bad_object_name() {
    let filter = FilterConfig::new(None, None, false);
    let mut f = files();
    f.audio.name = "..".to_string();
    assert!(matches!(plan_upload(&f, meta(), false, &filter), Err(Error::PathParse(_))));
}

#[test]
fn radio_id_field() {
    let f = EmbedFieldType::RadioIds(vec![1, 22, -3]).into_embed_field();
    assert_eq!(f.name, "Radio IDs:");
    assert_eq!(f.value, "1, 22, -3");
    let f = EmbedFieldType::RadioIds(vec![]).into_embed_field();
    assert_eq!(f.value, "");
}

#[test]
fn archive_flow_stores_without_notifying() {
    let filter = FilterConfig::new(None, None, true);
    let plan = plan_upload(&files(), meta(), true, &filter).unwrap();
    let mut flow = UploadFlow::new(plan);
    assert!(matches!(flow.start(), FlowAction::StoreAndPersist));
    assert_eq!(flow.plan.meta.call.transcription, None);
    assert!(matches!(flow.advance(FlowEvent::Completed), FlowAction::Finish));
    assert_eq!(flow.phase, FlowPhase::Stored);
}

#[test]
fn transcribe_flow_records_and_notifies() {
    let filter = FilterConfig::new(None, None, true);
    let plan = plan_upload(&files(), meta(), false, &filter).unwrap();
    let mut flow = UploadFlow::new(plan);
    assert!(matches!(flow.start(), FlowAction::StoreAndTranscribe));
    match flow.advance(FlowEvent::Transcribed("units respond".to_string())) {
        FlowAction::PersistAndNotify(w) => {
            let fields = &w.embeds[0].fields;
            assert_eq!(fields[0].value, "2023-11-14T22:13:20.000Z");
            assert_eq!(fields[1].value, "7001, 7002");
            assert_eq!(fields[2].value, "units respond");
        }
        other => panic!("unexpected action {:?}", other),
    }
    assert_eq!(flow.plan.meta.call.transcription.as_deref(), Some("units respond"));
    assert!(matches!(flow.advance(FlowEvent::Completed), FlowAction::Finish));
}

#[test]
fn failed_work_aborts_the_flow() {
    let filter = FilterConfig::new(None, None, true);
    let plan = plan_upload(&files(), meta(), false, &filter).unwrap();
    let mut flow = UploadFlow::new(plan);
    flow.start();
    match flow.advance(FlowEvent::Failed(Error::WebhookSend("timeout".to_string()))) {
        FlowAction::Abort(Error::WebhookSend(m)) => assert_eq!(m, "timeout"),
        other => panic!("unexpected action {:?}", other),
    }
    assert_eq!(flow.phase, FlowPhase::Failed);
    assert!(matches!(flow.advance(FlowEvent::Completed), FlowAction::Abort(_)));
    assert!(matches!(flow.start(), FlowAction::Abort(_)));
}

#[test]
fn split_source_observations() {
    let raw = AudioMetadataRaw {
        call: call("sys", 1700000000),
        talkgroup: talkgroup(1, "d"),
        freq_list: vec![],
        src_list_raw: vec![raw_src(5, Some("E5")), raw_src(6, None)],
    };
    let (entries, radios) = raw.split_src_list();
    assert_eq!(entries.len(), 2);
    assert_eq!(entries[0].src, 5);
    assert_eq!(entries[0].hashed, 0);
    assert_eq!(entries[0].call_id, "");
    assert_eq!(entries[1].pos, 250_000_000);
    assert_eq!(radios[0].tag.as_deref(), Some("E5"));
    assert_eq!(radios[1].src, 6);
}

#[test]
fn content_keys_follow_the_word_order() {
    let mut f = freq(0);
    f.calculate_hash();
    assert_eq!(f.hashed, 4800324262629927542);
    let mut g = freq(-5);
    g.set_call_id("k".to_string());
    g.calculate_hash();
    assert_eq!(g.call_id, "k");
    assert_eq!(g.hashed, -5010492850873432589);
    let mut s = trunk_processor::SrcList {
        call_id: "k".to_string(),
        hashed: 0,
        src: 7001,
        time: UtcTime { secs: 1700000001, nanos: 0 },
        pos: 250_000_000,
        emergency: true,
        signal_system: Some("p25".to_string()),
    };
    s.calculate_hash();
    assert_eq!(s.hashed, -6345593316546403321);
}
