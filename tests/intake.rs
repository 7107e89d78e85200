use trunk_processor::{validate_part, Error, PartKind, UploadParts, MAX_FILE_SIZE};

fn exts(v: &[&str]) -> Vec<String> {
    v.iter().map(|s| s.to_string()).collect()
}

fn some(s: &str) -> Option<String> {
    Some(s.to_string())
}

#[test]
fn missing_audio_part_is_a_missing_field() {
    let mut parts = UploadParts::new();
    let e = exts(&[".m4a"]);
    parts.accept(some("json"), some("call.json"), vec![1, 2], &e).unwrap();
    match parts.validate_and_build() {
        Err(err) => {
            assert_eq!(err.status_code(), 400);
            match err {
                Error::MissingField(m) => assert_eq!(m, "audio"),
                other => panic!("unexpected error {:?}", other),
            }
        }
        Ok(_) => panic!("an upload without audio was accepted"),
    }
}

#[test]
fn missing_json_part_is_a_missing_field() {
    match UploadParts::new().validate_and_build() {
        Err(Error::MissingField(m)) => assert_eq!(m, "json"),
        _ => panic!("expected a missing json part"),
    }
}

#[test]
fn unlisted_audio_extension_is_rejected() {
    let e = exts(&[".m4a", ".wav"]);
    let r = validate_part(&some("audio"), &some("call.mp3"), 10, &e);
    match r {
        Err(err) => {
            assert!(matches!(err, Error::InvalidFileType(_)));
            assert_eq!(err.status_code(), 400);
        }
        Ok(_) => panic!("an .mp3 file was accepted"),
    }
    assert_eq!(validate_part(&some("audio"), &some("call.wav"), 10, &e).unwrap(), PartKind::Audio);
}

#[test]
fn json_part_needs_json_extension() {
    let e = exts(&[".m4a"]);
    assert_eq!(validate_part(&some("json"), &some("a.json"), 0, &e).unwrap(), PartKind::Json);
    assert!(matches!(
        validate_part(&some("json"), &some("a.txt"), 0, &e),
        Err(Error::InvalidFileType(_))
    ));
}

#[test]
fn oversized_part_is_rejected() {
    let e = exts(&[".m4a"]);
    match validate_part(&some("audio"), &some("a.m4a"), MAX_FILE_SIZE + 1, &e) {
        Err(Error::FileTooLarge { size, max_size }) => {
            assert_eq!(size, 52428801);
            assert_eq!(max_size, 52428800);
        }
        _ => panic!("expected FileTooLarge"),
    }
    assert!(validate_part(&some("audio"), &some("a.m4a"), MAX_FILE_SIZE, &e).is_ok());
}

#[test]
fn nameless_parts_are_missing_fields() {
    let e = exts(&[".m4a"]);
    match validate_part(&None, &some("a.m4a"), 1, &e) {
        Err(Error::MissingField(m)) => assert_eq!(m, "Field missing name"),
        _ => panic!("expected MissingField"),
    }
    match validate_part(&some("audio"), &None, 1, &e) {
        Err(Error::MissingField(m)) => assert_eq!(m, "Missing filename for field: audio"),
        _ => panic!("expected MissingField"),
    }
}

#[test]
fn unknown_part_name_is_rejected() {
    let e = exts(&[".m4a"]);
    let mut parts = UploadParts::new();
    let r = parts.accept(some("image"), some("a.png"), vec![0], &e);
    assert!(matches!(r, Err(Error::InvalidFileType(_))));
    assert!(parts.json.is_none() && parts.audio.is_none());
}

#[test]
fn both_parts_build_an_upload() {
    let e = exts(&[".m4a"]);
    let mut parts = UploadParts::new();
    parts.accept(some("audio"), some("old.m4a"), vec![9], &e).unwrap();
    parts.accept(some("json"), some("call.json"), vec![1, 2, 3], &e).unwrap();
    parts.accept(some("audio"), some("call.m4a"), vec![4, 5], &e).unwrap();
    let data = parts.validate_and_build().unwrap();
    assert_eq!(data.json.name, "call.json");
    assert_eq!(data.json.data, vec![1, 2, 3]);
    assert_eq!(data.audio.name, "call.m4a");
    assert_eq!(data.audio.data, vec![4, 5]);
}
