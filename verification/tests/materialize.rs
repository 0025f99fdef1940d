use faf_replay::error::{Corruption, ReplayError};
use faf_replay::materialize::{prepare_replay_file, Event, Materialization, ReplayLocation};

fn legacy_content() -> Vec<u8> {
    b"{\"meta\":true}\nAAAAAHicY2RiZmEFAAAoABA=\n".to_vec()
}

fn all_events() -> Vec<Event> {
    vec![
        Event::ContainerRead(legacy_content()),
        Event::ContainerRead(Vec::new()),
        Event::ReplayStored("/tmp/replay".to_string()),
        Event::IoFailed("permission denied".to_string()),
    ]
}

#[test]
fn raw_replay_is_used_in_place() {
    let state = prepare_replay_file("/replays/1234.scfareplay");
    assert_eq!(
        state,
        Materialization::Resolved(ReplayLocation::AtPath("/replays/1234.scfareplay".to_string()))
    );
    assert!(state.is_settled());
    let location = state.result().unwrap().unwrap();
    assert_eq!(location.path(), "/replays/1234.scfareplay");
}

#[test]
fn raw_replay_path_is_returned_unchanged() {
    for path in ["a.scfareplay", "./rel/../x.scfareplay", "C:\\Spiele\\Wiederholung ä.scfareplay", ".scfareplay"] {
        match prepare_replay_file(path).result() {
            Some(Ok(ReplayLocation::AtPath(found))) => assert_eq!(found, path),
            other => panic!("unexpected result {:?}", other),
        }
    }
}

#[test]
fn unknown_format_fails_at_once() {
    for path in ["", "replay", "replay.txt", "replay.scfareplayX", "replay.fafreplay.gz", "replay.SCFAREPLAY"] {
        let state = prepare_replay_file(path);
        assert_eq!(state, Materialization::Failed(ReplayError::UnsupportedFormat));
        assert!(state.is_settled());
        assert_eq!(state.result(), Some(Err(ReplayError::UnsupportedFormat)));
    }
}

#[test]
fn legacy_container_is_to_be_read() {
    let state = prepare_replay_file("/replays/1234.fafreplay");
    assert_eq!(state, Materialization::Decoding("/replays/1234.fafreplay".to_string()));
    assert!(!state.is_settled());
    assert_eq!(state.result(), None);
}

#[test]
fn legacy_container_end_to_end() {
    let state = prepare_replay_file("game.fafreplay");
    let state = state.advance(Event::ContainerRead(legacy_content()));
    assert_eq!(state, Materialization::Decoded(vec![1, 2, 3, 4, 5]));
    assert!(!state.is_settled());
    assert_eq!(state.clone().result(), None);
    let state = state.advance(Event::ReplayStored("/tmp/.tmpAbCdEf".to_string()));
    assert_eq!(
        state,
        Materialization::Resolved(ReplayLocation::AtTempFile("/tmp/.tmpAbCdEf".to_string()))
    );
    assert!(state.is_settled());
    let location = state.result().unwrap().unwrap();
    assert_eq!(location.path(), "/tmp/.tmpAbCdEf");
}

#[test]
fn unreadable_container_is_an_io_error() {
    let state = prepare_replay_file("game.fafreplay");
    let state = state.advance(Event::IoFailed("No such file or directory".to_string()));
    assert_eq!(
        state,
        Materialization::Failed(ReplayError::IoError("No such file or directory".to_string()))
    );
    assert!(state.is_settled());
}

#[test]
fn corrupt_container_fails_without_a_temporary_file() {
    let cases: [(&[u8], Corruption); 5] = [
        (b"", Corruption::MissingMetadata),
        (b"{\"meta\":true}\n", Corruption::MissingStream),
        (b"{\"meta\":true}\nnot-base64!!", Corruption::BadBase64),
        (b"{\"meta\":true}\nAAA=", Corruption::TruncatedHeader),
        (b"{\"meta\":true}\nAAAAAHicY2Ri", Corruption::BadCompressedStream),
    ];
    for (content, damage) in cases {
        let state = prepare_replay_file("game.fafreplay");
        let state = state.advance(Event::ContainerRead(content.to_vec()));
        assert_eq!(state, Materialization::Failed(ReplayError::CorruptReplay(damage)));
        assert!(state.is_settled());
        assert_eq!(state.result(), Some(Err(ReplayError::CorruptReplay(damage))));
    }
}

#[test]
fn failed_temporary_file_is_an_io_error() {
    let state = Materialization::Decoded(vec![1, 2, 3]);
    let state = state.advance(Event::IoFailed("No space left on device".to_string()));
    assert_eq!(
        state,
        Materialization::Failed(ReplayError::IoError("No space left on device".to_string()))
    );
}

#[test]
fn settled_states_are_final() {
    let settled = [
        Materialization::Resolved(ReplayLocation::AtPath("a.scfareplay".to_string())),
        Materialization::Resolved(ReplayLocation::AtTempFile("/tmp/a".to_string())),
        Materialization::Failed(ReplayError::UnsupportedFormat),
        Materialization::Failed(ReplayError::IoError("gone".to_string())),
        Materialization::Failed(ReplayError::CorruptReplay(Corruption::BadBase64)),
    ];
    for state in settled {
        for event in all_events() {
            assert_eq!(state.clone().advance(event), state);
        }
    }
}

#[test]
fn events_that_are_not_awaited_change_nothing() {
    let decoding = Materialization::Decoding("game.fafreplay".to_string());
    assert_eq!(decoding.clone().advance(Event::ReplayStored("/tmp/a".to_string())), decoding);
    let decoded = Materialization::Decoded(vec![1, 2, 3]);
    assert_eq!(decoded.clone().advance(Event::ContainerRead(legacy_content())), decoded);
}

#[test]
fn location_path_projects_both_variants() {
    assert_eq!(ReplayLocation::AtPath("x.scfareplay".to_string()).path(), "x.scfareplay");
    assert_eq!(ReplayLocation::AtTempFile("/tmp/y".to_string()).path(), "/tmp/y");
    assert_eq!(ReplayLocation::AtPath(String::new()).path(), "");
}

#[test]
fn result_is_known_only_when_settled() {
    assert_eq!(Materialization::Decoding("a.fafreplay".to_string()).result(), None);
    assert_eq!(Materialization::Decoded(vec![]).result(), None);
    assert_eq!(
        Materialization::Resolved(ReplayLocation::AtTempFile("/tmp/a".to_string())).result(),
        Some(Ok(ReplayLocation::AtTempFile("/tmp/a".to_string())))
    );
    assert_eq!(
        Materialization::Failed(ReplayError::IoError("x".to_string())).result(),
        Some(Err(ReplayError::IoError("x".to_string())))
    );
}
