use gateway::codec::{decode_state, encode_state};
use gateway::state::{BackendAddr, ErrorMessage, ProjectState};

fn round_trips(s: ProjectState) {
    let bytes = encode_state(&s);
    let back = decode_state(bytes.as_slice()).expect("canonical encoding must decode");
    assert_eq!(back, s);
}

#[test]
fn every_variant_round_trips() {
    round_trips(ProjectState::Creating { recreate_count: 0 });
    round_trips(ProjectState::Creating { recreate_count: 3 });
    round_trips(ProjectState::Attaching { container_id: 7, recreate_count: 1 });
    round_trips(ProjectState::Starting { container_id: u64::MAX, restart_count: 5 });
    round_trips(ProjectState::Started { container_id: 0, start_count: 2 });
    round_trips(ProjectState::Ready {
        container_id: 0x0102030405060708,
        backend: BackendAddr { ip: 0x7f000001, port: 65535 },
    });
    round_trips(ProjectState::Stopping { container_id: 12 });
    round_trips(ProjectState::Stopped { container_id: 12 });
    round_trips(ProjectState::Restarting { container_id: 12, restart_count: 4 });
    round_trips(ProjectState::Recreating { recreate_count: 2 });
    round_trips(ProjectState::Destroying { container_id: 99 });
    round_trips(ProjectState::Destroyed);
    round_trips(ProjectState::Errored { message: ErrorMessage::CreateLimit, previous: None });
    round_trips(ProjectState::Errored {
        message: ErrorMessage::RestartLimit,
        previous: Some(Box::new(ProjectState::Started { container_id: 4, start_count: 5 })),
    });
    // a nested failure chain survives too
    round_trips(ProjectState::Errored {
        message: ErrorMessage::RecreateLimit,
        previous: Some(Box::new(ProjectState::Errored {
            message: ErrorMessage::RestartLimit,
            previous: Some(Box::new(ProjectState::Destroying { container_id: 1 })),
        })),
    });
}

#[test]
fn exact_bytes_of_small_states() {
    assert_eq!(encode_state(&ProjectState::Destroyed), vec![10]);
    assert_eq!(encode_state(&ProjectState::Creating { recreate_count: 2 }), vec![0, 2]);
    assert_eq!(
        encode_state(&ProjectState::Stopped { container_id: 1 }),
        vec![6, 1, 0, 0, 0, 0, 0, 0, 0]
    );
    assert_eq!(
        encode_state(&ProjectState::Errored { message: ErrorMessage::RecreateLimit, previous: None }),
        vec![11, 1, 0]
    );
}

#[test]
fn junk_is_refused() {
    assert_eq!(decode_state(&[]), None);
    assert_eq!(decode_state(&[12]), None); // unknown tag
    assert_eq!(decode_state(&[1, 0, 0]), None); // truncated
    assert_eq!(decode_state(&[10, 0]), None); // trailing byte
    assert_eq!(decode_state(&[11, 3, 0]), None); // unknown cause
    assert_eq!(decode_state(&[11, 0, 2]), None); // bad nesting flag
    assert_eq!(decode_state(&[11, 0, 1]), None); // nested state missing
}
