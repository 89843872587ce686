//! The canonical byte encoding of persisted project states.
//!
//! The store keeps each project's state as a single value; this module
//! fixes its wire form: a tag byte, then the variant's fields — handles
//! little-endian, counts as single bytes, the `Errored` cause as a tag and
//! its previous state nested.  Decoding accepts exactly the canonical
//! encodings, so no torn or partial state is ever read back.

use vstd::bytes::*;
use vstd::prelude::*;
use vstd::slice::*;

use crate::state::{BackendAddr, ErrorMessage, ProjectState};

verus! {

/// The byte standing for an `Errored` cause.
pub open spec fn spec_msg_tag(m: ErrorMessage) -> u8 {
    match m {
        ErrorMessage::CreateLimit => 0,
        ErrorMessage::RecreateLimit => 1,
        ErrorMessage::RestartLimit => 2,
    }
}

/// The canonical encoding of a state.
pub open spec fn spec_encode(s: ProjectState) -> Seq<u8>
    decreases s,
{
    match s {
        ProjectState::Creating { recreate_count } => seq![0u8, recreate_count],
        ProjectState::Attaching { container_id, recreate_count } => seq![1u8]
            + spec_u64_to_le_bytes(container_id) + seq![recreate_count],
        ProjectState::Starting { container_id, restart_count } => seq![2u8]
            + spec_u64_to_le_bytes(container_id) + seq![restart_count],
        ProjectState::Started { container_id, start_count } => seq![3u8] + spec_u64_to_le_bytes(
            container_id,
        ) + seq![start_count],
        ProjectState::Ready { container_id, backend } => seq![4u8] + spec_u64_to_le_bytes(
            container_id,
        ) + spec_u32_to_le_bytes(backend.ip) + spec_u16_to_le_bytes(backend.port),
        ProjectState::Stopping { container_id } => seq![5u8] + spec_u64_to_le_bytes(container_id),
        ProjectState::Stopped { container_id } => seq![6u8] + spec_u64_to_le_bytes(container_id),
        ProjectState::Restarting { container_id, restart_count } => seq![7u8]
            + spec_u64_to_le_bytes(container_id) + seq![restart_count],
        ProjectState::Recreating { recreate_count } => seq![8u8, recreate_count],
        ProjectState::Destroying { container_id } => seq![9u8] + spec_u64_to_le_bytes(
            container_id,
        ),
        ProjectState::Destroyed => seq![10u8],
        ProjectState::Errored { message, previous } => seq![11u8, spec_msg_tag(message)] + match previous {
            None => seq![0u8],
            Some(p) => seq![1u8] + spec_encode(*p),
        },
    }
}

/// Parses one state out of `b` starting at `at`; `Some((state, next))`
/// leaves `next` at the first byte after it.
pub open spec fn spec_decode_at(b: Seq<u8>, at: int) -> Option<(ProjectState, int)>
    decreases b.len() - at,
{
    if at < 0 || at >= b.len() {
        None
    } else {
        let tag = b[at];
        if tag == 0 {
            if at + 2 <= b.len() {
                Some((ProjectState::Creating { recreate_count: b[at + 1] }, at + 2))
            } else {
                None
            }
        } else if tag == 1 {
            if at + 10 <= b.len() {
                Some(
                    (
                        ProjectState::Attaching {
                            container_id: spec_u64_from_le_bytes(b.subrange(at + 1, at + 9)),
                            recreate_count: b[at + 9],
                        },
                        at + 10,
                    ),
                )
            } else {
                None
            }
        } else if tag == 2 {
            if at + 10 <= b.len() {
                Some(
                    (
                        ProjectState::Starting {
                            container_id: spec_u64_from_le_bytes(b.subrange(at + 1, at + 9)),
                            restart_count: b[at + 9],
                        },
                        at + 10,
                    ),
                )
            } else {
                None
            }
        } else if tag == 3 {
            if at + 10 <= b.len() {
                Some(
                    (
                        ProjectState::Started {
                            container_id: spec_u64_from_le_bytes(b.subrange(at + 1, at + 9)),
                            start_count: b[at + 9],
                        },
                        at + 10,
                    ),
                )
            } else {
                None
            }
        } else if tag == 4 {
            if at + 15 <= b.len() {
                Some(
                    (
                        ProjectState::Ready {
                            container_id: spec_u64_from_le_bytes(b.subrange(at + 1, at + 9)),
                            backend: BackendAddr {
                                ip: spec_u32_from_le_bytes(b.subrange(at + 9, at + 13)),
                                port: spec_u16_from_le_bytes(b.subrange(at + 13, at + 15)),
                            },
                        },
                        at + 15,
                    ),
                )
            } else {
                None
            }
        } else if tag == 5 {
            if at + 9 <= b.len() {
                Some(
                    (
                        ProjectState::Stopping {
                            container_id: spec_u64_from_le_bytes(b.subrange(at + 1, at + 9)),
                        },
                        at + 9,
                    ),
                )
            } else {
                None
            }
        } else if tag == 6 {
            if at + 9 <= b.len() {
                Some(
                    (
                        ProjectState::Stopped {
                            container_id: spec_u64_from_le_bytes(b.subrange(at + 1, at + 9)),
                        },
                        at + 9,
                    ),
                )
            } else {
                None
            }
        } else if tag == 7 {
            if at + 10 <= b.len() {
                Some(
                    (
                        ProjectState::Restarting {
                            container_id: spec_u64_from_le_bytes(b.subrange(at + 1, at + 9)),
                            restart_count: b[at + 9],
                        },
                        at + 10,
                    ),
                )
            } else {
                None
            }
        } else if tag == 8 {
            if at + 2 <= b.len() {
                Some((ProjectState::Recreating { recreate_count: b[at + 1] }, at + 2))
            } else {
                None
            }
        } else if tag == 9 {
            if at + 9 <= b.len() {
                Some(
                    (
                        ProjectState::Destroying {
                            container_id: spec_u64_from_le_bytes(b.subrange(at + 1, at + 9)),
                        },
                        at + 9,
                    ),
                )
            } else {
                None
            }
        } else if tag == 10 {
            Some((ProjectState::Destroyed, at + 1))
        } else if tag == 11 {
            if at + 3 <= b.len() {
                let mt = b[at + 1];
                let flag = b[at + 2];
                if mt == 0 || mt == 1 || mt == 2 {
                    let message = if mt == 0 {
                        ErrorMessage::CreateLimit
                    } else if mt == 1 {
                        ErrorMessage::RecreateLimit
                    } else {
                        ErrorMessage::RestartLimit
                    };
                    if flag == 0 {
                        Some((ProjectState::Errored { message, previous: None }, at + 3))
                    } else if flag == 1 {
                        match spec_decode_at(b, at + 3) {
                            Some((p, k)) => Some(
                                (
                                    ProjectState::Errored {
                                        message,
                                        previous: Some(Box::new(p)),
                                    },
                                    k,
                                ),
                            ),
                            None => None,
                        }
                    } else {
                        None
                    }
                } else {
                    None
                }
            } else {
                None
            }
        } else {
            None
        }
    }
}

/// Parses a whole buffer: `Some` exactly on the canonical encodings.
pub open spec fn spec_decode(b: Seq<u8>) -> Option<ProjectState> {
    match spec_decode_at(b, 0) {
        Some((s, k)) => if k == b.len() {
            Some(s)
        } else {
            None
        },
        None => None,
    }
}

/// A byte of an embedded encoding, read through the enclosing buffer.
proof fn lemma_byte_at(b: Seq<u8>, at: int, e: Seq<u8>, k: int)
    requires
        0 <= at,
        0 <= k < e.len(),
        at + e.len() <= b.len(),
        b.subrange(at, at + e.len() as int) == e,
    ensures
        b[at + k] == e[k],
{
    assert(b.subrange(at, at + e.len() as int)[k] == b[at + k]);
}

/// A slice of an embedded encoding, read through the enclosing buffer.
proof fn lemma_sub_at(b: Seq<u8>, at: int, e: Seq<u8>, lo: int, hi: int)
    requires
        0 <= at,
        0 <= lo <= hi <= e.len(),
        at + e.len() <= b.len(),
        b.subrange(at, at + e.len() as int) == e,
    ensures
        b.subrange(at + lo, at + hi) == e.subrange(lo, hi),
{
    assert forall|k: int| 0 <= k < hi - lo implies b.subrange(at + lo, at + hi)[k] == e.subrange(
        lo,
        hi,
    )[k] by {
        assert(b.subrange(at, at + e.len() as int)[lo + k] == b[at + lo + k]);
        assert(b.subrange(at + lo, at + hi)[k] == b[at + lo + k]);
    }
    assert(b.subrange(at + lo, at + hi) =~= e.subrange(lo, hi));
}

/// Decoding inverts encoding wherever an encoding is embedded in a
/// larger buffer.
proof fn lemma_decode_encode_at(s: ProjectState, b: Seq<u8>, at: int)
    requires
        0 <= at,
        at + spec_encode(s).len() <= b.len(),
        b.subrange(at, at + spec_encode(s).len() as int) == spec_encode(s),
    ensures
        spec_decode_at(b, at) == Some((s, at + spec_encode(s).len() as int)),
    decreases s,
{
    lemma_auto_spec_u64_to_from_le_bytes();
    lemma_auto_spec_u32_to_from_le_bytes();
    lemma_auto_spec_u16_to_from_le_bytes();
    let e = spec_encode(s);
    match s {
        ProjectState::Creating { recreate_count } => {
            assert(e[0] == 0u8 && e[1] == recreate_count);
            lemma_byte_at(b, at, e, 0);
            lemma_byte_at(b, at, e, 1);
            assert(b[at] == 0u8);
        },
        ProjectState::Attaching { container_id, recreate_count } => {
            let le = spec_u64_to_le_bytes(container_id);
            assert(e[0] == 1u8 && e[9] == recreate_count);
            lemma_byte_at(b, at, e, 0);
            lemma_byte_at(b, at, e, 9);
            lemma_sub_at(b, at, e, 1, 9);
            assert(e.subrange(1, 9) =~= le);
            assert(b[at] == 1u8);
        },
        ProjectState::Starting { container_id, restart_count } => {
            let le = spec_u64_to_le_bytes(container_id);
            assert(e[0] == 2u8 && e[9] == restart_count);
            lemma_byte_at(b, at, e, 0);
            lemma_byte_at(b, at, e, 9);
            lemma_sub_at(b, at, e, 1, 9);
            assert(e.subrange(1, 9) =~= le);
            assert(b[at] == 2u8);
        },
        ProjectState::Started { container_id, start_count } => {
            let le = spec_u64_to_le_bytes(container_id);
            assert(e[0] == 3u8 && e[9] == start_count);
            lemma_byte_at(b, at, e, 0);
            lemma_byte_at(b, at, e, 9);
            lemma_sub_at(b, at, e, 1, 9);
            assert(e.subrange(1, 9) =~= le);
            assert(b[at] == 3u8);
        },
        ProjectState::Ready { container_id, backend } => {
            let le = spec_u64_to_le_bytes(container_id);
            let li = spec_u32_to_le_bytes(backend.ip);
            let lp = spec_u16_to_le_bytes(backend.port);
            assert(e[0] == 4u8);
            lemma_byte_at(b, at, e, 0);
            lemma_sub_at(b, at, e, 1, 9);
            lemma_sub_at(b, at, e, 9, 13);
            lemma_sub_at(b, at, e, 13, 15);
            assert(e.subrange(1, 9) =~= le);
            assert(e.subrange(9, 13) =~= li);
            assert(e.subrange(13, 15) =~= lp);
            assert(b[at] == 4u8);
        },
        ProjectState::Stopping { container_id } => {
            let le = spec_u64_to_le_bytes(container_id);
            assert(e[0] == 5u8);
            lemma_byte_at(b, at, e, 0);
            lemma_sub_at(b, at, e, 1, 9);
            assert(e.subrange(1, 9) =~= le);
            assert(b[at] == 5u8);
        },
        ProjectState::Stopped { container_id } => {
            let le = spec_u64_to_le_bytes(container_id);
            assert(e[0] == 6u8);
            lemma_byte_at(b, at, e, 0);
            lemma_sub_at(b, at, e, 1, 9);
            assert(e.subrange(1, 9) =~= le);
            assert(b[at] == 6u8);
        },
        ProjectState::Restarting { container_id, restart_count } => {
            let le = spec_u64_to_le_bytes(container_id);
            assert(e[0] == 7u8 && e[9] == restart_count);
            lemma_byte_at(b, at, e, 0);
            lemma_byte_at(b, at, e, 9);
            lemma_sub_at(b, at, e, 1, 9);
            assert(e.subrange(1, 9) =~= le);
            assert(b[at] == 7u8);
        },
        ProjectState::Recreating { recreate_count } => {
            assert(e[0] == 8u8 && e[1] == recreate_count);
            lemma_byte_at(b, at, e, 0);
            lemma_byte_at(b, at, e, 1);
            assert(b[at] == 8u8);
        },
        ProjectState::Destroying { container_id } => {
            let le = spec_u64_to_le_bytes(container_id);
            assert(e[0] == 9u8);
            lemma_byte_at(b, at, e, 0);
            lemma_sub_at(b, at, e, 1, 9);
            assert(e.subrange(1, 9) =~= le);
            assert(b[at] == 9u8);
        },
        ProjectState::Destroyed => {
            assert(e[0] == 10u8);
            lemma_byte_at(b, at, e, 0);
            assert(b[at] == 10u8);
        },
        ProjectState::Errored { message, previous } => {
            assert(e[0] == 11u8 && e[1] == spec_msg_tag(message));
            lemma_byte_at(b, at, e, 0);
            lemma_byte_at(b, at, e, 1);
            lemma_byte_at(b, at, e, 2);
            assert(b[at] == 11u8);
            match previous {
                None => {
                    assert(e[2] == 0u8);
                },
                Some(p) => {
                    let ep = spec_encode(*p);
                    assert(e[2] == 1u8);
                    lemma_sub_at(b, at, e, 3, e.len() as int);
                    assert(e.subrange(3, e.len() as int) =~= ep);
                    lemma_decode_encode_at(*p, b, at + 3);
                },
            }
        },
    }
}

/// Round trip: decoding the canonical encoding of any state yields that
/// state back, unchanged.
pub proof fn lemma_codec_round_trip(s: ProjectState)
    ensures
        spec_decode(spec_encode(s)) == Some(s),
{
    let b = spec_encode(s);
    assert(b.subrange(0, b.len() as int) =~= b);
    lemma_decode_encode_at(s, b, 0);
}

/// Appends the little-endian bytes of `x`.
fn push_u64(out: &mut Vec<u8>, x: u64)
    ensures
        final(out)@ == old(out)@ + spec_u64_to_le_bytes(x),
{
    let mut b = u64_to_le_bytes(x);
    out.append(&mut b);
}

/// The byte standing for an `Errored` cause.
fn msg_tag(m: ErrorMessage) -> (t: u8)
    ensures
        t == spec_msg_tag(m),
{
    match m {
        ErrorMessage::CreateLimit => 0,
        ErrorMessage::RecreateLimit => 1,
        ErrorMessage::RestartLimit => 2,
    }
}

/// Serialises a state into its canonical persisted bytes.
pub fn encode_state(s: &ProjectState) -> (out: Vec<u8>)
    ensures
        out@ == spec_encode(*s),
    decreases *s,
{
    let mut out: Vec<u8> = Vec::new();
    match s {
        ProjectState::Creating { recreate_count } => {
            out.push(0u8);
            out.push(*recreate_count);
            proof {
                assert(out@ =~= spec_encode(*s));
            }
        },
        ProjectState::Attaching { container_id, recreate_count } => {
            out.push(1u8);
            push_u64(&mut out, *container_id);
            out.push(*recreate_count);
            proof {
                assert(out@ =~= spec_encode(*s));
            }
        },
        ProjectState::Starting { container_id, restart_count } => {
            out.push(2u8);
            push_u64(&mut out, *container_id);
            out.push(*restart_count);
            proof {
                assert(out@ =~= spec_encode(*s));
            }
        },
        ProjectState::Started { container_id, start_count } => {
            out.push(3u8);
            push_u64(&mut out, *container_id);
            out.push(*start_count);
            proof {
                assert(out@ =~= spec_encode(*s));
            }
        },
        ProjectState::Ready { container_id, backend } => {
            out.push(4u8);
            push_u64(&mut out, *container_id);
            let mut ip = u32_to_le_bytes(backend.ip);
            out.append(&mut ip);
            let mut port = u16_to_le_bytes(backend.port);
            out.append(&mut port);
            proof {
                assert(out@ =~= spec_encode(*s));
            }
        },
        ProjectState::Stopping { container_id } => {
            out.push(5u8);
            push_u64(&mut out, *container_id);
            proof {
                assert(out@ =~= spec_encode(*s));
            }
        },
        ProjectState::Stopped { container_id } => {
            out.push(6u8);
            push_u64(&mut out, *container_id);
            proof {
                assert(out@ =~= spec_encode(*s));
            }
        },
        ProjectState::Restarting { container_id, restart_count } => {
            out.push(7u8);
            push_u64(&mut out, *container_id);
            out.push(*restart_count);
            proof {
                assert(out@ =~= spec_encode(*s));
            }
        },
        ProjectState::Recreating { recreate_count } => {
            out.push(8u8);
            out.push(*recreate_count);
            proof {
                assert(out@ =~= spec_encode(*s));
            }
        },
        ProjectState::Destroying { container_id } => {
            out.push(9u8);
            push_u64(&mut out, *container_id);
            proof {
                assert(out@ =~= spec_encode(*s));
            }
        },
        ProjectState::Destroyed => {
            out.push(10u8);
            proof {
                assert(out@ =~= spec_encode(*s));
            }
        },
        ProjectState::Errored { message, previous } => {
            out.push(11u8);
            out.push(msg_tag(*message));
            match previous {
                None => {
                    out.push(0u8);
                },
                Some(p) => {
                    out.push(1u8);
                    let mut rest = encode_state(&*p);
                    out.append(&mut rest);
                },
            }
            proof {
                assert(out@ =~= spec_encode(*s));
            }
        },
    }
    out
}

/// Reads eight little-endian bytes.
fn read_u64(b: &[u8], from: usize) -> (x: u64)
    requires
        from + 8 <= b@.len(),
    ensures
        x == spec_u64_from_le_bytes(b@.subrange(from as int, from as int + 8)),
{
    let n = b.len();
    proof {
        assert(from + 8 <= n);
    }
    let s = slice_subrange(b, from, from + 8);
    u64_from_le_bytes(s)
}

/// Parses one state out of `b` starting at `from`.
fn decode_at(b: &[u8], from: usize) -> (r: Option<(ProjectState, usize)>)
    requires
        from <= b@.len(),
    ensures
        match r {
            Some((s, next)) => spec_decode_at(b@, from as int) == Some((s, next as int)) && from
                < next <= b@.len(),
            None => spec_decode_at(b@, from as int) is None,
        },
    decreases b@.len() - from,
{
    let n = b.len();
    if from >= n {
        return None;
    }
    let tag = *slice_index_get(b, from);
    if tag == 0 {
        if n - from >= 2 {
            let rc = *slice_index_get(b, from + 1);
            Some((ProjectState::Creating { recreate_count: rc }, from + 2))
        } else {
            None
        }
    } else if tag == 1 {
        if n - from >= 10 {
            let id = read_u64(b, from + 1);
            let rc = *slice_index_get(b, from + 9);
            Some((ProjectState::Attaching { container_id: id, recreate_count: rc }, from + 10))
        } else {
            None
        }
    } else if tag == 2 {
        if n - from >= 10 {
            let id = read_u64(b, from + 1);
            let rc = *slice_index_get(b, from + 9);
            Some((ProjectState::Starting { container_id: id, restart_count: rc }, from + 10))
        } else {
            None
        }
    } else if tag == 3 {
        if n - from >= 10 {
            let id = read_u64(b, from + 1);
            let rc = *slice_index_get(b, from + 9);
            Some((ProjectState::Started { container_id: id, start_count: rc }, from + 10))
        } else {
            None
        }
    } else if tag == 4 {
        if n - from >= 15 {
            let id = read_u64(b, from + 1);
            let ip = u32_from_le_bytes(slice_subrange(b, from + 9, from + 13));
            let port = u16_from_le_bytes(slice_subrange(b, from + 13, from + 15));
            Some(
                (
                    ProjectState::Ready {
                        container_id: id,
                        backend: BackendAddr { ip, port },
                    },
                    from + 15,
                ),
            )
        } else {
            None
        }
    } else if tag == 5 {
        if n - from >= 9 {
            let id = read_u64(b, from + 1);
            Some((ProjectState::Stopping { container_id: id }, from + 9))
        } else {
            None
        }
    } else if tag == 6 {
        if n - from >= 9 {
            let id = read_u64(b, from + 1);
            Some((ProjectState::Stopped { container_id: id }, from + 9))
        } else {
            None
        }
    } else if tag == 7 {
        if n - from >= 10 {
            let id = read_u64(b, from + 1);
            let rc = *slice_index_get(b, from + 9);
            Some((ProjectState::Restarting { container_id: id, restart_count: rc }, from + 10))
        } else {
            None
        }
    } else if tag == 8 {
        if n - from >= 2 {
            let rc = *slice_index_get(b, from + 1);
            Some((ProjectState::Recreating { recreate_count: rc }, from + 2))
        } else {
            None
        }
    } else if tag == 9 {
        if n - from >= 9 {
            let id = read_u64(b, from + 1);
            Some((ProjectState::Destroying { container_id: id }, from + 9))
        } else {
            None
        }
    } else if tag == 10 {
        Some((ProjectState::Destroyed, from + 1))
    } else if tag == 11 {
        if n - from >= 3 {
            let mt = *slice_index_get(b, from + 1);
            let flag = *slice_index_get(b, from + 2);
            if mt <= 2 {
                let message = if mt == 0 {
                    ErrorMessage::CreateLimit
                } else if mt == 1 {
                    ErrorMessage::RecreateLimit
                } else {
                    ErrorMessage::RestartLimit
                };
                if flag == 0 {
                    Some((ProjectState::Errored { message, previous: None }, from + 3))
                } else if flag == 1 {
                    match decode_at(b, from + 3) {
                        Some((p, k)) => Some(
                            (
                                ProjectState::Errored {
                                    message,
                                    previous: Some(Box::new(p)),
                                },
                                k,
                            ),
                        ),
                        None => None,
                    }
                } else {
                    None
                }
            } else {
                None
            }
        } else {
            None
        }
    } else {
        None
    }
}

/// Parses persisted bytes back into a state; `Some` exactly on the
/// canonical encodings.
pub fn decode_state(b: &[u8]) -> (r: Option<ProjectState>)
    ensures
        r == spec_decode(b@),
{
    match decode_at(b, 0) {
        Some((s, k)) => if k == b.len() {
            Some(s)
        } else {
            None
        },
        None => None,
    }
}

} // verus!
