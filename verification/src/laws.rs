//! Protocol-wide laws: what holds of every write, every read and every
//! receive loop, proved from the engine's contracts.

use vstd::prelude::*;

use crate::nvm3::{
    spec_read_rounds, spec_wait_reply, spec_write_rounds, CpcNvm3Registry,
};
use crate::protocol::{
    spec_frame, spec_parse_read_data_is, spec_parse_reply, spec_u16_le, spec_u32_le, wrap_inc,
    ParseErr, ReplyKind, CMD_READ_DATA_IS,
};
use crate::protocol::{lemma_u16_le_round_trip, lemma_u32_le_round_trip, spec_write_data_frame};
use crate::CpcNvm3ErrorCodes;

verus! {

/// The bytes of a sequence of byte sequences, in order.
pub open spec fn concat_bytes(s: Seq<Seq<u8>>) -> Seq<u8>
    decreases s.len(),
{
    if s.len() == 0 {
        Seq::empty()
    } else {
        s[0] + concat_bytes(s.drop_first())
    }
}

/// The payload of each frame of a write: everything past the fixed
/// fifteen bytes.
pub open spec fn write_payloads(frames: Seq<Seq<u8>>) -> Seq<Seq<u8>> {
    Seq::new(frames.len(), |i: int| frames[i].skip(15))
}

/// The transaction id reached from `t` after `k` commands.
pub open spec fn wrap_add(t: u8, k: nat) -> u8
    decreases k,
{
    if k == 0 {
        t
    } else {
        wrap_inc(wrap_add(t, (k - 1) as nat))
    }
}

/// A write frame's payload is the chunk it was built from.
pub proof fn lemma_write_frame_payload(
    unique_id: u32,
    transaction_id: u8,
    object_key: u32,
    offset: u16,
    last_frag: u8,
    data: Seq<u8>,
)
    ensures
        spec_write_data_frame(unique_id, transaction_id, object_key, offset, last_frag, data).skip(
            15,
        ) == data,
        spec_write_data_frame(unique_id, transaction_id, object_key, offset, last_frag, data)[7]
            == transaction_id,
{
    let f = spec_write_data_frame(unique_id, transaction_id, object_key, offset, last_frag, data);
    assert(f.skip(15) =~= data);
}

/// Where the fragment starting at `off` ends: one fragment size on, or
/// at the end of the payload.
pub open spec fn frag_end(data: Seq<u8>, frag: nat, off: nat) -> int {
    if data.len() < off + frag {
        data.len() as int
    } else {
        (off + frag) as int
    }
}

/// The `k`-th of `n` fragment frames of a write that starts at `offset`
/// with transaction counter `txn`.
pub open spec fn fragment_frame(
    unique_id: u32,
    txn: u8,
    object_key: u32,
    data: Seq<u8>,
    frag: nat,
    offset: nat,
    k: int,
    n: int,
) -> Seq<u8> {
    let off_k = offset + k * frag;
    spec_write_data_frame(
        unique_id,
        wrap_add(txn, (k + 1) as nat),
        object_key,
        off_k as u16,
        if k == n - 1 {
            1u8
        } else {
            0u8
        },
        data.subrange(off_k, frag_end(data, frag, off_k as nat)),
    )
}

/// Stepping the counter once and then `k` times is stepping it `k + 1`
/// times.
pub proof fn lemma_wrap_add_shift(t: u8, k: nat)
    ensures
        wrap_add(wrap_inc(t), k) == wrap_add(t, k + 1),
    decreases k,
{
    if k == 0 {
        assert(wrap_add(t, 0) == t);
        assert(wrap_add(t, 1) == wrap_inc(wrap_add(t, 0)));
    } else {
        lemma_wrap_add_shift(t, (k - 1) as nat);
        assert(wrap_add(t, k + 1) == wrap_inc(wrap_add(t, k)));
    }
}

/// A later round's fragment frames are this round's, shifted by one.
proof fn lemma_fragment_frame_shift(
    unique_id: u32,
    txn: u8,
    object_key: u32,
    data: Seq<u8>,
    frag: nat,
    offset: nat,
    k: int,
    n: int,
)
    requires
        0 < frag,
        1 <= k,
    ensures
        fragment_frame(unique_id, wrap_inc(txn), object_key, data, frag, offset + frag, k - 1, n
            - 1) == fragment_frame(unique_id, txn, object_key, data, frag, offset, k, n),
{
    lemma_wrap_add_shift(txn, k as nat);
    assert((offset + frag) + (k - 1) * frag == offset + k * frag) by (nonlinear_arith);
}

/// Every fragment a successful write sends, exactly: the fragment at
/// position `k` carries the transaction id `k + 1` steps past the
/// counter, the byte offset `k` fragment sizes in, the payload cut
/// there, and the final-fragment flag exactly on the last one. In
/// particular the offsets climb by the fragment size and the ids climb
/// by one, wrapping after 255.
pub proof fn lemma_write_fragment_frames(
    rx: Seq<Seq<u8>>,
    txn: u8,
    unique_id: u32,
    object_key: u32,
    data: Seq<u8>,
    frag: nat,
    offset: nat,
)
    requires
        0 < frag,
        offset <= data.len(),
        data.len() <= u16::MAX,
        spec_write_rounds(rx, txn, unique_id, object_key, data, frag, offset).0 is Ok,
    ensures
        ({
            let sent = spec_write_rounds(rx, txn, unique_id, object_key, data, frag, offset).3;
            &&& sent.len() >= 1
            &&& forall|k: int|
                0 <= k < sent.len() ==> #[trigger] sent[k] == fragment_frame(
                    unique_id,
                    txn,
                    object_key,
                    data,
                    frag,
                    offset,
                    k,
                    sent.len() as int,
                )
        }),
    decreases data.len() - offset,
{
    let t = spec_write_rounds(rx, txn, unique_id, object_key, data, frag, offset);
    let sent = t.3;
    let n = sent.len() as int;
    let txn1 = wrap_inc(txn);
    let last = data.len() - offset <= frag;
    let end = if data.len() < offset + frag {
        data.len() as int
    } else {
        (offset + frag) as int
    };
    let chunk = data.subrange(offset as int, end);
    let frame = spec_write_data_frame(
        unique_id,
        txn1,
        object_key,
        offset as u16,
        if last {
            1u8
        } else {
            0u8
        },
        chunk,
    );
    assert(wrap_add(txn, 0) == txn);
    assert(wrap_add(txn, 1) == wrap_inc(wrap_add(txn, 0)));
    if last {
        assert(sent =~= seq![frame]);
        assert(sent[0] == fragment_frame(unique_id, txn, object_key, data, frag, offset, 0, 1));
    } else {
        let m = spec_wait_reply(ReplyKind::KindStatus, rx, unique_id, txn1);
        lemma_write_fragment_frames(
            m.1,
            txn1,
            unique_id,
            object_key,
            data,
            frag,
            offset + frag,
        );
        let rest = spec_write_rounds(m.1, txn1, unique_id, object_key, data, frag, offset + frag);
        assert(sent =~= seq![frame] + rest.3);
        assert forall|k: int| 0 <= k < n implies #[trigger] sent[k] == fragment_frame(
            unique_id,
            txn,
            object_key,
            data,
            frag,
            offset,
            k,
            n,
        ) by {
            if k == 0 {
                assert(sent[0] == frame);
                assert(frame == fragment_frame(unique_id, txn, object_key, data, frag, offset, 0, n));
            } else {
                assert(sent[k] == rest.3[k - 1]);
                assert(rest.3[k - 1] == fragment_frame(
                    unique_id,
                    txn1,
                    object_key,
                    data,
                    frag,
                    offset + frag,
                    k - 1,
                    n - 1,
                ));
                lemma_fragment_frame_shift(
                    unique_id,
                    txn,
                    object_key,
                    data,
                    frag,
                    offset,
                    k,
                    n,
                );
            }
        }
    }
}

/// The payloads of a successful write's fragments, in order, are
/// exactly the written bytes: nothing is lost, duplicated or reordered
/// by fragmentation.
#[verifier::rlimit(60)]
pub proof fn lemma_write_payloads_concat(
    rx: Seq<Seq<u8>>,
    txn: u8,
    unique_id: u32,
    object_key: u32,
    data: Seq<u8>,
    frag: nat,
    offset: nat,
)
    requires
        0 < frag,
        offset <= data.len(),
        data.len() <= u16::MAX,
        spec_write_rounds(rx, txn, unique_id, object_key, data, frag, offset).0 is Ok,
    ensures
        concat_bytes(
            write_payloads(
                spec_write_rounds(rx, txn, unique_id, object_key, data, frag, offset).3,
            ),
        ) == data.skip(offset as int),
    decreases data.len() - offset,
{
    let t = spec_write_rounds(rx, txn, unique_id, object_key, data, frag, offset);
    let txn1 = wrap_inc(txn);
    let last = data.len() - offset <= frag;
    let end = if data.len() < offset + frag {
        data.len() as int
    } else {
        (offset + frag) as int
    };
    let chunk = data.subrange(offset as int, end);
    let frame = spec_write_data_frame(
        unique_id,
        txn1,
        object_key,
        offset as u16,
        if last {
            1u8
        } else {
            0u8
        },
        chunk,
    );
    lemma_write_frame_payload(
        unique_id,
        txn1,
        object_key,
        offset as u16,
        if last {
            1u8
        } else {
            0u8
        },
        chunk,
    );
    if last {
        let wp = write_payloads(seq![frame]);
        assert(wp.len() == 1);
        assert(wp[0] == chunk);
        assert(wp.drop_first() =~= Seq::<Seq<u8>>::empty());
        assert(concat_bytes(wp.drop_first()).len() == 0);
        assert(concat_bytes(wp) =~= chunk + concat_bytes(wp.drop_first()));
        assert(concat_bytes(wp) =~= chunk);
        assert(chunk =~= data.skip(offset as int));
    } else {
        let m = spec_wait_reply(ReplyKind::KindStatus, rx, unique_id, txn1);
        lemma_write_payloads_concat(
            m.1,
            txn1,
            unique_id,
            object_key,
            data,
            frag,
            offset + frag,
        );
        let rest = spec_write_rounds(m.1, txn1, unique_id, object_key, data, frag, offset + frag);
        let wp = write_payloads(t.3);
        assert(t.3 =~= seq![frame] + rest.3);
        assert(wp.drop_first() =~= write_payloads(rest.3));
        assert(wp[0] == chunk);
        assert(concat_bytes(wp) == chunk + concat_bytes(write_payloads(rest.3)));
        assert(chunk + data.skip((offset + frag) as int) =~= data.skip(offset as int));
    }
}

/// The read-data frames a remote sends for the stored segments: one
/// frame per segment, the final-fragment flag on the last.
pub open spec fn read_frames_of(segs: Seq<Seq<u8>>, unique_id: u32, transaction_id: u8) -> Seq<
    Seq<u8>,
> {
    Seq::new(
        segs.len(),
        |i: int|
            spec_frame(
                CMD_READ_DATA_IS,
                unique_id,
                transaction_id,
                seq![
                    if i == segs.len() - 1 {
                        1u8
                    } else {
                        0u8
                    },
                ] + segs[i],
            ),
    )
}

/// A read-data frame built for a segment parses back to that segment
/// and its flag.
pub proof fn lemma_parse_read_data_frame(seg: Seq<u8>, last: bool, unique_id: u32, txn: u8)
    requires
        1 <= seg.len(),
        seg.len() + 1 <= u16::MAX,
    ensures
        spec_parse_read_data_is(
            spec_frame(
                CMD_READ_DATA_IS,
                unique_id,
                txn,
                seq![
                    if last {
                        1u8
                    } else {
                        0u8
                    },
                ] + seg,
            ),
            unique_id,
            txn,
        ) == Ok::<(Seq<u8>, bool), ParseErr>((seg, last)),
{
    let flag: u8 = if last {
        1u8
    } else {
        0u8
    };
    let body = seq![flag] + seg;
    let f = spec_frame(CMD_READ_DATA_IS, unique_id, txn, body);
    lemma_u16_le_round_trip(body.len() as u16);
    lemma_u32_le_round_trip(unique_id);
    assert(f.len() == 9 + seg.len());
    assert(f[0] == CMD_READ_DATA_IS);
    assert(f[1] == spec_u16_le(body.len() as u16)[0] && f[2] == spec_u16_le(body.len() as u16)[1]);
    assert(f[3] == spec_u32_le(unique_id)[0] && f[4] == spec_u32_le(unique_id)[1] && f[5]
        == spec_u32_le(unique_id)[2] && f[6] == spec_u32_le(unique_id)[3]);
    assert(f[7] == txn);
    assert(f[8] == flag);
    assert(crate::protocol::spec_header_of(f) == (crate::protocol::Header {
        cmd: CMD_READ_DATA_IS,
        len: body.len() as u16,
        unique_id,
        transaction_id: txn,
    }));
    assert(f.subrange(9, f.len() as int) =~= seg);
}

/// Reassembling the read-data frames of stored segments appends exactly
/// their bytes: the read loop returns the stored object unchanged.
pub proof fn lemma_read_reassembles(segs: Seq<Seq<u8>>, unique_id: u32, txn: u8, acc: Seq<u8>)
    requires
        1 <= segs.len(),
        forall|i: int| 0 <= i < segs.len() ==> 1 <= #[trigger] segs[i].len(),
        forall|i: int| 0 <= i < segs.len() ==> #[trigger] segs[i].len() + 1 <= u16::MAX,
    ensures
        spec_read_rounds(read_frames_of(segs, unique_id, txn), unique_id, txn, acc) == (
        Ok::<Seq<u8>, CpcNvm3ErrorCodes>(acc + concat_bytes(segs)), Seq::<Seq<u8>>::empty()),
    decreases segs.len(),
{
    let rx = read_frames_of(segs, unique_id, txn);
    let last = segs.len() == 1;
    lemma_parse_read_data_frame(segs[0], last, unique_id, txn);
    assert(rx[0] == spec_frame(
        CMD_READ_DATA_IS,
        unique_id,
        txn,
        seq![
            if last {
                1u8
            } else {
                0u8
            },
        ] + segs[0],
    ));
    if last {
        assert(rx.drop_first() =~= Seq::<Seq<u8>>::empty());
        assert(concat_bytes(segs.drop_first()) =~= Seq::<u8>::empty());
        assert(acc + segs[0] =~= acc + concat_bytes(segs));
    } else {
        lemma_read_reassembles(segs.drop_first(), unique_id, txn, acc + segs[0]);
        assert(rx.drop_first() =~= read_frames_of(segs.drop_first(), unique_id, txn));
        assert((acc + segs[0]) + concat_bytes(segs.drop_first()) =~= acc + concat_bytes(segs));
    }
}

/// Writing an object and reading it back returns exactly the written
/// bytes: if a write of `data` succeeds, and the remote then returns
/// the bytes it stored — the concatenated fragment payloads — cut into
/// any segments, the read loop reassembles precisely `data`.
pub proof fn lemma_write_read_round_trip(
    rx_w: Seq<Seq<u8>>,
    txn_w: u8,
    unique_id: u32,
    object_key: u32,
    data: Seq<u8>,
    frag: nat,
    segs: Seq<Seq<u8>>,
    txn_r: u8,
)
    requires
        0 < frag,
        data.len() <= u16::MAX,
        spec_write_rounds(rx_w, txn_w, unique_id, object_key, data, frag, 0).0 is Ok,
        concat_bytes(segs) == concat_bytes(
            write_payloads(spec_write_rounds(rx_w, txn_w, unique_id, object_key, data, frag, 0).3),
        ),
        1 <= segs.len(),
        forall|i: int| 0 <= i < segs.len() ==> 1 <= #[trigger] segs[i].len(),
        forall|i: int| 0 <= i < segs.len() ==> #[trigger] segs[i].len() + 1 <= u16::MAX,
    ensures
        spec_read_rounds(read_frames_of(segs, unique_id, txn_r), unique_id, txn_r, Seq::empty()).0
            == Ok::<Seq<u8>, CpcNvm3ErrorCodes>(data),
{
    lemma_write_payloads_concat(rx_w, txn_w, unique_id, object_key, data, frag, 0);
    assert(data.skip(0) =~= data);
    lemma_read_reassembles(segs, unique_id, txn_r, Seq::empty());
    assert(Seq::empty() + concat_bytes(segs) =~= concat_bytes(segs));
}

/// The transaction id of any outgoing frame is its eighth byte.
pub proof fn lemma_frame_transaction_byte(
    cmd: u8,
    unique_id: u32,
    transaction_id: u8,
    body: Seq<u8>,
)
    ensures
        spec_frame(cmd, unique_id, transaction_id, body)[7] == transaction_id,
{
}

/// The id reached after `k` commands is the counter plus `k`, modulo
/// 256: from a fresh counter the outgoing frames carry 1, 2, ..., 255,
/// 0, 1, ...
pub proof fn lemma_wrap_add_mod(t: u8, k: nat)
    ensures
        wrap_add(t, k) == ((t + k) % 256) as u8,
    decreases k,
{
    if k == 0 {
    } else {
        lemma_wrap_add_mod(t, (k - 1) as nat);
    }
}

/// A frame whose opcode, unique id or transaction id does not match the
/// outstanding command is dropped: the receive loop's outcome over the
/// queue with that frame in front is its outcome over the rest, and the
/// call completes only when a matching frame arrives or the queue runs
/// out.
pub proof fn lemma_mismatched_frame_dropped(
    kind: ReplyKind,
    frame: Seq<u8>,
    rest: Seq<Seq<u8>>,
    unique_id: u32,
    transaction_id: u8,
)
    requires
        ({
            let p = spec_parse_reply(kind, frame, unique_id, transaction_id);
            p matches Err(k) && k.is_dropped()
        }),
    ensures
        spec_wait_reply(kind, seq![frame] + rest, unique_id, transaction_id) == spec_wait_reply(
            kind,
            rest,
            unique_id,
            transaction_id,
        ),
{
    let rx = seq![frame] + rest;
    assert(rx[0] == frame);
    assert(rx.drop_first() =~= rest);
}

/// If no queued frame matches the outstanding command, the call does
/// not complete: the receive loop drops them all and reports that the
/// read timed out.
pub proof fn lemma_no_match_times_out(
    kind: ReplyKind,
    rx: Seq<Seq<u8>>,
    unique_id: u32,
    transaction_id: u8,
)
    requires
        forall|i: int|
            0 <= i < rx.len() ==> ({
                let p = #[trigger] spec_parse_reply(kind, rx[i], unique_id, transaction_id);
                p matches Err(k) && k.is_dropped()
            }),
    ensures
        spec_wait_reply(kind, rx, unique_id, transaction_id).0 == Err::<
            crate::protocol::ReplySpec,
            CpcNvm3ErrorCodes,
        >(CpcNvm3ErrorCodes::CPC_NVM3_TRY_AGAIN),
    decreases rx.len(),
{
    if rx.len() > 0 {
        assert(spec_parse_reply(kind, rx[0], unique_id, transaction_id) matches Err(k)
            && k.is_dropped());
        lemma_no_match_times_out(kind, rx.drop_first(), unique_id, transaction_id);
    }
}

/// Two initializations never hand out the same handle: the registry
/// only grows, and the handle the next initialization assigns always
/// lies past every handle assigned before.
pub proof fn lemma_init_handles_distinct(before: CpcNvm3Registry, after: CpcNvm3Registry)
    requires
        after.instances@.len() > before.instances@.len(),
        before.spec_fresh_handle() <= u32::MAX,
    ensures
        after.spec_fresh_handle() != before.spec_fresh_handle(),
        !before.spec_contains(before.spec_fresh_handle() as u32),
{
}

} // verus!
