//! The frame relay engine as decisions and as a trace model: what one
//! worker does with one frame, and what a whole run of a worker presents to
//! the transmit path. The channels, the driver calls and the worker threads
//! live outside; this module fixes what they must do.

use vstd::prelude::*;

verus! {

/// One captured link-layer frame, queued between the capture callback and a
/// relay worker. The bytes are opaque to the relay: frames are forwarded
/// unmodified.
pub struct RelayFrame {
    pub bytes: Vec<u8>,
}

impl View for RelayFrame {
    type V = Seq<u8>;

    open spec fn view(&self) -> Seq<u8> {
        self.bytes@
    }
}

fn clone_bytes(v: &Vec<u8>) -> (r: Vec<u8>)
    ensures
        r@ == v@,
{
    let mut out: Vec<u8> = Vec::new();
    let n = v.len();
    let mut i: usize = 0;
    while i < n
        invariant
            n == v@.len(),
            i <= n,
            out@ == v@.take(i as int),
        decreases n - i,
    {
        out.push(v[i]);
        proof {
            assert(out@ =~= v@.take(i + 1));
        }
        i = i + 1;
    }
    proof {
        assert(v@.take(n as int) =~= v@);
    }
    out
}

impl Clone for RelayFrame {
    /// An exact copy of the frame bytes.
    fn clone(&self) -> (r: Self)
        ensures
            r@ == self@,
    {
        RelayFrame { bytes: clone_bytes(&self.bytes) }
    }
}

/// What a worker does with the frame at hand.
#[derive(Clone, Copy, Debug, PartialEq, Eq, Structural)]
pub enum RelayAction {
    /// Present the frame to the other interface's transmit call. A transmit
    /// error is logged and the frame is dropped; it is never retried.
    Forward,
    /// Drop the frame and attempt to reconnect the wireless leg; the worker
    /// never blocks waiting for the link.
    Reconnect,
    /// Drop the frame with a warning and move on.
    DropFrame,
}

/// The Ethernet-to-WiFi worker's decision for one frame: forward over a
/// connected wireless leg, otherwise drop the frame and try a reconnect.
pub fn eth_to_wifi_step(wifi_connected: bool) -> (r: RelayAction)
    ensures
        wifi_connected ==> r == RelayAction::Forward,
        !wifi_connected ==> r == RelayAction::Reconnect,
{
    if wifi_connected {
        RelayAction::Forward
    } else {
        RelayAction::Reconnect
    }
}

/// The WiFi-to-Ethernet worker's decision for one frame: forward over a
/// connected wired leg, otherwise drop the frame; the wired side is never
/// reconnected by the worker.
pub fn wifi_to_eth_step(eth_connected: bool) -> (r: RelayAction)
    ensures
        eth_connected ==> r == RelayAction::Forward,
        !eth_connected ==> r == RelayAction::DropFrame,
{
    if eth_connected {
        RelayAction::Forward
    } else {
        RelayAction::DropFrame
    }
}

/// The byte sequences of a sequence of frames.
pub open spec fn frames_view(v: Seq<RelayFrame>) -> Seq<Seq<u8>> {
    v.map_values(|f: RelayFrame| f@)
}

/// The frames a worker presents to the transmit call, given the frames
/// submitted on its channel and the link state observed at each one: the
/// submitted sequence restricted to the connected steps, in order.
pub open spec fn forwarded(frames: Seq<Seq<u8>>, conn: Seq<bool>) -> Seq<Seq<u8>>
    decreases frames.len(),
{
    if frames.len() == 0 {
        Seq::empty()
    } else {
        let rest = forwarded(frames.drop_first(), conn.drop_first());
        if conn[0] {
            seq![frames[0]] + rest
        } else {
            rest
        }
    }
}

/// How many steps saw a connected link.
pub open spec fn count_true(conn: Seq<bool>) -> int
    decreases conn.len(),
{
    if conn.len() == 0 {
        0
    } else {
        (if conn[0] {
            1int
        } else {
            0int
        }) + count_true(conn.drop_first())
    }
}

/// A worker's whole run over a finite submitted sequence: frame `i` is
/// presented to the transmit call exactly when the link was connected at
/// step `i`, and the presented frames keep the submission order.
pub fn relay_batch(frames: &Vec<RelayFrame>, connected: &Vec<bool>) -> (r: Vec<RelayFrame>)
    requires
        frames@.len() == connected@.len(),
    ensures
        frames_view(r@) == forwarded(frames_view(frames@), connected@),
{
    let n = frames.len();
    let mut out: Vec<RelayFrame> = Vec::new();
    let mut i: usize = 0;
    proof {
        assert(frames@.skip(0) =~= frames@);
        assert(connected@.skip(0) =~= connected@);
        assert(frames_view(out@) + forwarded(frames_view(frames@), connected@) =~= forwarded(
            frames_view(frames@),
            connected@,
        ));
    }
    while i < n
        invariant
            n == frames@.len(),
            n == connected@.len(),
            i <= n,
            forwarded(frames_view(frames@), connected@) == frames_view(out@) + forwarded(
                frames_view(frames@.skip(i as int)),
                connected@.skip(i as int),
            ),
        decreases n - i,
    {
        let ghost fv = frames_view(frames@.skip(i as int));
        let ghost cv = connected@.skip(i as int);
        let ghost prev = out@;
        proof {
            assert(fv.len() == n - i);
            assert(fv.drop_first() =~= frames_view(frames@.skip(i + 1)));
            assert(cv.drop_first() =~= connected@.skip(i + 1));
            assert(fv[0] == frames@[i as int]@);
            assert(cv[0] == connected@[i as int]);
        }
        if connected[i] {
            out.push(frames[i].clone());
            proof {
                assert(frames_view(out@) =~= frames_view(prev) + seq![fv[0]]);
                assert(frames_view(prev) + (seq![fv[0]] + forwarded(
                    fv.drop_first(),
                    cv.drop_first(),
                )) =~= (frames_view(prev) + seq![fv[0]]) + forwarded(
                    fv.drop_first(),
                    cv.drop_first(),
                ));
            }
        }
        i = i + 1;
    }
    proof {
        assert(frames_view(frames@.skip(n as int)) =~= Seq::<Seq<u8>>::empty());
        assert(connected@.skip(n as int) =~= Seq::<bool>::empty());
        assert(forwarded(frames_view(frames@), connected@) =~= frames_view(out@));
    }
    out
}

proof fn lemma_forwarded_len(frames: Seq<Seq<u8>>, conn: Seq<bool>)
    requires
        frames.len() == conn.len(),
    ensures
        forwarded(frames, conn).len() == count_true(conn),
        count_true(conn) >= 0,
    decreases frames.len(),
{
    if frames.len() > 0 {
        lemma_forwarded_len(frames.drop_first(), conn.drop_first());
    }
}

proof fn lemma_count_true_take_step(conn: Seq<bool>, i: int)
    requires
        0 <= i < conn.len(),
    ensures
        count_true(conn.take(i + 1)) == count_true(conn.take(i)) + (if conn[i] {
            1int
        } else {
            0int
        }),
    decreases i,
{
    if i == 0 {
        assert(conn.take(1).drop_first() =~= Seq::<bool>::empty());
        assert(conn.take(1)[0] == conn[0]);
        assert(conn.take(0) =~= Seq::<bool>::empty());
    } else {
        assert(conn.take(i + 1).drop_first() =~= conn.drop_first().take(i));
        assert(conn.take(i).drop_first() =~= conn.drop_first().take(i - 1));
        assert(conn.take(i + 1)[0] == conn[0]);
        assert(conn.take(i)[0] == conn[0]);
        assert(conn.drop_first()[i - 1] == conn[i]);
        lemma_count_true_take_step(conn.drop_first(), i - 1);
    }
}

proof fn lemma_count_true_mono(conn: Seq<bool>, i: int, j: int)
    requires
        0 <= i <= j <= conn.len(),
    ensures
        count_true(conn.take(i)) <= count_true(conn.take(j)),
    decreases j - i,
{
    if i < j {
        lemma_count_true_take_step(conn, i);
        lemma_count_true_mono(conn, i + 1, j);
    }
}

proof fn lemma_count_true_whole(conn: Seq<bool>, i: int)
    requires
        0 <= i <= conn.len(),
    ensures
        count_true(conn.take(i)) <= count_true(conn),
    decreases conn.len() - i,
{
    if i < conn.len() {
        lemma_count_true_take_step(conn, i);
        lemma_count_true_whole(conn, i + 1);
    } else {
        assert(conn.take(i) =~= conn);
    }
}

proof fn lemma_forwarded_at(frames: Seq<Seq<u8>>, conn: Seq<bool>, i: int)
    requires
        frames.len() == conn.len(),
        0 <= i < conn.len(),
        conn[i],
    ensures
        0 <= count_true(conn.take(i)) < forwarded(frames, conn).len(),
        forwarded(frames, conn)[count_true(conn.take(i))] == frames[i],
    decreases i,
{
    lemma_forwarded_len(frames, conn);
    lemma_count_true_take_step(conn, i);
    lemma_count_true_whole(conn, i + 1);
    if i == 0 {
        assert(conn.take(0) =~= Seq::<bool>::empty());
    } else {
        let df = frames.drop_first();
        let dc = conn.drop_first();
        lemma_forwarded_at(df, dc, i - 1);
        assert(conn.take(i).drop_first() =~= dc.take(i - 1));
        assert(conn.take(i)[0] == conn[0]);
        assert(frames[i] == df[i - 1]);
    }
}

/// Law: a relay worker preserves per-direction order. For any submitted
/// frame sequence and link-state sequence, two frames both presented to the
/// transmit call appear there at positions in the same order as they were
/// submitted, and each equals its submitted frame.
pub proof fn lemma_relay_preserves_order(frames: Seq<Seq<u8>>, conn: Seq<bool>, i: int, j: int)
    requires
        frames.len() == conn.len(),
        0 <= i < j < conn.len(),
        conn[i],
        conn[j],
    ensures
        ({
            let out = forwarded(frames, conn);
            let pi = count_true(conn.take(i));
            let pj = count_true(conn.take(j));
            &&& 0 <= pi < pj < out.len()
            &&& out[pi] == frames[i]
            &&& out[pj] == frames[j]
        }),
{
    lemma_forwarded_at(frames, conn, i);
    lemma_forwarded_at(frames, conn, j);
    lemma_count_true_take_step(conn, i);
    lemma_count_true_mono(conn, i + 1, j);
}

} // verus!
