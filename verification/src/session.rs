//! The streaming session: the control loop that pulls frames from the
//! frame source and writes multipart records until the transport fails.
//!
//! The loop itself blocks on hardware polls, transport writes and pauses,
//! so the decision of each iteration lives here as `plan_iteration`, and
//! the schedule of a whole run is modelled by `session_ops`: the sequence
//! of primitive steps that executing the plans performs. The proof
//! functions at the end state the session's discipline over that model:
//! frames are held one at a time and returned before the next poll, and
//! polls are always separated by a positive pause.

use vstd::prelude::*;

use crate::digits::dec_rep;
use crate::digits::dec_val;
use crate::frame::boundary_marker;
use crate::frame::frame_header;
use crate::frame::header_prefix;
use crate::frame::lemma_header_length_field;
use crate::frame::lemma_header_starts_with_boundary;
use crate::frame::spec_frame_header;

verus! {

/// Pacing of one streaming session, in milliseconds. Both pauses must be
/// positive: the throttle keeps the frame rate under the transport's
/// ceiling, and the idle pause keeps the loop from busy-spinning.
pub struct SessionConfig {
    pub frame_interval_ms: u32,
    pub idle_interval_ms: u32,
}

impl SessionConfig {
    pub open spec fn wf(&self) -> bool {
        self.frame_interval_ms >= 1 && self.idle_interval_ms >= 1
    }
}

/// The pacing this deployment is tuned for: at most four frames per
/// second — faster rates overrun the transport — and a tenth of a second
/// between polls of an idle camera.
pub fn default_session_config() -> (c: SessionConfig)
    ensures
        c.wf(),
        c.frame_interval_ms == 250,
        c.idle_interval_ms == 100,
{
    SessionConfig { frame_interval_ms: 250, idle_interval_ms: 100 }
}

/// One primitive step of a streaming session, as the model of the loop
/// records it.
pub enum SessionOp {
    /// The session asked the frame source for a frame; `yielded` says
    /// whether one was handed out (it is then held until `Release`).
    Poll { yielded: bool },
    /// The session wrote one frame record: the header text, then the
    /// `payload_len` payload bytes, then the trailer line.
    Emit { header: Seq<char>, payload_len: nat },
    /// The session returned the held frame to the source's pool.
    Release,
    /// The session paused for `ms` milliseconds.
    Sleep { ms: u32 },
}

/// The steps one loop iteration performs, given what the poll returned:
/// a yielded frame is written, released, and followed by the throttle
/// pause; an empty poll is followed by the shorter idle pause.
pub open spec fn iteration_ops(cfg: SessionConfig, poll: Option<nat>) -> Seq<SessionOp> {
    match poll {
        Some(n) => seq![
            SessionOp::Poll { yielded: true },
            SessionOp::Emit { header: spec_frame_header(n), payload_len: n },
            SessionOp::Release,
            SessionOp::Sleep { ms: cfg.frame_interval_ms },
        ],
        None => seq![
            SessionOp::Poll { yielded: false },
            SessionOp::Sleep { ms: cfg.idle_interval_ms },
        ],
    }
}

/// The steps of a whole run: one iteration per poll outcome, in order.
/// `polls[i]` is `Some(n)` when the `i`th poll yielded a frame of `n`
/// bytes, `None` when it yielded nothing. A session that a transport
/// failure terminates is the run over the polls made up to that point:
/// the held frame is still released, and no further poll follows.
pub open spec fn session_ops(cfg: SessionConfig, polls: Seq<Option<nat>>) -> Seq<SessionOp>
    decreases polls.len(),
{
    if polls.len() == 0 {
        Seq::empty()
    } else {
        session_ops(cfg, polls.drop_last()) + iteration_ops(cfg, polls.last())
    }
}

/// How one step changes the number of frames the session holds.
pub open spec fn op_delta(op: SessionOp) -> int {
    match op {
        SessionOp::Poll { yielded } => if yielded {
            1
        } else {
            0
        },
        SessionOp::Release => -1,
        _ => 0,
    }
}

/// How many frames the session holds after performing `ops`.
pub open spec fn frames_held(ops: Seq<SessionOp>) -> int
    decreases ops.len(),
{
    if ops.len() == 0 {
        0
    } else {
        frames_held(ops.drop_last()) + op_delta(ops.last())
    }
}

proof fn lemma_frames_held_concat(a: Seq<SessionOp>, b: Seq<SessionOp>)
    ensures
        frames_held(a + b) == frames_held(a) + frames_held(b),
    decreases b.len(),
{
    if b.len() == 0 {
        assert(a + b =~= a);
    } else {
        lemma_frames_held_concat(a, b.drop_last());
        assert((a + b).drop_last() =~= a + b.drop_last());
        assert((a + b).last() == b.last());
    }
}

proof fn lemma_iteration_balanced(cfg: SessionConfig, poll: Option<nat>)
    ensures
        frames_held(iteration_ops(cfg, poll)) == 0,
{
    reveal_with_fuel(frames_held, 5);
    let ops = iteration_ops(cfg, poll);
    match poll {
        Some(_) => {
            assert(ops.drop_last().drop_last().drop_last().drop_last() =~= Seq::empty());
        },
        None => {
            assert(ops.drop_last().drop_last() =~= Seq::empty());
        },
    }
}

/// At the end of every run the session holds nothing: each acquired frame
/// has been returned within its own iteration.
pub proof fn lemma_session_balanced(cfg: SessionConfig, polls: Seq<Option<nat>>)
    ensures
        frames_held(session_ops(cfg, polls)) == 0,
    decreases polls.len(),
{
    if polls.len() > 0 {
        lemma_session_balanced(cfg, polls.drop_last());
        lemma_iteration_balanced(cfg, polls.last());
        lemma_frames_held_concat(
            session_ops(cfg, polls.drop_last()),
            iteration_ops(cfg, polls.last()),
        );
    }
}

/// The acquire/release discipline of the frame source is respected: at
/// every poll the session holds no frame, so the source is never asked
/// for a second frame before the previous one has been released.
pub proof fn lemma_no_acquire_while_held(cfg: SessionConfig, polls: Seq<Option<nat>>)
    ensures
        forall|i: int|
            0 <= i < session_ops(cfg, polls).len() && (#[trigger] session_ops(cfg, polls)[i])
                is Poll ==> frames_held(session_ops(cfg, polls).take(i)) == 0,
    decreases polls.len(),
{
    if polls.len() > 0 {
        let prev = session_ops(cfg, polls.drop_last());
        let iter = iteration_ops(cfg, polls.last());
        let ops = session_ops(cfg, polls);
        lemma_no_acquire_while_held(cfg, polls.drop_last());
        lemma_session_balanced(cfg, polls.drop_last());
        assert forall|i: int| 0 <= i < ops.len() && (#[trigger] ops[i]) is Poll implies frames_held(
            ops.take(i),
        ) == 0 by {
            if i < prev.len() {
                assert(ops[i] == prev[i]);
                assert(ops.take(i) =~= prev.take(i));
            } else {
                let j = i - prev.len();
                assert(ops[i] == iter[j]);
                assert(j == 0) by {
                    if j != 0 {
                        assert(!(iter[j] is Poll));
                    }
                }
                assert(ops.take(i) =~= prev);
            }
        }
    }
}

proof fn lemma_session_last_sleep(cfg: SessionConfig, polls: Seq<Option<nat>>)
    requires
        cfg.wf(),
        polls.len() > 0,
    ensures
        session_ops(cfg, polls).len() > 0,
        session_ops(cfg, polls).last() matches SessionOp::Sleep { ms } && ms >= 1,
{
    let iter = iteration_ops(cfg, polls.last());
    assert(session_ops(cfg, polls).last() == iter.last());
}

/// The loop never busy-spins: every poll after the first is immediately
/// preceded by a pause of at least one millisecond, so there are no
/// back-to-back polls however many polls in a row yield nothing.
pub proof fn lemma_pause_before_every_poll(cfg: SessionConfig, polls: Seq<Option<nat>>)
    requires
        cfg.wf(),
    ensures
        forall|i: int|
            0 < i < session_ops(cfg, polls).len() && (#[trigger] session_ops(cfg, polls)[i])
                is Poll ==> (session_ops(cfg, polls)[i - 1] matches SessionOp::Sleep { ms } && ms
                >= 1),
    decreases polls.len(),
{
    if polls.len() > 0 {
        let prev = session_ops(cfg, polls.drop_last());
        let iter = iteration_ops(cfg, polls.last());
        let ops = session_ops(cfg, polls);
        lemma_pause_before_every_poll(cfg, polls.drop_last());
        assert forall|i: int|
            0 < i < ops.len() && (#[trigger] ops[i]) is Poll implies (ops[i - 1]
                matches SessionOp::Sleep { ms } && ms >= 1) by {
            if i < prev.len() {
                assert(ops[i] == prev[i]);
                assert(ops[i - 1] == prev[i - 1]);
            } else {
                let j = i - prev.len();
                assert(ops[i] == iter[j]);
                assert(j == 0) by {
                    if j != 0 {
                        assert(!(iter[j] is Poll));
                    }
                }
                assert(prev.len() > 0);
                assert(polls.drop_last().len() > 0);
                lemma_session_last_sleep(cfg, polls.drop_last());
                assert(ops[i - 1] == prev.last());
            }
        }
    }
}

/// Every record the session emits is well-framed: its header is exactly
/// the frame header for the number of payload bytes that follow it, so
/// the boundary marker opens it — for the first frame as for every later
/// one — and its `Content-Length` digits denote that byte count.
pub proof fn lemma_emitted_records_framed(cfg: SessionConfig, polls: Seq<Option<nat>>)
    ensures
        forall|i: int|
            0 <= i < session_ops(cfg, polls).len() ==> ((#[trigger] session_ops(cfg, polls)[i])
                matches SessionOp::Emit { header, payload_len } ==> {
                &&& header == spec_frame_header(payload_len)
                &&& header.take(boundary_marker().len() as int) == boundary_marker()
                &&& dec_val(
                    header.subrange(
                        header_prefix().len() as int,
                        header_prefix().len() + dec_rep(payload_len).len() as int,
                    ),
                ) == payload_len
            }),
    decreases polls.len(),
{
    if polls.len() > 0 {
        let prev = session_ops(cfg, polls.drop_last());
        let iter = iteration_ops(cfg, polls.last());
        let ops = session_ops(cfg, polls);
        lemma_emitted_records_framed(cfg, polls.drop_last());
        assert forall|i: int| 0 <= i < ops.len() implies ((#[trigger] ops[i])
            matches SessionOp::Emit { header, payload_len } ==> {
            &&& header == spec_frame_header(payload_len)
            &&& header.take(boundary_marker().len() as int) == boundary_marker()
            &&& dec_val(
                header.subrange(
                    header_prefix().len() as int,
                    header_prefix().len() + dec_rep(payload_len).len() as int,
                ),
            ) == payload_len
        }) by {
            if i < prev.len() {
                assert(ops[i] == prev[i]);
            } else {
                assert(ops[i] == iter[i - prev.len()]);
                match ops[i] {
                    SessionOp::Emit { header: _, payload_len } => {
                        lemma_header_starts_with_boundary(payload_len);
                        lemma_header_length_field(payload_len);
                    },
                    _ => {},
                }
            }
        }
    }
}

/// What one iteration of the loop does: the parts to write and the pause
/// to take. Executing a plan performs `iteration_ops(cfg, poll)`.
pub struct IterationPlan {
    /// Header of the record to write, when the poll yielded a frame; the
    /// payload bytes and `frame_trailer()` follow it on the wire.
    pub header: Option<String>,
    /// Whether a frame is held and must be returned after the write.
    pub release: bool,
    /// The pause before the next poll, in milliseconds.
    pub sleep_ms: u32,
}

/// The poll outcome as the model sees it: the yielded payload's length.
pub open spec fn poll_len(available: Option<usize>) -> Option<nat> {
    match available {
        Some(n) => Some(n as nat),
        None => None,
    }
}

/// The steps that carrying out a plan performs, for a poll that yielded
/// a payload of `got` bytes: the poll itself, the planned write, the
/// planned release, and the planned pause.
pub open spec fn plan_ops(p: IterationPlan, got: Option<nat>) -> Seq<SessionOp> {
    seq![SessionOp::Poll { yielded: got is Some }] + (match (p.header, got) {
        (Some(h), Some(n)) => seq![SessionOp::Emit { header: h@, payload_len: n }],
        _ => Seq::empty(),
    }) + (if p.release {
        seq![SessionOp::Release]
    } else {
        Seq::empty()
    }) + seq![SessionOp::Sleep { ms: p.sleep_ms }]
}

/// Decides one iteration of the streaming loop from the poll's outcome:
/// a frame of `n` bytes is framed exactly and followed by the throttle
/// pause; no frame means no write and the idle pause. Carrying the plan
/// out performs exactly the modelled iteration. Transport failure is the
/// caller's exit: nothing here retries a write.
pub fn plan_iteration(cfg: &SessionConfig, available: Option<usize>) -> (p: IterationPlan)
    ensures
        plan_ops(p, poll_len(available)) == iteration_ops(*cfg, poll_len(available)),
        match available {
            Some(n) => {
                &&& p.header matches Some(h) && h@ == spec_frame_header(n as nat)
                &&& p.release
                &&& p.sleep_ms == cfg.frame_interval_ms
            },
            None => {
                &&& p.header is None
                &&& !p.release
                &&& p.sleep_ms == cfg.idle_interval_ms
            },
        },
{
    let p = match available {
        Some(n) => IterationPlan {
            header: Some(frame_header(n)),
            release: true,
            sleep_ms: cfg.frame_interval_ms,
        },
        None => IterationPlan { header: None, release: false, sleep_ms: cfg.idle_interval_ms },
    };
    proof {
        assert(plan_ops(p, poll_len(available)) =~= iteration_ops(*cfg, poll_len(available)));
    }
    p
}

} // verus!
