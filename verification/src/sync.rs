//! The per-frame synchronization step: the one decision function the
//! frame loop runs each tick.
//!
//! The host loop samples input, performs the socket work, and hands
//! this module plain values: whether a connection exists, the sampled
//! frame, and at most one inbound line. The step encodes the outbound
//! line where connected, decodes the inbound line, and applies a
//! `"state"` message to the world model; every codec or transport
//! failure is absorbed here — reported in the result, never escalated —
//! so the render loop can never crash on network input.
use vstd::prelude::*;

use crate::decode::{decode_line, spec_decode, DecodedV};
use crate::encode::{encode_input, spec_encode_input};
use crate::input::InputFrame;
use crate::state::{spec_apply, WorldSnapshot, WorldV};

verus! {

/// What one tick did: the line to send, if any, and how the inbound
/// line — if one arrived — was consumed.
pub struct FrameResult {
    /// The encoded input line, where a connection exists.
    pub outbound: Option<String>,
    /// Whether a `"state"` message replaced the world model this tick.
    pub applied: bool,
    /// Whether an inbound line was dropped as undecodable; the world
    /// model is then untouched.
    pub decode_failed: bool,
}

/// The inbound line as the specification sees it.
pub open spec fn opt_line_view(l: Option<&String>) -> Option<Seq<char>> {
    match l {
        Some(s) => Some(s@),
        None => None,
    }
}

/// The world after one tick: unchanged while offline or without an
/// inbound line; otherwise the decoded `"state"` message applied, and
/// unchanged again where the line was blank, undecodable, or of
/// another message type.
pub open spec fn spec_tick(w: WorldV, connected: bool, inbound: Option<Seq<char>>) -> WorldV {
    if connected {
        match inbound {
            Some(line) => match spec_decode(line) {
                DecodedV::State(u) => spec_apply(w, u),
                _ => w,
            },
            None => w,
        }
    } else {
        w
    }
}

/// Runs one frame tick. At most the one given inbound line is
/// consumed; offline, nothing is sent and nothing changes.
pub fn frame_tick(
    world: &mut WorldSnapshot,
    connected: bool,
    frame: &InputFrame,
    inbound: Option<&String>,
) -> (r: FrameResult)
    ensures
        final(world)@ == spec_tick(old(world)@, connected, opt_line_view(inbound)),
        connected ==> (r.outbound matches Some(s) && s@ == spec_encode_input(frame@)),
        !connected ==> r.outbound is None,
        r.applied == (connected && (opt_line_view(inbound) matches Some(l) && spec_decode(l)
            is State)),
        r.decode_failed == (connected && (opt_line_view(inbound) matches Some(l) && spec_decode(l)
            is Failed)),
{
    if !connected {
        return FrameResult { outbound: None, applied: false, decode_failed: false };
    }
    let outbound = Some(encode_input(frame));
    let mut applied = false;
    let mut decode_failed = false;
    if let Some(line) = inbound {
        match decode_line(line.as_str()) {
            Ok(Some(u)) => {
                world.apply(u);
                applied = true;
            },
            Ok(None) => {},
            Err(_) => {
                decode_failed = true;
            },
        }
    }
    FrameResult { outbound, applied, decode_failed }
}

/// Decoding one line twice: a second tick that consumes the very same
/// inbound line leaves the world model the decode of that line already
/// produced — decoding is a function of the line, and applying a
/// snapshot is idempotent.
pub proof fn lemma_same_line_twice(w: WorldV, line: Seq<char>)
    ensures
        spec_tick(spec_tick(w, true, Some(line)), true, Some(line)) == spec_tick(
            w,
            true,
            Some(line),
        ),
{
    match spec_decode(line) {
        DecodedV::State(u) => {
            crate::state::lemma_apply_idempotent(w, u);
        },
        _ => {},
    }
}

/// The world after a run of offline ticks, whatever lines the run would
/// have seen.
pub open spec fn spec_run_offline(w: WorldV, frames: Seq<Option<Seq<char>>>) -> WorldV
    decreases frames.len(),
{
    if frames.len() == 0 {
        w
    } else {
        spec_run_offline(spec_tick(w, false, frames[0]), frames.drop_first())
    }
}

/// Offline resilience: with no connection, any number of frame ticks —
/// however many and whatever they would have carried — leaves the world
/// model exactly as it was; each tick also sends nothing, by
/// `frame_tick`'s contract.
pub proof fn lemma_offline_run_preserves_world(w: WorldV, frames: Seq<Option<Seq<char>>>)
    ensures
        spec_run_offline(w, frames) == w,
    decreases frames.len(),
{
    if frames.len() > 0 {
        lemma_offline_run_preserves_world(w, frames.drop_first());
    }
}

} // verus!
