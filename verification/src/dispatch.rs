//! Per-device dispatch planning: from an advertised name (possibly absent)
//! and the run's logical state to the command to write, or to the decision
//! not to write at all.

use vstd::prelude::*;

use crate::classify::{spec_classify, spec_classify_opt, classify_opt, Generation};
use crate::encoder::{
    encode_gen1, encode_gen2, gen1_frame, gen1_name_valid, gen1_tail, gen2_byte,
    CommandPayload, GEN1_CHARACTERISTIC, GEN2_CHARACTERISTIC,
};
use crate::state::{LogicalState, RunError};

verus! {

/// What a dispatch task should do for one device: nothing, or write one
/// payload.
#[derive(Debug)]
pub enum DispatchPlan {
    NotApplicable,
    Send(CommandPayload),
}

/// What one dispatch task came to, as consumed by the controller. The
/// timestamp of a success is the task's start-of-processing time, in
/// nanoseconds of the session clock.
#[derive(Clone, Copy, PartialEq, Eq, Structural, Debug)]
pub enum DispatchResult {
    NotApplicable,
    Success(u64),
    Failure(RunError),
}

/// The view of an optional advertised name.
pub open spec fn name_view(name: &Option<String>) -> Option<Seq<char>> {
    match *name {
        Some(ref n) => Some(n@),
        None => None,
    }
}

/// Decide whether and how to command one device: classify its advertised
/// name and run the matching encoder. Devices without a name, or with a
/// name of neither generation, get no write; a malformed Generation-1 name
/// or a Standby request against Generation 1 fails the dispatch.
pub fn plan_dispatch(name: &Option<String>, state: LogicalState) -> (r: Result<
    DispatchPlan,
    RunError,
>)
    ensures
        spec_classify_opt(name_view(name)) is NotApplicable <==> r matches Ok(
            DispatchPlan::NotApplicable,
        ),
        spec_classify_opt(name_view(name)) is Generation1 ==> ({
            &&& r is Ok <==> gen1_name_valid(name_view(name)->0) && state != LogicalState::Standby
            &&& r matches Ok(DispatchPlan::Send(p)) ==> p.bytes@ == gen1_frame(
                state,
                gen1_tail(name_view(name)->0),
            ) && p.target == GEN1_CHARACTERISTIC
            &&& !gen1_name_valid(name_view(name)->0) ==> (r matches Err(e) && e
                == RunError::FormatError)
            &&& gen1_name_valid(name_view(name)->0) && state == LogicalState::Standby ==> (r
                matches Err(e) && e == RunError::UnsupportedStateError)
        }),
        spec_classify_opt(name_view(name)) is Generation2 ==> (r matches Ok(
            DispatchPlan::Send(p),
        ) && p.bytes@ == seq![gen2_byte(state)] && p.target == GEN2_CHARACTERISTIC),
{
    match classify_opt(name) {
        Generation::Generation1 => {
            let n = match name {
                Some(n) => n,
                None => {
                    proof {
                        assert(false);
                    }
                    return Err(RunError::FormatError);
                },
            };
            match encode_gen1(n.as_str(), state) {
                Ok(p) => Ok(DispatchPlan::Send(p)),
                Err(e) => Err(e),
            }
        },
        Generation::Generation2 => Ok(DispatchPlan::Send(encode_gen2(state))),
        Generation::NotApplicable => Ok(DispatchPlan::NotApplicable),
    }
}

} // verus!
