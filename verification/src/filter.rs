//! The record-filter policy: the decision the engine asks for once per trace
//! record during a poll, choosing between fully materializing the record and
//! skipping ahead to the next one.

use vstd::prelude::*;

verus! {

/// Native action code of a record produced by a data-formatting expression.
/// Its payload was already delivered through the buffered-output hook.
pub const ACTION_DIFEXPR: u32 = 1;
/// Native action code of an explicit exit action: a control action with no
/// separate payload to materialize.
pub const ACTION_EXIT: u32 = 2;

/// Filter answer: let the engine fully process the current record.
pub const CONSUME_THIS: i32 = 0;
/// Filter answer: move on to the next record (or, on a null descriptor, to
/// the next event).
pub const CONSUME_NEXT: i32 = 1;

/// When the filter skips a record: always on the null sentinel (`None`,
/// meaning no further records for this event), and on the two action kinds
/// whose output needs no engine-default handling. Every other action kind is
/// left to the engine's default processing.
pub open spec fn skips_record(action: Option<u32>) -> bool {
    action matches Some(a) ==> a == ACTION_DIFEXPR || a == ACTION_EXIT
}

/// The record-filter callback decision, from the record's action code
/// (`None` for a null record descriptor) to the engine's consume code.
pub fn chewrec(action: Option<u32>) -> (r: i32)
    ensures
        skips_record(action) ==> r == CONSUME_NEXT,
        !skips_record(action) ==> r == CONSUME_THIS,
{
    match action {
        None => CONSUME_NEXT,
        Some(a) => {
            if a == ACTION_DIFEXPR || a == ACTION_EXIT {
                CONSUME_NEXT
            } else {
                CONSUME_THIS
            }
        },
    }
}

} // verus!
