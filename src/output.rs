//! Filling a caller's output buffer of a given capacity from a client's
//! outcome, with failures reported as error records.

use vstd::prelude::*;
use crate::records::{
    get_info_c_ready, list_info_c_ready, FactoryRobotGetInfoC, FactoryRobotListInfoC,
    RobotGetInfo, RobotListInfo,
};

verus! {

/// The message of the error record written when a text of the client's
/// answer cannot become a C string.
pub const INTERIOR_NUL_MESSAGE: &'static str = "a text field holds a NUL byte";

/// What a listing writes into a buffer of capacity `items`: `slots[i]` goes
/// to position `i`, and no other position is written; `count` is what the
/// call returns.
pub struct ListingOutput {
    pub count: u32,
    pub slots: Vec<FactoryRobotListInfoC>,
}

/// How many records a buffer of capacity `items` takes of `available`.
pub open spec fn taken(items: u32, available: nat) -> nat {
    if (items as nat) < available { items as nat } else { available }
}

/// The first `n` records can all become flat records.
pub open spec fn first_c_ready(recs: Seq<RobotListInfo>, n: nat) -> bool {
    forall|i: int| 0 <= i < n ==> #[trigger] list_info_c_ready(recs[i])
}

/// Fills a buffer of capacity `items` from a listing's outcome. With no
/// capacity nothing is written. Otherwise the first `min(items, R)` of the R
/// records are written, in order, and their number returned. A failure, or
/// a text that cannot become a C string, writes one error record at position
/// 0 and returns 0.
pub fn fill_listing(items: u32, outcome: &Result<Vec<RobotListInfo>, String>) -> (r: ListingOutput)
    ensures
        forall|i: int| 0 <= i < r.slots@.len() ==> (#[trigger] r.slots@[i]).wf(),
        items == 0 ==> r.count == 0 && r.slots@.len() == 0,
        items > 0 ==> match outcome {
            Ok(recs) => {
                let n = taken(items, recs@.len());
                if first_c_ready(recs@, n) {
                    &&& r.count == n
                    &&& r.slots@.len() == n
                    &&& forall|i: int| 0 <= i < n ==> (#[trigger] r.slots@[i]).holds(recs@[i])
                } else {
                    &&& r.count == 0
                    &&& r.slots@.len() == 1
                    &&& r.slots@[0].is_error_for(INTERIOR_NUL_MESSAGE@, Seq::empty())
                }
            },
            Err(msg) => {
                &&& r.count == 0
                &&& r.slots@.len() == 1
                &&& r.slots@[0].is_error_for(msg@, Seq::empty())
            },
        },
{
    let mut slots: Vec<FactoryRobotListInfoC> = Vec::new();
    if items == 0 {
        return ListingOutput { count: 0, slots };
    }
    proof {
        reveal_strlit("");
    }
    match outcome {
        Ok(recs) => {
            let max: usize = if recs.len() < items as usize { recs.len() } else { items as usize };
            let mut i: usize = 0;
            while i < max
                invariant
                    items > 0,
                    *outcome == Ok::<Vec<RobotListInfo>, String>(*recs),
                    max == taken(items, recs@.len()),
                    max <= recs@.len(),
                    i <= max,
                    slots@.len() == i,
                    forall|j: int| 0 <= j < i ==> (#[trigger] slots@[j]).wf(),
                    forall|j: int| 0 <= j < i ==> (#[trigger] slots@[j]).holds(recs@[j]),
                    forall|j: int| 0 <= j < i ==> #[trigger] list_info_c_ready(recs@[j]),
                decreases max - i,
            {
                match FactoryRobotListInfoC::from_info(&recs[i]) {
                    Ok(c) => {
                        slots.push(c);
                    },
                    Err(_) => {
                        proof {
                            reveal_strlit("");
                            assert(!list_info_c_ready(recs@[i as int]));
                        }
                        let mut failed: Vec<FactoryRobotListInfoC> = Vec::new();
                        failed.push(FactoryRobotListInfoC::mock_error(INTERIOR_NUL_MESSAGE, ""));
                        return ListingOutput { count: 0, slots: failed };
                    },
                }
                i = i + 1;
            }
            ListingOutput { count: max as u32, slots }
        },
        Err(msg) => {
            slots.push(FactoryRobotListInfoC::mock_error(msg.as_str(), ""));
            ListingOutput { count: 0, slots }
        },
    }
}

/// The record that a lookup of one robot writes: the robot's record, or the
/// error record where the lookup failed or a text cannot become a C string.
pub fn robot_record(outcome: &Result<RobotGetInfo, String>) -> (r: FactoryRobotGetInfoC)
    ensures
        r.wf(),
        match outcome {
            Ok(d) => if get_info_c_ready(*d) {
                r.holds(*d)
            } else {
                r.is_error_for(INTERIOR_NUL_MESSAGE@, Seq::empty())
            },
            Err(msg) => r.is_error_for(msg@, Seq::empty()),
        },
{
    proof {
        reveal_strlit("");
    }
    match outcome {
        Ok(d) => match FactoryRobotGetInfoC::from_info(d) {
            Ok(c) => c,
            Err(_) => FactoryRobotGetInfoC::mock_error(INTERIOR_NUL_MESSAGE, ""),
        },
        Err(msg) => FactoryRobotGetInfoC::mock_error(msg.as_str(), ""),
    }
}

} // verus!
