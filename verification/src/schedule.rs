use vstd::prelude::*;

use crate::messages::{set_message, set_message_spec};
use crate::seq_views;

verus! {

/// A slot's packed value: the minutes of the displayed interval's start in
/// the low half, the minutes of its end in the high half; midnight is zero.
pub open spec fn packed_slot(start_minutes: int, end_minutes: int) -> int {
    start_minutes + 65536 * end_minutes
}

/// Packs one displayed interval into a slot value.
pub fn pack_slot(start_minutes: u16, end_minutes: u16) -> (r: u32)
    requires
        start_minutes < 1440,
        end_minutes < 1440,
    ensures
        r == packed_slot(start_minutes as int, end_minutes as int),
{
    (start_minutes as u32) + 65536 * (end_minutes as u32)
}

/// Unpacks a slot value into the start and end minutes it displays.
pub fn unpack_slot(value: u32) -> (r: (u32, u32))
    ensures
        r.0 == value as int % 65536,
        r.1 == value as int / 65536,
{
    (value % 65536, value / 65536)
}

/// Packing an interval and unpacking the value gives the interval back.
pub proof fn lemma_slot_round_trip(start_minutes: int, end_minutes: int)
    requires
        0 <= start_minutes < 1440,
        0 <= end_minutes < 1440,
    ensures
        packed_slot(start_minutes, end_minutes) % 65536 == start_minutes,
        packed_slot(start_minutes, end_minutes) / 65536 == end_minutes,
{
    assert((start_minutes + 65536 * end_minutes) % 65536 == start_minutes
        && (start_minutes + 65536 * end_minutes) / 65536 == end_minutes) by (nonlinear_arith)
        requires
            0 <= start_minutes < 1440,
            0 <= end_minutes < 1440,
    ;
}

/// The slot writes that express an active interval `[from, till)` in a
/// tap-water weekly schedule, as pairs of slot index and packed value. The
/// written slots mark the inactive remainder of the day: when the interval
/// does not cross midnight, the first slot marks midnight-to-`from` and the
/// last slot marks `till`-to-midnight (either dropped when it would be
/// empty); when it crosses midnight the first slot alone marks `till`-to-
/// `from`. Fewer than two slots leave the schedule fully cleared.
pub open spec fn tap_water_extra_sets(n_slots: int, from: int, till: int) -> Seq<(int, int)> {
    if n_slots < 2 {
        Seq::empty()
    } else if from > till {
        seq![(0int, packed_slot(till, from))]
    } else {
        (if from > 0 {
            seq![(0int, packed_slot(0, from))]
        } else {
            Seq::empty()
        }) + (if till > 0 {
            seq![(n_slots - 1, packed_slot(till, 0))]
        } else {
            Seq::empty()
        })
    }
}

/// The slot writes that express a blocked interval `[from, till)` in a
/// heating weekly schedule. The written slots mark the blocked span itself:
/// when it does not cross midnight the first slot marks `from`-to-`till`;
/// when it crosses midnight the first slot marks `from`-to-midnight and the
/// last slot marks midnight-to-`till` (dropped when it would be empty).
pub open spec fn heating_extra_sets(n_slots: int, from: int, till: int) -> Seq<(int, int)> {
    if n_slots < 2 {
        Seq::empty()
    } else if from > till {
        seq![(0int, packed_slot(from, 0))] + (if till > 0 {
            seq![(n_slots - 1, packed_slot(0, till))]
        } else {
            Seq::empty()
        })
    } else {
        seq![(0int, packed_slot(from, till))]
    }
}

/// The write commands that rewrite one weekly schedule: every slot is first
/// reset to the inactive value, then the slots chosen by the packing rule are
/// written. `interval` is the target interval in device-local minutes, or
/// nothing when no usable window exists this run.
pub open spec fn schedule_messages_spec(
    ids: Seq<Seq<char>>,
    interval: Option<(int, int)>,
    extra: Seq<(int, int)>,
) -> Seq<Seq<char>> {
    Seq::new(ids.len(), |i: int| set_message_spec(ids[i], 0)) + (match interval {
        Some(_) => Seq::new(extra.len(), |i: int| set_message_spec(ids[extra[i].0], extra[i].1 as nat)),
        None => Seq::empty(),
    })
}

/// The full command list for the tap-water schedule.
pub open spec fn tap_water_messages_spec(ids: Seq<Seq<char>>, interval: Option<(int, int)>) -> Seq<
    Seq<char>,
> {
    schedule_messages_spec(
        ids,
        interval,
        (match interval {
            Some(p) => tap_water_extra_sets(ids.len() as int, p.0, p.1),
            None => Seq::empty(),
        }),
    )
}

/// The full command list for the heating schedule.
pub open spec fn heating_messages_spec(ids: Seq<Seq<char>>, interval: Option<(int, int)>) -> Seq<
    Seq<char>,
> {
    schedule_messages_spec(
        ids,
        interval,
        (match interval {
            Some(p) => heating_extra_sets(ids.len() as int, p.0, p.1),
            None => Seq::empty(),
        }),
    )
}

/// Pushes one reset command per slot.
fn push_resets(slot_ids: &Vec<String>, out: &mut Vec<String>)
    requires
        old(out)@.len() == 0,
    ensures
        seq_views(final(out)@) =~= Seq::new(slot_ids@.len(), |i: int| set_message_spec(slot_ids@[i]@, 0)),
{
    let mut i: usize = 0;
    while i < slot_ids.len()
        invariant
            0 <= i <= slot_ids.len(),
            out@.len() == i,
            forall|j: int| 0 <= j < i ==> (#[trigger] out@[j])@ == set_message_spec(slot_ids@[j]@, 0),
        decreases slot_ids.len() - i,
    {
        out.push(set_message(slot_ids[i].as_str(), 0));
        i = i + 1;
    }
}

/// Builds the command list that rewrites the tap-water weekly schedule for a
/// target active interval in device-local minutes (or clears it entirely).
pub fn tap_water_schedule_messages(slot_ids: &Vec<String>, interval: Option<(u16, u16)>) -> (r:
    Vec<String>)
    requires
        (interval matches Some(p) ==> p.0 < 1440 && p.1 < 1440),
    ensures
        seq_views(r@) =~= tap_water_messages_spec(
            seq_views(slot_ids@),
            (match interval {
                Some(p) => Some((p.0 as int, p.1 as int)),
                None => None,
            }),
        ),
{
    let mut out: Vec<String> = Vec::new();
    push_resets(slot_ids, &mut out);
    let n = slot_ids.len();
    let ghost ids = seq_views(slot_ids@);
    let ghost resets = Seq::new(ids.len(), |i: int| set_message_spec(ids[i], 0));
    proof {
        assert(seq_views(out@) =~= resets);
    }
    if let Some((from, till)) = interval {
        let ghost extra = tap_water_extra_sets(ids.len() as int, from as int, till as int);
        if n >= 2 {
            if from > till {
                out.push(set_message(slot_ids[0].as_str(), pack_slot(till, from) as u64));
                proof {
                    lemma_views_extended(out@, resets, ids, extra);
                }
            } else {
                if from > 0 {
                    out.push(set_message(slot_ids[0].as_str(), pack_slot(0, from) as u64));
                }
                if till > 0 {
                    out.push(set_message(slot_ids[n - 1].as_str(), pack_slot(till, 0) as u64));
                }
                proof {
                    lemma_views_extended(out@, resets, ids, extra);
                }
            }
        }
    }
    out
}

/// Builds the command list that rewrites the heating weekly schedule to block
/// a target interval in device-local minutes (or clears it entirely).
pub fn heating_schedule_messages(slot_ids: &Vec<String>, interval: Option<(u16, u16)>) -> (r: Vec<
    String,
>)
    requires
        (interval matches Some(p) ==> p.0 < 1440 && p.1 < 1440),
    ensures
        seq_views(r@) =~= heating_messages_spec(
            seq_views(slot_ids@),
            (match interval {
                Some(p) => Some((p.0 as int, p.1 as int)),
                None => None,
            }),
        ),
{
    let mut out: Vec<String> = Vec::new();
    push_resets(slot_ids, &mut out);
    let n = slot_ids.len();
    let ghost ids = seq_views(slot_ids@);
    let ghost resets = Seq::new(ids.len(), |i: int| set_message_spec(ids[i], 0));
    proof {
        assert(seq_views(out@) =~= resets);
    }
    if let Some((from, till)) = interval {
        let ghost extra = heating_extra_sets(ids.len() as int, from as int, till as int);
        if n >= 2 {
            if from > till {
                out.push(set_message(slot_ids[0].as_str(), pack_slot(from, 0) as u64));
                if till > 0 {
                    out.push(set_message(slot_ids[n - 1].as_str(), pack_slot(0, till) as u64));
                }
                proof {
                    lemma_views_extended(out@, resets, ids, extra);
                }
            } else {
                out.push(set_message(slot_ids[0].as_str(), pack_slot(from, till) as u64));
                proof {
                    lemma_views_extended(out@, resets, ids, extra);
                }
            }
        }
    }
    out
}

/// The views of a vector whose prefix views equal `resets` and whose tail
/// holds the messages of `extra` are exactly the concatenation of the two.
proof fn lemma_views_extended(out: Seq<String>, resets: Seq<Seq<char>>, ids: Seq<Seq<char>>, extra: Seq<(int, int)>)
    requires
        out.len() == resets.len() + extra.len(),
        forall|j: int| 0 <= j < resets.len() ==> (#[trigger] out[j])@ == resets[j],
        forall|k: int|
            0 <= k < extra.len() ==> (#[trigger] out[resets.len() + k])@ == set_message_spec(
                ids[extra[k].0],
                extra[k].1 as nat,
            ),
    ensures
        seq_views(out) =~= resets + Seq::new(
            extra.len(),
            |i: int| set_message_spec(ids[extra[i].0], extra[i].1 as nat),
        ),
{
    let target = resets + Seq::new(
        extra.len(),
        |i: int| set_message_spec(ids[extra[i].0], extra[i].1 as nat),
    );
    assert forall|j: int| 0 <= j < out.len() implies seq_views(out)[j] == target[j] by {
        if j >= resets.len() {
            let k = j - resets.len();
            assert(out[resets.len() + k]@ == set_message_spec(ids[extra[k].0], extra[k].1 as nat));
        }
    }
}

} // verus!
