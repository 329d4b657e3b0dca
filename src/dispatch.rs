//! Choosing the lift that serves a passenger, and the legs it is given.
use crate::error::FleetError;
use crate::model::operation::{direction, Command, LocationStatus, Movement, Passenger};
use crate::scheduler::{ids_unique, lemma_table_of, table_of, FleetTable};
use vstd::prelude::*;

verus! {

/// How far floor `floor` is from floor `target`.
pub open spec fn distance(floor: i16, target: i16) -> int {
    if floor >= target {
        floor - target
    } else {
        target - floor
    }
}

/// Some lift of the table is idle.
pub open spec fn has_idle(m: Map<u8, (bool, i16)>) -> bool {
    exists|id: u8| #[trigger] m.contains_key(id) && !m[id].0
}

/// Lift `id` may be chosen: it is registered, and idle if any lift is.
pub open spec fn eligible(m: Map<u8, (bool, i16)>, id: u8) -> bool {
    m.contains_key(id) && (has_idle(m) ==> !m[id].0)
}

/// Lift `a` is nearer to floor `from` than lift `b`, or as near with an id no
/// larger.
pub open spec fn precedes(m: Map<u8, (bool, i16)>, from: i16, a: u8, b: u8) -> bool {
    let da = distance(m[a].1, from);
    let db = distance(m[b].1, from);
    da < db || (da == db && a <= b)
}

/// Lift `id` is the one to serve a passenger waiting on floor `from`: the
/// nearest idle lift, or the nearest of all when none is idle, ties going to
/// the lowest id.
pub open spec fn is_choice(m: Map<u8, (bool, i16)>, from: i16, id: u8) -> bool {
    &&& eligible(m, id)
    &&& forall|j: u8| #[trigger] eligible(m, j) ==> precedes(m, from, id, j)
}

/// The commands that give lift `id`, known to be on floor `floor`, the
/// passenger's journey: a leg to the pickup floor unless it is already there,
/// then a leg to the destination.
pub open spec fn assignments(id: u8, floor: i16, request: Passenger) -> Seq<Command> {
    let pickup = match direction(request.from_floor as int, floor as int) {
        Some(m) => seq![Command::Lift(id, m)],
        None => Seq::empty(),
    };
    let drop_off = match direction(request.to_floor as int, request.from_floor as int) {
        Some(m) => seq![Command::Lift(id, m)],
        None => Seq::empty(),
    };
    pickup + drop_off
}

/// What the dispatcher decided for one passenger.
#[derive(Debug)]
pub enum DispatchPlan {
    /// The passenger is already where they want to be.
    NoActionRequired,
    /// Lift `id` is to be sent `commands`, in this order.
    Assign { id: u8, commands: Vec<Command> },
}

/// The choice of lift depends on the table and the pickup floor alone: two
/// lifts that both meet the rule are the same lift.
pub proof fn lemma_choice_deterministic(m: Map<u8, (bool, i16)>, from: i16, a: u8, b: u8)
    requires
        is_choice(m, from, a),
        is_choice(m, from, b),
    ensures
        a == b,
{
    assert(precedes(m, from, a, b));
    assert(precedes(m, from, b, a));
}

/// Entry `a` is nearer to `from` than entry `b`, or as near with an id no larger.
pub open spec fn ranks_first(a: LocationStatus, b: LocationStatus, from: i16) -> bool {
    let da = distance(a.floor, from);
    let db = distance(b.floor, from);
    da < db || (da == db && a.id <= b.id)
}

fn distance_to(floor: i16, target: i16) -> (r: i32)
    ensures
        r == distance(floor, target),
{
    if floor >= target {
        floor as i32 - target as i32
    } else {
        target as i32 - floor as i32
    }
}

/// The entry nearest to floor `from` among all entries, or among the idle ones
/// only when `idle_only` is set; `None` when there is no such entry.
fn nearest(entries: &Vec<LocationStatus>, from: i16, idle_only: bool) -> (r: Option<usize>)
    ensures
        match r {
            Some(i) => {
                &&& i < entries.len()
                &&& idle_only ==> !entries@[i as int].is_busy
                &&& forall|j: int|
                    0 <= j < entries.len() && (idle_only ==> !entries@[j].is_busy) ==> ranks_first(
                        entries@[i as int],
                        #[trigger] entries@[j],
                        from,
                    )
            },
            None => forall|j: int| 0 <= j < entries.len() ==> idle_only && #[trigger] entries@[j].is_busy,
        },
{
    let mut best: Option<usize> = None;
    let mut best_distance: i32 = 0;
    let mut k: usize = 0;
    while k < entries.len()
        invariant
            k <= entries.len(),
            best is Some ==> {
                let i = best->0 as int;
                &&& i < k
                &&& best_distance == distance(entries@[i].floor, from)
                &&& idle_only ==> !entries@[i].is_busy
                &&& forall|j: int|
                    0 <= j < k && (idle_only ==> !entries@[j].is_busy) ==> ranks_first(
                        entries@[i],
                        #[trigger] entries@[j],
                        from,
                    )
            },
            best is None ==> k == 0 || idle_only,
            best is None ==> forall|j: int| 0 <= j < k ==> #[trigger] entries@[j].is_busy,
        decreases entries.len() - k,
    {
        let e = entries[k];
        if !(idle_only && e.is_busy) {
            let d = distance_to(e.floor, from);
            match best {
                None => {
                    best = Some(k);
                    best_distance = d;
                },
                Some(i) => {
                    if d < best_distance || (d == best_distance && e.id < entries[i].id) {
                        best = Some(k);
                        best_distance = d;
                    }
                },
            }
        }
        k = k + 1;
    }
    best
}

/// Decides which lift serves `request`, given the table's current contents,
/// and the commands to publish for it. A passenger already on their
/// destination needs nothing; otherwise an empty table is an error, and the
/// chosen lift is the one `is_choice` names.
pub fn dispatch(table: &FleetTable, request: &Passenger) -> (r: Result<DispatchPlan, FleetError>)
    ensures
        request.from_floor == request.to_floor ==> r == Ok::<DispatchPlan, FleetError>(
            DispatchPlan::NoActionRequired,
        ),
        request.from_floor != request.to_floor && table@ == Map::<u8, (bool, i16)>::empty() ==> r
            == Err::<DispatchPlan, FleetError>(FleetError::NoElevatorsAvailable),
        request.from_floor != request.to_floor && table@ != Map::<u8, (bool, i16)>::empty() ==> (
        match r {
            Ok(DispatchPlan::Assign { id, commands }) => {
                &&& is_choice(table@, request.from_floor, id)
                &&& commands@ == assignments(id, table@[id].1, *request)
            },
            _ => false,
        }),
{
    if request.from_floor == request.to_floor {
        return Ok(DispatchPlan::NoActionRequired);
    }
    let snapshot = table.statuses();
    let ghost m = table_of(snapshot@);
    proof {
        lemma_table_of(snapshot@);
    }
    let from = request.from_floor;
    let chosen = match nearest(&snapshot, from, true) {
        Some(i) => Some(i),
        None => nearest(&snapshot, from, false),
    };
    match chosen {
        None => {
            proof {
                assert forall|id: u8| !m.contains_key(id) by {
                    if m.contains_key(id) {
                        let j = choose|j: int| 0 <= j < snapshot@.len() && snapshot@[j].id == id;
                        assert(snapshot@[j].is_busy);
                    }
                }
                assert(m =~= Map::<u8, (bool, i16)>::empty());
            }
            Err(FleetError::NoElevatorsAvailable)
        },
        Some(i) => {
            let id = snapshot[i].id;
            let floor = snapshot[i].floor;
            proof {
                assert(m.contains_key(snapshot@[i as int].id));
                assert(m != Map::<u8, (bool, i16)>::empty()) by {
                    assert(!Map::<u8, (bool, i16)>::empty().contains_key(id));
                }
                if has_idle(m) {
                    let h = choose|h: u8| #[trigger] m.contains_key(h) && !m[h].0;
                    let jh = choose|jh: int| 0 <= jh < snapshot@.len() && snapshot@[jh].id == h;
                    assert(m.contains_key(snapshot@[jh].id));
                    assert(!snapshot@[i as int].is_busy);
                } else {
                    assert forall|j: int| 0 <= j < snapshot@.len() implies #[trigger] snapshot@[j].is_busy by {
                        assert(m.contains_key(snapshot@[j].id));
                    }
                }
                assert forall|j: u8| #[trigger] eligible(m, j) implies precedes(m, from, id, j) by {
                    let jj = choose|jj: int| 0 <= jj < snapshot@.len() && snapshot@[jj].id == j;
                    assert(m.contains_key(snapshot@[jj].id));
                    if has_idle(m) {
                        assert(!snapshot@[jj].is_busy);
                    }
                    assert(ranks_first(snapshot@[i as int], snapshot@[jj], from));
                }
            }
            let mut commands: Vec<Command> = Vec::new();
            if let Some(pickup) = Movement::get_direction(from, floor) {
                commands.push(Command::Lift(id, pickup));
            }
            if let Some(drop_off) = Movement::get_direction(request.to_floor, from) {
                commands.push(Command::Lift(id, drop_off));
            }
            proof {
                assert(commands@ =~= assignments(id, floor, *request));
            }
            Ok(DispatchPlan::Assign { id, commands })
        },
    }
}

} // verus!
