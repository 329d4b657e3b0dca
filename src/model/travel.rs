//! What repeated ticking does to a lift.
use crate::model::elevator::{step, ElevatorView};
use crate::model::operation::Movement;
use vstd::prelude::*;

verus! {

/// The lift `v` after `n` ticks.
pub open spec fn run(v: ElevatorView, n: nat) -> ElevatorView
    decreases n,
{
    if n == 0 {
        v
    } else {
        run(step(v), (n - 1) as nat)
    }
}

pub open spec fn abs(x: int) -> int {
    if x < 0 {
        -x
    } else {
        x
    }
}

/// The floor a travelling movement is heading for.
pub open spec fn target(m: Movement) -> Option<i16> {
    match m {
        Movement::Down(_, to) => Some(to),
        Movement::Up(_, to) => Some(to),
        _ => None,
    }
}

/// Ticking `a` times and then `b` times is ticking `a + b` times.
pub proof fn lemma_run_split(v: ElevatorView, a: nat, b: nat)
    ensures
        run(v, a + b) == run(run(v, a), b),
    decreases a,
{
    if a > 0 {
        lemma_run_split(step(v), (a - 1) as nat, b);
        assert((a + b - 1) as nat == ((a - 1) as nat + b) as nat);
    }
}

/// A lift moving down passes one floor per tick until it reaches its target.
pub proof fn lemma_descend(v: ElevatorView, k: nat)
    requires
        v.movement is Down,
        k <= v.floor - v.movement->Down_1,
    ensures
        run(v, k) == (ElevatorView { floor: (v.floor - k) as i16, ..v }),
    decreases k,
{
    if k > 0 {
        let w = step(v);
        assert(w == (ElevatorView { floor: (v.floor - 1) as i16, ..v }));
        lemma_descend(w, (k - 1) as nat);
    }
}

/// A lift moving up passes one floor per tick until it reaches its target.
pub proof fn lemma_ascend(v: ElevatorView, k: nat)
    requires
        v.movement is Up,
        k <= v.movement->Up_1 - v.floor,
    ensures
        run(v, k) == (ElevatorView { floor: (v.floor + k) as i16, ..v }),
    decreases k,
{
    if k > 0 {
        let w = step(v);
        assert(w == (ElevatorView { floor: (v.floor + 1) as i16, ..v }));
        lemma_ascend(w, (k - 1) as nat);
    }
}

/// Every tick of a travelling lift moves it at most one floor, never away from
/// its target, and exactly one floor towards the target while it is not there.
pub proof fn lemma_single_step_travel(v: ElevatorView)
    requires
        v.movement is Up || v.movement is Down,
    ensures
        ({
            let w = step(v);
            let to = target(v.movement)->0 as int;
            &&& -1 <= w.floor - v.floor <= 1
            &&& abs(to - w.floor) <= abs(to - v.floor)
            &&& w.floor != v.floor ==> abs(to - w.floor) == abs(to - v.floor) - 1
            &&& v.floor == to ==> w.floor == v.floor
            &&& (v.movement is Up && v.floor < to) ==> w.floor == v.floor + 1
            &&& (v.movement is Down && v.floor > to) ==> w.floor == v.floor - 1
        }),
{
}

/// A lift told to return home while already on floor 0 is idle there after
/// exactly three ticks (doors open, doors close, idle), and never moves.
pub proof fn lemma_return_home_from_floor_zero(v: ElevatorView)
    requires
        v.movement == Movement::ReturnHome,
        v.floor == 0,
    ensures
        run(v, 3) == (ElevatorView { movement: Movement::Idle, ..v }),
        forall|k: nat| k < 3 ==> run(v, k).movement != Movement::Idle,
        forall|k: nat| k <= 3 ==> run(v, k).floor == 0,
{
    reveal_with_fuel(run, 4);
}

/// A lift told to return home from floor `f`, not 0, is idle on floor 0 after
/// exactly `|f| + 4` ticks: one to set off, `|f|` of travel, doors open, doors
/// close. It is busy until then, and once it reaches floor 0 it stays there:
/// it is on floor 0 after `k` ticks exactly when `k > |f|`.
pub proof fn lemma_return_home(v: ElevatorView)
    requires
        v.movement == Movement::ReturnHome,
        v.floor != 0,
    ensures
        run(v, (abs(v.floor as int) + 4) as nat) == (ElevatorView {
            movement: Movement::Idle,
            floor: 0,
            ..v
        }),
        forall|k: nat| k < abs(v.floor as int) + 4 ==> run(v, k).movement != Movement::Idle,
        forall|k: nat|
            k <= abs(v.floor as int) + 4 ==> (run(v, k).floor == 0 <==> k > abs(v.floor as int)),
{
    let d = abs(v.floor as int) as nat;
    let w1 = step(v);
    let w2 = if v.floor > 0 {
        ElevatorView { movement: Movement::Down(v.floor, 0), ..v }
    } else {
        ElevatorView { movement: Movement::Up(v.floor, 0), ..v }
    };
    assert(w1 == w2);
    let arrived = ElevatorView { floor: 0, ..w1 };
    if v.floor > 0 {
        lemma_descend(w1, d);
    } else {
        lemma_ascend(w1, d);
    }
    assert(run(w1, d) == arrived);
    assert(run(arrived, 3) == (ElevatorView { movement: Movement::Idle, floor: 0, ..v })) by {
        reveal_with_fuel(run, 4);
    }
    lemma_run_split(w1, d, 3);
    assert(run(v, d + 4) == run(w1, d + 3));
    assert forall|k: nat| k <= d + 4 implies {
        &&& k < d + 4 ==> run(v, k).movement != Movement::Idle
        &&& (run(v, k).floor == 0 <==> k > d)
    } by {
        if k == 0 {
        } else if k <= d + 1 {
            let j = (k - 1) as nat;
            assert(run(v, k) == run(w1, j));
            if v.floor > 0 {
                lemma_descend(w1, j);
            } else {
                lemma_ascend(w1, j);
            }
        } else {
            let j = (k - 1 - d) as nat;
            assert(run(v, k) == run(w1, (k - 1) as nat));
            lemma_run_split(w1, d, j);
            assert((d + j) as nat == (k - 1) as nat);
            assert(run(arrived, j).floor == 0 && (j < 3 ==> run(arrived, j).movement
                != Movement::Idle)) by {
                reveal_with_fuel(run, 4);
            }
        }
    }
}

} // verus!
