//! The walk cycle: which frame of the sprite grid a character shows, and how
//! pressed keys turn into movement and facing.

use crate::facing::{
    dominant, dominant_facing, row_start_index, row_zero_based, Facing, ANIMATION_COUNT,
    MAX_FRAMES_PER_ANIMATION,
};
use crate::timer::FrameTimer;
use vstd::prelude::*;

verus! {

/// Where a character looks and whether it walks. `was_moving` is `moving` as
/// the animation step of the frame before saw it.
#[derive(Clone, Copy, Debug, PartialEq, Eq, Structural)]
pub struct AnimationState {
    pub facing: Facing,
    pub moving: bool,
    pub was_moving: bool,
}

/// The arrow keys that are held down.
#[derive(Clone, Copy, Debug, PartialEq, Eq, Structural)]
pub struct ArrowKeys {
    pub left: bool,
    pub right: bool,
    pub up: bool,
    pub down: bool,
}

/// Pull along one axis: each held key counts one step towards its side.
pub open spec fn axis(negative: bool, positive: bool) -> int {
    (if positive { 1int } else { 0int }) - (if negative { 1int } else { 0int })
}

impl ArrowKeys {
    /// Horizontal pull of the held keys, positive to the right.
    pub open spec fn dx(self) -> int {
        axis(self.left, self.right)
    }

    /// Vertical pull of the held keys, positive upwards.
    pub open spec fn dy(self) -> int {
        axis(self.down, self.up)
    }

    /// Whether the held keys pull anywhere at all.
    pub open spec fn pulls(self) -> bool {
        self.dx() != 0 || self.dy() != 0
    }
}

impl AnimationState {
    /// The state once the movement step has read the keys: a pull sets the
    /// character moving and turns it to the pull's dominant axis; no pull
    /// stops it and leaves the facing alone.
    pub open spec fn steered(self, keys: ArrowKeys) -> AnimationState {
        AnimationState {
            facing: if keys.pulls() { dominant(keys.dx(), keys.dy()) } else { self.facing },
            moving: keys.pulls(),
            was_moving: self.was_moving,
        }
    }

    /// The state once the animation step has run: it remembers `moving`.
    pub open spec fn settled(self) -> AnimationState {
        AnimationState { facing: self.facing, moving: self.moving, was_moving: self.moving }
    }
}

/// The movement step. Reads the held keys, updates `anim` and returns the
/// direction to move in, one unit or none along each axis, not normalised.
pub fn move_player(keys: ArrowKeys, anim: &mut AnimationState) -> (direction: (i32, i32))
    ensures
        direction.0 == keys.dx(),
        direction.1 == keys.dy(),
        *final(anim) == old(anim).steered(keys),
{
    let mut dx: i32 = 0;
    let mut dy: i32 = 0;
    if keys.left {
        dx = dx - 1;
    }
    if keys.right {
        dx = dx + 1;
    }
    if keys.up {
        dy = dy + 1;
    }
    if keys.down {
        dy = dy - 1;
    }
    if dx != 0 || dy != 0 {
        anim.moving = true;
        anim.facing = dominant_facing(dx, dy);
    } else {
        anim.moving = false;
    }
    (dx, dy)
}

/// Whether frame `index` lies in the row that shows `facing`.
pub open spec fn in_row(facing: Facing, index: nat) -> bool {
    index / (MAX_FRAMES_PER_ANIMATION as nat) == facing.row()
}

/// Column the walk cycle stands at: the column of `index` where the index
/// lies in the facing's row, and the first column where it does not.
pub open spec fn shown_column(facing: Facing, index: nat) -> nat {
    if in_row(facing, index) {
        index % (MAX_FRAMES_PER_ANIMATION as nat)
    } else {
        0
    }
}

/// The column after `column` in the cycle.
pub open spec fn next_column(column: nat) -> nat {
    (column + 1) % (MAX_FRAMES_PER_ANIMATION as nat)
}

/// The timer as the animation step sets out with it: cleared where the
/// frame lies outside the facing's row, as it is otherwise.
pub open spec fn timer_before(anim: AnimationState, timer: FrameTimer, index: nat) -> FrameTimer {
    if in_row(anim.facing, index) {
        timer
    } else {
        timer.cleared()
    }
}

/// The timer after one animation step. A frame outside the facing's row
/// clears it first. Then continued movement ticks it; movement that starts or
/// stops clears it; standing still leaves it alone.
pub open spec fn timer_after(
    anim: AnimationState,
    timer: FrameTimer,
    index: nat,
    delta_nanos: u64,
) -> FrameTimer {
    let base = timer_before(anim, timer, index);
    if anim.moving && anim.was_moving {
        base.ticked(delta_nanos)
    } else if anim.moving || anim.was_moving {
        base.cleared()
    } else {
        base
    }
}

/// Whether one animation step moves the cycle on by a column: at once when
/// movement starts, and while it continues whenever the time gathered with
/// this frame's reaches the timer's period.
pub open spec fn advances(
    anim: AnimationState,
    timer: FrameTimer,
    index: nat,
    delta_nanos: u64,
) -> bool {
    let base = timer_before(anim, timer, index);
    anim.moving && (!anim.was_moving || base.elapsed_nanos + delta_nanos >= base.period_nanos)
}

/// The frame index after one animation step: always in the facing's row, at
/// the shown column or, where the step advances, at the one after it.
pub open spec fn index_after(
    anim: AnimationState,
    timer: FrameTimer,
    index: nat,
    delta_nanos: u64,
) -> nat {
    let column = shown_column(anim.facing, index);
    anim.facing.row_start() + if advances(anim, timer, index, delta_nanos) {
        next_column(column)
    } else {
        column
    }
}

/// The animation step. Given the frame `index` on screen and the time since
/// the last frame, returns the frame to show next, brings `timer` up to date
/// and records in `anim` that this frame's `moving` has been seen.
pub fn animate_player(
    anim: &mut AnimationState,
    timer: &mut FrameTimer,
    index: usize,
    delta_nanos: u64,
) -> (next: usize)
    ensures
        next == index_after(*old(anim), *old(timer), index as nat, delta_nanos),
        *final(timer) == timer_after(*old(anim), *old(timer), index as nat, delta_nanos),
        *final(anim) == old(anim).settled(),
        in_row(old(anim).facing, next as nat),
        next < ANIMATION_COUNT * MAX_FRAMES_PER_ANIMATION,
{
    let target_row = row_zero_based(anim.facing);
    let row_start = row_start_index(anim.facing);
    let mut current_col = index % MAX_FRAMES_PER_ANIMATION;
    let current_row = index / MAX_FRAMES_PER_ANIMATION;
    let mut next = index;

    if current_row != target_row {
        next = row_start;
        current_col = 0;
        timer.reset();
    }
    let just_started = anim.moving && !anim.was_moving;
    let just_stopped = !anim.moving && anim.was_moving;

    if anim.moving {
        if just_started {
            next = row_start + (current_col + 1) % MAX_FRAMES_PER_ANIMATION;
            timer.reset();
        } else {
            timer.tick(delta_nanos);
            if timer.is_finished() {
                next = row_start + (current_col + 1) % MAX_FRAMES_PER_ANIMATION;
            }
        }
    } else if just_stopped {
        timer.reset();
    }
    anim.was_moving = anim.moving;
    next
}

/// A frame outside the facing's row is snapped into it with the column set
/// back: a step that does not advance ends exactly on the first frame of the
/// row, and one that advances ends on the frame after it. A character that
/// does not move never advances.
pub proof fn lemma_row_mismatch_snaps_to_row_start(
    anim: AnimationState,
    timer: FrameTimer,
    index: nat,
    delta_nanos: u64,
)
    requires
        !in_row(anim.facing, index),
    ensures
        shown_column(anim.facing, index) == 0,
        !advances(anim, timer, index, delta_nanos) ==> index_after(
            anim,
            timer,
            index,
            delta_nanos,
        ) == anim.facing.row() * MAX_FRAMES_PER_ANIMATION,
        advances(anim, timer, index, delta_nanos) ==> index_after(anim, timer, index, delta_nanos)
            == anim.facing.row() * MAX_FRAMES_PER_ANIMATION + 1,
        !anim.moving ==> !advances(anim, timer, index, delta_nanos),
        !(anim.moving && anim.was_moving) ==> timer_after(anim, timer, index, delta_nanos)
            == timer.cleared(),
{
}

/// Movement that starts moves the cycle on by exactly one column at once and
/// clears the timer, whatever the timer held and however much time passed.
pub proof fn lemma_start_of_movement_advances_one_frame(
    anim: AnimationState,
    timer: FrameTimer,
    index: nat,
    delta_nanos: u64,
)
    requires
        anim.moving,
        !anim.was_moving,
    ensures
        advances(anim, timer, index, delta_nanos),
        index_after(anim, timer, index, delta_nanos) == anim.facing.row_start() + next_column(
            shown_column(anim.facing, index),
        ),
        timer_after(anim, timer, index, delta_nanos) == timer.cleared(),
{
}

/// Movement that continues moves the cycle on by one column exactly when
/// the time gathered with this frame's reaches the timer's period, however
/// many periods the frame spans; the timer keeps what is left over. Short of
/// the period the frame stays and the time is gathered.
pub proof fn lemma_continued_movement_follows_the_interval(
    anim: AnimationState,
    timer: FrameTimer,
    index: nat,
    delta_nanos: u64,
)
    requires
        anim.moving,
        anim.was_moving,
        in_row(anim.facing, index),
    ensures
        timer.elapsed_nanos + delta_nanos >= timer.period_nanos ==> index_after(
            anim,
            timer,
            index,
            delta_nanos,
        ) == anim.facing.row_start() + next_column(index % (MAX_FRAMES_PER_ANIMATION as nat)),
        timer.elapsed_nanos + delta_nanos >= timer.period_nanos && timer.period_nanos > 0
            ==> timer_after(anim, timer, index, delta_nanos).elapsed_nanos == (timer.elapsed_nanos
            + delta_nanos) % (timer.period_nanos as int),
        timer.elapsed_nanos + delta_nanos < timer.period_nanos ==> index_after(
            anim,
            timer,
            index,
            delta_nanos,
        ) == index && timer_after(anim, timer, index, delta_nanos).elapsed_nanos
            == timer.elapsed_nanos + delta_nanos,
        timer_after(anim, timer, index, delta_nanos).fired() == (timer.elapsed_nanos + delta_nanos
            >= timer.period_nanos),
{
    let total = timer.elapsed_nanos + delta_nanos;
    let period = timer.period_nanos as int;
    if total < period {
        assert(total % period == total) by (nonlinear_arith)
            requires
                0 <= total < period,
        ;
    }
}

/// Movement that stops never moves the cycle: the step ends on the column
/// that was shown and clears the timer. A frame in the facing's row stays
/// exactly as it is.
pub proof fn lemma_stop_of_movement_keeps_frame(
    anim: AnimationState,
    timer: FrameTimer,
    index: nat,
    delta_nanos: u64,
)
    requires
        !anim.moving,
        anim.was_moving,
    ensures
        index_after(anim, timer, index, delta_nanos) % (MAX_FRAMES_PER_ANIMATION as nat)
            == shown_column(anim.facing, index),
        in_row(anim.facing, index) ==> index_after(anim, timer, index, delta_nanos) == index,
        timer_after(anim, timer, index, delta_nanos) == timer.cleared(),
{
}

/// A character that stands still on a frame of its facing's row is left
/// untouched: frame and timer stay as they are.
pub proof fn lemma_idle_changes_nothing(
    anim: AnimationState,
    timer: FrameTimer,
    index: nat,
    delta_nanos: u64,
)
    requires
        !anim.moving,
        !anim.was_moving,
        in_row(anim.facing, index),
    ensures
        index_after(anim, timer, index, delta_nanos) == index,
        timer_after(anim, timer, index, delta_nanos) == timer,
{
}

/// What one frame hands to the animation step: the facing and the movement
/// flag that the movement step left behind, and the time since the frame
/// before.
pub struct Advance {
    pub facing: Facing,
    pub moving: bool,
    pub delta_nanos: u64,
}

/// What the animation carries from one frame to the next.
pub struct Walk {
    pub was_moving: bool,
    pub timer: FrameTimer,
    pub index: nat,
}

impl Walk {
    /// The walk after one animation step.
    pub open spec fn step(self, advance: Advance) -> Walk {
        let anim = AnimationState {
            facing: advance.facing,
            moving: advance.moving,
            was_moving: self.was_moving,
        };
        Walk {
            was_moving: advance.moving,
            timer: timer_after(anim, self.timer, self.index, advance.delta_nanos),
            index: index_after(anim, self.timer, self.index, advance.delta_nanos),
        }
    }

    /// The walk after a run of animation steps, first to last.
    pub open spec fn run(self, advances: Seq<Advance>) -> Walk
        decreases advances.len(),
    {
        if advances.len() == 0 {
            self
        } else {
            self.run(advances.drop_last()).step(advances.last())
        }
    }
}

/// After any run of animation steps, from any start, the frame lies in the
/// row of the facing that the last step saw: its column never leaves the
/// cycle, and the index never leaves the sprite grid.
pub proof fn lemma_column_stays_in_cycle(start: Walk, advances: Seq<Advance>)
    requires
        advances.len() > 0,
    ensures
        in_row(advances.last().facing, start.run(advances).index),
        advances.last().facing.row_start() <= start.run(advances).index
            < advances.last().facing.row_start() + MAX_FRAMES_PER_ANIMATION,
        start.run(advances).index < ANIMATION_COUNT * MAX_FRAMES_PER_ANIMATION,
        start.run(advances).was_moving == advances.last().moving,
        start.run(advances).timer.period_nanos == start.timer.period_nanos,
    decreases advances.len(),
{
    let before = start.run(advances.drop_last());
    if advances.len() > 1 {
        lemma_column_stays_in_cycle(start, advances.drop_last());
    }
    assert(before.timer.period_nanos == start.timer.period_nanos);
}

} // verus!
