use vstd::prelude::*;
use crate::utils::random_choice;

verus! {

/// The speed the pick starts a lock with, in hundredths of a radian per second.
pub const PICK_SPEED: u32 = 400;

/// How much faster the pick turns after each popped dot, in hundredths of a
/// radian per second.
pub const SPEED_STEP: u32 = 20;

/// The way the pick turns: a positive sign makes its angle grow, a negative
/// one makes it shrink.
#[derive(Clone, Copy, Debug, PartialEq, Eq, Structural)]
pub struct Direction(pub i32);

impl Direction {
    /// Turns the other way.
    pub fn negate(&mut self)
        requires
            old(self).0 != i32::MIN,
        ensures
            final(self).0 == -old(self).0,
    {
        self.0 = -self.0;
    }
}

/// A random direction for a new pick: either way, with a coin.
pub fn random_direction() -> (d: Direction)
    ensures
        d.0 == 1 || d.0 == -1,
{
    let options: Vec<i32> = vec![1, -1];
    let picked = *random_choice(options.as_slice());
    Direction(picked)
}

/// What a press (or a silent exit from the dot) amounts to.
#[derive(Clone, Copy, Debug, PartialEq, Eq, Structural)]
pub enum PickEvent {
    /// Nothing happened.
    Nothing,
    /// The dot was popped; a star dot scores.
    Hit { should_score: bool },
    /// The player clicked beside the dot, or let the pick leave it.
    Missed,
}

/// The pick's state apart from its angle: how fast and which way it turns,
/// and its bookkeeping of the overlap with the dot.
#[derive(Clone, Copy, Debug, PartialEq, Eq, Structural)]
pub struct Trigger {
    /// Hundredths of a radian per second.
    pub speed: u32,
    pub direction: Direction,
    /// The pick overlaps the dot.
    pub inside_dot: bool,
    /// The pick left the dot without a click; a miss is pending.
    pub exited_dot: bool,
    /// The dot was clicked during the current overlap.
    pub clicked_during_overlap: bool,
}

/// The pick after its overlap with the dot has been measured anew.
pub open spec fn overlap_step(t: Trigger, now_inside: bool) -> Trigger {
    if t.inside_dot && !now_inside {
        Trigger {
            inside_dot: now_inside,
            exited_dot: t.exited_dot || !t.clicked_during_overlap,
            clicked_during_overlap: false,
            ..t
        }
    } else {
        Trigger { inside_dot: now_inside, ..t }
    }
}

/// The speed after a popped dot: one step more, up to the largest `u32`.
pub open spec fn faster(speed: u32) -> u32 {
    if speed + SPEED_STEP <= u32::MAX {
        (speed + SPEED_STEP) as u32
    } else {
        u32::MAX
    }
}

/// The pick and the event after the input of one frame: `pressed` tells
/// whether the player clicked, `dot_is_star` whether the dot scores.
pub open spec fn input_step(t: Trigger, pressed: bool, dot_is_star: bool) -> (Trigger, PickEvent) {
    if t.exited_dot {
        (Trigger { exited_dot: false, ..t }, PickEvent::Missed)
    } else if !pressed {
        (t, PickEvent::Nothing)
    } else if t.inside_dot {
        (
            Trigger {
                speed: faster(t.speed),
                direction: Direction((-t.direction.0) as i32),
                inside_dot: false,
                clicked_during_overlap: true,
                ..t
            },
            PickEvent::Hit { should_score: dot_is_star },
        )
    } else {
        (t, PickEvent::Missed)
    }
}

impl Trigger {
    /// A fresh pick turning the given way at the starting speed.
    pub fn new(direction: Direction) -> (t: Self)
        ensures
            t.speed == PICK_SPEED,
            t.direction == direction,
            !t.inside_dot,
            !t.exited_dot,
            !t.clicked_during_overlap,
    {
        Trigger {
            speed: PICK_SPEED,
            direction,
            inside_dot: false,
            exited_dot: false,
            clicked_during_overlap: false,
        }
    }

    /// A fresh pick for a new lock, turning a random way.
    pub fn spawn() -> (t: Self)
        ensures
            t.speed == PICK_SPEED,
            t.direction.0 == 1 || t.direction.0 == -1,
            !t.inside_dot,
            !t.exited_dot,
            !t.clicked_during_overlap,
    {
        Trigger::new(random_direction())
    }

    /// Records whether the pick overlaps the dot after it moved. Leaving the
    /// dot without having clicked it marks a pending miss; leaving it ends
    /// the overlap's click.
    pub fn update_overlap(&mut self, now_inside: bool)
        ensures
            *final(self) == overlap_step(*old(self), now_inside),
            final(self).inside_dot == now_inside,
            final(self).speed == old(self).speed,
            final(self).direction == old(self).direction,
            old(self).inside_dot && !now_inside ==> final(self).exited_dot == (old(self).exited_dot
                || !old(self).clicked_during_overlap) && !final(self).clicked_during_overlap,
            !(old(self).inside_dot && !now_inside) ==> final(self).exited_dot
                == old(self).exited_dot && final(self).clicked_during_overlap
                == old(self).clicked_during_overlap,
    {
        let was_inside = self.inside_dot;
        self.inside_dot = now_inside;
        if was_inside && !self.inside_dot {
            if !self.clicked_during_overlap {
                self.exited_dot = true;
            }
            self.clicked_during_overlap = false;
        }
    }

    /// Handles one frame of input. A pending miss is reported first; then a
    /// press pops the dot when the pick overlaps it (the pick speeds up and
    /// turns the other way) and is a miss otherwise.
    pub fn check_input(&mut self, pressed: bool, dot_is_star: bool) -> (e: PickEvent)
        requires
            old(self).direction.0 != i32::MIN,
        ensures
            (*final(self), e) == input_step(*old(self), pressed, dot_is_star),
            old(self).exited_dot ==> e == PickEvent::Missed && !final(self).exited_dot
                && final(self).speed == old(self).speed && final(self).direction
                == old(self).direction && final(self).inside_dot == old(self).inside_dot
                && final(self).clicked_during_overlap == old(self).clicked_during_overlap,
            !old(self).exited_dot && !pressed ==> e == PickEvent::Nothing && *final(self)
                == *old(self),
            !old(self).exited_dot && pressed && !old(self).inside_dot ==> e == PickEvent::Missed
                && *final(self) == *old(self),
            !old(self).exited_dot && pressed && old(self).inside_dot ==> {
                &&& e == (PickEvent::Hit { should_score: dot_is_star })
                &&& final(self).speed == (if old(self).speed + SPEED_STEP <= u32::MAX {
                    old(self).speed + SPEED_STEP
                } else {
                    u32::MAX as int
                })
                &&& final(self).direction.0 == -old(self).direction.0
                &&& !final(self).inside_dot
                &&& final(self).clicked_during_overlap
                &&& final(self).exited_dot == old(self).exited_dot
            },
    {
        if self.exited_dot {
            self.exited_dot = false;
            return PickEvent::Missed;
        }
        if !pressed {
            return PickEvent::Nothing;
        }
        if self.inside_dot {
            self.clicked_during_overlap = true;
            self.speed = self.speed.saturating_add(SPEED_STEP);
            self.inside_dot = false;
            self.direction.negate();
            PickEvent::Hit { should_score: dot_is_star }
        } else {
            PickEvent::Missed
        }
    }
}

/// Measuring the overlap records exactly the measured value, whatever the
/// other flags say; only leaving the dot (inside before, outside now) touches
/// the pending miss and the click, and nothing else of the pick changes.
pub proof fn lemma_overlap_is_measured(t: Trigger, now_inside: bool)
    ensures
        overlap_step(t, now_inside).inside_dot == now_inside,
        overlap_step(t, now_inside).speed == t.speed,
        overlap_step(t, now_inside).direction == t.direction,
        !(t.inside_dot && !now_inside) ==> overlap_step(t, now_inside).exited_dot == t.exited_dot
            && overlap_step(t, now_inside).clicked_during_overlap == t.clicked_during_overlap,
        t.inside_dot && !now_inside ==> !overlap_step(t, now_inside).clicked_during_overlap
            && overlap_step(t, now_inside).exited_dot == (t.exited_dot
            || !t.clicked_during_overlap),
{
}

/// A pop speeds the pick up by one step (up to the largest `u32`) and turns
/// it the other way, whichever way it turned and whatever kind of dot it was.
pub proof fn lemma_hit_speeds_up_and_turns(t: Trigger, dot_is_star: bool)
    requires
        t.inside_dot,
        !t.exited_dot,
        t.direction.0 != i32::MIN,
    ensures
        input_step(t, true, dot_is_star).1 == (PickEvent::Hit { should_score: dot_is_star }),
        input_step(t, true, dot_is_star).0.speed == (if t.speed + SPEED_STEP <= u32::MAX {
            t.speed + SPEED_STEP
        } else {
            u32::MAX as int
        }),
        input_step(t, true, dot_is_star).0.speed >= t.speed,
        input_step(t, true, dot_is_star).0.direction.0 == -t.direction.0,
{
}

/// A press with the pick off the dot and no miss pending is a miss, and the
/// pick stays as it was, whatever kind of dot it is.
pub proof fn lemma_press_beside_is_a_miss(t: Trigger, dot_is_star: bool)
    requires
        !t.inside_dot,
        !t.exited_dot,
    ensures
        input_step(t, true, dot_is_star) == (t, PickEvent::Missed),
{
}

/// A pop ends the overlap: after it the pick is off the dot with the click
/// recorded, so a second press before the overlap is measured again is a
/// miss. One dot is never popped twice.
pub proof fn lemma_hit_ends_overlap(t: Trigger, first_star: bool, second_pressed: bool, second_star: bool)
    ensures
        input_step(t, true, first_star).1 is Hit ==> {
            let t1 = input_step(t, true, first_star).0;
            &&& !t1.inside_dot
            &&& t1.clicked_during_overlap
            &&& !(input_step(t1, second_pressed, second_star).1 is Hit)
        },
{
}

/// After a pop and the pick leaving that dot, reaching the next dot makes a
/// press pop it in turn: no earlier click keeps a dot from being popped.
pub proof fn lemma_next_dot_can_be_popped(t: Trigger, star: bool, next_star: bool)
    requires
        t.inside_dot,
        !t.exited_dot,
    ensures
        ({
            let t1 = input_step(t, true, star).0;
            let t2 = overlap_step(t1, false);
            let t3 = overlap_step(t2, true);
            &&& t3.inside_dot
            &&& input_step(t3, true, next_star).1 == (PickEvent::Hit { should_score: next_star })
        }),
{
}

/// Turning the other way twice turns the original way.
pub proof fn lemma_negate_involution(d: i32)
    requires
        d != i32::MIN,
    ensures
        -((-d) as i32) == d,
{
}

/// A pick that leaves the dot without a click reports exactly one miss at the
/// next input, pressed or not, and then nothing more is pending.
pub proof fn lemma_silent_exit_is_a_miss(t: Trigger, pressed: bool, dot_is_star: bool)
    requires
        t.inside_dot,
        !t.clicked_during_overlap,
    ensures
        input_step(overlap_step(t, false), pressed, dot_is_star).1 == PickEvent::Missed,
        !input_step(overlap_step(t, false), pressed, dot_is_star).0.exited_dot,
{
}

/// A press while the pick overlaps the dot pops it, reverses the pick, and
/// leaves no miss behind when the pick moves on, wherever it goes.
pub proof fn lemma_hit_leaves_no_miss(
    t: Trigger,
    dot_is_star: bool,
    now_inside: bool,
    pressed: bool,
    next_is_star: bool,
)
    requires
        t.inside_dot,
        !t.exited_dot,
        t.direction.0 != i32::MIN,
    ensures
        ({
            let (t1, e1) = input_step(t, true, dot_is_star);
            let t2 = overlap_step(t1, now_inside);
            &&& e1 == PickEvent::Hit { should_score: dot_is_star }
            &&& t1.direction.0 == -t.direction.0
            &&& !t2.exited_dot
            &&& !pressed ==> input_step(t2, pressed, next_is_star).1 == PickEvent::Nothing
        }),
{
}

/// Without a press and with nothing pending, a frame changes nothing.
pub proof fn lemma_idle_frame(t: Trigger, dot_is_star: bool)
    requires
        !t.exited_dot,
    ensures
        input_step(t, false, dot_is_star) == (t, PickEvent::Nothing),
{
}

} // verus!
