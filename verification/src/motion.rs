//! A trial of the animations of a layout: a card that grows, and chips that
//! change places.

use vstd::prelude::*;

use crate::model;
use crate::text;

verus! {

/// The mode of a trial: the one that the environment names, else the one in which
/// the user tries by hand.
pub fn motion_mode(value: Option<String>) -> (r: String)
    ensures
        r@ == (match value {
            Some(mode) => mode@,
            None => "manual"@,
        }),
{
    match value {
        Some(mode) => mode,
        None => "manual".to_owned(),
    }
}

/// Whether changes of size are animated in this mode.
pub fn animate_size(mode: &str) -> (r: bool)
    ensures
        r == (mode@ == "size"@ || mode@ == "both"@ || mode@ == "manual"@),
{
    text::same(mode, "size") || text::same(mode, "both") || text::same(mode, "manual")
}

/// Whether changes of place are animated in this mode.
pub fn animate_offset(mode: &str) -> (r: bool)
    ensures
        r == (mode@ == "offset"@ || mode@ == "both"@ || mode@ == "manual"@),
{
    text::same(mode, "offset") || text::same(mode, "both") || text::same(mode, "manual")
}

/// A step of a trial that runs by itself.
#[derive(Debug, Clone, Copy, PartialEq, Eq, Structural)]
pub enum MotionStep {
    Grow,
    Shrink,
    Flip,
    FlipBack,
    /// The trial is over; nothing went wrong.
    Exit,
}

/// The steps of a trial with their times in milliseconds; none if the user tries
/// by hand.
pub open spec fn schedule(mode: Seq<char>) -> Seq<(u64, MotionStep)> {
    if mode == "manual"@ {
        Seq::empty()
    } else {
        seq![
            (1_000u64, MotionStep::Grow),
            (2_500u64, MotionStep::Shrink),
            (4_000u64, MotionStep::Flip),
            (5_500u64, MotionStep::FlipBack),
            (7_000u64, MotionStep::Exit),
        ]
    }
}

/// The steps of a trial with their times in milliseconds.
pub fn motion_steps(mode: &str) -> (r: Vec<(u64, MotionStep)>)
    ensures
        r@ == schedule(mode@),
{
    let mut out: Vec<(u64, MotionStep)> = Vec::new();
    if !text::same(mode, "manual") {
        out.push((1_000, MotionStep::Grow));
        out.push((2_500, MotionStep::Shrink));
        out.push((4_000, MotionStep::Flip));
        out.push((5_500, MotionStep::FlipBack));
        out.push((7_000, MotionStep::Exit));
    }
    assert(out@ =~= schedule(mode@));
    out
}

/// What is moved.
#[derive(Debug, Clone, Copy, PartialEq, Eq, Structural)]
pub struct Motion {
    /// Whether the card is large.
    pub big: bool,
    /// Whether the chips stand in the other order.
    pub flipped: bool,
}

/// What is moved after a step.
pub open spec fn after_step(motion: Motion, step: MotionStep) -> Motion {
    match step {
        MotionStep::Grow => Motion { big: true, ..motion },
        MotionStep::Shrink => Motion { big: false, ..motion },
        MotionStep::Flip => Motion { flipped: true, ..motion },
        MotionStep::FlipBack => Motion { flipped: false, ..motion },
        MotionStep::Exit => motion,
    }
}

/// What is moved after some steps.
pub open spec fn after_steps(motion: Motion, steps: Seq<(u64, MotionStep)>) -> Motion
    decreases steps.len(),
{
    if steps.len() == 0 {
        motion
    } else {
        after_step(after_steps(motion, steps.drop_last()), steps.last().1)
    }
}

impl Motion {
    /// The start: a small card, the chips in order.
    pub fn new() -> (r: Motion)
        ensures
            r == (Motion { big: false, flipped: false }),
    {
        Motion { big: false, flipped: false }
    }

    /// Makes a step. Says whether the trial is over.
    pub fn step(&mut self, step: MotionStep) -> (r: bool)
        ensures
            *final(self) == after_step(*old(self), step),
            r == (step == MotionStep::Exit),
    {
        match step {
            MotionStep::Grow => {
                self.big = true;
                false
            },
            MotionStep::Shrink => {
                self.big = false;
                false
            },
            MotionStep::Flip => {
                self.flipped = true;
                false
            },
            MotionStep::FlipBack => {
                self.flipped = false;
                false
            },
            MotionStep::Exit => true,
        }
    }

    /// Takes over a tap on the card.
    pub fn card_tapped(&mut self)
        ensures
            *final(self) == (Motion { big: !old(self).big, ..*old(self) }),
    {
        self.big = !self.big;
    }

    /// Takes over a tap on the button that changes the order.
    pub fn flip_tapped(&mut self)
        ensures
            *final(self) == (Motion { flipped: !old(self).flipped, ..*old(self) }),
    {
        self.flipped = !self.flipped;
    }

    /// The width and the height of the card, and what it says.
    pub fn card(&self) -> (r: (u32, u32, &'static str))
        ensures
            self.big ==> r.0 == 340 && r.1 == 220 && r.2@ == "大卡片 340×220"@,
            !self.big ==> r.0 == 160 && r.1 == 100 && r.2@ == "小卡片 160×100"@,
    {
        if self.big {
            (340, 220, "大卡片 340×220")
        } else {
            (160, 100, "小卡片 160×100")
        }
    }

    /// What the chips say, from left to right.
    pub fn chip_names(&self) -> (r: Vec<String>)
        ensures
            model::views(r@) == (if self.flipped {
                seq!["丙 · 3"@, "乙 · 2"@, "甲 · 1"@]
            } else {
                seq!["甲 · 1"@, "乙 · 2"@, "丙 · 3"@]
            }),
    {
        let mut out: Vec<String> = Vec::new();
        if self.flipped {
            out.push("丙 · 3".to_owned());
            out.push("乙 · 2".to_owned());
            out.push("甲 · 1".to_owned());
        } else {
            out.push("甲 · 1".to_owned());
            out.push("乙 · 2".to_owned());
            out.push("丙 · 3".to_owned());
        }
        assert(model::views(out@) =~= (if self.flipped {
            seq!["丙 · 3"@, "乙 · 2"@, "甲 · 1"@]
        } else {
            seq!["甲 · 1"@, "乙 · 2"@, "丙 · 3"@]
        }));
        out
    }
}

/// A trial that runs by itself puts everything back, and its times only go on.
pub proof fn trials_leave_things_as_they_were(mode: Seq<char>, motion: Motion)
    requires
        motion == (Motion { big: false, flipped: false }),
    ensures
        after_steps(motion, schedule(mode)) == motion,
        forall|i: int, j: int|
            0 <= i < j < schedule(mode).len() ==> schedule(mode)[i].0 < schedule(mode)[j].0,
{
    let steps = schedule(mode);
    if steps.len() > 0 {
        reveal_with_fuel(after_steps, 6);
        assert(steps.drop_last().last() == steps[3]);
        assert(steps.drop_last().drop_last().last() == steps[2]);
        assert(steps.drop_last().drop_last().drop_last().last() == steps[1]);
        assert(steps.drop_last().drop_last().drop_last().drop_last().last() == steps[0]);
    }
}

/// Each step moves what it names: the card grows and shrinks, the chips change their
/// order and change it back. The last one moves nothing.
pub proof fn steps_move_what_they_name(motion: Motion)
    ensures
        after_step(motion, MotionStep::Grow).big,
        !after_step(motion, MotionStep::Shrink).big,
        after_step(motion, MotionStep::Grow).flipped == motion.flipped,
        after_step(motion, MotionStep::Shrink).flipped == motion.flipped,
        after_step(motion, MotionStep::Flip).flipped,
        !after_step(motion, MotionStep::FlipBack).flipped,
        after_step(motion, MotionStep::Flip).big == motion.big,
        after_step(motion, MotionStep::FlipBack).big == motion.big,
        after_step(motion, MotionStep::Exit) == motion,
{
}

/// A trial by hand has no steps. Any other has them in the order of their times, and
/// ends with the exit.
pub proof fn trials_run_by_the_clock(mode: Seq<char>)
    ensures
        mode == "manual"@ ==> schedule(mode).len() == 0,
        mode != "manual"@ ==> schedule(mode).len() == 5 && schedule(mode).last().1
            == MotionStep::Exit,
        forall|i: int, j: int|
            0 <= i < j < schedule(mode).len() ==> (#[trigger] schedule(mode)[i]).0 < (
            #[trigger] schedule(mode)[j]).0,
{
}

} // verus!
