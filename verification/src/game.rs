use vstd::prelude::*;
use crate::utils::random_choice;

verus! {

/// The phases of a round.
#[derive(Clone, Copy, Debug, PartialEq, Eq, Structural, Hash)]
pub enum GameState {
    Idle,
    Playing,
    LevelCleared,
    GameOver,
    Resetting,
}

impl Default for GameState {
    fn default() -> (s: Self)
        ensures
            s == GameState::Idle,
    {
        GameState::Idle
    }
}

/// A colour as 8-bit sRGB channels.
#[derive(Clone, Copy, Debug, PartialEq, Eq, Structural, Hash)]
pub struct Rgb {
    pub r: u8,
    pub g: u8,
    pub b: u8,
}

/// The backgrounds a new lock is shown on.
pub open spec fn clear_colors() -> Seq<Rgb> {
    seq![
        Rgb { r: 56, g: 73, b: 101 },
        Rgb { r: 255, g: 196, b: 155 },
        Rgb { r: 137, g: 183, b: 194 },
        Rgb { r: 168, g: 191, b: 138 },
        Rgb { r: 170, g: 136, b: 187 },
    ]
}

/// The backgrounds a new lock is shown on, in order.
pub fn clear_colors_list() -> (v: Vec<Rgb>)
    ensures
        v@ == clear_colors(),
{
    let v = vec![
        Rgb { r: 56, g: 73, b: 101 },
        Rgb { r: 255, g: 196, b: 155 },
        Rgb { r: 137, g: 183, b: 194 },
        Rgb { r: 168, g: 191, b: 138 },
        Rgb { r: 170, g: 136, b: 187 },
    ];
    assert(v@ =~= clear_colors());
    v
}

/// The background shown after a miss.
pub fn clear_color_miss() -> (c: Rgb)
    ensures
        c == (Rgb { r: 199, g: 78, b: 81 }),
{
    Rgb { r: 199, g: 78, b: 81 }
}

/// The background the window opens with.
pub fn initial_clear_color() -> (c: Rgb)
    ensures
        c == (Rgb { r: 170, g: 136, b: 187 }),
{
    Rgb { r: 170, g: 136, b: 187 }
}

/// A random background for a freshly spawned lock: always one of
/// `clear_colors()`.
pub fn pick_clear_color() -> (c: Rgb)
    ensures
        clear_colors().contains(c),
{
    let colors = clear_colors_list();
    let c = *random_choice(colors.as_slice());
    c
}

/// The player's progress: the level reached, the stars collected, and how
/// many dots are still to be popped to clear the level.
pub struct GameProgress {
    level: u32,
    score: u32,
    hits_remaining: u32,
}

impl GameProgress {
    pub closed spec fn spec_level(&self) -> u32 {
        self.level
    }

    pub closed spec fn spec_score(&self) -> u32 {
        self.score
    }

    pub closed spec fn spec_hits(&self) -> u32 {
        self.hits_remaining
    }

    /// Well-formed progress: at least one dot is left to pop, and never more
    /// than the level asks for.
    pub open spec fn wf(&self) -> bool {
        1 <= self.spec_hits() && self.spec_hits() <= self.spec_level()
    }

    /// Progress restored from what was saved: the level (1 when none was
    /// saved) and the score (0 when none was saved); the level starts afresh.
    pub fn new(saved_level: Option<u32>, saved_score: Option<u32>) -> (p: Self)
        ensures
            p.spec_level() == match saved_level {
                Some(l) => l,
                None => 1u32,
            },
            p.spec_score() == match saved_score {
                Some(s) => s,
                None => 0u32,
            },
            p.spec_hits() == p.spec_level(),
            saved_level != Some(0u32) ==> p.wf(),
    {
        let level = match saved_level {
            Some(l) => l,
            None => 1,
        };
        let score = match saved_score {
            Some(s) => s,
            None => 0,
        };
        GameProgress { level, score, hits_remaining: level }
    }

    pub fn level(&self) -> (r: u32)
        ensures
            r == self.spec_level(),
    {
        self.level
    }

    pub fn score(&self) -> (r: u32)
        ensures
            r == self.spec_score(),
    {
        self.score
    }

    pub fn hits_remaining(&self) -> (r: u32)
        ensures
            r == self.spec_hits(),
    {
        self.hits_remaining
    }

    /// One dot fewer to pop.
    pub fn decrease_hits(&mut self)
        requires
            old(self).spec_hits() > 0,
        ensures
            final(self).spec_hits() == old(self).spec_hits() - 1,
            final(self).spec_level() == old(self).spec_level(),
            final(self).spec_score() == old(self).spec_score(),
    {
        self.hits_remaining = self.hits_remaining - 1;
    }

    /// Moves on to the next level, which asks for one dot more. The caller
    /// saves the new level.
    pub fn level_up(&mut self)
        requires
            old(self).spec_level() < u32::MAX,
        ensures
            final(self).spec_level() == old(self).spec_level() + 1,
            final(self).spec_hits() == final(self).spec_level(),
            final(self).spec_score() == old(self).spec_score(),
    {
        self.level = self.level + 1;
        self.hits_remaining = self.level;
    }

    /// One star more. The caller saves the new score.
    pub fn score_up(&mut self)
        requires
            old(self).spec_score() < u32::MAX,
        ensures
            final(self).spec_score() == old(self).spec_score() + 1,
            final(self).spec_level() == old(self).spec_level(),
            final(self).spec_hits() == old(self).spec_hits(),
    {
        self.score = self.score + 1;
    }

    /// Starts the level over: every dot of it has to be popped again.
    pub fn reset(&mut self)
        ensures
            final(self).spec_hits() == old(self).spec_level(),
            final(self).spec_level() == old(self).spec_level(),
            final(self).spec_score() == old(self).spec_score(),
    {
        self.hits_remaining = self.level;
    }
}

} // verus!
