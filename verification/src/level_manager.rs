use vstd::prelude::*;
use crate::game::{GameProgress, GameState};

verus! {

/// The moves of the game's state machine.
pub open spec fn valid_transition(from: GameState, to: GameState) -> bool {
    ||| from == GameState::Idle && to == GameState::Playing
    ||| from == GameState::Playing && to == GameState::LevelCleared
    ||| from == GameState::Playing && to == GameState::GameOver
    ||| from == GameState::LevelCleared && to == GameState::Resetting
    ||| from == GameState::GameOver && to == GameState::Resetting
    ||| from == GameState::Resetting && to == GameState::Idle
}

/// Level and dots left after one popped dot: the last dot of a level opens
/// the next one, which asks for one dot more.
pub open spec fn after_hit(level: int, hits: int) -> (int, int) {
    if hits == 1 {
        (level + 1, level + 1)
    } else {
        (level, hits - 1)
    }
}

/// Level and dots left after `n` popped dots in a row.
pub open spec fn after_hits(level: int, hits: int, n: nat) -> (int, int)
    decreases n,
{
    if n == 0 {
        (level, hits)
    } else {
        let (l, h) = after_hit(level, hits);
        after_hits(l, h, (n - 1) as nat)
    }
}

/// What a popped dot leads to.
#[derive(Clone, Copy, Debug, PartialEq, Eq, Structural)]
pub struct DotHitOutcome {
    /// A star was scored: the stars text is refreshed and the score saved.
    pub score_changed: bool,
    /// The number the lock shows now: the dots that were left, less this one.
    pub level_text: u32,
    /// The level was cleared: the unlock sound plays and the new level is
    /// saved. Otherwise a new dot is spawned.
    pub level_cleared: bool,
    /// The state to move to, if any.
    pub next_state: Option<GameState>,
}

/// What a miss leads to.
#[derive(Clone, Copy, Debug)]
pub struct DotMissedOutcome {
    pub next_state: GameState,
    /// The prompt shown once the lock has stopped shaking.
    pub prompt: &'static str,
}

/// A dot was popped, during play.
pub fn on_dot_hit(progress: &mut GameProgress, should_score: bool) -> (o: DotHitOutcome)
    requires
        old(progress).spec_hits() >= 1,
        should_score ==> old(progress).spec_score() < u32::MAX,
        old(progress).spec_hits() == 1 ==> old(progress).spec_level() < u32::MAX,
    ensures
        o.score_changed == should_score,
        final(progress).spec_score() == old(progress).spec_score() + if should_score {
            1int
        } else {
            0int
        },
        o.level_text == old(progress).spec_hits() - 1,
        o.level_cleared == (old(progress).spec_hits() == 1),
        o.next_state == if o.level_cleared {
            Some(GameState::LevelCleared)
        } else {
            None::<GameState>
        },
        (final(progress).spec_level() as int, final(progress).spec_hits() as int) == after_hit(
            old(progress).spec_level() as int,
            old(progress).spec_hits() as int,
        ),
        old(progress).wf() ==> final(progress).wf(),
        final(progress).spec_level() >= old(progress).spec_level(),
        o.next_state matches Some(s) ==> valid_transition(GameState::Playing, s),
{
    if should_score {
        progress.score_up();
    }
    progress.decrease_hits();
    let level_text = progress.hits_remaining();
    if level_text == 0 {
        progress.level_up();
        DotHitOutcome {
            score_changed: should_score,
            level_text,
            level_cleared: true,
            next_state: Some(GameState::LevelCleared),
        }
    } else {
        DotHitOutcome {
            score_changed: should_score,
            level_text,
            level_cleared: false,
            next_state: None,
        }
    }
}

/// A dot was missed, during play: the level starts over and the game is over.
pub fn on_dot_missed(progress: &mut GameProgress) -> (o: DotMissedOutcome)
    ensures
        final(progress).spec_hits() == old(progress).spec_level(),
        final(progress).spec_level() == old(progress).spec_level(),
        final(progress).spec_score() == old(progress).spec_score(),
        o.next_state == GameState::GameOver,
        o.prompt@ == "TRY AGAIN"@,
        valid_transition(GameState::Playing, o.next_state),
        old(progress).spec_level() >= 1 ==> final(progress).wf(),
{
    progress.reset();
    let prompt = "TRY AGAIN";
    proof {
        reveal_strlit("TRY AGAIN");
    }
    DotMissedOutcome { next_state: GameState::GameOver, prompt }
}

/// The input that moves the game on from `state`, if any: the state it leads
/// to, and whether it waits for the cooldown after the round's end.
pub fn input_route(state: GameState) -> (r: Option<(GameState, bool)>)
    ensures
        r == match state {
            GameState::Idle => Some((GameState::Playing, false)),
            GameState::LevelCleared => Some((GameState::Resetting, true)),
            GameState::GameOver => Some((GameState::Resetting, true)),
            _ => None::<(GameState, bool)>,
        },
        r matches Some((to, _)) ==> valid_transition(state, to),
{
    match state {
        GameState::Idle => Some((GameState::Playing, false)),
        GameState::LevelCleared => Some((GameState::Resetting, true)),
        GameState::GameOver => Some((GameState::Resetting, true)),
        _ => None,
    }
}

/// Whether an input frame moves the game to `state`: a press does, once the
/// cooldown (when `cooldown` applies) has run out. On a move the prompt is
/// hidden and the cooldown restarted.
pub fn on_input_go_to(state: GameState, cooldown: bool, cooldown_finished: bool, pressed: bool) -> (r:
    Option<GameState>)
    ensures
        r == if (cooldown && !cooldown_finished) || !pressed {
            None::<GameState>
        } else {
            Some(state)
        },
{
    if cooldown {
        if !cooldown_finished {
            return None;
        }
    }
    if !pressed {
        return None;
    }
    Some(state)
}

/// Once the scene has been rebuilt, the game waits for the player again.
pub fn transition_to_idle() -> (s: GameState)
    ensures
        s == GameState::Idle,
        valid_transition(GameState::Resetting, s),
{
    GameState::Idle
}

/// From `hits` dots left, popping `n < hits` dots stays on the level, and
/// popping `hits` dots opens the next level.
pub proof fn lemma_hits_until_cleared(level: int, hits: int, n: nat)
    requires
        1 <= hits,
        n <= hits,
    ensures
        after_hits(level, hits, n) == if n < hits {
            (level, hits - n)
        } else {
            (level + 1, level + 1)
        },
    decreases n,
{
    if n > 0 {
        if hits == 1 {
            assert(after_hits(level + 1, level + 1, 0) == (level + 1, level + 1));
        } else {
            lemma_hits_until_cleared(level, hits - 1, (n - 1) as nat);
        }
    }
}

/// A level `level` is cleared by exactly `level` dots in a row: fewer leave
/// the level on, with one dot less to go for each.
pub proof fn lemma_level_takes_level_hits(level: int, n: nat)
    requires
        1 <= level,
        n <= level,
    ensures
        n < level ==> after_hits(level, level, n) == (level, level - n),
        n == level ==> after_hits(level, level, n) == (level + 1, level + 1),
{
    lemma_hits_until_cleared(level, level, n);
}

/// Every round follows the cycle Idle, Playing, LevelCleared or GameOver,
/// Resetting, Idle: from each state the game moves to its successors only,
/// and it can always move on.
pub proof fn lemma_state_cycle(from: GameState, to: GameState)
    ensures
        valid_transition(from, to) ==> from != to,
        valid_transition(from, to) && from == GameState::Resetting ==> to == GameState::Idle,
        valid_transition(from, to) && from == GameState::Idle ==> to == GameState::Playing,
        valid_transition(from, to) && (from == GameState::LevelCleared || from
            == GameState::GameOver) ==> to == GameState::Resetting,
        exists|next: GameState| valid_transition(from, next),
{
    match from {
        GameState::Idle => assert(valid_transition(from, GameState::Playing)),
        GameState::Playing => assert(valid_transition(from, GameState::GameOver)),
        GameState::LevelCleared => assert(valid_transition(from, GameState::Resetting)),
        GameState::GameOver => assert(valid_transition(from, GameState::Resetting)),
        GameState::Resetting => assert(valid_transition(from, GameState::Idle)),
    }
}

} // verus!
