use vstd::prelude::*;

verus! {

/// The sound effects a popped dot can play.
#[derive(Clone, Copy, Debug, PartialEq, Eq, Structural)]
pub enum HitSound {
    StarPop,
    DotPop,
}

/// The sound of a popped dot: a star pops with its own sound.
pub fn hit_sound(should_score: bool) -> (s: HitSound)
    ensures
        s == if should_score {
            HitSound::StarPop
        } else {
            HitSound::DotPop
        },
{
    if should_score {
        HitSound::StarPop
    } else {
        HitSound::DotPop
    }
}

} // verus!
