use rand::seq::IndexedRandom;
use vstd::prelude::*;

verus! {

/// Picks one element of `items`, uniformly at random, by `choose` of the
/// `rand` crate on the thread-local generator.
///
/// Trusted: `IndexedRandom::choose` returns `None` exactly on an empty slice,
/// and otherwise a reference to one of the slice's elements. Which element
/// comes back is left open: it rests on chance. The thread-local generator
/// panics when the operating system's random source cannot be opened, which
/// no argument decides and no clause states.
#[verifier::external_body]
fn choose_element<T>(items: &[T]) -> (r: Option<&T>)
    ensures
        r is None <==> items@.len() == 0,
        r matches Some(x) ==> exists|i: int| 0 <= i < items@.len() && items@[i] == *x,
{
    items.choose(&mut rand::rng())
}

/// A fair coin from the thread-local generator: `rand::random::<bool>()`.
///
/// Trusted, with no claim on the result: either value may come back. Like
/// `choose_element`, it panics only when the operating system's random source
/// cannot be opened.
#[verifier::external_body]
fn random_bool() -> bool {
    rand::random::<bool>()
}

/// Returns a random element from a slice.
pub fn random_choice<T>(items: &[T]) -> (r: &T)
    requires
        items@.len() > 0,
    ensures
        exists|i: int| 0 <= i < items@.len() && items@[i] == *r,
{
    let picked = choose_element(items);
    picked.unwrap()
}

/// Whether a newly spawned dot is a star (worth a point), decided by a coin.
pub fn get_point_star() -> bool {
    random_bool()
}

/// The two quadrants (numbered 0 to 3 counter-clockwise from angle 0) in which
/// a dot may be placed when the pick is in quadrant `quad`: the "clockwise"
/// options when `clockwise` holds, the "anticlockwise" ones otherwise.
pub open spec fn opposite_quads(quad: int, clockwise: bool) -> (int, int) {
    if clockwise {
        if quad == 0 {
            (3, 2)
        } else if quad == 1 {
            (0, 3)
        } else if quad == 2 {
            (0, 1)
        } else {
            (1, 2)
        }
    } else {
        if quad == 0 {
            (1, 2)
        } else if quad == 1 {
            (2, 3)
        } else if quad == 2 {
            (0, 3)
        } else {
            (0, 1)
        }
    }
}

/// How many quadrants the pick has to travel from quadrant `from` to reach
/// quadrant `to`, when it moves towards growing angles (`growing`) or towards
/// shrinking ones.
pub open spec fn steps_ahead(from: int, to: int, growing: bool) -> int {
    if growing {
        (to - from) % 4
    } else {
        (from - to) % 4
    }
}

/// The pair of allowed quadrants for a pick in quadrant `quad_index`.
pub fn allowed_quadrants(quad_index: usize, clockwise: bool) -> (r: (usize, usize))
    requires
        quad_index < 4,
    ensures
        r.0 as int == opposite_quads(quad_index as int, clockwise).0,
        r.1 as int == opposite_quads(quad_index as int, clockwise).1,
{
    if clockwise {
        match quad_index {
            0 => (3, 2),
            1 => (0, 3),
            2 => (0, 1),
            _ => (1, 2),
        }
    } else {
        match quad_index {
            0 => (1, 2),
            1 => (2, 3),
            2 => (0, 3),
            _ => (0, 1),
        }
    }
}

/// Picks the first allowed quadrant, or the second one when `second` holds.
pub fn choose_quadrant(quad_index: usize, clockwise: bool, second: bool) -> (r: usize)
    requires
        quad_index < 4,
    ensures
        r as int == if second {
            opposite_quads(quad_index as int, clockwise).1
        } else {
            opposite_quads(quad_index as int, clockwise).0
        },
{
    let allowed = allowed_quadrants(quad_index, clockwise);
    if second {
        allowed.1
    } else {
        allowed.0
    }
}

/// The quadrant in which the next dot goes, for a pick in quadrant
/// `quad_index` whose direction is `direction` (positive: "clockwise").
/// One of the two allowed quadrants is picked by a coin.
pub fn get_safe_dot_quadrant(quad_index: usize, direction: i32) -> (r: usize)
    requires
        quad_index < 4,
    ensures
        r < 4,
        r as int == opposite_quads(quad_index as int, direction > 0).0
            || r as int == opposite_quads(quad_index as int, direction > 0).1,
        steps_ahead(quad_index as int, r as int, direction > 0) == 2
            || steps_ahead(quad_index as int, r as int, direction > 0) == 3,
{
    let second = random_bool();
    let r = choose_quadrant(quad_index, direction > 0, second);
    proof {
        lemma_safe_quadrant_ahead(quad_index as int, direction > 0);
    }
    r
}

/// Every quadrant that a dot may be placed in lies two or three quadrants
/// ahead of the pick along the way it travels: never in the pick's own
/// quadrant, nor in the next one it enters. (A positive direction makes the
/// pick's angle grow.)
pub proof fn lemma_safe_quadrant_ahead(quad: int, growing: bool)
    requires
        0 <= quad < 4,
    ensures
        steps_ahead(quad, opposite_quads(quad, growing).0, growing) == 2
            || steps_ahead(quad, opposite_quads(quad, growing).0, growing) == 3,
        steps_ahead(quad, opposite_quads(quad, growing).1, growing) == 2
            || steps_ahead(quad, opposite_quads(quad, growing).1, growing) == 3,
        opposite_quads(quad, growing).0 != opposite_quads(quad, growing).1,
        0 <= opposite_quads(quad, growing).0 < 4,
        0 <= opposite_quads(quad, growing).1 < 4,
{
}

} // verus!
