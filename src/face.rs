use vstd::prelude::*;
use vstd::arithmetic::div_mod::{lemma_add_mod_noop_right, lemma_small_mod};

verus! {

/// What the button currently shows: one of the two built-in faces, or the
/// custom image at a position of the list of custom faces.
#[derive(Clone, Copy, Debug, PartialEq, Eq, Structural)]
pub enum ButtonFace {
    Top,
    Bottom,
    Custom(usize),
}

impl ButtonFace {
    /// A face is valid for a list of `n` custom faces when a custom index
    /// points into that list.
    pub open spec fn valid(self, n: nat) -> bool {
        match self {
            ButtonFace::Custom(i) => i < n,
            _ => true,
        }
    }

    /// The face that follows `self` in the tour
    /// Top, Bottom, Custom(0), ..., Custom(n - 1), Top.
    pub open spec fn next(self, n: nat) -> ButtonFace {
        match self {
            ButtonFace::Top => ButtonFace::Bottom,
            ButtonFace::Bottom => if n == 0 {
                ButtonFace::Top
            } else {
                ButtonFace::Custom(0)
            },
            ButtonFace::Custom(i) => if i + 1 < n {
                ButtonFace::Custom((i + 1) as usize)
            } else {
                ButtonFace::Top
            },
        }
    }

    /// The position of a face in the tour: Top is 0, Bottom is 1, and
    /// Custom(i) is i + 2.
    pub open spec fn rank(self) -> nat {
        match self {
            ButtonFace::Top => 0,
            ButtonFace::Bottom => 1,
            ButtonFace::Custom(i) => i as nat + 2,
        }
    }

    /// Moves to the next face of the tour over `faces`.
    pub fn incr(&mut self, faces: &[String])
        requires
            old(self).valid(faces@.len()),
        ensures
            *final(self) == old(self).next(faces@.len()),
            final(self).valid(faces@.len()),
    {
        *self = match *self {
            ButtonFace::Top => ButtonFace::Bottom,
            ButtonFace::Bottom => if faces.len() == 0 {
                ButtonFace::Top
            } else {
                ButtonFace::Custom(0)
            },
            ButtonFace::Custom(i) => if i < faces.len() - 1 {
                ButtonFace::Custom(i + 1)
            } else {
                ButtonFace::Top
            },
        };
    }
}

/// The face at step `k` of the tour over `n` custom faces that starts at Top:
/// the tour has period n + 2.
pub open spec fn tour_face(k: nat, n: nat) -> ButtonFace {
    let r = k % (n + 2);
    if r == 0 {
        ButtonFace::Top
    } else if r == 1 {
        ButtonFace::Bottom
    } else {
        ButtonFace::Custom((r - 2) as usize)
    }
}

/// The face reached from `f` after `k` flips with `n` custom faces.
pub open spec fn flips(f: ButtonFace, k: nat, n: nat) -> ButtonFace
    decreases k,
{
    if k == 0 {
        f
    } else {
        flips(f.next(n), (k - 1) as nat, n)
    }
}

proof fn lemma_tour_face_of_rank(f: ButtonFace, n: nat)
    requires
        f.valid(n),
    ensures
        tour_face(f.rank(), n) == f,
        f.rank() < n + 2,
{
    lemma_small_mod(f.rank(), n + 2);
}

proof fn lemma_next_rank(f: ButtonFace, n: nat)
    requires
        f.valid(n),
        n <= usize::MAX,
    ensures
        f.next(n).valid(n),
        f.next(n).rank() == (f.rank() + 1) % (n + 2),
{
    if f.rank() + 1 < n + 2 {
        lemma_small_mod(f.rank() + 1, n + 2);
    } else {
        assert(f.rank() + 1 == n + 2);
    }
}

/// Flipping walks the tour Top, Bottom, Custom(0), ..., Custom(n - 1) and then
/// starts again: after `k` flips from any valid face `f`, the button shows the
/// face that stands `k` steps after `f` in that tour.
pub proof fn lemma_flip_tour(f: ButtonFace, k: nat, n: nat)
    requires
        f.valid(n),
        n <= usize::MAX,
    ensures
        flips(f, k, n) == tour_face(f.rank() + k, n),
    decreases k,
{
    if k == 0 {
        lemma_tour_face_of_rank(f, n);
    } else {
        let g = f.next(n);
        lemma_next_rank(f, n);
        lemma_flip_tour(g, (k - 1) as nat, n);
        lemma_add_mod_noop_right((k - 1) as int, (f.rank() + 1) as int, (n + 2) as int);
        assert(g.rank() + (k - 1) as nat == (k - 1) as int + (f.rank() + 1) as int % (n + 2) as int);
        assert(f.rank() + k == (k - 1) as int + (f.rank() + 1) as int);
    }
}

/// With `n` custom faces the tour has length exactly n + 2: from any valid face,
/// n + 2 flips come back to it and no smaller positive number of flips does.
pub proof fn lemma_flip_period(f: ButtonFace, n: nat)
    requires
        f.valid(n),
        n <= usize::MAX,
    ensures
        flips(f, n + 2, n) == f,
        forall|j: nat| 0 < j < n + 2 ==> #[trigger] flips(f, j, n) != f,
{
    lemma_tour_face_of_rank(f, n);
    lemma_flip_tour(f, n + 2, n);
    lemma_add_mod_noop_right(f.rank() as int, (n + 2) as int, (n + 2) as int);
    vstd::arithmetic::div_mod::lemma_mod_self_0((n + 2) as int);
    assert forall|j: nat| 0 < j < n + 2 implies #[trigger] flips(f, j, n) != f by {
        lemma_flip_tour(f, j, n);
        let s = f.rank() + j;
        if s < n + 2 {
            lemma_small_mod(s, n + 2);
        } else {
            vstd::arithmetic::div_mod::lemma_mod_add_multiples_vanish((s - (n + 2)) as int, (n + 2) as int);
            lemma_small_mod((s - (n + 2)) as nat, n + 2);
        }
    }
}

/// Without custom faces the button alternates strictly between Top and Bottom.
pub proof fn lemma_flip_alternates(f: ButtonFace, k: nat)
    requires
        f.valid(0),
    ensures
        flips(f, k, 0) == (if (f.rank() + k) % 2 == 0 {
            ButtonFace::Top
        } else {
            ButtonFace::Bottom
        }),
{
    lemma_flip_tour(f, k, 0);
}

} // verus!
