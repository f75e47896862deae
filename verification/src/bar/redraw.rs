//! How urgently a component wants its screen repainted, and how the wishes
//! of several components combine.
use vstd::prelude::*;

verus! {

/// A component's repaint request, ordered by urgency: `Nothing` below `Now`
/// below `Animating` (keep repainting every frame).
#[derive(Debug, Clone, Copy, PartialEq, Eq, Structural, PartialOrd, Ord)]
pub enum Redraw {
    Nothing,
    Now,
    Animating,
}

/// The position of a request in the urgency order.
pub open spec fn urgency(r: Redraw) -> nat {
    match r {
        Redraw::Nothing => 0,
        Redraw::Now => 1,
        Redraw::Animating => 2,
    }
}

/// The more urgent of two requests.
pub open spec fn most_urgent(a: Redraw, b: Redraw) -> Redraw {
    if urgency(a) >= urgency(b) {
        a
    } else {
        b
    }
}

/// The most urgent request of a list; `Nothing` for an empty one.
pub open spec fn combined(rs: Seq<Redraw>) -> Redraw
    decreases rs.len(),
{
    if rs.len() == 0 {
        Redraw::Nothing
    } else {
        most_urgent(combined(rs.drop_last()), rs.last())
    }
}

impl Default for Redraw {
    fn default() -> (r: Self)
        ensures
            r == Redraw::Nothing,
    {
        Redraw::Nothing
    }
}

impl Redraw {
    /// The more urgent of `self` and `other`.
    pub fn max_with(self, other: Redraw) -> (r: Redraw)
        ensures
            r == most_urgent(self, other),
    {
        let a: u8 = match self {
            Redraw::Nothing => 0,
            Redraw::Now => 1,
            Redraw::Animating => 2,
        };
        let b: u8 = match other {
            Redraw::Nothing => 0,
            Redraw::Now => 1,
            Redraw::Animating => 2,
        };
        if a >= b {
            self
        } else {
            other
        }
    }

    /// Whether the screen has to be repainted at all.
    pub fn wants_paint(self) -> (r: bool)
        ensures
            r == (self != Redraw::Nothing),
    {
        !matches!(self, Redraw::Nothing)
    }

    /// The answer of a set of components: the most urgent of their requests,
    /// `Nothing` when there is no component.
    pub fn combine(rs: &[Redraw]) -> (r: Redraw)
        ensures
            r == combined(rs@),
    {
        let mut acc = Redraw::Nothing;
        let mut i: usize = 0;
        while i < rs.len()
            invariant
                i <= rs.len(),
                acc == combined(rs@.take(i as int)),
            decreases rs.len() - i,
        {
            proof {
                assert(rs@.take(i as int + 1).drop_last() =~= rs@.take(i as int));
            }
            acc = acc.max_with(rs[i]);
            i = i + 1;
        }
        proof {
            assert(rs@.take(rs.len() as int) =~= rs@);
        }
        acc
    }
}

/// Combining is commutative: the order of two components does not matter.
pub proof fn law_most_urgent_commutes(a: Redraw, b: Redraw)
    ensures
        most_urgent(a, b) == most_urgent(b, a),
{
}

/// Combining is associative, so any grouping of components gives one answer.
pub proof fn law_most_urgent_associates(a: Redraw, b: Redraw, c: Redraw)
    ensures
        most_urgent(most_urgent(a, b), c) == most_urgent(a, most_urgent(b, c)),
{
}

/// `Nothing` is neutral and a request combined with itself is unchanged.
pub proof fn law_nothing_is_neutral(a: Redraw)
    ensures
        most_urgent(a, Redraw::Nothing) == a,
        most_urgent(Redraw::Nothing, a) == a,
        most_urgent(a, a) == a,
{
}

/// The combined answer is at least as urgent as every single request, and is
/// one of them unless there are none.
pub proof fn law_combined_is_maximum(rs: Seq<Redraw>)
    ensures
        forall|i: int| 0 <= i < rs.len() ==> urgency(rs[i]) <= urgency(#[trigger] combined(rs)),
        rs.len() > 0 ==> exists|i: int| 0 <= i < rs.len() && rs[i] == combined(rs),
        rs.len() == 0 ==> combined(rs) == Redraw::Nothing,
    decreases rs.len(),
{
    if rs.len() > 0 {
        law_combined_is_maximum(rs.drop_last());
        let c = combined(rs.drop_last());
        assert forall|i: int| 0 <= i < rs.len() implies urgency(rs[i]) <= urgency(combined(rs)) by {
            if i < rs.len() - 1 {
                assert(rs[i] == rs.drop_last()[i]);
            }
        }
        if urgency(c) >= urgency(rs.last()) && rs.len() > 1 {
            let j = choose|j: int| 0 <= j < rs.drop_last().len() && rs.drop_last()[j] == c;
            assert(rs[j] == c);
        } else {
            assert(rs[rs.len() - 1] == combined(rs));
        }
    }
}

} // verus!
