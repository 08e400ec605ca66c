//! The projection sequencer: tags every item of a source sequence as selected
//! or not, given the strictly increasing positions that a caller wants.

use std::collections::VecDeque;
use vstd::prelude::*;

verus! {

/// An item of the source together with the verdict of the projection.
#[derive(Debug, Eq, PartialEq, Hash)]
pub enum ProjectionResult<A> {
    Selected(A),
    NotSelected(A),
}

/// The positions are strictly increasing.
pub open spec fn strictly_increasing(s: Seq<usize>) -> bool {
    forall|i: int, j: int| 0 <= i < j < s.len() ==> s[i] < s[j]
}

/// The position `pos` is among the wanted ones.
pub open spec fn wants(wanted: Seq<usize>, pos: int) -> bool {
    exists|k: int| #![trigger wanted[k]] 0 <= k < wanted.len() && wanted[k] == pos
}

/// The tag of the item that stands at position `pos` of the source.
pub open spec fn tag_at<A>(wanted: Seq<usize>, pos: int, item: A) -> ProjectionResult<A> {
    if wants(wanted, pos) {
        ProjectionResult::Selected(item)
    } else {
        ProjectionResult::NotSelected(item)
    }
}

/// The tags of `items`, the first of which stands at position `start`.
pub open spec fn tagged_from<A>(wanted: Seq<usize>, start: int, items: Seq<A>) -> Seq<
    ProjectionResult<A>,
> {
    Seq::new(items.len(), |i: int| tag_at(wanted, start + i, items[i]))
}

/// The tags of a whole source.
pub open spec fn tagged<A>(wanted: Seq<usize>, items: Seq<A>) -> Seq<ProjectionResult<A>> {
    tagged_from(wanted, 0, items)
}

/// How many tags of the sequence are `Selected`.
pub open spec fn selected_count<A>(tags: Seq<ProjectionResult<A>>) -> nat
    decreases tags.len(),
{
    if tags.len() == 0 {
        0
    } else {
        selected_count(tags.drop_last()) + if tags.last() is Selected {
            1nat
        } else {
            0nat
        }
    }
}

/// How many of the positions before `pos` are wanted.
pub open spec fn wanted_before(wanted: Seq<usize>, pos: nat) -> nat
    decreases pos,
{
    if pos == 0 {
        0
    } else {
        wanted_before(wanted, (pos - 1) as nat) + if wants(wanted, pos - 1) {
            1nat
        } else {
            0nat
        }
    }
}

/// Among the positions before `pos`, as many are wanted as the strictly
/// increasing list has entries before `pos`: the number that is returned.
pub proof fn lemma_wanted_before(wanted: Seq<usize>, pos: nat) -> (c: nat)
    requires
        strictly_increasing(wanted),
    ensures
        c <= wanted.len(),
        forall|k: int| 0 <= k < c ==> wanted[k] < pos,
        forall|k: int| c <= k < wanted.len() ==> wanted[k] >= pos,
        wanted_before(wanted, pos) == c,
    decreases pos,
{
    if pos == 0 {
        0
    } else {
        let b = lemma_wanted_before(wanted, (pos - 1) as nat);
        if b < wanted.len() && wanted[b as int] == pos - 1 {
            assert forall|k: int| b + 1 <= k < wanted.len() implies wanted[k] >= pos by {
                assert(wanted[b as int] < wanted[k]);
            }
            let k = b as int;
            assert(0 <= k < wanted.len() && wanted[k] == pos - 1);
            assert(wants(wanted, pos - 1));
            (b + 1) as nat
        } else {
            assert forall|k: int| 0 <= k < wanted.len() implies wanted[k] != pos - 1 by {
                if k > b {
                    assert(wanted[b as int] < wanted[k]);
                } else if k < b {
                    assert(wanted[k] < pos - 1);
                }
            }
            assert(!wants(wanted, pos - 1));
            b
        }
    }
}

/// The first `n` tags of a source hold as many `Selected` as there are
/// wanted positions before `n`.
pub proof fn lemma_selected_prefix<A>(wanted: Seq<usize>, items: Seq<A>, n: nat)
    requires
        n <= items.len(),
    ensures
        selected_count(tagged(wanted, items).subrange(0, n as int)) == wanted_before(wanted, n),
    decreases n,
{
    let tags = tagged(wanted, items);
    if n > 0 {
        lemma_selected_prefix(wanted, items, (n - 1) as nat);
        assert(tags.subrange(0, n as int).drop_last() =~= tags.subrange(0, n - 1));
        assert(tags.subrange(0, n as int).last() == tag_at(wanted, n - 1, items[n - 1]));
    }
}

/// The sequencer hands out one tag for each item of the source, in the
/// order of the source; an item is tagged `Selected` exactly where its
/// position is wanted; and as many items are `Selected` as positions are
/// wanted. This holds of every source and every strictly increasing,
/// non-empty list of positions of the source.
pub proof fn lemma_sequencer_tags<A>(wanted: Seq<usize>, items: Seq<A>)
    requires
        wanted.len() > 0,
        strictly_increasing(wanted),
        forall|k: int| 0 <= k < wanted.len() ==> wanted[k] < items.len(),
    ensures
        tagged(wanted, items).len() == items.len(),
        forall|i: int|
            0 <= i < items.len() ==> (#[trigger] tagged(wanted, items)[i]) == (if wants(
                wanted,
                i,
            ) {
                ProjectionResult::Selected(items[i])
            } else {
                ProjectionResult::NotSelected(items[i])
            }),
        selected_count(tagged(wanted, items)) == wanted.len(),
{
    let tags = tagged(wanted, items);
    lemma_selected_prefix(wanted, items, items.len());
    assert(tags.subrange(0, items.len() as int) =~= tags);
    let c = lemma_wanted_before(wanted, items.len());
    if c < wanted.len() {
        assert(wanted[c as int] >= items.len());
    }
}

/// Walks a source and tags each item. Beside the source it holds only the
/// walk's position and which of the wanted positions is next.
pub struct ProjectionIter<'a, A> {
    projection: &'a [usize],
    iter: VecDeque<A>,
    current_count: usize,
    current_projection: usize,
}

impl<'a, A> ProjectionIter<'a, A> {
    /// The wanted positions, as given at construction.
    pub closed spec fn wanted(&self) -> Seq<usize> {
        self.projection@
    }

    /// The position of the next item of the source.
    pub closed spec fn position(&self) -> int {
        self.current_count as int
    }

    /// The items of the source that are still to come.
    pub closed spec fn source(&self) -> Seq<A> {
        self.iter@
    }

    /// The walk is consistent: every wanted position behind it was handed
    /// out, and the next wanted one is not behind it.
    pub closed spec fn wf(&self) -> bool {
        &&& strictly_increasing(self.projection@)
        &&& self.current_projection <= self.projection@.len()
        &&& self.current_count + self.iter@.len() <= usize::MAX
        &&& forall|k: int|
            0 <= k < self.current_projection ==> self.projection@[k] < self.current_count
        &&& forall|k: int|
            self.current_projection <= k < self.projection@.len() ==> self.projection@[k]
                >= self.current_count
    }

    /// Starts a walk over `iter` at position 0.
    pub fn new(projection: &'a [usize], iter: VecDeque<A>) -> (r: Self)
        requires
            projection@.len() > 0,
            strictly_increasing(projection@),
        ensures
            r.wf(),
            r.wanted() == projection@,
            r.position() == 0,
            r.source() == iter@,
    {
        let remaining: usize = iter.len();
        assert(remaining == iter@.len());
        Self { projection, iter, current_count: 0, current_projection: 0 }
    }

    /// Hands out the next item with its tag, or `None` at the end of the source.
    pub fn next(&mut self) -> (r: Option<ProjectionResult<A>>)
        requires
            old(self).wf(),
        ensures
            final(self).wf(),
            final(self).wanted() == old(self).wanted(),
            match r {
                None => old(self).source().len() == 0 && final(self).source() == old(self).source()
                    && final(self).position() == old(self).position(),
                Some(t) => old(self).source().len() > 0 && t == tag_at(
                    old(self).wanted(),
                    old(self).position(),
                    old(self).source()[0],
                ) && final(self).source() == old(self).source().subrange(
                    1,
                    old(self).source().len() as int,
                ) && final(self).position() == old(self).position() + 1,
            },
    {
        match self.iter.pop_front() {
            Some(item) => {
                let hit = self.current_projection < self.projection.len()
                    && self.projection[self.current_projection] == self.current_count;
                proof {
                    let w = self.projection@;
                    let c = self.current_count;
                    if !hit {
                        assert forall|k: int| 0 <= k < w.len() implies w[k] != c by {
                            if k > self.current_projection {
                                assert(w[self.current_projection as int] < w[k]);
                            }
                        }
                    } else {
                        assert forall|k: int| self.current_projection < k < w.len() implies w[k]
                            >= c + 1 by {
                            assert(w[self.current_projection as int] < w[k]);
                        }
                    }
                }
                let result = if hit {
                    self.current_projection = self.current_projection + 1;
                    ProjectionResult::Selected(item)
                } else {
                    ProjectionResult::NotSelected(item)
                };
                self.current_count = self.current_count + 1;
                Some(result)
            },
            None => None,
        }
    }

    /// The bounds of the number of items still to come: both are exact.
    pub fn size_hint(&self) -> (r: (usize, Option<usize>))
        ensures
            r.0 == self.source().len(),
            r.1 == Some(r.0),
    {
        let n: usize = self.iter.len();
        (n, Some(n))
    }

    /// Walks the source to its end and gathers the tagged items in order.
    pub fn collect(self) -> (r: Vec<ProjectionResult<A>>)
        requires
            self.wf(),
        ensures
            r@ == tagged_from(self.wanted(), self.position(), self.source()),
    {
        let mut it = self;
        let mut out: Vec<ProjectionResult<A>> = Vec::new();
        let ghost total = tagged_from(self.wanted(), self.position(), self.source());
        loop
            invariant
                it.wf(),
                it.wanted() == self.wanted(),
                out@.len() + it.source().len() == self.source().len(),
                it.position() == self.position() + out@.len(),
                it.source() == self.source().subrange(
                    out@.len() as int,
                    self.source().len() as int,
                ),
                out@ == total.subrange(0, out@.len() as int),
                total == tagged_from(self.wanted(), self.position(), self.source()),
            ensures
                out@ == total,
            decreases it.source().len(),
        {
            match it.next() {
                Some(t) => {
                    out.push(t);
                    assert(out@ =~= total.subrange(0, out@.len() as int));
                },
                None => {
                    assert(out@ =~= total);
                    break ;
                },
            }
        }
        out
    }
}

} // verus!
