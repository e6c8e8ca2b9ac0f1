//! The history stack: a bounded ordered sequence of clipboard snapshots,
//! newest at the tail, with silent eviction of the oldest entry when a
//! capacity is configured and reached.

use vstd::prelude::*;
use vstd::math::min;
use crate::clipboard::ClipboardText;

verus! {

/// What one push does to the history: when a capacity is set and exactly
/// filled, the oldest entry is evicted to make room; the new snapshot is
/// appended at the tail either way.
pub open spec fn push_model(s: Seq<Seq<u8>>, capacity: Option<usize>, t: Seq<u8>) -> Seq<Seq<u8>> {
    if capacity matches Some(c) && s.len() == c && c > 0 {
        s.drop_first().push(t)
    } else {
        s.push(t)
    }
}

/// What swapping the two most recent entries does to the history: the
/// second-most-recent becomes most recent; a history shorter than two
/// entries is left alone.
pub open spec fn swap_model(s: Seq<Seq<u8>>) -> Seq<Seq<u8>> {
    if s.len() < 2 {
        s
    } else {
        s.update(s.len() - 2, s[s.len() - 1]).update(s.len() - 1, s[s.len() - 2])
    }
}

/// Every snapshot of `texts` pushed in order into an initially empty
/// history with the given capacity.
pub open spec fn run_pushes(capacity: Option<usize>, texts: Seq<Seq<u8>>) -> Seq<Seq<u8>>
    decreases texts.len(),
{
    if texts.len() == 0 {
        Seq::empty()
    } else {
        push_model(run_pushes(capacity, texts.drop_last()), capacity, texts.last())
    }
}

/// Capacity invariant: after any sequence of N pushes into an empty history
/// with positive capacity C, the history holds exactly min(N, C) entries,
/// and they are the C most recently pushed snapshots, in push order.
pub proof fn lemma_capacity_invariant(c: usize, texts: Seq<Seq<u8>>)
    requires
        c >= 1,
    ensures
        run_pushes(Some(c), texts).len() == min(texts.len() as int, c as int),
        run_pushes(Some(c), texts) == texts.skip(
            texts.len() - min(texts.len() as int, c as int),
        ),
    decreases texts.len(),
{
    let l = texts.len() as int;
    if l == 0 {
        assert(texts.skip(0) =~= texts);
    } else {
        lemma_capacity_invariant(c, texts.drop_last());
        let prev = run_pushes(Some(c), texts.drop_last());
        let s = run_pushes(Some(c), texts);
        if prev.len() == c {
            assert(s =~= texts.skip(l - c));
        } else {
            assert(s =~= texts.skip(l - min(l, c as int)));
        }
    }
}

/// Swap idempotence: exchanging the two most recent entries twice restores
/// the original order, whatever the history holds.
pub proof fn lemma_swap_idempotent(s: Seq<Seq<u8>>)
    ensures
        swap_model(swap_model(s)) == s,
{
    if s.len() >= 2 {
        assert(swap_model(swap_model(s)) =~= s);
    }
}

/// Bounded history of clipboard snapshots, newest at the tail. The stack
/// itself never touches the clipboard; the capacity to honour is handed in
/// with each push because configuration can be reloaded at any time.
#[derive(Debug)]
pub struct HistoryStack {
    items: Vec<ClipboardText>,
}

impl View for HistoryStack {
    type V = Seq<Seq<u8>>;

    closed spec fn view(&self) -> Seq<Seq<u8>> {
        self.items@.map_values(|t: ClipboardText| t@)
    }
}

impl HistoryStack {
    /// An empty history.
    pub fn new() -> (r: Self)
        ensures
            r@ == Seq::<Seq<u8>>::empty(),
    {
        let r = HistoryStack { items: Vec::new() };
        proof {
            assert(r@ =~= Seq::<Seq<u8>>::empty());
        }
        r
    }

    /// How many snapshots the history currently holds.
    pub fn len(&self) -> (n: usize)
        ensures
            n == self@.len(),
    {
        self.items.len()
    }

    /// The snapshot at position `i`, oldest first.
    pub fn get(&self, i: usize) -> (r: &ClipboardText)
        requires
            i < self@.len(),
        ensures
            r@ == self@[i as int],
    {
        &self.items[i]
    }

    /// Append a snapshot at the tail, evicting the oldest entry first when
    /// the given capacity is exactly reached. Eviction is silent by design:
    /// the point is to bound memory, not to reject input.
    pub fn push(&mut self, capacity: Option<usize>, t: ClipboardText)
        ensures
            final(self)@ == push_model(old(self)@, capacity, t@),
    {
        match capacity {
            Some(c) => {
                if self.items.len() == c && c > 0 {
                    self.items.remove(0);
                }
            },
            None => {},
        }
        self.items.push(t);
        proof {
            assert(final(self)@ =~= push_model(old(self)@, capacity, t@));
        }
    }

    /// Remove and return the most recent snapshot, if any.
    pub fn pop_tail(&mut self) -> (r: Option<ClipboardText>)
        ensures
            old(self)@.len() == 0 ==> r is None && final(self)@ == old(self)@,
            old(self)@.len() > 0 ==> final(self)@ == old(self)@.drop_last() && (r matches Some(t)
                && t@ == old(self)@.last()),
    {
        let r = self.items.pop();
        proof {
            if old(self)@.len() == 0 {
                assert(final(self)@ =~= old(self)@);
            } else {
                assert(final(self)@ =~= old(self)@.drop_last());
            }
        }
        r
    }

    /// Exchange the two most recent snapshots; a history shorter than two
    /// entries is reported unchanged rather than treated as an error.
    pub fn swap_top_two(&mut self)
        ensures
            final(self)@ == swap_model(old(self)@),
    {
        if self.items.len() >= 2 {
            let n = self.items.len();
            let a = self.items[n - 1].clone();
            let b = self.items[n - 2].clone();
            self.items.set(n - 1, b);
            self.items.set(n - 2, a);
            proof {
                assert(final(self)@ =~= swap_model(old(self)@));
            }
        }
    }

    /// Remove every snapshot.
    pub fn clear(&mut self)
        ensures
            final(self)@ == Seq::<Seq<u8>>::empty(),
    {
        self.items.clear();
        proof {
            assert(final(self)@ =~= Seq::<Seq<u8>>::empty());
        }
    }

    /// The most recent snapshot, if any, without removing it.
    pub fn peek_tail(&self) -> (r: Option<&ClipboardText>)
        ensures
            match r {
                Some(t) => self@.len() > 0 && t@ == self@.last(),
                None => self@.len() == 0,
            },
    {
        if self.items.len() == 0 {
            None
        } else {
            Some(&self.items[self.items.len() - 1])
        }
    }
}

} // verus!
