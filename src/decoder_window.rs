//! The decoder's window: its lower bound and the identifiers whose value it
//! knows, received or recovered.

use crate::error::{decoder_error_of, DecoderError, SolverError};
use crate::metadata::{be_bytes_u64, lemma_be_u64_round_trip, source_symbol_metadata_to_u64};
use crate::symbol::SourceSymbol;
use vstd::prelude::*;

verus! {

/// What a decoder window stands for: every identifier below `lower` is
/// evicted; `known` holds the retained identifiers whose value is known.
pub struct WindowModel {
    pub lower: u64,
    pub known: Set<u64>,
}

/// Every known identifier lies at or above the lower bound.
pub open spec fn model_wf(m: WindowModel) -> bool {
    forall|x: u64| #[trigger] m.known.contains(x) ==> x >= m.lower
}

/// The window after evicting everything below `id`: the bound only rises.
pub open spec fn removal(m: WindowModel, id: u64) -> WindowModel {
    let lower = if id > m.lower {
        id
    } else {
        m.lower
    };
    WindowModel { lower, known: m.known.filter(|x: u64| x >= lower) }
}

/// The window after evicting below each identifier of `ids`, in turn.
pub open spec fn removals(m: WindowModel, ids: Seq<u64>) -> WindowModel
    decreases ids.len(),
{
    if ids.len() == 0 {
        m
    } else {
        removal(removals(m, ids.drop_last()), ids.last())
    }
}

/// Every identifier from the lower bound through `h` is known.
pub open spec fn contiguous_through(m: WindowModel, h: u64) -> bool {
    forall|x: u64| m.lower <= x <= h ==> #[trigger] m.known.contains(x)
}

/// The identifiers of a sequence of symbols.
pub open spec fn ids_of(s: Seq<SourceSymbol>) -> Set<u64> {
    Set::new(|x: u64| exists|k: int| 0 <= k < s.len() && #[trigger] s[k].id() == x)
}

/// No identifier occurs twice in `s`.
pub open spec fn distinct_ids(s: Seq<SourceSymbol>) -> bool {
    forall|i: int, j: int| 0 <= i < j < s.len() ==> #[trigger] s[i].id() != #[trigger] s[j].id()
}

/// A source symbol that the window takes: its payload has `symbol_size`
/// bytes and its identifier is retained and not yet known.
pub open spec fn source_symbol_fresh(m: WindowModel, symbol_size: usize, s: SourceSymbol) -> bool {
    &&& s.payload().len() == symbol_size
    &&& s.id() >= m.lower
    &&& !m.known.contains(s.id())
}

/// A source symbol that the window has no use for: evicted or known.
pub open spec fn source_symbol_unused(m: WindowModel, s: SourceSymbol) -> bool {
    s.id() < m.lower || m.known.contains(s.id())
}

/// A repair range `[first, first + count)` that cannot be stated over
/// identifiers: empty, or past the largest identifier.
pub open spec fn range_malformed(first: u64, count: u64) -> bool {
    count == 0 || first + count - 1 > u64::MAX
}

/// The window after learning the identifiers of `out`.
pub open spec fn learned(m: WindowModel, out: Seq<SourceSymbol>) -> WindowModel {
    WindowModel { lower: m.lower, known: m.known.union(ids_of(out)) }
}

spec fn strictly_increasing(s: Seq<u64>) -> bool {
    forall|i: int, j: int| 0 <= i < j < s.len() ==> #[trigger] s[i] < #[trigger] s[j]
}

/// The lower bound and the known identifiers, in increasing order.
pub struct DecoderWindow {
    lower: u64,
    known: Vec<u64>,
}

impl View for DecoderWindow {
    type V = WindowModel;

    closed spec fn view(&self) -> WindowModel {
        WindowModel { lower: self.lower, known: Set::new(|x: u64| self.known@.contains(x)) }
    }
}

impl DecoderWindow {
    /// The representation invariant.
    pub closed spec fn wf(&self) -> bool {
        &&& strictly_increasing(self.known@)
        &&& forall|i: int| 0 <= i < self.known@.len() ==> #[trigger] self.known@[i] >= self.lower
    }

    /// The window invariant holds of the model of a well-formed window.
    pub proof fn lemma_model_wf(&self)
        requires
            self.wf(),
        ensures
            model_wf(self@),
    {
        assert forall|x: u64| #[trigger] self@.known.contains(x) implies x >= self@.lower by {
            assert(self.known@.contains(x));
        }
    }

    /// An empty window whose lower bound is `lower`.
    pub fn starting_at(lower: u64) -> (w: DecoderWindow)
        ensures
            w.wf(),
            w@.lower == lower,
            w@.known == Set::<u64>::empty(),
    {
        let w = DecoderWindow { lower, known: Vec::new() };
        assert(w@.known =~= Set::<u64>::empty());
        w
    }

    /// The lower bound.
    pub fn lower(&self) -> (r: u64)
        ensures
            r == self@.lower,
    {
        self.lower
    }

    /// Whether no identifier is known.
    pub fn is_empty(&self) -> (r: bool)
        requires
            self.wf(),
        ensures
            r == (self@.known == Set::<u64>::empty()),
    {
        if self.known.len() == 0 {
            assert(self@.known =~= Set::<u64>::empty());
            true
        } else {
            assert(self@.known.contains(self.known@[0]));
            false
        }
    }

    /// Whether the value of `id` is known.
    pub fn is_known(&self, id: u64) -> (r: bool)
        ensures
            r == self@.known.contains(id),
    {
        let mut i: usize = 0;
        while i < self.known.len()
            invariant
                i <= self.known@.len(),
                forall|j: int| 0 <= j < i ==> self.known@[j] != id,
            decreases self.known@.len() - i,
        {
            if self.known[i] == id {
                assert(self.known@.contains(id));
                return true;
            }
            i = i + 1;
        }
        false
    }

    /// Marks `id` as known.
    pub fn insert(&mut self, id: u64)
        requires
            old(self).wf(),
            id >= old(self)@.lower,
            !old(self)@.known.contains(id),
        ensures
            final(self).wf(),
            final(self)@.lower == old(self)@.lower,
            final(self)@.known == old(self)@.known.insert(id),
    {
        let ghost before = self.known@;
        let mut pos: usize = 0;
        while pos < self.known.len() && self.known[pos] < id
            invariant
                pos <= self.known@.len(),
                self.known@ == before,
                forall|j: int| 0 <= j < pos ==> self.known@[j] < id,
            decreases self.known@.len() - pos,
        {
            pos = pos + 1;
        }
        assert(pos < before.len() ==> before[pos as int] > id) by {
            if pos < before.len() {
                assert(before[pos as int] != id) by {
                    assert(before.contains(before[pos as int]));
                }
            }
        }
        self.known.insert(pos, id);
        assert(self.known@ == before.insert(pos as int, id));
        assert(strictly_increasing(self.known@)) by {
            assert forall|i: int, j: int| 0 <= i < j < self.known@.len() implies #[trigger] self.known@[i]
                < #[trigger] self.known@[j] by {
                if j < pos {
                } else if j == pos {
                } else if i < pos {
                    assert(before[j - 1] > id || j - 1 == pos);
                    if j - 1 > pos {
                        assert(before[pos as int] < before[j - 1]);
                    }
                } else if i == pos {
                    if j - 1 > pos {
                        assert(before[pos as int] < before[j - 1]);
                    }
                } else {
                    assert(before[i - 1] < before[j - 1]);
                }
            }
        }
        assert(self@.known =~= old(self)@.known.insert(id)) by {
            assert forall|x: u64| #[trigger] self.known@.contains(x) <==> (before.contains(x) || x
                == id) by {
                if self.known@.contains(x) {
                    let k = choose|k: int| 0 <= k < self.known@.len() && self.known@[k] == x;
                    if k < pos {
                        assert(before[k] == x);
                    } else if k > pos {
                        assert(before[k - 1] == x);
                    }
                }
                if before.contains(x) {
                    let k = choose|k: int| 0 <= k < before.len() && before[k] == x;
                    if k < pos {
                        assert(self.known@[k] == x);
                    } else {
                        assert(self.known@[k + 1] == x);
                    }
                }
                if x == id {
                    assert(self.known@[pos as int] == x);
                }
            }
        }
    }

    /// Evicts every identifier below `id` and returns the new lower bound;
    /// a bound at or below the current one changes nothing.
    pub fn remove_up_to(&mut self, id: u64) -> (r: u64)
        requires
            old(self).wf(),
        ensures
            final(self).wf(),
            final(self)@ == removal(old(self)@, id),
            r == final(self)@.lower,
    {
        let ghost before = self.known@;
        let new_lower = if id > self.lower {
            id
        } else {
            self.lower
        };
        let mut k: usize = 0;
        while k < self.known.len() && self.known[k] < new_lower
            invariant
                k <= self.known@.len(),
                self.known@ == before,
                forall|j: int| 0 <= j < k ==> self.known@[j] < new_lower,
            decreases self.known@.len() - k,
        {
            k = k + 1;
        }
        let tail = self.known.split_off(k);
        self.known = tail;
        self.lower = new_lower;
        assert(self.known@ == before.subrange(k as int, before.len() as int));
        assert forall|i: int| 0 <= i < self.known@.len() implies #[trigger] self.known@[i]
            >= self.lower by {
            if k < before.len() {
                assert(before[k as int] >= new_lower);
                if i > 0 {
                    assert(before[k as int] < before[k + i]);
                }
            }
        }
        assert(self@ == removal(old(self)@, id)) by {
            let r = removal(old(self)@, id);
            assert forall|x: u64| #[trigger] self.known@.contains(x) <==> r.known.contains(x) by {
                if self.known@.contains(x) {
                    let j = choose|j: int| 0 <= j < self.known@.len() && self.known@[j] == x;
                    assert(before[k + j] == x);
                    assert(before.contains(x));
                }
                if r.known.contains(x) {
                    assert(before.contains(x));
                    let j = choose|j: int| 0 <= j < before.len() && before[j] == x;
                    assert(j >= k);
                    assert(self.known@[j - k] == x);
                }
            }
            assert(self@.known =~= r.known);
        }
        new_lower
    }

    /// The lowest and the highest known identifier; `None` when none is
    /// known.
    pub fn bounds(&self) -> (r: Option<(u64, u64)>)
        requires
            self.wf(),
        ensures
            r is None <==> self@.known == Set::<u64>::empty(),
            r matches Some((lo, hi)) ==> {
                &&& self@.known.contains(lo)
                &&& self@.known.contains(hi)
                &&& forall|x: u64| #[trigger] self@.known.contains(x) ==> lo <= x <= hi
            },
    {
        let n = self.known.len();
        if n == 0 {
            assert(self@.known =~= Set::<u64>::empty());
            None
        } else {
            let lo = self.known[0];
            let hi = self.known[n - 1];
            assert(self@.known.contains(lo));
            assert(self@.known.contains(hi));
            assert forall|x: u64| #[trigger] self@.known.contains(x) implies lo <= x <= hi by {
                let j = choose|j: int| 0 <= j < self.known@.len() && self.known@[j] == x;
                if j > 0 {
                    assert(self.known@[0] < self.known@[j]);
                }
                if j < n - 1 {
                    assert(self.known@[j] < self.known@[n - 1]);
                }
            }
            Some((lo, hi))
        }
    }

    /// The highest `h` such that every identifier from the lower bound
    /// through `h` is known; `None` when the lower bound itself is not.
    pub fn largest_contiguously_received(&self) -> (r: Option<u64>)
        requires
            self.wf(),
        ensures
            r is None <==> !self@.known.contains(self@.lower),
            r matches Some(h) ==> {
                &&& h >= self@.lower
                &&& contiguous_through(self@, h)
                &&& (h == u64::MAX || !self@.known.contains((h + 1) as u64))
            },
    {
        let ghost s = self.known@;
        let n = self.known.len();
        let mut i: usize = 0;
        while i < n && self.known[i] - self.lower == i as u64
            invariant
                i <= n,
                n == s.len(),
                s == self.known@,
                self.wf(),
                forall|j: int| 0 <= j < i ==> #[trigger] s[j] == self.lower + j,
            decreases n - i,
        {
            i = i + 1;
        }
        // Past `i`, every known identifier lies above `lower + i`.
        assert forall|j: int| i <= j < n implies #[trigger] s[j] > self.lower + i by {
            assert(s[i as int] >= self.lower);
            if i > 0 {
                assert(s[i - 1] < s[i as int]);
            }
            assert(s[i as int] != self.lower + i);
            if j > i {
                assert(s[i as int] < s[j]);
            }
        }
        if i == 0 {
            assert(!self@.known.contains(self.lower)) by {
                if self@.known.contains(self.lower) {
                    let j = choose|j: int| 0 <= j < s.len() && s[j] == self.lower;
                }
            }
            None
        } else {
            let h = self.known[i - 1];
            assert(self@.known.contains(self.lower)) by {
                assert(s[0] == self.lower);
            }
            assert forall|x: u64| self.lower <= x <= h implies #[trigger] self@.known.contains(x) by {
                assert(s[x - self.lower] == x);
            }
            assert(h == u64::MAX || !self@.known.contains((h + 1) as u64)) by {
                if h < u64::MAX && self@.known.contains((h + 1) as u64) {
                    let j = choose|j: int| 0 <= j < s.len() && s[j] == h + 1;
                    if j < i {
                        assert(s[j] == self.lower + j);
                    }
                }
            }
            Some(h)
        }
    }

    /// Marks as known each symbol of `recovered` that is retained and not yet
    /// known, and returns those symbols, each once, in the order given.
    pub fn absorb(&mut self, recovered: Vec<SourceSymbol>) -> (out: Vec<SourceSymbol>)
        requires
            old(self).wf(),
        ensures
            final(self).wf(),
            final(self)@.lower == old(self)@.lower,
            final(self)@.known == old(self)@.known.union(ids_of(out@)),
            distinct_ids(out@),
            forall|k: int| 0 <= k < out@.len() ==> {
                &&& recovered@.contains(#[trigger] out@[k])
                &&& out@[k].id() >= old(self)@.lower
                &&& !old(self)@.known.contains(out@[k].id())
            },
            forall|k: int|
                0 <= k < recovered@.len() && #[trigger] recovered@[k].id() >= old(self)@.lower
                    ==> final(self)@.known.contains(recovered@[k].id()),
    {
        let ghost orig = recovered@;
        let ghost start = self@;
        let total = recovered.len();
        let mut rest = recovered;
        let mut out: Vec<SourceSymbol> = Vec::new();
        let mut i: usize = 0;
        while rest.len() > 0
            invariant
                self.wf(),
                i <= orig.len(),
                total == orig.len(),
                rest@ == orig.subrange(i as int, orig.len() as int),
                self@.lower == start.lower,
                self@.known == start.known.union(ids_of(out@)),
                distinct_ids(out@),
                forall|k: int| 0 <= k < out@.len() ==> {
                    &&& orig.contains(#[trigger] out@[k])
                    &&& out@[k].id() >= start.lower
                    &&& !start.known.contains(out@[k].id())
                },
                forall|k: int|
                    0 <= k < i && #[trigger] orig[k].id() >= start.lower ==> self@.known.contains(
                        orig[k].id(),
                    ),
            decreases rest@.len(),
        {
            let r = rest.remove(0);
            assert(r == orig[i as int]);
            let id = crate::metadata::source_symbol_metadata_to_u64(r.metadata());
            let ghost old_out = out@;
            let ghost old_known = self@.known;
            if id >= self.lower() && !self.is_known(id) {
                self.insert(id);
                out.push(r);
                assert(ids_of(out@) =~= ids_of(old_out).insert(id)) by {
                    assert forall|x: u64| #[trigger] ids_of(out@).contains(x) <==> ids_of(
                        old_out,
                    ).insert(id).contains(x) by {
                        if ids_of(out@).contains(x) {
                            let k = choose|k: int| 0 <= k < out@.len() && #[trigger] out@[k].id() == x;
                            if k < old_out.len() {
                                assert(old_out[k].id() == x);
                            }
                        }
                        if ids_of(old_out).contains(x) {
                            let k = choose|k: int| 0 <= k < old_out.len() && #[trigger] old_out[k].id() == x;
                            assert(out@[k].id() == x);
                        }
                        if x == id {
                            assert(out@[old_out.len() as int].id() == x);
                        }
                    }
                }
                assert(self@.known =~= start.known.union(ids_of(out@)));
                assert(orig.contains(r)) by {
                    assert(orig[i as int] == r);
                }
                assert forall|k: int| 0 <= k < old_out.len() implies #[trigger] old_out[k].id() != id by {
                    assert(ids_of(old_out).contains(old_out[k].id()));
                }
            }
            i = i + 1;
            assert(rest@ =~= orig.subrange(i as int, orig.len() as int));
        }
        assert(i == orig.len()) by {
            assert(orig.subrange(i as int, orig.len() as int).len() == 0);
        }
        out
    }
}

impl DecoderWindow {
    /// Decides whether the window takes `s`, before the solver sees it: a
    /// payload of the wrong size is malformed, an evicted or known
    /// identifier is of no use.
    pub fn check_source_symbol(&self, symbol_size: usize, s: &SourceSymbol) -> (r: Result<
        u64,
        DecoderError,
    >)
        ensures
            s.payload().len() != symbol_size ==> r matches Err(DecoderError::InternalError(_)),
            s.payload().len() == symbol_size && source_symbol_unused(self@, *s) ==> r matches Err(
                DecoderError::UnusedSourceSymbol,
            ),
            source_symbol_fresh(self@, symbol_size, *s) ==> r == Ok::<u64, DecoderError>(s.id()),
    {
        if s.get().len() != symbol_size {
            return Err(
                DecoderError::InternalError("the payload size differs from the symbol size".to_string()),
            );
        }
        let id = source_symbol_metadata_to_u64(s.metadata());
        if id < self.lower || self.is_known(id) {
            return Err(DecoderError::UnusedSourceSymbol);
        }
        Ok(id)
    }

    /// Takes a source symbol together with the solver's answer to it: the
    /// symbol itself comes first in the result, then each symbol that the
    /// solver recovered and the window did not yet know. A refused symbol,
    /// or a refusal of the solver, leaves the window as it was.
    pub fn receive_source_symbol(
        &mut self,
        symbol_size: usize,
        source_symbol: SourceSymbol,
        solved: Result<Vec<SourceSymbol>, SolverError>,
    ) -> (r: Result<Vec<SourceSymbol>, DecoderError>)
        requires
            old(self).wf(),
        ensures
            final(self).wf(),
            !source_symbol_fresh(old(self)@, symbol_size, source_symbol) ==> final(self)@ == old(
                self,
            )@,
            source_symbol.payload().len() != symbol_size ==> r matches Err(
                DecoderError::InternalError(_),
            ),
            source_symbol.payload().len() == symbol_size && source_symbol_unused(
                old(self)@,
                source_symbol,
            ) ==> r matches Err(DecoderError::UnusedSourceSymbol),
            source_symbol_fresh(old(self)@, symbol_size, source_symbol) ==> match solved {
                Err(e) => r == Err::<Vec<SourceSymbol>, DecoderError>(decoder_error_of(e))
                    && final(self)@ == old(self)@,
                Ok(list) => r matches Ok(out) && {
                    &&& out@.len() >= 1
                    &&& out@[0] == source_symbol
                    &&& final(self)@ == learned(old(self)@, out@)
                    &&& distinct_ids(out@)
                    &&& forall|k: int|
                        1 <= k < out@.len() ==> list@.contains(#[trigger] out@[k])
                            && !old(self)@.known.contains(out@[k].id())
                    &&& forall|k: int|
                        0 <= k < list@.len() && #[trigger] list@[k].id() >= old(self)@.lower
                            ==> final(self)@.known.contains(list@[k].id())
                },
            },
    {
        let id = match self.check_source_symbol(symbol_size, &source_symbol) {
            Err(e) => return Err(e),
            Ok(id) => id,
        };
        let list = match solved {
            Err(e) => return Err(DecoderError::from(e)),
            Ok(list) => list,
        };
        let ghost start = self@;
        self.insert(id);
        let ghost mid = self@;
        let recovered = self.absorb(list);
        let mut out: Vec<SourceSymbol> = Vec::new();
        out.push(source_symbol);
        let mut rest = recovered;
        out.append(&mut rest);
        assert(out@ == seq![source_symbol] + recovered@);
        assert(self@.known =~= start.known.union(ids_of(out@))) by {
            assert forall|x: u64| #[trigger] ids_of(out@).contains(x) <==> (x == id || ids_of(
                recovered@,
            ).contains(x)) by {
                if ids_of(out@).contains(x) {
                    let k = choose|k: int| 0 <= k < out@.len() && #[trigger] out@[k].id() == x;
                    if k > 0 {
                        assert(recovered@[k - 1].id() == x);
                    }
                }
                if ids_of(recovered@).contains(x) {
                    let k = choose|k: int| 0 <= k < recovered@.len() && #[trigger] recovered@[k].id() == x;
                    assert(out@[k + 1].id() == x);
                }
                if x == id {
                    assert(out@[0].id() == x);
                }
            }
        }
        assert(distinct_ids(out@)) by {
            assert forall|i: int, j: int| 0 <= i < j < out@.len() implies #[trigger] out@[i].id()
                != #[trigger] out@[j].id() by {
                if i > 0 {
                    assert(recovered@[i - 1] == out@[i]);
                    assert(recovered@[j - 1] == out@[j]);
                } else {
                    assert(recovered@[j - 1] == out@[j]);
                    assert(mid.known.contains(id));
                }
            }
        }
        assert forall|k: int| 1 <= k < out@.len() implies list@.contains(#[trigger] out@[k])
            && !start.known.contains(out@[k].id()) by {
            assert(recovered@[k - 1] == out@[k]);
        }
        Ok(out)
    }

    /// Decides whether the window takes an equation over
    /// `[first, first + count)`, before the solver sees it.
    pub fn check_range(&self, first: u64, count: u64) -> (r: Result<(), DecoderError>)
        ensures
            range_malformed(first, count) ==> r matches Err(DecoderError::BadMetadata),
            !range_malformed(first, count) && first < self@.lower ==> r matches Err(
                DecoderError::UnusedRepairSymbol,
            ),
            !range_malformed(first, count) && first >= self@.lower ==> r is Ok,
    {
        if count == 0 || first > u64::MAX - (count - 1) {
            return Err(DecoderError::BadMetadata);
        }
        if first < self.lower {
            return Err(DecoderError::UnusedRepairSymbol);
        }
        Ok(())
    }

    /// Takes the solver's answer to an equation: what it recovered, and the
    /// window did not yet know, is learned and returned; a refusal leaves
    /// the window as it was.
    pub fn absorb_solved(&mut self, solved: Result<Vec<SourceSymbol>, SolverError>) -> (r: Result<
        Vec<SourceSymbol>,
        DecoderError,
    >)
        requires
            old(self).wf(),
        ensures
            final(self).wf(),
            match solved {
                Err(e) => r == Err::<Vec<SourceSymbol>, DecoderError>(decoder_error_of(e))
                    && final(self)@ == old(self)@,
                Ok(list) => r matches Ok(out) && {
                    &&& final(self)@ == learned(old(self)@, out@)
                    &&& distinct_ids(out@)
                    &&& forall|k: int|
                        0 <= k < out@.len() ==> list@.contains(#[trigger] out@[k])
                            && !old(self)@.known.contains(out@[k].id())
                    &&& forall|k: int|
                        0 <= k < list@.len() && #[trigger] list@[k].id() >= old(self)@.lower
                            ==> final(self)@.known.contains(list@[k].id())
                },
            },
    {
        match solved {
            Err(e) => Err(DecoderError::from(e)),
            Ok(list) => {
                let out = self.absorb(list);
                Ok(out)
            },
        }
    }
}

/// A source symbol that the window has taken is of no use to it the second
/// time: whatever the solver recovered along with it, redelivering it is
/// refused as unused.
pub proof fn lemma_redelivery_unused(m: WindowModel, out: Seq<SourceSymbol>, s: SourceSymbol)
    requires
        out.len() >= 1,
        out[0] == s,
    ensures
        source_symbol_unused(learned(m, out), s),
{
    assert(ids_of(out).contains(s.id())) by {
        assert(out[0].id() == s.id());
    }
}

/// A symbol built from the wire form of the identifier that an encoder
/// assigned carries that identifier, and a fresh window takes it whatever
/// the identifier; `receive_source_symbol` then returns it first.
pub proof fn lemma_fresh_window_takes(id: u64, symbol_size: usize, s: SourceSymbol)
    requires
        s.metadata_bytes() == be_bytes_u64(id),
        s.payload().len() == symbol_size,
    ensures
        s.id() == id,
        source_symbol_fresh(WindowModel { lower: 0, known: Set::empty() }, symbol_size, s),
{
    lemma_be_u64_round_trip(id);
}

/// Evicting below the same identifier twice is evicting once, and evicting
/// at or below the current bound changes nothing.
pub proof fn lemma_removal_idempotent(m: WindowModel, id: u64)
    requires
        model_wf(m),
    ensures
        removal(removal(m, id), id) == removal(m, id),
        id <= m.lower ==> removal(m, id) == m,
        model_wf(removal(m, id)),
{
    let once = removal(m, id);
    assert(removal(once, id).known =~= once.known);
    if id <= m.lower {
        assert(once.known =~= m.known);
    }
}

/// Along any sequence of evictions the lower bound never falls.
pub proof fn lemma_removals_monotonic(m: WindowModel, ids: Seq<u64>, i: int, j: int)
    requires
        0 <= i <= j <= ids.len(),
    ensures
        m.lower <= removals(m, ids.take(i)).lower <= removals(m, ids.take(j)).lower,
    decreases j,
{
    if j > 0 && i < j {
        assert(ids.take(j).drop_last() =~= ids.take(j - 1));
        lemma_removals_monotonic(m, ids, i, j - 1);
    } else if j == 0 {
        assert(ids.take(0) =~= Seq::<u64>::empty());
    } else {
        if i > 0 {
            assert(ids.take(i).drop_last() =~= ids.take(i - 1));
            lemma_removals_monotonic(m, ids, i - 1, i - 1);
        } else {
            assert(ids.take(0) =~= Seq::<u64>::empty());
        }
    }
}

/// The watermark moves only when the identifier just above it arrives:
/// learning any other identifier leaves it where it was.
pub proof fn lemma_watermark_advances_only_at_gap(m: WindowModel, h: u64, x: u64)
    requires
        h >= m.lower,
        contiguous_through(m, h),
        h < u64::MAX,
        !m.known.contains((h + 1) as u64),
        x != h + 1,
    ensures
        contiguous_through(WindowModel { lower: m.lower, known: m.known.insert(x) }, h),
        !m.known.insert(x).contains((h + 1) as u64),
{
}

} // verus!
