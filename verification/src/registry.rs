//! Symbol-to-index subscription registry.
//!
//! The datagram client owns exactly one registry.  Each successful
//! subscribe acknowledgment adds a symbol with its server-assigned
//! instrument index; unsubscribing removes it.  The registry keeps at most
//! one entry per symbol and remembers registration order, which is the
//! order `unsubscribe_all` walks at shutdown.

use vstd::prelude::*;

verus! {

/// One live subscription: a symbol and its server-assigned instrument
/// index.
#[derive(Debug)]
pub struct Subscription {
    /// Human-readable symbol, e.g. an exchange-qualified pair.
    pub symbol: String,
    /// Index the server assigned when the symbol was subscribed.
    pub index: u32,
}

/// The symbols registered so far, in registration order.
pub struct SubscriptionRegistry {
    subs: Vec<Subscription>,
}

impl View for SubscriptionRegistry {
    type V = Seq<(Seq<char>, u32)>;

    closed spec fn view(&self) -> Seq<(Seq<char>, u32)> {
        Seq::new(self.subs@.len(), |i: int| (self.subs@[i].symbol@, self.subs@[i].index))
    }
}

/// No symbol occurs twice.
pub open spec fn unique_symbols(s: Seq<(Seq<char>, u32)>) -> bool {
    forall|i: int, j: int| 0 <= i < j < s.len() ==> s[i].0 != s[j].0
}

/// Some entry carries the symbol `sym`.
pub open spec fn contains_symbol(s: Seq<(Seq<char>, u32)>, sym: Seq<char>) -> bool {
    exists|i: int| 0 <= i < s.len() && s[i].0 == sym
}

/// Some entry carries the instrument index `idx`.
pub open spec fn contains_index(s: Seq<(Seq<char>, u32)>, idx: u32) -> bool {
    exists|i: int| 0 <= i < s.len() && s[i].1 == idx
}

/// What registering `sym` with index `idx` does to the registry contents:
/// nothing if `sym` is already present, else an append.
pub open spec fn spec_insert(
    s: Seq<(Seq<char>, u32)>,
    sym: Seq<char>,
    idx: u32,
) -> Seq<(Seq<char>, u32)> {
    if contains_symbol(s, sym) {
        s
    } else {
        s.push((sym, idx))
    }
}

impl SubscriptionRegistry {
    /// An empty registry.
    pub fn new() -> (r: SubscriptionRegistry)
        ensures
            r@ == Seq::<(Seq<char>, u32)>::empty(),
            unique_symbols(r@),
    {
        let r = SubscriptionRegistry { subs: Vec::new() };
        proof {
            assert(r@ =~= Seq::<(Seq<char>, u32)>::empty());
        }
        r
    }

    /// Number of registered symbols.
    pub fn len(&self) -> (r: usize)
        ensures
            r == self@.len(),
    {
        self.subs.len()
    }

    /// Whether `symbol` is currently registered.
    pub fn contains(&self, symbol: &String) -> (r: bool)
        ensures
            r == contains_symbol(self@, symbol@),
    {
        let n = self.subs.len();
        let mut i: usize = 0;
        while i < n
            invariant
                n == self@.len(),
                i <= n,
                forall|j: int| 0 <= j < i ==> self@[j].0 != symbol@,
            decreases n - i,
        {
            if self.subs[i].symbol == *symbol {
                proof {
                    assert(self@[i as int].0 == symbol@);
                }
                return true;
            }
            i = i + 1;
        }
        false
    }

    /// Registers `symbol` under `index`; a second registration of the same
    /// symbol is a no-op, whatever index it carries.
    pub fn insert(&mut self, symbol: &String, index: u32)
        requires
            unique_symbols(old(self)@),
        ensures
            final(self)@ == spec_insert(old(self)@, symbol@, index),
            unique_symbols(final(self)@),
            contains_symbol(final(self)@, symbol@),
    {
        if !self.contains(symbol) {
            let ghost pre = self@;
            self.subs.push(Subscription { symbol: symbol.clone(), index });
            proof {
                assert(self@ =~= pre.push((symbol@, index)));
                assert(self@[pre.len() as int].0 == symbol@);
            }
        }
    }

    /// Drops `symbol` from the registry.  Returns whether it was present;
    /// dropping an unregistered symbol is a no-op, not an error.
    pub fn remove(&mut self, symbol: &String) -> (removed: bool)
        requires
            unique_symbols(old(self)@),
        ensures
            removed == contains_symbol(old(self)@, symbol@),
            !removed ==> final(self)@ == old(self)@,
            removed ==> exists|p: int|
                0 <= p < old(self)@.len() && old(self)@[p].0 == symbol@ && final(self)@ == old(
                    self,
                )@.remove(p),
            unique_symbols(final(self)@),
            !contains_symbol(final(self)@, symbol@),
    {
        let n = self.subs.len();
        let mut i: usize = 0;
        while i < n
            invariant
                self@ == old(self)@,
                unique_symbols(self@),
                n == self@.len(),
                i <= n,
                forall|j: int| 0 <= j < i ==> self@[j].0 != symbol@,
            decreases n - i,
        {
            if self.subs[i].symbol == *symbol {
                let ghost pre = self@;
                proof {
                    assert(pre[i as int].0 == symbol@);
                }
                self.subs.remove(i);
                proof {
                    assert(self@ =~= pre.remove(i as int));
                    assert forall|k: int| 0 <= k < self@.len() implies self@[k].0 != symbol@ by {
                        if k < i {
                            assert(self@[k] == pre[k]);
                        } else {
                            assert(self@[k] == pre[k + 1]);
                            assert(pre[k + 1].0 != pre[i as int].0);
                        }
                    }
                }
                return true;
            }
            i = i + 1;
        }
        false
    }

    /// The symbol the server assigned `index` to, if any datagram routing
    /// should accept that index; the first matching entry decides.
    pub fn get_symbol_by_index(&self, index: u32) -> (r: Option<String>)
        ensures
            match r {
                Some(sym) => exists|p: int|
                    0 <= p < self@.len() && self@[p].1 == index && sym@ == self@[p].0 && forall|
                        j: int,
                    | 0 <= j < p ==> self@[j].1 != index,
                None => !contains_index(self@, index),
            },
    {
        let n = self.subs.len();
        let mut i: usize = 0;
        while i < n
            invariant
                n == self@.len(),
                i <= n,
                forall|j: int| 0 <= j < i ==> self@[j].1 != index,
            decreases n - i,
        {
            if self.subs[i].index == index {
                let sym = self.subs[i].symbol.clone();
                proof {
                    assert(self@[i as int].1 == index);
                    assert(sym@ == self@[i as int].0);
                }
                return Some(sym);
            }
            i = i + 1;
        }
        None
    }

    /// All registered symbols, in registration order; `unsubscribe_all`
    /// walks this list.
    pub fn symbols(&self) -> (r: Vec<String>)
        ensures
            r@.len() == self@.len(),
            forall|i: int| 0 <= i < r@.len() ==> r@[i]@ == self@[i].0,
    {
        let n = self.subs.len();
        let mut out: Vec<String> = Vec::new();
        let mut i: usize = 0;
        while i < n
            invariant
                n == self@.len(),
                i <= n,
                out@.len() == i,
                forall|j: int| 0 <= j < i ==> out@[j]@ == self@[j].0,
            decreases n - i,
        {
            out.push(self.subs[i].symbol.clone());
            i = i + 1;
        }
        out
    }
}

/// Registering a symbol twice leaves exactly what one registration leaves:
/// a single entry for it, whatever index the second acknowledgment carried.
pub proof fn law_insert_idempotent(
    s: Seq<(Seq<char>, u32)>,
    sym: Seq<char>,
    idx1: u32,
    idx2: u32,
)
    ensures
        spec_insert(spec_insert(s, sym, idx1), sym, idx2) == spec_insert(s, sym, idx1),
{
    let s1 = spec_insert(s, sym, idx1);
    if contains_symbol(s, sym) {
        assert(spec_insert(s1, sym, idx2) == s1);
    } else {
        assert(s1[s.len() as int].0 == sym);
        assert(contains_symbol(s1, sym));
    }
}

/// A registry without duplicate symbols holds exactly one entry for `sym`
/// after `sym` is registered.
pub proof fn law_insert_single_entry(s: Seq<(Seq<char>, u32)>, sym: Seq<char>, idx: u32)
    requires
        unique_symbols(s),
    ensures
        unique_symbols(spec_insert(s, sym, idx)),
        exists|p: int|
            0 <= p < spec_insert(s, sym, idx).len() && spec_insert(s, sym, idx)[p].0 == sym
                && forall|j: int|
                0 <= j < spec_insert(s, sym, idx).len() && j != p ==> spec_insert(s, sym, idx)[j].0
                    != sym,
{
    let s1 = spec_insert(s, sym, idx);
    if contains_symbol(s, sym) {
        let p = choose|p: int| 0 <= p < s.len() && s[p].0 == sym;
        assert(s1[p].0 == sym);
        assert(forall|j: int| 0 <= j < s1.len() && j != p ==> s1[j].0 != sym);
    } else {
        let p = s.len() as int;
        assert(s1[p].0 == sym);
        assert(forall|j: int| 0 <= j < s1.len() && j != p ==> s1[j].0 != sym);
    }
}

} // verus!
