//! An append-only table that maps values to 1-based symbols.

use vstd::prelude::*;

verus! {

/// A handle into an [`Interner`]: the 1-based position of an interned value.
///
/// The value 0 is never handed out by an interner.
#[derive(PartialEq, Eq, Structural, Clone, Copy, Debug, PartialOrd, Ord, Hash)]
pub struct Symbol {
    pub id: usize,
}

impl Symbol {
    /// Creates a symbol from its raw 1-based value.
    pub fn new(id: usize) -> (r: Symbol)
        ensures
            r.id == id,
    {
        Symbol { id }
    }

    /// Returns the raw 1-based value of the symbol.
    pub fn id(&self) -> (r: usize)
        ensures
            r == self.id,
    {
        self.id
    }
}

/// Values that can be compared for equality of their views.
pub trait InternKey: View + Sized {
    /// Tells whether the two values have the same view.
    fn same_key(&self, other: &Self) -> (r: bool)
        ensures
            r == (self@ == other@),
    ;
}

/// Compares two string slices character by character.
pub fn str_equal(a: &str, b: &str) -> (r: bool)
    ensures
        r == (a@ == b@),
{
    let n = a.unicode_len();
    let m = b.unicode_len();
    if n != m {
        return false;
    }
    let mut i: usize = 0;
    while i < n
        invariant
            n == a@.len(),
            m == b@.len(),
            n == m,
            i <= n,
            forall|j: int| 0 <= j < i ==> a@[j] == b@[j],
        decreases n - i,
    {
        if a.get_char(i) != b.get_char(i) {
            return false;
        }
        i = i + 1;
    }
    proof {
        assert(a@ =~= b@);
    }
    true
}

impl InternKey for &'static str {
    fn same_key(&self, other: &Self) -> (r: bool) {
        str_equal(*self, *other)
    }
}

impl InternKey for u64 {
    fn same_key(&self, other: &Self) -> (r: bool) {
        *self == *other
    }
}

/// What interning `v` into a table holding `old` yields: `new` is the table
/// afterwards, `inserted` tells whether `v` was added and `sym` is its symbol.
///
/// A value already present keeps the symbol of its first occurrence and leaves
/// the table as it was; a new value is appended and gets the next symbol.
pub open spec fn interned<V>(old: Seq<V>, v: V, new: Seq<V>, inserted: bool, sym: Symbol) -> bool {
    if old.contains(v) {
        &&& !inserted
        &&& new == old
        &&& symbol_of(old, sym, v)
        &&& forall|j: int| 0 <= j < sym.id - 1 ==> old[j] != v
    } else {
        &&& inserted
        &&& new == old.push(v)
        &&& sym.id == old.len() + 1
    }
}

/// `sym` stands for `v` in `table`.
pub open spec fn symbol_of<V>(table: Seq<V>, sym: Symbol, v: V) -> bool {
    1 <= sym.id <= table.len() && table[sym.id - 1] == v
}

/// `old` is a prefix of `new`: every symbol of `old` keeps its value in `new`.
pub open spec fn extends<V>(old: Seq<V>, new: Seq<V>) -> bool {
    old.len() <= new.len() && forall|i: int| 0 <= i < old.len() ==> new[i] == old[i]
}

/// Interning a value twice gives the same symbol both times, and the second
/// time leaves the table as it is; each interning adds at most one value.
pub proof fn lemma_intern_twice<V>(
    t0: Seq<V>,
    v: V,
    t1: Seq<V>,
    ins1: bool,
    sym1: Symbol,
    t2: Seq<V>,
    ins2: bool,
    sym2: Symbol,
)
    requires
        interned(t0, v, t1, ins1, sym1),
        interned(t1, v, t2, ins2, sym2),
    ensures
        sym1 == sym2,
        !ins2,
        t2 == t1,
        t1.len() <= t0.len() + 1,
{
    if t0.contains(v) {
        if sym1.id != sym2.id {
            if sym1.id < sym2.id {
                assert(t1[sym1.id - 1] == v);
            } else {
                assert(t1[sym2.id - 1] == v);
            }
        }
    } else {
        assert(t1[t0.len() as int] == v);
        assert(t1.contains(v));
        assert forall|j: int| 0 <= j < t0.len() implies t1[j] != v by {
            assert(t1[j] == t0[j]);
        }
    }
}

/// A value interned earlier keeps its symbol whatever was interned since: in
/// a table without duplicates that has grown at its end, interning the value
/// again returns the earlier symbol and changes nothing.
pub proof fn lemma_intern_again<V>(
    t1: Seq<V>,
    sym1: Symbol,
    v: V,
    t2: Seq<V>,
    t3: Seq<V>,
    ins: bool,
    sym2: Symbol,
)
    requires
        symbol_of(t1, sym1, v),
        extends(t1, t2),
        t2.no_duplicates(),
        interned(t2, v, t3, ins, sym2),
    ensures
        sym2 == sym1,
        !ins,
        t3 == t2,
{
    assert(t2[sym1.id - 1] == v);
    assert(t2.contains(v));
}

/// Interning keeps a table free of duplicates.
pub proof fn lemma_interned_no_duplicates<V>(t0: Seq<V>, v: V, t1: Seq<V>, ins: bool, sym: Symbol)
    requires
        interned(t0, v, t1, ins, sym),
        t0.no_duplicates(),
    ensures
        t1.no_duplicates(),
{
    if !t0.contains(v) {
        assert forall|a: int, b: int| 0 <= a < t1.len() && 0 <= b < t1.len() && a != b implies t1[a] != t1[b] by {
            if a < t0.len() && b < t0.len() {
            } else if a == t0.len() {
                if t1[a] == t1[b] {
                    assert(t0[b] == v);
                }
            } else {
                if t1[a] == t1[b] {
                    assert(t0[a] == v);
                }
            }
        }
    }
}

/// An append-only symbol table.
///
/// Symbols are assigned in order of first insertion, starting at 1, and are
/// never reused or removed.
pub struct Interner<T> {
    values: Vec<T>,
}

impl<T: InternKey> Interner<T> {
    /// The interned values, in ascending symbol order.
    pub closed spec fn view(&self) -> Seq<T::V> {
        self.values@.map_values(|v: T| v@)
    }

    /// Creates an empty interner.
    pub fn new() -> (r: Self)
        ensures
            r.view() == Seq::<T::V>::empty(),
    {
        let r = Interner { values: Vec::new() };
        proof {
            assert(r.view() =~= Seq::<T::V>::empty());
        }
        r
    }

    /// Creates an interner whose symbol `i + 1` stands for `values[i]`.
    pub fn from_values(values: Vec<T>) -> (r: Self)
        ensures
            r.view() == values@.map_values(|v: T| v@),
    {
        Interner { values }
    }

    /// Returns the number of interned values.
    pub fn len(&self) -> (r: usize)
        ensures
            r == self.view().len(),
    {
        self.values.len()
    }

    /// Interns `value`, returning whether it was newly inserted and its symbol.
    pub fn intern_or_get(&mut self, value: T) -> (r: (bool, Symbol))
        ensures
            interned(old(self).view(), value@, final(self).view(), r.0, r.1),
    {
        let n = self.values.len();
        let mut i: usize = 0;
        while i < n
            invariant
                n == self.values@.len(),
                i <= n,
                forall|j: int| 0 <= j < i ==> self.view()[j] != value@,
            decreases n - i,
        {
            if self.values[i].same_key(&value) {
                let sym = Symbol { id: i + 1 };
                proof {
                    assert(self.view()[i as int] == value@);
                    assert(self.view().contains(value@));
                }
                return (false, sym);
            }
            i = i + 1;
        }
        proof {
            assert(!self.view().contains(value@)) by {
                if self.view().contains(value@) {
                    let k = choose|k: int| 0 <= k < self.view().len() && self.view()[k] == value@;
                    assert(self.view()[k] != value@);
                }
            }
        }
        self.values.push(value);
        let sym = Symbol { id: self.values.len() };
        proof {
            assert(self.view() =~= old(self).view().push(value@));
        }
        (true, sym)
    }

    /// Returns the value that `sym` stands for.
    pub fn get(&self, sym: Symbol) -> (r: &T)
        requires
            1 <= sym.id <= self.view().len(),
        ensures
            r@ == self.view()[sym.id - 1],
    {
        &self.values[sym.id - 1]
    }

    /// Returns the interned values, in ascending symbol order.
    pub fn symbols(&self) -> (r: &Vec<T>)
        ensures
            r@.map_values(|v: T| v@) == self.view(),
    {
        &self.values
    }

    /// Gives up the interned values, in ascending symbol order.
    pub fn into_values(self) -> (r: Vec<T>)
        ensures
            r@.map_values(|v: T| v@) == self.view(),
    {
        self.values
    }
}

} // verus!
