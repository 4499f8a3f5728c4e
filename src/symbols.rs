//! The symbol environment: ordered string keys and values, copied by value.
use vstd::prelude::*;

verus! {

/// Key/value pairs shown by introspection, in insertion order.
#[derive(Debug)]
pub struct SymbolEnv {
    pub entries: Vec<(String, String)>,
}

/// Whether `k` is a key of `s`.
pub open spec fn has_key(s: Seq<(Seq<char>, Seq<char>)>, k: Seq<char>) -> bool {
    exists|i: int| 0 <= i < s.len() && (#[trigger] s[i]).0 == k
}

/// `s` with `k` bound to `v`: its value replaced where `k` is present,
/// else the pair appended.
pub open spec fn env_insert(s: Seq<(Seq<char>, Seq<char>)>, k: Seq<char>, v: Seq<char>) -> Seq<
    (Seq<char>, Seq<char>),
> {
    if has_key(s, k) {
        let i = choose|i: int| 0 <= i < s.len() && (#[trigger] s[i]).0 == k;
        s.update(i, (k, v))
    } else {
        s.push((k, v))
    }
}

/// No key occurs twice.
pub open spec fn keys_unique(s: Seq<(Seq<char>, Seq<char>)>) -> bool {
    forall|i: int, j: int| 0 <= i < j < s.len() ==> (#[trigger] s[i]).0 != (#[trigger] s[j]).0
}

impl View for SymbolEnv {
    type V = Seq<(Seq<char>, Seq<char>)>;

    open spec fn view(&self) -> Seq<(Seq<char>, Seq<char>)> {
        self.entries@.map_values(|p: (String, String)| (p.0@, p.1@))
    }
}

impl SymbolEnv {
    /// An empty environment.
    pub fn new() -> (r: SymbolEnv)
        ensures
            r@.len() == 0,
    {
        SymbolEnv { entries: Vec::new() }
    }

    /// Binds `k` to `v`.
    pub fn insert(&mut self, k: String, v: String)
        requires
            keys_unique(old(self)@),
        ensures
            final(self)@ == env_insert(old(self)@, k@, v@),
            keys_unique(final(self)@),
    {
        let mut i: usize = 0;
        while i < self.entries.len()
            invariant
                i <= self.entries@.len(),
                self@ == old(self)@,
                keys_unique(old(self)@),
                forall|j: int| 0 <= j < i ==> (#[trigger] self@[j]).0 != k@,
            decreases self.entries@.len() - i,
        {
            if self.entries[i].0 == k {
                let ghost i0 = i as int;
                assert(self@[i0].0 == k@);
                proof {
                    let c = choose|j: int| 0 <= j < self@.len() && (#[trigger] self@[j]).0 == k@;
                    assert(c == i0) by {
                        if c != i0 {
                            if c < i0 {
                                assert(self@[c].0 != k@);
                            } else {
                                assert(keys_unique(old(self)@));
                                assert(self@[i0].0 != self@[c].0);
                            }
                        }
                    }
                }
                self.entries.set(i, (k, v));
                assert(self@ =~= env_insert(old(self)@, k@, v@));
                assert(forall|j: int| 0 <= j < self@.len() ==> (#[trigger] self@[j]).0 == old(self)@[j].0);
                return;
            }
            i = i + 1;
        }
        self.entries.push((k, v));
        assert(self@ =~= old(self)@.push((k@, v@)));
        assert(forall|j: int| 0 <= j < old(self)@.len() ==> (#[trigger] self@[j]) == old(self)@[j]);
    }

    /// A copy that shares nothing with this environment.
    pub fn snapshot(&self) -> (r: SymbolEnv)
        ensures
            r@ == self@,
    {
        let mut out: Vec<(String, String)> = Vec::new();
        let mut i: usize = 0;
        while i < self.entries.len()
            invariant
                i <= self.entries@.len(),
                out@.len() == i,
                forall|j: int| 0 <= j < i ==> #[trigger] out@[j] == self.entries@[j],
            decreases self.entries@.len() - i,
        {
            let k = self.entries[i].0.clone();
            let v = self.entries[i].1.clone();
            out.push((k, v));
            i = i + 1;
        }
        let r = SymbolEnv { entries: out };
        assert(r@ =~= self@);
        r
    }
}

} // verus!
