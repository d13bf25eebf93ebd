//! String interning: a bidirectional mapping between string content and
//! compact symbols.  The compiler owns the interner during compilation and
//! hands it, by move, into the finished bytecode chunk.

use vstd::prelude::*;
use crate::variant::InternSymbol;

verus! {

/// Interner: symbol `InternSymbol(i)` names the `i`-th distinct string
/// interned.  Interning the same content twice yields the same symbol.
#[derive(Debug)]
pub struct StringInterner {
    strings: Vec<String>,
}

impl StringInterner {
    /// The sequence of interned strings, in interning order.
    pub closed spec fn view(&self) -> Seq<Seq<char>> {
        self.strings@.map_values(|s: String| s@)
    }

    /// Interner contents are distinct and addressable by `u32` symbols.
    pub closed spec fn wf(&self) -> bool {
        &&& self.strings@.len() <= u32::MAX
        &&& forall|i: int, j: int|
            0 <= i < j < self.strings@.len() ==> self.strings@[i]@ != self.strings@[j]@
    }

    /// An empty interner.
    pub fn new() -> (r: StringInterner)
        ensures
            r@ == Seq::<Seq<char>>::empty(),
            r.wf(),
    {
        StringInterner { strings: Vec::new() }
    }

    /// Number of interned strings.
    pub fn len(&self) -> (r: usize)
        ensures
            r == self@.len(),
    {
        self.strings.len()
    }

    /// Interns `content`: returns the existing symbol when the same content
    /// was interned before, otherwise appends it under a fresh symbol.
    /// Fails only when the symbol space (a `u32`) is exhausted.
    pub fn intern(&mut self, content: String) -> (r: Option<InternSymbol>)
        requires
            old(self).wf(),
        ensures
            final(self).wf(),
            match r {
                Some(sym) => {
                    &&& sym.0 < final(self)@.len()
                    &&& final(self)@[sym.0 as int] == content@
                    &&& (if old(self)@.contains(content@) {
                        final(self)@ == old(self)@
                    } else {
                        final(self)@ == old(self)@.push(content@)
                    })
                },
                None => {
                    &&& final(self)@ == old(self)@
                    &&& old(self)@.len() == u32::MAX
                    &&& !old(self)@.contains(content@)
                },
            },
    {
        let n = self.strings.len();
        let mut i: usize = 0;
        while i < n
            invariant
                i <= n,
                *self == *old(self),
                old(self).wf(),
                n == self.strings@.len(),
                forall|k: int| 0 <= k < i ==> self.strings@[k]@ != content@,
            decreases n - i,
        {
            if self.strings[i] == content {
                proof {
                    assert(self@[i as int] == content@);
                    assert(self@.contains(content@));
                    assert(i < u32::MAX);
                }
                return Some(InternSymbol(i as u32));
            }
            i += 1;
        }
        assert(forall|k: int| 0 <= k < self@.len() ==> self@[k] != content@);
        assert(!self@.contains(content@));
        if n >= u32::MAX as usize {
            assert(self.strings@.len() == u32::MAX);
            return None;
        }
        self.strings.push(content);
        assert(self@ =~= old(self)@.push(self.strings@[n as int]@));
        Some(InternSymbol(n as u32))
    }

    /// The content a symbol stands for.
    pub fn lookup(&self, symbol: InternSymbol) -> (r: &String)
        requires
            symbol.0 < self@.len(),
        ensures
            r@ == self@[symbol.0 as int],
    {
        &self.strings[symbol.0 as usize]
    }
}

} // verus!
