//! Bytecode chunk: an append-only instruction byte buffer plus a constant
//! pool (deduplicated, addressed by 8-bit or 16-bit index) and the string
//! interner the constants' symbols point into.

use vstd::prelude::*;
use crate::errors::{CompileError, CompileErrorKind, CompileResult};
use crate::strings::StringInterner;
use crate::variant::Variant;

verus! {

/// The byte offset of an emitted jump instruction whose 16-bit operand is
/// patched once the target offset is known.
#[derive(Debug, Clone, Copy, PartialEq, Eq, Structural)]
pub struct JumpSite {
    /// Offset of the jump's opcode byte; the operand lives at the two
    /// following offsets.
    pub offset: usize,
}

/// Bytecode buffer, constant pool and interner.
#[derive(Debug)]
pub struct Chunk {
    pub bytes: Vec<u8>,
    pub consts: Vec<Variant>,
    pub strings: StringInterner,
}

/// The pool holds no constant twice.
pub open spec fn pool_distinct(consts: Seq<Variant>) -> bool {
    forall|i: int, j: int| 0 <= i < j < consts.len() ==> consts[i] != consts[j]
}

/// The index a constant sits at in the pool (unique in a distinct pool).
pub open spec fn const_pos(consts: Seq<Variant>, value: Variant) -> int {
    choose|i: int| 0 <= i < consts.len() && consts[i] == value
}

/// In a distinct pool, a constant's position is pinned by its value.
pub proof fn lemma_const_pos_unique(consts: Seq<Variant>, value: Variant, i: int)
    requires
        pool_distinct(consts),
        0 <= i < consts.len(),
        consts[i] == value,
    ensures
        const_pos(consts, value) == i,
        consts.contains(value),
{
    assert(consts.contains(value));
    let w = const_pos(consts, value);
    assert(0 <= w < consts.len() && consts[w] == value);
    if w < i {
        assert(consts[w] != consts[i]);
        assert(false);
    } else if i < w {
        assert(consts[i] != consts[w]);
        assert(false);
    }
}

impl Chunk {
    /// Pool entries are distinct and addressable by 16-bit indices.
    pub open spec fn wf(&self) -> bool {
        &&& self.consts@.len() <= u16::MAX + 1
        &&& pool_distinct(self.consts@)
    }

    /// An empty chunk with an empty interner.
    pub fn new() -> (r: Chunk)
        ensures
            r.bytes@ == Seq::<u8>::empty(),
            r.consts@ == Seq::<Variant>::empty(),
            r.strings@ == Seq::<Seq<char>>::empty(),
            r.wf(),
            r.strings.wf(),
    {
        Chunk { bytes: Vec::new(), consts: Vec::new(), strings: StringInterner::new() }
    }

    /// An empty chunk around an existing interner.
    pub fn with_strings(strings: StringInterner) -> (r: Chunk)
        ensures
            r.bytes@ == Seq::<u8>::empty(),
            r.consts@ == Seq::<Variant>::empty(),
            r.strings == strings,
            r.wf(),
    {
        Chunk { bytes: Vec::new(), consts: Vec::new(), strings }
    }

    /// Number of emitted bytes.
    pub fn len(&self) -> (r: usize)
        ensures
            r == self.bytes@.len(),
    {
        self.bytes.len()
    }

    /// Appends one instruction byte.
    pub fn push_byte(&mut self, byte: u8)
        ensures
            final(self).bytes@ == old(self).bytes@.push(byte),
            final(self).consts == old(self).consts,
            final(self).strings == old(self).strings,
    {
        self.bytes.push(byte);
    }

    /// Appends two operand bytes.
    pub fn extend_bytes2(&mut self, bytes: [u8; 2])
        ensures
            final(self).bytes@ == old(self).bytes@.push(bytes[0]).push(bytes[1]),
            final(self).consts == old(self).consts,
            final(self).strings == old(self).strings,
    {
        let b0 = bytes[0];
        let b1 = bytes[1];
        self.bytes.push(b0);
        self.bytes.push(b1);
    }

    /// Overwrites the two bytes at `offset`: used to patch the operand of a
    /// forward jump once its target is known.
    pub fn patch_bytes2(&mut self, offset: usize, bytes: [u8; 2])
        requires
            offset + 2 <= old(self).bytes@.len(),
        ensures
            final(self).bytes@ == old(self).bytes@
                .update(offset as int, bytes[0])
                .update(offset + 1, bytes[1]),
            final(self).consts == old(self).consts,
            final(self).strings == old(self).strings,
    {
        let b0 = bytes[0];
        let b1 = bytes[1];
        let n = self.bytes.len();
        assert(offset + 2 <= n);
        self.bytes[offset] = b0;
        self.bytes[offset + 1] = b1;
    }

    /// The byte at `offset`.
    pub fn byte_at(&self, offset: usize) -> (r: u8)
        requires
            offset < self.bytes@.len(),
        ensures
            r == self.bytes@[offset as int],
    {
        self.bytes[offset]
    }

    /// Number of pool constants.
    pub fn const_count(&self) -> (r: usize)
        ensures
            r == self.consts@.len(),
    {
        self.consts.len()
    }

    /// The pool constant at index `cid`.
    pub fn lookup_const(&self, cid: u16) -> (r: Variant)
        requires
            cid < self.consts@.len(),
        ensures
            r == self.consts@[cid as int],
    {
        self.consts[cid as usize]
    }

    /// Adds a constant to the pool and returns its index: an equal constant
    /// already in the pool keeps its index (the pool is deduplicated), a new
    /// one is appended.  Fails exactly when a new constant would not fit the
    /// 16-bit index width.
    pub fn push_const(&mut self, value: Variant) -> (r: CompileResult<u16>)
        requires
            old(self).wf(),
        ensures
            final(self).wf(),
            final(self).bytes == old(self).bytes,
            final(self).strings == old(self).strings,
            match r {
                Ok(cid) => {
                    &&& cid < final(self).consts@.len()
                    &&& final(self).consts@[cid as int] == value
                    &&& (if old(self).consts@.contains(value) {
                        final(self).consts == old(self).consts
                    } else {
                        final(self).consts@ == old(self).consts@.push(value)
                            && cid == old(self).consts@.len()
                    })
                },
                Err(e) => {
                    &&& final(self).consts == old(self).consts
                    &&& e == (CompileError {
                        kind: CompileErrorKind::ConstPoolLimit,
                        symbol: None::<crate::debug::DebugSymbol>,
                    })
                    &&& old(self).consts@.len() == u16::MAX + 1
                    &&& !old(self).consts@.contains(value)
                },
            },
    {
        let n = self.consts.len();
        let mut i: usize = 0;
        while i < n
            invariant
                i <= n,
                *self == *old(self),
                old(self).wf(),
                n == self.consts@.len(),
                forall|k: int| 0 <= k < i ==> self.consts@[k] != value,
            decreases n - i,
        {
            if self.consts[i] == value {
                proof {
                    assert(self.consts@.contains(value));
                    assert(i <= u16::MAX);
                }
                return Ok(i as u16);
            }
            i += 1;
        }
        assert(!self.consts@.contains(value));
        if n > u16::MAX as usize {
            return Err(CompileError::new(CompileErrorKind::ConstPoolLimit));
        }
        self.consts.push(value);
        Ok(n as u16)
    }
}

} // verus!
