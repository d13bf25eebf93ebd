//! Scope and upvalue tracking.
//!
//! During a single left-to-right pass over the AST the tracker maintains the
//! complete set of visible names and their storage: nested lexical scopes
//! with local slots inside the current call frame, and upvalue capture
//! chains across enclosing frames.  Scopes form a strict stack per frame;
//! frames form a stack overall; a frame's function scope is only popped with
//! the frame itself.

use vstd::prelude::*;
use crate::ast::{DeclType, Label};
use crate::chunk::JumpSite;
use crate::debug::DebugSymbol;
use crate::errors::{CompileError, CompileErrorKind, CompileResult};
use crate::variant::InternSymbol;

verus! {

/// Index of a local slot within a call frame.
pub type LocalIndex = u16;

/// Index of an upvalue within a call frame's upvalue table.
pub type UpvalueIndex = u16;

/// Name of a local binding: an interned symbol, or one of the two reserved
/// pseudo-names of a call.
#[derive(Debug, Clone, Copy, PartialEq, Eq, Structural, Hash)]
pub enum LocalName {
    /// A name from the source text.
    Symbol(InternSymbol),
    /// Inside a call, the object that was called.
    Receiver,
    /// Inside a call, the number of arguments passed at the call site.
    NArgs,
}

/// A local binding: declared mutability, name, assigned slot, and whether an
/// enclosing closure has captured it by reference.
#[derive(Debug, Clone, Copy, PartialEq, Eq, Structural)]
pub struct Local {
    pub decl: DeclType,
    pub name: LocalName,
    pub index: LocalIndex,
    pub captured: bool,
}

impl Local {
    /// Declared mutability.
    pub fn decl(&self) -> (r: DeclType)
        ensures
            r == self.decl,
    {
        self.decl
    }

    /// The binding's name.
    pub fn name(&self) -> (r: LocalName)
        ensures
            r == self.name,
    {
        self.name
    }

    /// The binding's slot index.
    pub fn index(&self) -> (r: LocalIndex)
        ensures
            r == self.index,
    {
        self.index
    }

    /// Whether an upvalue references this binding.
    pub fn captured(&self) -> (r: bool)
        ensures
            r == self.captured,
    {
        self.captured
    }
}

/// What a local declaration did: created a fresh slot, or redeclared the
/// binding already in the innermost scope, overwriting its slot.
#[derive(Debug, Clone, Copy, PartialEq, Eq, Structural)]
pub enum InsertLocal {
    CreateNew,
    HideExisting(LocalIndex),
}

/// A `break` or `continue` request, optionally labeled.
#[derive(Debug, Clone, Copy, PartialEq, Eq, Structural, Hash)]
pub enum ControlFlowTarget {
    Break(Option<Label>),
    Continue(Option<Label>),
}

impl ControlFlowTarget {
    /// The label of the request, when it has one.
    pub open spec fn spec_label(&self) -> Option<Label> {
        match self {
            ControlFlowTarget::Break(label) => *label,
            ControlFlowTarget::Continue(label) => *label,
        }
    }

    /// The label of the request, when it has one.
    #[verifier::when_used_as_spec(spec_label)]
    pub fn label(&self) -> (r: Option<Label>)
        ensures
            r == self.spec_label(),
    {
        match self {
            ControlFlowTarget::Break(label) => *label,
            ControlFlowTarget::Continue(label) => *label,
        }
    }
}

/// Lexical nesting level tag.
#[derive(Debug, Clone, Copy, PartialEq, Eq, Structural, Hash)]
pub enum ScopeTag {
    Block,
    Loop,
    Branch,
    Function,
}

impl ScopeTag {
    /// Which control flow a scope of this tag accepts: a `Loop` accepts
    /// `break` and `continue`, a `Block` only `break`, others none.
    pub open spec fn spec_accepts_control_flow(&self, control_flow: ControlFlowTarget) -> bool {
        match self {
            ScopeTag::Block => control_flow is Break,
            ScopeTag::Loop => true,
            _ => false,
        }
    }

    /// Which control flow a scope of this tag accepts.
    #[verifier::when_used_as_spec(spec_accepts_control_flow)]
    pub fn accepts_control_flow(&self, control_flow: ControlFlowTarget) -> (r: bool)
        ensures
            r == self.spec_accepts_control_flow(control_flow),
    {
        match self {
            ScopeTag::Block => matches!(control_flow, ControlFlowTarget::Break(..)),
            ScopeTag::Loop => matches!(
                control_flow,
                ControlFlowTarget::Break(..) | ControlFlowTarget::Continue(..),
            ),
            _ => false,
        }
    }

    /// Whether a scope of this tag yields a value as an expression.
    pub fn is_expr_block(&self) -> (r: bool)
        ensures
            r == (*self is Block || *self is Branch),
    {
        matches!(self, ScopeTag::Block | ScopeTag::Branch)
    }
}

/// Pending control-flow bookkeeping of one scope: its label, the resolved
/// `continue` target offset, and the jump sites of pending `break`s.
#[derive(Debug)]
pub struct ControlFlowTracker {
    pub label: Option<Label>,
    pub continue_target: Option<usize>,
    pub break_sites: Vec<JumpSite>,
}

impl ControlFlowTracker {
    /// A fresh tracker with no pending sites.
    pub fn new(label: Option<Label>) -> (r: ControlFlowTracker)
        ensures
            r.label == label,
            r.continue_target is None,
            r.break_sites@ == Seq::<JumpSite>::empty(),
    {
        ControlFlowTracker { label, continue_target: None, break_sites: Vec::new() }
    }
}

/// One lexical scope: its tag, nesting depth, optional source span, the last
/// slot index of the enclosing scope (`prev_index`), its locals, and its
/// control-flow tracker.
#[derive(Debug)]
pub struct Scope {
    pub tag: ScopeTag,
    pub depth: usize,
    pub symbol: Option<DebugSymbol>,
    pub prev_index: Option<LocalIndex>,
    pub locals: Vec<Local>,
    pub control_flow: ControlFlowTracker,
}

/// The slot index at which this scope's first local lands: one past the
/// enclosing scope's last slot, or 0 in a fresh frame.
pub open spec fn scope_base_index(s: &Scope) -> int {
    match s.prev_index {
        Some(p) => p as int + 1,
        None => 0,
    }
}

/// A scope's slots are consecutive from its base index, fit the local-index
/// width, and its names are distinct.
pub open spec fn scope_wf(s: &Scope) -> bool {
    &&& scope_base_index(s) + s.locals@.len() <= u16::MAX + 1
    &&& forall|i: int|
        0 <= i < s.locals@.len() ==> (#[trigger] s.locals@[i]).index == scope_base_index(s) + i
    &&& forall|i: int, j: int|
        0 <= i < j < s.locals@.len() ==> s.locals@[i].name != s.locals@[j].name
}

/// Whether this scope holds a local named `name`.
pub open spec fn scope_has_local(s: &Scope, name: LocalName) -> bool {
    exists|i: int| 0 <= i < s.locals@.len() && (#[trigger] s.locals@[i]).name == name
}

/// The relation between a scope's locals before and after a declaration:
/// an existing binding of the same name is redeclared in place (same slot,
/// new mutability), a new name takes the next slot, and a slot index that
/// would not fit the index width is an internal-limit error.
pub open spec fn spec_inserted(
    old_locals: Seq<Local>,
    new_locals: Seq<Local>,
    base: int,
    decl: DeclType,
    name: LocalName,
    r: CompileResult<InsertLocal>,
) -> bool {
    match r {
        Ok(InsertLocal::HideExisting(idx)) => exists|p: int|
            {
                &&& 0 <= p < old_locals.len()
                &&& (#[trigger] old_locals[p]).name == name
                &&& idx == old_locals[p].index
                &&& new_locals == old_locals.update(
                    p,
                    (Local {
                        decl,
                        name: old_locals[p].name,
                        index: old_locals[p].index,
                        captured: old_locals[p].captured,
                    }),
                )
            },
        Ok(InsertLocal::CreateNew) => {
            &&& forall|i: int| 0 <= i < old_locals.len() ==> (#[trigger] old_locals[i]).name != name
            &&& base + old_locals.len() <= u16::MAX
            &&& new_locals == old_locals.push(
                (Local {
                    decl,
                    name,
                    index: (base + old_locals.len()) as u16,
                    captured: false,
                }),
            )
        },
        Err(e) => {
            &&& forall|i: int| 0 <= i < old_locals.len() ==> (#[trigger] old_locals[i]).name != name
            &&& base + old_locals.len() > u16::MAX
            &&& new_locals == old_locals
            &&& e == (CompileError {
                kind: CompileErrorKind::LocalVariableLimit,
                symbol: None::<DebugSymbol>,
            })
        },
    }
}

/// Everything of a scope except its locals is unchanged.
pub open spec fn same_scope_but_locals(os: &Scope, ns: &Scope) -> bool {
    &&& ns.tag == os.tag
    &&& ns.depth == os.depth
    &&& ns.symbol == os.symbol
    &&& ns.prev_index == os.prev_index
    &&& ns.control_flow.label == os.control_flow.label
    &&& ns.control_flow.continue_target == os.control_flow.continue_target
    &&& ns.control_flow.break_sites@ == os.control_flow.break_sites@
}

impl Scope {
    /// This scope's tag.
    pub fn tag(&self) -> (r: ScopeTag)
        ensures
            r == self.tag,
    {
        self.tag
    }

    /// This scope's nesting depth within its frame.
    pub fn depth(&self) -> (r: usize)
        ensures
            r == self.depth,
    {
        self.depth
    }

    /// The locals declared in this scope, in declaration order.
    pub fn locals(&self) -> (r: &[Local])
        ensures
            r@ == self.locals@,
    {
        self.locals.as_slice()
    }

    /// The source span of this scope, when one was recorded.
    pub fn debug_symbol(&self) -> (r: Option<&DebugSymbol>)
        ensures
            match r {
                Some(s) => self.symbol matches Some(sym) && *s == sym,
                None => self.symbol is None,
            },
    {
        self.symbol.as_ref()
    }

    /// The resolved `continue` target offset, once set.
    pub fn continue_target(&self) -> (r: Option<usize>)
        ensures
            r == self.control_flow.continue_target,
    {
        self.control_flow.continue_target
    }

    /// Records the offset a `continue` in this scope jumps back to.
    pub fn set_continue(&mut self, offset: usize)
        ensures
            final(self).control_flow.continue_target == Some(offset),
            final(self).control_flow.label == old(self).control_flow.label,
            final(self).control_flow.break_sites@ == old(self).control_flow.break_sites@,
            final(self).tag == old(self).tag,
            final(self).depth == old(self).depth,
            final(self).symbol == old(self).symbol,
            final(self).prev_index == old(self).prev_index,
            final(self).locals@ == old(self).locals@,
    {
        self.control_flow.continue_target = Some(offset);
    }

    /// Registers the jump site of a pending `break` out of this scope.
    pub fn register_break(&mut self, break_site: JumpSite)
        ensures
            final(self).control_flow.break_sites@ == old(
                self,
            ).control_flow.break_sites@.push(break_site),
            final(self).control_flow.label == old(self).control_flow.label,
            final(self).control_flow.continue_target == old(self).control_flow.continue_target,
            final(self).tag == old(self).tag,
            final(self).depth == old(self).depth,
            final(self).symbol == old(self).symbol,
            final(self).prev_index == old(self).prev_index,
            final(self).locals@ == old(self).locals@,
    {
        self.control_flow.break_sites.push(break_site);
    }

    /// The pending `break` jump sites of this scope.
    pub fn break_sites(&self) -> (r: &[JumpSite])
        ensures
            r@ == self.control_flow.break_sites@,
    {
        self.control_flow.break_sites.as_slice()
    }

    /// The highest slot index visible at the end of this scope: its own last
    /// local's, or the enclosing scope's when it has none.
    pub open spec fn spec_last_index(&self) -> Option<LocalIndex> {
        if self.locals@.len() > 0 {
            Some(self.locals@.last().index)
        } else {
            self.prev_index
        }
    }

    /// The highest slot index visible at the end of this scope.
    #[verifier::when_used_as_spec(spec_last_index)]
    pub fn last_index(&self) -> (r: Option<LocalIndex>)
        ensures
            r == self.spec_last_index(),
    {
        let n = self.locals.len();
        if n > 0 {
            Some(self.locals[n - 1].index)
        } else {
            self.prev_index
        }
    }

    /// The local named `name` in this scope, when there is one.
    pub fn find_local(&self, name: &LocalName) -> (r: Option<Local>)
        ensures
            match r {
                Some(l) => {
                    &&& self.locals@.contains(l)
                    &&& l.name == *name
                },
                None => !scope_has_local(self, *name),
            },
    {
        let n = self.locals.len();
        let mut i: usize = 0;
        while i < n
            invariant
                i <= n,
                n == self.locals@.len(),
                forall|k: int| 0 <= k < i ==> (#[trigger] self.locals@[k]).name != *name,
            decreases n - i,
        {
            if self.locals[i].name == *name {
                return Some(self.locals[i]);
            }
            i += 1;
        }
        None
    }

    /// Declares a binding in this scope: redeclares in place when the name
    /// already exists here, otherwise takes the next slot.
    pub fn insert_local(&mut self, decl: DeclType, name: LocalName) -> (r: CompileResult<
        InsertLocal,
    >)
        requires
            scope_wf(old(self)),
        ensures
            scope_wf(final(self)),
            same_scope_but_locals(old(self), final(self)),
            spec_inserted(
                old(self).locals@,
                final(self).locals@,
                scope_base_index(old(self)),
                decl,
                name,
                r,
            ),
    {
        let n = self.locals.len();
        let mut i: usize = 0;
        while i < n
            invariant
                i <= n,
                *self == *old(self),
                scope_wf(old(self)),
                n == self.locals@.len(),
                forall|k: int| 0 <= k < i ==> (#[trigger] self.locals@[k]).name != name,
            decreases n - i,
        {
            if self.locals[i].name == name {
                let existing = self.locals[i];
                self.locals[i] = Local {
                    decl,
                    name: existing.name,
                    index: existing.index,
                    captured: existing.captured,
                };
                return Ok(InsertLocal::HideExisting(existing.index));
            }
            i += 1;
        }
        // the name is new in this scope: the next slot is one past the last
        let index_big: usize = match self.last_index() {
            Some(last) => last as usize + 1,
            None => 0,
        };
        if index_big > u16::MAX as usize {
            return Err(CompileError::new(CompileErrorKind::LocalVariableLimit));
        }
        let local = Local { decl, name, index: index_big as u16, captured: false };
        self.locals.push(local);
        Ok(InsertLocal::CreateNew)
    }
}

/// A stack of nested scopes, innermost last.
#[derive(Debug)]
pub struct NestedScopes {
    pub scopes: Vec<Scope>,
}

/// Scopes are well-formed, their depths count from 0, the first scope's
/// slots start at 0, and each scope's slots continue the enclosing scope's.
pub open spec fn nested_wf(ns: &NestedScopes) -> bool {
    &&& forall|i: int| 0 <= i < ns.scopes@.len() ==> scope_wf(&(#[trigger] ns.scopes@[i]))
    &&& forall|i: int| 0 <= i < ns.scopes@.len() ==> (#[trigger] ns.scopes@[i]).depth == i
    &&& ns.scopes@.len() > 0 ==> ns.scopes@[0].prev_index is None
    &&& forall|i: int|
        0 < i < ns.scopes@.len() ==> (#[trigger] ns.scopes@[i]).prev_index == ns.scopes@[
            i - 1
        ].spec_last_index()
}

/// Whether any scope of the stack holds a local named `name`.
pub open spec fn nested_has_local(ns: &NestedScopes, name: LocalName) -> bool {
    exists|k: int|
        0 <= k < ns.scopes@.len() && scope_has_local(&(#[trigger] ns.scopes@[k]), name)
}

/// What resolving `name` against a scope stack returns: the local of the
/// innermost scope that binds it.
pub open spec fn nested_resolves_to(ns: &NestedScopes, name: LocalName, l: Local) -> bool {
    exists|k: int|
        {
            &&& 0 <= k < ns.scopes@.len()
            &&& (#[trigger] ns.scopes@[k]).locals@.contains(l)
            &&& l.name == name
            &&& forall|k2: int|
                k < k2 < ns.scopes@.len() ==> !scope_has_local(&(#[trigger] ns.scopes@[k2]), name)
        }
}

/// Whether a scope accepts a control-flow request: its tag must admit the
/// request's kind, and a labeled request must match the scope's label.
pub open spec fn scope_accepts_cf(s: &Scope, target: ControlFlowTarget) -> bool {
    &&& s.tag.spec_accepts_control_flow(target)
    &&& (target.spec_label() is None || s.control_flow.label == target.spec_label())
}

impl NestedScopes {
    /// An empty scope stack.
    pub fn new() -> (r: NestedScopes)
        ensures
            r.scopes@ == Seq::<Scope>::empty(),
            nested_wf(&r),
    {
        NestedScopes { scopes: Vec::new() }
    }

    /// Whether no scope is open.
    pub fn is_empty(&self) -> (r: bool)
        ensures
            r == (self.scopes@.len() == 0),
    {
        self.scopes.len() == 0
    }

    /// The innermost scope, when one is open.
    pub fn current_scope(&self) -> (r: Option<&Scope>)
        ensures
            match r {
                Some(s) => self.scopes@.len() > 0 && *s == self.scopes@.last(),
                None => self.scopes@.len() == 0,
            },
    {
        let n = self.scopes.len();
        if n == 0 {
            None
        } else {
            Some(&self.scopes[n - 1])
        }
    }

    /// Opens a scope: its depth is the current nesting, and its slots
    /// continue one past the enclosing scope's last slot.
    pub fn push_scope(&mut self, symbol: Option<DebugSymbol>, tag: ScopeTag, label: Option<Label>)
        requires
            nested_wf(old(self)),
        ensures
            nested_wf(final(self)),
            final(self).scopes@.len() == old(self).scopes@.len() + 1,
            final(self).scopes@.drop_last() == old(self).scopes@,
            ({
                let s = final(self).scopes@.last();
                &&& s.tag == tag
                &&& s.depth == old(self).scopes@.len()
                &&& s.symbol == symbol
                &&& s.prev_index == (if old(self).scopes@.len() == 0 {
                    None::<LocalIndex>
                } else {
                    old(self).scopes@.last().spec_last_index()
                })
                &&& s.locals@ == Seq::<Local>::empty()
                &&& s.control_flow.label == label
                &&& s.control_flow.continue_target is None
                &&& s.control_flow.break_sites@ == Seq::<JumpSite>::empty()
            }),
    {
        let n = self.scopes.len();
        let prev_index = if n == 0 {
            None
        } else {
            self.scopes[n - 1].last_index()
        };
        let scope = Scope {
            tag,
            depth: n,
            symbol,
            prev_index,
            locals: Vec::new(),
            control_flow: ControlFlowTracker::new(label),
        };
        self.scopes.push(scope);
        proof {
            assert(final(self).scopes@.drop_last() =~= old(self).scopes@);
        }
    }

    /// Closes the innermost scope and returns it.
    pub fn pop_scope(&mut self) -> (r: Scope)
        requires
            nested_wf(old(self)),
            old(self).scopes@.len() > 0,
        ensures
            nested_wf(final(self)),
            final(self).scopes@ == old(self).scopes@.drop_last(),
            r == old(self).scopes@.last(),
    {
        let r = self.scopes.pop().unwrap();
        r
    }

    /// Resolves `name` to the innermost local binding it.
    pub fn resolve_local(&self, name: &LocalName) -> (r: Option<Local>)
        ensures
            match r {
                Some(l) => nested_resolves_to(self, *name, l),
                None => !nested_has_local(self, *name),
            },
    {
        let n = self.scopes.len();
        let mut i: usize = n;
        while i > 0
            invariant
                i <= n,
                n == self.scopes@.len(),
                forall|k2: int|
                    i <= k2 < n ==> !scope_has_local(&(#[trigger] self.scopes@[k2]), *name),
            decreases i,
        {
            i -= 1;
            match self.scopes[i].find_local(name) {
                Some(l) => {
                    return Some(l);
                },
                None => {},
            }
        }
        None
    }

    /// Marks the innermost local named `name` as captured and returns the
    /// binding as it was found (capture does not change slot or mutability).
    pub fn mark_captured(&mut self, name: &LocalName) -> (r: Local)
        requires
            nested_wf(old(self)),
            nested_has_local(old(self), *name),
        ensures
            nested_wf(final(self)),
            nested_resolves_to(old(self), *name, r),
            final(self).scopes@.len() == old(self).scopes@.len(),
            forall|k: int|
                0 <= k < old(self).scopes@.len() ==> same_scope_but_locals(
                    &(#[trigger] old(self).scopes@[k]),
                    &final(self).scopes@[k],
                ),
            forall|k: int|
                0 <= k < old(self).scopes@.len() ==> (#[trigger] final(self).scopes@[
                    k
                ]).locals@.len() == old(self).scopes@[k].locals@.len(),
            forall|k: int, i: int|
                0 <= k < old(self).scopes@.len() && 0 <= i < old(self).scopes@[k].locals@.len()
                    ==> {
                    let ol = old(self).scopes@[k].locals@[i];
                    let nl = #[trigger] final(self).scopes@[k].locals@[i];
                    &&& nl.name == ol.name
                    &&& nl.index == ol.index
                    &&& nl.decl == ol.decl
                    &&& (nl == ol || (ol.name == *name && nl == (Local {
                        decl: ol.decl,
                        name: ol.name,
                        index: ol.index,
                        captured: true,
                    })))
                },
            nested_resolves_to(
                final(self),
                *name,
                (Local { decl: r.decl, name: r.name, index: r.index, captured: true }),
            ),
    {
        let n = self.scopes.len();
        let mut i: usize = n;
        while i > 0
            invariant
                0 < i <= n,
                n == self.scopes@.len(),
                *self == *old(self),
                nested_wf(old(self)),
                nested_has_local(old(self), *name),
                forall|k2: int|
                    i <= k2 < n ==> !scope_has_local(&(#[trigger] self.scopes@[k2]), *name),
            decreases i,
        {
            i -= 1;
            let m = self.scopes[i].locals.len();
            let mut j: usize = 0;
            while j < m
                invariant
                    j <= m,
                    i < n,
                    n == self.scopes@.len(),
                    m == self.scopes@[i as int].locals@.len(),
                    *self == *old(self),
                    nested_wf(old(self)),
                    forall|k2: int|
                        i < k2 < n ==> !scope_has_local(&(#[trigger] self.scopes@[k2]), *name),
                    forall|jj: int|
                        0 <= jj < j ==> (#[trigger] self.scopes@[i as int].locals@[jj]).name
                            != *name,
                decreases m - j,
            {
                if self.scopes[i].locals[j].name == *name {
                    let found = self.scopes[i].locals[j];
                    proof {
                        assert(self.scopes@[i as int].locals@.contains(found));
                        assert(scope_has_local(&self.scopes@[i as int], *name));
                    }
                    let updated = Local {
                        decl: found.decl,
                        name: found.name,
                        index: found.index,
                        captured: true,
                    };
                    let mut scope = self.scopes.remove(i);
                    scope.locals[j] = updated;
                    self.scopes.insert(i, scope);
                    proof {
                        assert(final(self).scopes@ =~= old(self).scopes@.update(
                            i as int,
                            final(self).scopes@[i as int],
                        ));
                    }
                    return found;
                }
                j += 1;
            }
            proof {
                assert(!scope_has_local(&self.scopes@[i as int], *name));
            }
            if i == 0 {
                proof {
                    assert(forall|k2: int|
                        0 <= k2 < n ==> !scope_has_local(&(#[trigger] self.scopes@[k2]), *name));
                    assert(false);
                }
            }
        }
        proof {
            assert(false);
        }
        // unreachable: the name is bound in some scope
        Local { decl: DeclType::Immutable, name: *name, index: 0, captured: false }
    }

    /// Resolves a control-flow request to the innermost accepting scope.
    pub fn resolve_control_flow(&self, target: ControlFlowTarget) -> (r: Option<&Scope>)
        ensures
            match r {
                Some(s) => exists|k: int|
                    {
                        &&& 0 <= k < self.scopes@.len()
                        &&& *s == self.scopes@[k]
                        &&& scope_accepts_cf(&(#[trigger] self.scopes@[k]), target)
                        &&& forall|k2: int|
                            k < k2 < self.scopes@.len() ==> !scope_accepts_cf(
                                &(#[trigger] self.scopes@[k2]),
                                target,
                            )
                    },
                None => forall|k: int|
                    0 <= k < self.scopes@.len() ==> !scope_accepts_cf(
                        &(#[trigger] self.scopes@[k]),
                        target,
                    ),
            },
    {
        let n = self.scopes.len();
        let mut i: usize = n;
        while i > 0
            invariant
                i <= n,
                n == self.scopes@.len(),
                forall|k2: int|
                    i <= k2 < n ==> !scope_accepts_cf(&(#[trigger] self.scopes@[k2]), target),
            decreases i,
        {
            i -= 1;
            let scope = &self.scopes[i];
            if scope.tag.accepts_control_flow(target) {
                let label_ok = match (target.label(), &scope.control_flow.label) {
                    (None, _) => true,
                    (Some(want), Some(have)) => want == *have,
                    (Some(_), None) => false,
                };
                if label_ok {
                    return Some(&self.scopes[i]);
                }
            }
        }
        None
    }
}

/// Where an upvalue reads its value: a local slot of the immediately
/// enclosing frame, or an upvalue the enclosing frame has itself captured.
#[derive(Debug, Clone, Copy, PartialEq, Eq, Structural)]
pub enum UpvalueTarget {
    Local(LocalIndex),
    Upvalue(UpvalueIndex),
}

/// A free-variable capture of a call frame.
#[derive(Debug, Clone, Copy, PartialEq, Eq, Structural)]
pub struct Upvalue {
    pub decl: DeclType,
    pub name: LocalName,
    pub index: UpvalueIndex,
    pub target: UpvalueTarget,
}

impl Upvalue {
    /// Mutability of the captured binding.
    pub fn decl(&self) -> (r: DeclType)
        ensures
            r == self.decl,
    {
        self.decl
    }

    /// Name of the captured binding.
    pub fn name(&self) -> (r: LocalName)
        ensures
            r == self.name,
    {
        self.name
    }

    /// This upvalue's index in its frame's upvalue table.
    pub fn index(&self) -> (r: UpvalueIndex)
        ensures
            r == self.index,
    {
        self.index
    }

    /// Where this upvalue reads its value.
    pub fn target(&self) -> (r: UpvalueTarget)
        ensures
            r == self.target,
    {
        self.target
    }
}

/// One function compilation: its own scope stack and upvalue table.
#[derive(Debug)]
pub struct CallFrame {
    pub scopes: NestedScopes,
    pub upvalues: Vec<Upvalue>,
}

/// A frame always keeps its function scope at the bottom; upvalue indices
/// equal their table positions, and each name is captured at most once.
pub open spec fn frame_wf(f: &CallFrame) -> bool {
    &&& nested_wf(&f.scopes)
    &&& f.scopes.scopes@.len() >= 1
    &&& f.scopes.scopes@[0].tag == ScopeTag::Function
    &&& f.upvalues@.len() <= u16::MAX + 1
    &&& forall|i: int|
        0 <= i < f.upvalues@.len() ==> (#[trigger] f.upvalues@[i]).index == i
    &&& forall|i: int, j: int|
        0 <= i < j < f.upvalues@.len() ==> f.upvalues@[i].name != f.upvalues@[j].name
}

/// Whether a frame has already captured `name`.
pub open spec fn frame_has_upval(f: &CallFrame, name: LocalName) -> bool {
    exists|i: int| 0 <= i < f.upvalues@.len() && (#[trigger] f.upvalues@[i]).name == name
}

impl CallFrame {
    /// A fresh frame: one `Function` scope, no upvalues.
    pub fn new(symbol: Option<DebugSymbol>) -> (r: CallFrame)
        ensures
            frame_wf(&r),
            r.upvalues@ == Seq::<Upvalue>::empty(),
            r.scopes.scopes@.len() == 1,
            ({
                let s = r.scopes.scopes@[0];
                &&& s.tag == ScopeTag::Function
                &&& s.depth == 0
                &&& s.symbol == symbol
                &&& s.prev_index is None
                &&& s.locals@ == Seq::<Local>::empty()
                &&& s.control_flow.label is None
                &&& s.control_flow.continue_target is None
                &&& s.control_flow.break_sites@ == Seq::<JumpSite>::empty()
            }),
    {
        let mut scopes = NestedScopes::new();
        scopes.push_scope(symbol, ScopeTag::Function, None);
        CallFrame { scopes, upvalues: Vec::new() }
    }

    /// This frame's upvalues, in creation order.
    pub fn upvalues(&self) -> (r: &[Upvalue])
        ensures
            r@ == self.upvalues@,
    {
        self.upvalues.as_slice()
    }

    /// The upvalue this frame has for `name`, when it has one.
    pub fn find_upval(&self, name: &LocalName) -> (r: Option<Upvalue>)
        ensures
            match r {
                Some(u) => {
                    &&& self.upvalues@.contains(u)
                    &&& u.name == *name
                },
                None => !frame_has_upval(self, *name),
            },
    {
        let n = self.upvalues.len();
        let mut i: usize = 0;
        while i < n
            invariant
                i <= n,
                n == self.upvalues@.len(),
                forall|k: int| 0 <= k < i ==> (#[trigger] self.upvalues@[k]).name != *name,
            decreases n - i,
        {
            if self.upvalues[i].name == *name {
                return Some(self.upvalues[i]);
            }
            i += 1;
        }
        None
    }

    /// Captures `name` in this frame: appends an upvalue under the next
    /// index.  Fails exactly when the table has outgrown the upvalue-index
    /// width.
    pub fn push_upval(&mut self, decl: DeclType, name: LocalName, target: UpvalueTarget) -> (r:
        CompileResult<UpvalueIndex>)
        requires
            frame_wf(old(self)),
            !frame_has_upval(old(self), name),
        ensures
            frame_wf(final(self)),
            final(self).scopes.scopes@ == old(self).scopes.scopes@,
            match r {
                Ok(idx) => {
                    &&& idx == old(self).upvalues@.len()
                    &&& final(self).upvalues@ == old(self).upvalues@.push(
                        (Upvalue { decl, name, index: idx, target }),
                    )
                },
                Err(e) => {
                    &&& final(self).upvalues@ == old(self).upvalues@
                    &&& old(self).upvalues@.len() == u16::MAX + 1
                    &&& e == (CompileError {
                        kind: CompileErrorKind::UpvalueLimit,
                        symbol: None::<DebugSymbol>,
                    })
                },
            },
    {
        let n = self.upvalues.len();
        if n > u16::MAX as usize {
            return Err(CompileError::new(CompileErrorKind::UpvalueLimit));
        }
        let upval = Upvalue { decl, name, index: n as u16, target };
        self.upvalues.push(upval);
        Ok(n as u16)
    }
}

/// Tracks scopes and frames over one whole compilation: the top-level scope
/// stack, and a stack of call frames for nested function definitions.
#[derive(Debug)]
pub struct ScopeTracker {
    pub toplevel: NestedScopes,
    pub frames: Vec<CallFrame>,
}

/// Top-level scopes and every frame are well-formed.
pub open spec fn tracker_wf(t: &ScopeTracker) -> bool {
    &&& nested_wf(&t.toplevel)
    &&& forall|i: int| 0 <= i < t.frames@.len() ==> frame_wf(&(#[trigger] t.frames@[i]))
}

/// The scope stack that name resolution works in: the innermost frame's,
/// or the top-level stack outside any function.
pub open spec fn spec_local_scopes(t: &ScopeTracker) -> Seq<Scope> {
    if t.frames@.len() == 0 {
        t.toplevel.scopes@
    } else {
        t.frames@.last().scopes.scopes@
    }
}

/// Everything of the tracker except the local scope stack is unchanged.
pub open spec fn same_but_local_scopes(o: &ScopeTracker, n: &ScopeTracker) -> bool {
    if o.frames@.len() == 0 {
        n.frames@ == o.frames@
    } else {
        &&& n.toplevel.scopes@ == o.toplevel.scopes@
        &&& n.frames@.len() == o.frames@.len()
        &&& forall|k: int| 0 <= k < o.frames@.len() - 1 ==> n.frames@[k] == o.frames@[k]
        &&& n.frames@.last().upvalues@ == o.frames@.last().upvalues@
    }
}

impl ScopeTracker {
    /// A fresh tracker: no frames, no scopes.
    pub fn new() -> (r: ScopeTracker)
        ensures
            tracker_wf(&r),
            r.toplevel.scopes@ == Seq::<Scope>::empty(),
            r.frames@ == Seq::<CallFrame>::empty(),
    {
        ScopeTracker { toplevel: NestedScopes::new(), frames: Vec::new() }
    }

    /// Whether compilation currently sits in the global scope: no frame and
    /// no open top-level scope.
    pub fn is_global_scope(&self) -> (r: bool)
        ensures
            r == (self.frames@.len() == 0 && self.toplevel.scopes@.len() == 0),
    {
        self.frames.len() == 0 && self.toplevel.is_empty()
    }

    /// Whether compilation currently sits outside any function.
    pub fn is_global_frame(&self) -> (r: bool)
        ensures
            r == (self.frames@.len() == 0),
    {
        self.frames.len() == 0
    }

    /// Enters a function compilation: a new frame with a fresh `Function`
    /// scope.
    pub fn push_frame(&mut self, symbol: Option<DebugSymbol>)
        requires
            tracker_wf(old(self)),
        ensures
            tracker_wf(final(self)),
            final(self).toplevel.scopes@ == old(self).toplevel.scopes@,
            final(self).frames@.len() == old(self).frames@.len() + 1,
            final(self).frames@.drop_last() == old(self).frames@,
            ({
                let f = final(self).frames@.last();
                &&& f.upvalues@ == Seq::<Upvalue>::empty()
                &&& f.scopes.scopes@.len() == 1
                &&& f.scopes.scopes@[0].tag == ScopeTag::Function
                &&& f.scopes.scopes@[0].symbol == symbol
                &&& f.scopes.scopes@[0].locals@ == Seq::<Local>::empty()
            }),
    {
        self.frames.push(CallFrame::new(symbol));
        proof {
            assert(final(self).frames@.drop_last() =~= old(self).frames@);
        }
    }

    /// Leaves a function compilation, returning its frame (with the upvalue
    /// table the emitted closure needs).
    pub fn pop_frame(&mut self) -> (r: CallFrame)
        requires
            tracker_wf(old(self)),
            old(self).frames@.len() > 0,
        ensures
            tracker_wf(final(self)),
            final(self).toplevel.scopes@ == old(self).toplevel.scopes@,
            final(self).frames@ == old(self).frames@.drop_last(),
            r == old(self).frames@.last(),
    {
        self.frames.pop().unwrap()
    }

    /// The innermost scope of the current frame (or of the top level), when
    /// one is open.
    pub fn local_scope(&self) -> (r: Option<&Scope>)
        ensures
            match r {
                Some(s) => spec_local_scopes(self).len() > 0 && *s == spec_local_scopes(
                    self,
                ).last(),
                None => spec_local_scopes(self).len() == 0,
            },
    {
        let nf = self.frames.len();
        if nf == 0 {
            self.toplevel.current_scope()
        } else {
            self.frames[nf - 1].scopes.current_scope()
        }
    }

    /// Opens a scope in the current frame (or at the top level).
    pub fn push_scope(&mut self, symbol: Option<DebugSymbol>, tag: ScopeTag, label: Option<Label>)
        requires
            tracker_wf(old(self)),
        ensures
            tracker_wf(final(self)),
            same_but_local_scopes(old(self), final(self)),
            spec_local_scopes(final(self)).len() == spec_local_scopes(old(self)).len() + 1,
            spec_local_scopes(final(self)).drop_last() == spec_local_scopes(old(self)),
            ({
                let s = spec_local_scopes(final(self)).last();
                &&& s.tag == tag
                &&& s.depth == spec_local_scopes(old(self)).len()
                &&& s.symbol == symbol
                &&& s.prev_index == (if spec_local_scopes(old(self)).len() == 0 {
                    None::<LocalIndex>
                } else {
                    spec_local_scopes(old(self)).last().spec_last_index()
                })
                &&& s.locals@ == Seq::<Local>::empty()
                &&& s.control_flow.label == label
                &&& s.control_flow.continue_target is None
                &&& s.control_flow.break_sites@ == Seq::<JumpSite>::empty()
            }),
    {
        let nf = self.frames.len();
        if nf == 0 {
            self.toplevel.push_scope(symbol, tag, label);
        } else {
            let mut frame = self.frames.pop().unwrap();
            frame.scopes.push_scope(symbol, tag, label);
            self.frames.push(frame);
            proof {
                assert(final(self).frames@.drop_last() =~= old(self).frames@.drop_last());
                assert(forall|k: int|
                    0 <= k < old(self).frames@.len() - 1 ==> final(self).frames@[k] == old(
                        self,
                    ).frames@[k]);
            }
        }
    }

    /// Closes the innermost scope and returns it.  A frame's function scope
    /// is never popped this way: it leaves with the frame itself.
    pub fn pop_scope(&mut self) -> (r: Scope)
        requires
            tracker_wf(old(self)),
            old(self).frames@.len() == 0 ==> old(self).toplevel.scopes@.len() > 0,
            old(self).frames@.len() > 0 ==> old(self).frames@.last().scopes.scopes@.len() > 1,
        ensures
            tracker_wf(final(self)),
            same_but_local_scopes(old(self), final(self)),
            spec_local_scopes(final(self)) == spec_local_scopes(old(self)).drop_last(),
            r == spec_local_scopes(old(self)).last(),
    {
        let nf = self.frames.len();
        if nf == 0 {
            self.toplevel.pop_scope()
        } else {
            let mut frame = self.frames.pop().unwrap();
            let scope = frame.scopes.pop_scope();
            self.frames.push(frame);
            proof {
                assert(final(self).frames@.drop_last() =~= old(self).frames@.drop_last());
                assert(forall|k: int|
                    0 <= k < old(self).frames@.len() - 1 ==> final(self).frames@[k] == old(
                        self,
                    ).frames@[k]);
            }
            scope
        }
    }

    /// Declares a binding in the innermost scope of the current frame.
    pub fn insert_local(&mut self, decl: DeclType, name: LocalName) -> (r: CompileResult<
        InsertLocal,
    >)
        requires
            tracker_wf(old(self)),
            spec_local_scopes(old(self)).len() > 0,
        ensures
            tracker_wf(final(self)),
            same_but_local_scopes(old(self), final(self)),
            spec_local_scopes(final(self)).len() == spec_local_scopes(old(self)).len(),
            spec_local_scopes(final(self)).drop_last() == spec_local_scopes(old(self)).drop_last(),
            same_scope_but_locals(
                &spec_local_scopes(old(self)).last(),
                &spec_local_scopes(final(self)).last(),
            ),
            spec_inserted(
                spec_local_scopes(old(self)).last().locals@,
                spec_local_scopes(final(self)).last().locals@,
                scope_base_index(&spec_local_scopes(old(self)).last()),
                decl,
                name,
                r,
            ),
    {
        let nf = self.frames.len();
        if nf == 0 {
            let mut scope = self.toplevel.scopes.pop().unwrap();
            let r = scope.insert_local(decl, name);
            self.toplevel.scopes.push(scope);
            proof {
                assert(final(self).toplevel.scopes@.drop_last() =~= old(
                    self,
                ).toplevel.scopes@.drop_last());
            }
            r
        } else {
            let mut frame = self.frames.pop().unwrap();
            let mut scope = frame.scopes.scopes.pop().unwrap();
            let r = scope.insert_local(decl, name);
            frame.scopes.scopes.push(scope);
            self.frames.push(frame);
            proof {
                assert(final(self).frames@.drop_last() =~= old(self).frames@.drop_last());
                assert(forall|k: int|
                    0 <= k < old(self).frames@.len() - 1 ==> final(self).frames@[k] == old(
                        self,
                    ).frames@[k]);
                assert(final(self).frames@.last().scopes.scopes@.drop_last() =~= old(
                    self,
                ).frames@.last().scopes.scopes@.drop_last());
            }
            r
        }
    }

    /// Resolves `name` against the current frame's scopes only, innermost
    /// first: locals of enclosing functions are not visible here (they are
    /// reached as upvalues instead).
    pub fn resolve_local(&self, name: &LocalName) -> (r: Option<Local>)
        requires
            tracker_wf(self),
        ensures
            match r {
                Some(l) => exists|k: int|
                    {
                        &&& 0 <= k < spec_local_scopes(self).len()
                        &&& (#[trigger] spec_local_scopes(self)[k]).locals@.contains(l)
                        &&& l.name == *name
                        &&& forall|k2: int|
                            k < k2 < spec_local_scopes(self).len() ==> !scope_has_local(
                                &(#[trigger] spec_local_scopes(self)[k2]),
                                *name,
                            )
                    },
                None => forall|k: int|
                    0 <= k < spec_local_scopes(self).len() ==> !scope_has_local(
                        &(#[trigger] spec_local_scopes(self)[k]),
                        *name,
                    ),
            },
    {
        let nf = self.frames.len();
        if nf == 0 {
            proof {
                assert(spec_local_scopes(self) == self.toplevel.scopes@);
            }
            self.toplevel.resolve_local(name)
        } else {
            proof {
                assert(spec_local_scopes(self) == self.frames@[nf - 1].scopes.scopes@);
            }
            self.frames[nf - 1].scopes.resolve_local(name)
        }
    }

    /// Resolves a `break`/`continue` request to the innermost scope of the
    /// current frame that accepts it: a `Loop` accepts both kinds, a `Block`
    /// only `break`, and a labeled request additionally needs the matching
    /// label.  The search never crosses a function-frame boundary, so control
    /// flow cannot leave the enclosing function.
    #[verifier::rlimit(50)]
    pub fn resolve_control_flow(&self, target: ControlFlowTarget) -> (r: Option<&Scope>)
        requires
            tracker_wf(self),
        ensures
            match r {
                Some(s) => exists|k: int|
                    {
                        &&& 0 <= k < spec_local_scopes(self).len()
                        &&& *s == spec_local_scopes(self)[k]
                        &&& scope_accepts_cf(&(#[trigger] spec_local_scopes(self)[k]), target)
                        &&& forall|k2: int|
                            k < k2 < spec_local_scopes(self).len() ==> !scope_accepts_cf(
                                &(#[trigger] spec_local_scopes(self)[k2]),
                                target,
                            )
                    },
                None => forall|k: int|
                    0 <= k < spec_local_scopes(self).len() ==> !scope_accepts_cf(
                        &(#[trigger] spec_local_scopes(self)[k]),
                        target,
                    ),
            },
    {
        let nf = self.frames.len();
        if nf == 0 {
            proof {
                assert(spec_local_scopes(self) == self.toplevel.scopes@);
            }
            self.toplevel.resolve_control_flow(target)
        } else {
            proof {
                assert(spec_local_scopes(self) == self.frames@[nf - 1].scopes.scopes@);
            }
            self.frames[nf - 1].scopes.resolve_control_flow(target)
        }
    }
}

/// The scope stack a frame's free names resolve against: the enclosing
/// frame's scopes, or the top-level scopes for the outermost frame.
pub open spec fn enclosing_scopes(t: &ScopeTracker, j: int) -> Seq<Scope> {
    if j == 0 {
        t.toplevel.scopes@
    } else {
        t.frames@[j - 1].scopes.scopes@
    }
}

/// Whether any scope of the sequence holds a local named `name`.
pub open spec fn scopes_have_local(ss: Seq<Scope>, name: LocalName) -> bool {
    exists|k: int| 0 <= k < ss.len() && scope_has_local(&(#[trigger] ss[k]), name)
}

/// What resolving `name` against a scope sequence returns: the local of the
/// innermost scope that binds it.
pub open spec fn scopes_resolve_to(ss: Seq<Scope>, name: LocalName, l: Local) -> bool {
    exists|k: int|
        {
            &&& 0 <= k < ss.len()
            &&& (#[trigger] ss[k]).locals@.contains(l)
            &&& l.name == name
            &&& forall|k2: int| k < k2 < ss.len() ==> !scope_has_local(&(#[trigger] ss[k2]), name)
        }
}

/// Whether resolving `name` from frame `j` bottoms out at frame `j` itself:
/// either the frame has captured the name already, or the name is a local of
/// the scopes enclosing frame `j`.
pub open spec fn name_reaches_frame(t: &ScopeTracker, name: LocalName, j: int) -> bool {
    ||| frame_has_upval(&t.frames@[j], name)
    ||| scopes_have_local(enclosing_scopes(t, j), name)
}

/// The innermost frame at which resolving `name` from frame `j` bottoms
/// out, or -1 when the name is not bound anywhere below.
pub open spec fn origin_frame(t: &ScopeTracker, name: LocalName, j: int) -> int
    decreases j + 1,
{
    if j < 0 {
        -1
    } else if name_reaches_frame(t, name, j) {
        j
    } else {
        origin_frame(t, name, j - 1)
    }
}

/// The upvalue a frame has for `name` (unique in a well-formed frame).
pub open spec fn upval_named(f: &CallFrame, name: LocalName) -> Upvalue {
    choose|u: Upvalue| f.upvalues@.contains(u) && u.name == name
}

/// In a well-formed frame, an upvalue is pinned by its name.
pub proof fn lemma_upval_named_unique(f: &CallFrame, name: LocalName, u: Upvalue)
    requires
        frame_wf(f),
        f.upvalues@.contains(u),
        u.name == name,
    ensures
        upval_named(f, name) == u,
        frame_has_upval(f, name),
{
    let i = choose|i: int| 0 <= i < f.upvalues@.len() && f.upvalues@[i] == u;
    assert(f.upvalues@[i].name == name);
    assert(frame_has_upval(f, name));
    let w = upval_named(f, name);
    assert(f.upvalues@.contains(u) && u.name == name);
    assert(f.upvalues@.contains(w) && w.name == name);
    let iw = choose|k: int| 0 <= k < f.upvalues@.len() && f.upvalues@[k] == w;
    if i != iw {
        assert(f.upvalues@[i].name != f.upvalues@[iw].name);
        assert(false);
    }
}

/// A well-formed frame's upvalue for `name` sits at the index it carries.
pub proof fn lemma_upval_named_valid(f: &CallFrame, name: LocalName)
    requires
        frame_wf(f),
        frame_has_upval(f, name),
    ensures
        ({
            let u = upval_named(f, name);
            &&& 0 <= u.index < f.upvalues@.len()
            &&& f.upvalues@[u.index as int] == u
            &&& u.name == name
        }),
{
    let i0 = choose|i: int| 0 <= i < f.upvalues@.len() && (#[trigger] f.upvalues@[i]).name == name;
    assert(f.upvalues@.contains(f.upvalues@[i0]));
    let u = upval_named(f, name);
    assert(f.upvalues@.contains(u) && u.name == name);
    let iu = choose|i: int| 0 <= i < f.upvalues@.len() && #[trigger] f.upvalues@[i] == u;
    assert(f.upvalues@[iu].index == iu);
    assert(u.index == iu);
}

/// The origin search bottoms out at the innermost frame that reaches the
/// name.
proof fn lemma_origin_found(t: &ScopeTracker, name: LocalName, top: int, j: int)
    requires
        0 <= j <= top < t.frames@.len(),
        name_reaches_frame(t, name, j),
        forall|k: int| j < k <= top ==> !name_reaches_frame(t, name, k),
    ensures
        origin_frame(t, name, top) == j,
    decreases top - j,
{
    if top == j {
    } else {
        lemma_origin_found(t, name, top - 1, j);
    }
}

/// When no frame at or below `top` reaches the name, the origin is -1.
proof fn lemma_origin_none(t: &ScopeTracker, name: LocalName, top: int)
    requires
        top < t.frames@.len(),
        forall|k: int| 0 <= k <= top ==> !name_reaches_frame(t, name, k),
    ensures
        origin_frame(t, name, top) == -1,
    decreases top + 1,
{
    if top >= 0 {
        lemma_origin_none(t, name, top - 1);
    }
}

/// The origin never lies above the frame the search starts from.
proof fn lemma_origin_bound(t: &ScopeTracker, name: LocalName, j: int)
    requires
        j >= -1,
    ensures
        origin_frame(t, name, j) <= j,
    decreases j + 1,
{
    if j >= 0 && !name_reaches_frame(t, name, j) {
        lemma_origin_bound(t, name, j - 1);
    }
}

/// No frame strictly above the origin reaches the name.
proof fn lemma_origin_above_reaches(t: &ScopeTracker, name: LocalName, top: int, j: int)
    requires
        0 <= j <= top < t.frames@.len(),
        origin_frame(t, name, top) == j,
    ensures
        forall|k: int| j < k <= top ==> !name_reaches_frame(t, name, k),
    decreases top - j,
{
    if top > j {
        if name_reaches_frame(t, name, top) {
            assert(origin_frame(t, name, top) == top);
        } else {
            lemma_origin_above_reaches(t, name, top - 1, j);
        }
    }
}

/// No frame strictly above the origin reaches the name, and the origin
/// itself does.
proof fn lemma_origin_above(t: &ScopeTracker, name: LocalName, top: int, j: int)
    requires
        0 <= j <= top < t.frames@.len(),
        origin_frame(t, name, top) == j,
    ensures
        forall|k: int| j < k <= top ==> !name_reaches_frame(t, name, k),
        forall|k: int| j < k <= top ==> !frame_has_upval(&t.frames@[k], name),
        name_reaches_frame(t, name, j),
    decreases top - j,
{
    assert forall|k: int| j < k <= top implies !frame_has_upval(&t.frames@[k], name) by {
        lemma_origin_above_reaches(t, name, top, j);
        assert(!name_reaches_frame(t, name, k));
    }
    if top == j {
        if !name_reaches_frame(t, name, j) {
            lemma_origin_bound(t, name, j - 1);
            assert(false);
        }
    } else {
        if name_reaches_frame(t, name, top) {
            assert(origin_frame(t, name, top) == top);
        } else {
            lemma_origin_above(t, name, top - 1, j);
        }
    }
}

/// Two scope sequences agree on everything but capture flags: same scopes,
/// same bindings (name, slot, mutability) in the same places.
pub open spec fn scopes_flags_only(o: Seq<Scope>, n: Seq<Scope>) -> bool {
    &&& n.len() == o.len()
    &&& forall|k: int|
        0 <= k < o.len() ==> same_scope_but_locals(&(#[trigger] o[k]), &n[k])
    &&& forall|k: int|
        0 <= k < o.len() ==> (#[trigger] n[k]).locals@.len() == o[k].locals@.len()
    &&& forall|k: int, i: int|
        0 <= k < o.len() && 0 <= i < o[k].locals@.len() ==> {
            let ol = o[k].locals@[i];
            let nl = #[trigger] n[k].locals@[i];
            &&& nl.name == ol.name
            &&& nl.index == ol.index
            &&& nl.decl == ol.decl
        }
}

/// When the origin frame already held an upvalue for the name, nothing at or
/// below the origin changes.
pub open spec fn upval_origin_existing(
    o: &ScopeTracker,
    n: &ScopeTracker,
    name: LocalName,
    org: int,
) -> bool {
    &&& frame_has_upval(&o.frames@[org], name)
    &&& n.toplevel.scopes@ == o.toplevel.scopes@
    &&& forall|m: int| 0 <= m <= org ==> #[trigger] n.frames@[m] == o.frames@[m]
}

/// When the origin frame captured the name from its enclosing scopes: the
/// origin gains exactly one upvalue, at the next index, whose target is the
/// slot of the innermost enclosing local binding the name, now marked
/// captured; every other binding keeps name, slot, mutability and flag, and
/// nothing else at or below the origin changes.
pub open spec fn upval_origin_local(
    o: &ScopeTracker,
    n: &ScopeTracker,
    name: LocalName,
    org: int,
) -> bool {
    let nu = n.frames@[org].upvalues@.last();
    &&& !frame_has_upval(&o.frames@[org], name)
    &&& n.frames@[org].upvalues@ == o.frames@[org].upvalues@.push(nu)
    &&& nu.name == name
    &&& nu.index == o.frames@[org].upvalues@.len()
    &&& (nu.target matches UpvalueTarget::Local(slot) && scopes_resolve_to(
        enclosing_scopes(n, org),
        name,
        (Local { decl: nu.decl, name, index: slot, captured: true }),
    ))
    &&& scopes_flags_only(enclosing_scopes(o, org), enclosing_scopes(n, org))
    &&& n.frames@[org].scopes.scopes@ == o.frames@[org].scopes.scopes@
    &&& (org > 0 ==> {
        &&& n.toplevel.scopes@ == o.toplevel.scopes@
        &&& forall|m: int| 0 <= m < org - 1 ==> #[trigger] n.frames@[m] == o.frames@[m]
        &&& n.frames@[org - 1].upvalues@ == o.frames@[org - 1].upvalues@
    })
}

/// One link of the capture chain: frame `k` gains exactly one upvalue, at
/// the next index, chained to the upvalue the frame below holds for the
/// name; its scopes are untouched.
pub open spec fn upval_chain_step(
    o: &ScopeTracker,
    n: &ScopeTracker,
    name: LocalName,
    k: int,
) -> bool {
    &&& !frame_has_upval(&o.frames@[k], name)
    &&& n.frames@[k].scopes.scopes@ == o.frames@[k].scopes.scopes@
    &&& n.frames@[k].upvalues@ == o.frames@[k].upvalues@.push(
        (Upvalue {
            decl: upval_named(&n.frames@[k - 1], name).decl,
            name,
            index: o.frames@[k].upvalues@.len() as u16,
            target: UpvalueTarget::Upvalue(upval_named(&n.frames@[k - 1], name).index),
        }),
    )
}

/// A resolution against a stack of scopes carries over to its view.
proof fn lemma_nested_to_scopes_resolve(ns: &NestedScopes, name: LocalName, l: Local)
    requires
        nested_resolves_to(ns, name, l),
    ensures
        scopes_resolve_to(ns.scopes@, name, l),
        l.name == name,
{
    let k = choose|k: int|
        {
            &&& 0 <= k < ns.scopes@.len()
            &&& (#[trigger] ns.scopes@[k]).locals@.contains(l)
            &&& l.name == name
            &&& forall|k2: int|
                k < k2 < ns.scopes@.len() ==> !scope_has_local(&(#[trigger] ns.scopes@[k2]), name)
        };
    assert(0 <= k < ns.scopes@.len() && ns.scopes@[k].locals@.contains(l));
}

impl ScopeTracker {
    /// The frame at which resolving `name` from the innermost frame bottoms
    /// out, and the existing upvalue index there when that frame has already
    /// captured the name.
    fn find_origin(&self, name: &LocalName) -> (r: Option<(usize, Option<UpvalueIndex>)>)
        requires
            tracker_wf(self),
            self.frames@.len() > 0,
        ensures
            match r {
                Some((org, ex)) => {
                    &&& org < self.frames@.len()
                    &&& org == origin_frame(self, *name, self.frames@.len() - 1)
                    &&& match ex {
                        Some(idx) => {
                            &&& frame_has_upval(&self.frames@[org as int], *name)
                            &&& upval_named(&self.frames@[org as int], *name).index == idx
                        },
                        None => {
                            &&& !frame_has_upval(&self.frames@[org as int], *name)
                            &&& scopes_have_local(enclosing_scopes(self, org as int), *name)
                        },
                    }
                },
                None => origin_frame(self, *name, self.frames@.len() - 1) == -1,
            },
    {
        let top = self.frames.len() - 1;
        let mut j = top + 1;
        while j > 0
            invariant
                tracker_wf(self),
                top == self.frames@.len() - 1,
                j <= top + 1,
                forall|k: int| j <= k <= top ==> !name_reaches_frame(self, *name, k),
            decreases j,
        {
            j -= 1;
            match self.frames[j].find_upval(name) {
                Some(u) => {
                    proof {
                        lemma_upval_named_unique(&self.frames@[j as int], *name, u);
                        lemma_origin_found(self, *name, top as int, j as int);
                    }
                    return Some((j, Some(u.index)));
                },
                None => {},
            }
            let local_found = if j == 0 {
                self.toplevel.resolve_local(name)
            } else {
                self.frames[j - 1].scopes.resolve_local(name)
            };
            match local_found {
                Some(l) => {
                    proof {
                        let ns = if j == 0 {
                            &self.toplevel
                        } else {
                            &self.frames@[j - 1].scopes
                        };
                        assert(nested_resolves_to(ns, *name, l));
                        let k = choose|k: int|
                            {
                                &&& 0 <= k < ns.scopes@.len()
                                &&& (#[trigger] ns.scopes@[k]).locals@.contains(l)
                                &&& l.name == *name
                                &&& forall|k2: int|
                                    k < k2 < ns.scopes@.len() ==> !scope_has_local(
                                        &(#[trigger] ns.scopes@[k2]),
                                        *name,
                                    )
                            };
                        let li = choose|li: int|
                            0 <= li < ns.scopes@[k].locals@.len() && ns.scopes@[k].locals@[li] == l;
                        assert(scope_has_local(&ns.scopes@[k], *name));
                        assert(scopes_have_local(enclosing_scopes(self, j as int), *name));
                        lemma_origin_found(self, *name, top as int, j as int);
                    }
                    return Some((j, None));
                },
                None => {},
            }
            proof {
                assert(!frame_has_upval(&self.frames@[j as int], *name));
                assert(!nested_has_local(
                    if j == 0 {
                        &self.toplevel
                    } else {
                        &self.frames@[j - 1].scopes
                    },
                    *name,
                ));
                assert(!scopes_have_local(enclosing_scopes(self, j as int), *name)) by {
                    if scopes_have_local(enclosing_scopes(self, j as int), *name) {
                        let k = choose|k: int|
                            0 <= k < enclosing_scopes(self, j as int).len() && scope_has_local(
                                &(#[trigger] enclosing_scopes(self, j as int)[k]),
                                *name,
                            );
                        assert(false);
                    }
                };
                assert(!name_reaches_frame(self, *name, j as int));
            }
        }
        proof {
            lemma_origin_none(self, *name, top as int);
        }
        None
    }




    /// Resolves `name` as an upvalue of the innermost frame, capturing it
    /// along the way where needed.
    ///
    /// When the frame has already captured `name`, the existing upvalue is
    /// returned and nothing changes.  Otherwise the enclosing frames are
    /// searched outward for the innermost frame that can supply the name
    /// (the origin): the originating local is marked captured, the origin
    /// frame gains one upvalue targeting its slot, and every frame from
    /// there down to the requesting frame gains exactly one upvalue chained
    /// to the one below it.  `Ok(None)` exactly when the name is bound
    /// nowhere below (the caller must then treat it as a global), and then
    /// nothing changes.  An upvalue table that would outgrow its index width
    /// is an internal-limit error, reported before anything is recorded.
    #[verifier::rlimit(100)]
    #[verifier::spinoff_prover]
    pub fn resolve_or_create_upval(&mut self, name: &LocalName) -> (r: CompileResult<
        Option<Upvalue>,
    >)
        requires
            tracker_wf(old(self)),
        ensures
            tracker_wf(final(self)),
            final(self).frames@.len() == old(self).frames@.len(),
            match r {
                Ok(None) => {
                    &&& old(self).frames@.len() > 0 ==> origin_frame(
                        old(self),
                        *name,
                        old(self).frames@.len() - 1,
                    ) == -1
                    &&& old(self).frames@.len() > 0 ==> !frame_has_upval(
                        &old(self).frames@.last(),
                        *name,
                    )
                    &&& final(self).toplevel.scopes@ == old(self).toplevel.scopes@
                    &&& final(self).frames@ == old(self).frames@
                },
                Ok(Some(u)) => {
                    &&& old(self).frames@.len() > 0
                    &&& ({
                        let top = old(self).frames@.len() - 1;
                        let org = origin_frame(old(self), *name, top);
                        &&& 0 <= org <= top
                        &&& (upval_origin_existing(old(self), final(self), *name, org)
                            || upval_origin_local(old(self), final(self), *name, org))
                        &&& forall|m: int|
                            org < m <= top ==> #[trigger] upval_chain_step(
                                old(self),
                                final(self),
                                *name,
                                m,
                            )
                    })
                    &&& u.name == *name
                    &&& frame_has_upval(&final(self).frames@.last(), *name)
                    &&& u == upval_named(&final(self).frames@.last(), *name)
                    &&& u.index < final(self).frames@.last().upvalues@.len()
                    &&& final(self).frames@.last().upvalues@[u.index as int] == u
                    &&& (frame_has_upval(&old(self).frames@.last(), *name) ==> {
                        &&& final(self).toplevel.scopes@ == old(self).toplevel.scopes@
                        &&& final(self).frames@ == old(self).frames@
                        &&& u == upval_named(&old(self).frames@.last(), *name)
                    })
                },
                Err(e) => {
                    &&& e == (CompileError {
                        kind: CompileErrorKind::UpvalueLimit,
                        symbol: None::<DebugSymbol>,
                    })
                    &&& old(self).frames@.len() > 0
                    &&& ({
                        let top = old(self).frames@.len() - 1;
                        let org = origin_frame(old(self), *name, top);
                        &&& org >= 0
                        &&& exists|m: int|
                            org <= m <= top && (#[trigger] old(self).frames@[
                                m
                            ]).upvalues@.len() > u16::MAX
                    })
                    &&& final(self).toplevel.scopes@ == old(self).toplevel.scopes@
                    &&& final(self).frames@ == old(self).frames@
                },
            },
    {
        let nf = self.frames.len();
        if nf == 0 {
            return Ok(None);
        }
        let top = nf - 1;
        let (org, existing) = match self.find_origin(name) {
            None => {
                return Ok(None);
            },
            Some(p) => p,
        };
        proof {
            lemma_origin_above(self, *name, top as int, org as int);
        }
        // an upvalue the frame already has is returned as it is
        if org == top {
            if let Some(idx) = existing {
                proof {
                    lemma_upval_named_valid(&self.frames@[top as int], *name);
                }
                return Ok(Some(self.frames[top].upvalues[idx as usize]));
            }
        }
        // every frame that will receive a new upvalue must have room; check
        // them all up front so a limit error leaves the tracker untouched
        let first_new = if existing.is_some() {
            org + 1
        } else {
            org
        };
        let mut k = first_new;
        let mut room = true;
        while k <= top
            invariant
                *self == *old(self),
                top == self.frames@.len() - 1,
                self.frames@.len() <= usize::MAX,
                org <= first_new <= k,
                k <= top + 1,
                room ==> forall|m: int|
                    first_new <= m < k ==> (#[trigger] self.frames@[m]).upvalues@.len()
                        <= u16::MAX,
                !room ==> exists|m: int|
                    first_new <= m <= top && (#[trigger] self.frames@[m]).upvalues@.len()
                        > u16::MAX,
            decreases top + 1 - k,
        {
            if self.frames[k].upvalues.len() > u16::MAX as usize {
                room = false;
                k = top;
            }
            k += 1;
        }
        if !room {
            return Err(CompileError::new(CompileErrorKind::UpvalueLimit));
        }
        // capture at the origin frame when it has no upvalue for the name yet
        let mut cur: UpvalueIndex = match existing {
            Some(idx) => idx,
            None => {
                let local = if org == 0 {
                    let l = self.toplevel.mark_captured(name);
                    proof {
                        lemma_nested_to_scopes_resolve(
                            &self.toplevel,
                            *name,
                            (Local { decl: l.decl, name: l.name, index: l.index, captured: true }),
                        );
                    }
                    l
                } else {
                    let mut enclosing = self.frames.remove(org - 1);
                    let l = enclosing.scopes.mark_captured(name);
                    proof {
                        lemma_nested_to_scopes_resolve(
                            &enclosing.scopes,
                            *name,
                            (Local { decl: l.decl, name: l.name, index: l.index, captured: true }),
                        );
                    }
                    self.frames.insert(org - 1, enclosing);
                    proof {
                        assert(self.frames@ =~= old(self).frames@.update(
                            org - 1,
                            self.frames@[org - 1],
                        ));
                    }
                    l
                };
                let mut frame = self.frames.remove(org);
                let res = frame.push_upval(local.decl, *name, UpvalueTarget::Local(local.index));
                let idx = match res {
                    Ok(idx) => idx,
                    Err(_) => {
                        proof {
                            assert(false);
                        }
                        0
                    },
                };
                self.frames.insert(org, frame);
                proof {
                    lemma_upval_named_unique(
                        &self.frames@[org as int],
                        *name,
                        self.frames@[org as int].upvalues@.last(),
                    );
                }
                idx
            },
        };
        let ghost mid = *self;
        proof {
            assert(upval_origin_existing(old(self), &mid, *name, org as int) || upval_origin_local(
                old(self),
                &mid,
                *name,
                org as int,
            ));
            assert(frame_has_upval(&self.frames@[org as int], *name));
            assert(upval_named(&self.frames@[org as int], *name).index == cur);
        }
        // chain the capture down through the frames above the origin
        let mut kk = org + 1;
        while kk <= top
            invariant
                tracker_wf(self),
                tracker_wf(old(self)),
                0 <= org < kk <= top + 1,
                top == self.frames@.len() - 1,
                self.frames@.len() <= usize::MAX,
                self.frames@.len() == old(self).frames@.len(),
                mid.frames@.len() == old(self).frames@.len(),
                self.toplevel.scopes@ == mid.toplevel.scopes@,
                forall|m: int| 0 <= m <= org ==> #[trigger] self.frames@[m] == mid.frames@[m],
                forall|m: int|
                    kk <= m <= top ==> #[trigger] self.frames@[m] == old(self).frames@[m],
                forall|m: int|
                    org < m <= top ==> (#[trigger] old(self).frames@[m]).upvalues@.len()
                        <= u16::MAX,
                forall|m: int| org < m <= top ==> !frame_has_upval(&old(self).frames@[m], *name),
                !frame_has_upval(&old(self).frames@.last(), *name),
                upval_origin_existing(old(self), &mid, *name, org as int) || upval_origin_local(
                    old(self),
                    &mid,
                    *name,
                    org as int,
                ),
                forall|m: int|
                    org < m < kk ==> #[trigger] upval_chain_step(old(self), self, *name, m),
                frame_has_upval(&self.frames@[kk - 1], *name),
                upval_named(&self.frames@[kk - 1], *name).index == cur,
            decreases top + 1 - kk,
        {
            let ghost pre = *self;
            let prev_len = self.frames[kk - 1].upvalues.len();
            proof {
                lemma_upval_named_valid(&self.frames@[kk - 1], *name);
                assert(cur < prev_len);
            }
            let prev = self.frames[kk - 1].upvalues[cur as usize];
            let mut frame = self.frames.remove(kk);
            let res = frame.push_upval(prev.decl, *name, UpvalueTarget::Upvalue(cur));
            let idx = match res {
                Ok(idx) => idx,
                Err(_) => {
                    proof {
                        assert(false);
                    }
                    0
                },
            };
            self.frames.insert(kk, frame);
            proof {
                assert(self.frames@ =~= pre.frames@.update(kk as int, self.frames@[kk as int]));
                lemma_upval_named_unique(
                    &self.frames@[kk as int],
                    *name,
                    self.frames@[kk as int].upvalues@.last(),
                );
                assert(prev == upval_named(&self.frames@[kk - 1], *name));
                assert(upval_chain_step(old(self), self, *name, kk as int));
                assert forall|m: int| org < m < kk implies #[trigger] upval_chain_step(
                    old(self),
                    self,
                    *name,
                    m,
                ) by {
                    assert(upval_chain_step(old(self), &pre, *name, m));
                    assert(self.frames@[m] == pre.frames@[m]);
                    assert(self.frames@[m - 1] == pre.frames@[m - 1]);
                }
            }
            cur = idx;
            kk += 1;
        }
        proof {
            lemma_upval_named_valid(&self.frames@[top as int], *name);
            if upval_origin_existing(old(self), &mid, *name, org as int) {
                assert(upval_origin_existing(old(self), self, *name, org as int));
            } else {
                assert(enclosing_scopes(self, org as int) == enclosing_scopes(&mid, org as int));
                assert(self.frames@[org as int] == mid.frames@[org as int]);
                assert(upval_origin_local(old(self), self, *name, org as int));
            }
        }
        let result = self.frames[top].upvalues[cur as usize];
        Ok(Some(result))
    }
}

/// Local slot monotonicity: two consecutive fresh declarations in one scope
/// take consecutive slot indices, starting one past the enclosing scope's
/// last slot (`base`), which is 0 at the start of a function frame.
pub proof fn lemma_local_slot_monotonicity(
    l1: Seq<Local>,
    l2: Seq<Local>,
    l3: Seq<Local>,
    base: int,
    d1: DeclType,
    d2: DeclType,
    n1: LocalName,
    n2: LocalName,
)
    requires
        0 <= base <= u16::MAX,
        spec_inserted(l1, l2, base, d1, n1, Ok(InsertLocal::CreateNew)),
        spec_inserted(l2, l3, base, d2, n2, Ok(InsertLocal::CreateNew)),
    ensures
        l2.last().index == base + l1.len(),
        l3.last().index == l2.last().index + 1,
        l1.len() == 0 ==> l2.last().index == base,
{
    let x1 = Local { decl: d1, name: n1, index: (base + l1.len()) as u16, captured: false };
    assert(l2 == l1.push(x1));
    assert(l2[l1.len() as int] == x1);
    assert(l2.last() == x1);
    let x2 = Local { decl: d2, name: n2, index: (base + l2.len()) as u16, captured: false };
    assert(l3 == l2.push(x2));
    assert(l3[l2.len() as int] == x2);
    assert(l3.last() == x2);
}

/// Shadowing vs redeclaration: declaring a name that already exists in the
/// same scope reuses its slot in place (with the new mutability), and every
/// other binding of the scope is untouched.
pub proof fn lemma_redeclaration_reuses_slot(
    l1: Seq<Local>,
    l2: Seq<Local>,
    base: int,
    d: DeclType,
    n: LocalName,
    idx: LocalIndex,
)
    requires
        spec_inserted(l1, l2, base, d, n, Ok(InsertLocal::HideExisting(idx))),
    ensures
        l2.len() == l1.len(),
        exists|p: int|
            {
                &&& 0 <= p < l1.len()
                &&& (#[trigger] l1[p]).name == n
                &&& l1[p].index == idx
                &&& l2[p].index == idx
                &&& l2[p].name == n
                &&& l2[p].decl == d
                &&& forall|q: int| 0 <= q < l1.len() && q != p ==> l2[q] == l1[q]
            },
{
    let p = choose|p: int|
        {
            &&& 0 <= p < l1.len()
            &&& (#[trigger] l1[p]).name == n
            &&& idx == l1[p].index
            &&& l2 == l1.update(
                p,
                (Local { decl: d, name: l1[p].name, index: l1[p].index, captured: l1[p].captured }),
            )
        };
    assert(l2[p].index == idx);
}

/// Control-flow scoping: an unlabeled `break` is accepted by `Loop` and
/// `Block` scopes and nothing else; an unlabeled `continue` only by a
/// `Loop`.  Together with `resolve_control_flow`, which searches only the
/// current frame's scopes innermost-first, this pins the nearest-acceptor
/// rule and that control flow never crosses a function-frame boundary.
pub proof fn lemma_control_flow_acceptance(s: Scope)
    ensures
        scope_accepts_cf(&s, ControlFlowTarget::Break(None::<Label>)) <==> (s.tag is Loop
            || s.tag is Block),
        scope_accepts_cf(&s, ControlFlowTarget::Continue(None::<Label>)) <==> s.tag is Loop,
{
}


} // verus!