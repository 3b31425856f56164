//! A context cell: a storage slot that starts empty, is filled once by
//! application startup code, and is then read or mutated in place from
//! anywhere that can see it. Access to an empty cell is ruled out by the
//! access functions' preconditions, so every verified caller either proves
//! the cell initialized or tests `is_initialized` first.

use vstd::prelude::*;

verus! {

/// One operation of the cell's access surface, as a value, so that facts
/// about whole sequences of operations can be stated and proved.
///
/// `Initialize` carries the value stored; `Write` carries the value that a
/// write access leaves behind its mutable reference; `Read` is a read
/// access, which changes nothing.
pub enum Op<T> {
    Initialize(T),
    Read,
    Write(T),
}

/// A process-wide storage slot for a single value of type `T`.
///
/// The payload starts `None` (the cell is *absent*) and becomes `Some`
/// (the cell is *present*) when `initialize` runs; no operation ever
/// returns it to `None`.
pub struct WithContext<T> {
    pub context: Option<T>,
}

impl<T> WithContext<T> {
    /// Whether the cell currently holds a value.
    pub open spec fn spec_is_initialized(&self) -> bool {
        self.context is Some
    }

    /// The value the cell holds; meaningful only once it is initialized.
    pub open spec fn value(&self) -> T
        recommends
            self.spec_is_initialized(),
    {
        self.context->0
    }

    /// Declare a context: a fresh, still-empty cell.
    pub fn new() -> (cell: Self)
        ensures
            cell.context is None,
            !cell.spec_is_initialized(),
    {
        WithContext { context: None }
    }

    /// Runtime test for the access functions' precondition.
    #[verifier::when_used_as_spec(spec_is_initialized)]
    pub fn is_initialized(&self) -> (r: bool)
        ensures
            r == self.spec_is_initialized(),
    {
        self.context.is_some()
    }

    /// Fill the cell. Meant to run exactly once, before any access; a
    /// second call raises no error and silently overwrites the old value.
    pub fn initialize(&mut self, value: T)
        ensures
            final(self).context == Some(value),
            *final(self) == old(self).step(Op::Initialize(value)),
            final(self).is_initialized(),
            final(self).value() == value,
    {
        self.context = Some(value);
    }

    /// Read access: a shared reference to the cell's current value.
    pub fn get(&self) -> (r: &T)
        requires
            self.is_initialized(),
        ensures
            *r == self.value(),
    {
        match &self.context {
            Some(t) => t,
            None => vstd::pervasive::unreached(),
        }
    }

    /// Write access: a mutable reference into the cell, for in-place
    /// mutation. Whatever the caller leaves behind the reference is the
    /// cell's value afterwards, so the cell never returns to empty.
    pub fn get_mut(&mut self) -> (r: &mut T)
        requires
            old(self).is_initialized(),
        ensures
            *r == old(self).value(),
            final(self).context == Some(*final(r)),
            *final(self) == old(self).step(Op::Write(*final(r))),
            final(self).is_initialized(),
            final(self).value() == *final(r),
    {
        match &mut self.context {
            Some(t) => t,
            None => vstd::pervasive::unreached(),
        }
    }

    /// The cell one operation later. Write access on an empty cell is
    /// ruled out by `get_mut`'s precondition, hence the `recommends`.
    pub open spec fn step(self, op: Op<T>) -> WithContext<T>
        recommends
            op is Write ==> self.spec_is_initialized(),
    {
        match op {
            Op::Initialize(v) => WithContext { context: Some(v) },
            Op::Read => self,
            Op::Write(w) => WithContext { context: Some(w) },
        }
    }

    /// The cell after a whole sequence of operations, applied in order.
    pub open spec fn apply_ops(self, ops: Seq<Op<T>>) -> WithContext<T>
        decreases ops.len(),
    {
        if ops.len() == 0 {
            self
        } else {
            self.step(ops[0]).apply_ops(ops.drop_first())
        }
    }
}

/// Lifecycle monotonicity: once a cell holds a value, no sequence of
/// operations — further initializations, reads or writes — ever returns
/// it to empty.
pub proof fn lemma_lifecycle_monotone<T>(cell: WithContext<T>, ops: Seq<Op<T>>)
    requires
        cell.is_initialized(),
    ensures
        cell.apply_ops(ops).is_initialized(),
    decreases ops.len(),
{
    if ops.len() > 0 {
        lemma_lifecycle_monotone(cell.step(ops[0]), ops.drop_first());
    }
}

/// Read accesses are purely observational: a sequence made of reads alone
/// leaves the cell exactly as it was.
pub proof fn lemma_reads_change_nothing<T>(cell: WithContext<T>, reads: Seq<Op<T>>)
    requires
        forall|i: int| 0 <= i < reads.len() ==> reads[i] is Read,
    ensures
        cell.apply_ops(reads) == cell,
    decreases reads.len(),
{
    if reads.len() > 0 {
        assert(reads[0] is Read);
        lemma_reads_change_nothing(cell, reads.drop_first());
    }
}

/// Write visibility: the value a write access stores is what the cell
/// holds afterwards, and every subsequent read access observes it.
pub proof fn lemma_write_visibility<T>(cell: WithContext<T>, w: T, later_reads: Seq<Op<T>>)
    requires
        cell.is_initialized(),
        forall|i: int| 0 <= i < later_reads.len() ==> later_reads[i] is Read,
    ensures
        cell.step(Op::Write(w)).apply_ops(later_reads).is_initialized(),
        cell.step(Op::Write(w)).apply_ops(later_reads).value() == w,
{
    lemma_reads_change_nothing(cell.step(Op::Write(w)), later_reads);
}

/// Post-initialization success: after the cell is initialized with `v`,
/// it holds a value, and that value is `v` — so read access returns `v`
/// and write access hands out a reference to that same logical value.
pub proof fn lemma_post_init<T>(cell: WithContext<T>, v: T)
    ensures
        cell.step(Op::Initialize(v)).is_initialized(),
        cell.step(Op::Initialize(v)).value() == v,
{
}

/// Double initialization overwrites silently: initializing with `v1` and
/// then with `v2` leaves the cell holding `v2`, whatever it held before,
/// and no error is raised at any point.
pub proof fn lemma_double_initialize<T>(cell: WithContext<T>, v1: T, v2: T)
    ensures
        cell.step(Op::Initialize(v1)).step(Op::Initialize(v2)).is_initialized(),
        cell.step(Op::Initialize(v1)).step(Op::Initialize(v2)).value() == v2,
{
}

} // verus!
