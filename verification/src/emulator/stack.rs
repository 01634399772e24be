//! The call stack: a bounded last-in, first-out store of return addresses.

pub mod error;

use vstd::prelude::*;
use crate::emulator::stack::error::StackError;

verus! {

/// Number of return addresses the stack can hold.
pub const STACK_SIZE: usize = 16;

/// The entries after a push of `v`: `v` on top, unless the stack is full.
pub open spec fn pushed(entries: Seq<usize>, v: usize) -> Seq<usize> {
    if entries.len() < 16 {
        entries.push(v)
    } else {
        entries
    }
}

/// What a push returns: `Overflow` exactly when the stack is full.
pub open spec fn push_result(entries: Seq<usize>) -> Result<(), StackError> {
    if entries.len() < 16 {
        Ok(())
    } else {
        Err(StackError::Overflow)
    }
}

/// The entries after a pop: the newest gone, unless there is none.
pub open spec fn popped(entries: Seq<usize>) -> Seq<usize> {
    if entries.len() > 0 {
        entries.drop_last()
    } else {
        entries
    }
}

/// What a pop returns: the newest entry, or `Underflow` exactly when the
/// stack is empty.
pub open spec fn pop_result(entries: Seq<usize>) -> Result<usize, StackError> {
    if entries.len() > 0 {
        Ok(entries.last())
    } else {
        Err(StackError::Underflow)
    }
}

/// The entries after `values` were pushed one by one, first to last.
pub open spec fn pushed_all(entries: Seq<usize>, values: Seq<usize>) -> Seq<usize>
    decreases values.len(),
{
    if values.len() == 0 {
        entries
    } else {
        pushed(pushed_all(entries, values.drop_last()), values.last())
    }
}

/// The entries after `count` pops.
pub open spec fn popped_times(entries: Seq<usize>, count: nat) -> Seq<usize>
    decreases count,
{
    if count == 0 {
        entries
    } else {
        popped(popped_times(entries, (count - 1) as nat))
    }
}

/// Last in, first out: a pop after a successful push returns the value
/// pushed and leaves the stack as it was before the push.
pub proof fn lemma_pop_undoes_push(entries: Seq<usize>, v: usize)
    requires
        entries.len() < STACK_SIZE,
    ensures
        push_result(entries) == Ok::<(), StackError>(()),
        pop_result(pushed(entries, v)) == Ok::<usize, StackError>(v),
        popped(pushed(entries, v)) == entries,
{
    assert(entries.push(v).drop_last() =~= entries);
}

/// Up to sixteen pushes onto an empty stack all succeed and leave the
/// values in the order pushed; after the sixteenth the next is refused.
pub proof fn lemma_pushes_fit(values: Seq<usize>)
    requires
        values.len() <= STACK_SIZE,
    ensures
        pushed_all(Seq::empty(), values) == values,
        forall|k: int|
            0 <= k < values.len() ==> push_result(
                #[trigger] pushed_all(Seq::empty(), values.take(k)),
            ) == Ok::<(), StackError>(()),
        values.len() == STACK_SIZE ==> push_result(pushed_all(Seq::empty(), values)) == Err::<
            (),
            StackError,
        >(StackError::Overflow),
    decreases values.len(),
{
    if values.len() > 0 {
        lemma_pushes_fit(values.drop_last());
        assert(values.drop_last().push(values.last()) =~= values);
    }
    assert forall|k: int| 0 <= k < values.len() implies push_result(
        #[trigger] pushed_all(Seq::empty(), values.take(k)),
    ) == Ok::<(), StackError>(()) by {
        lemma_pushes_fit(values.take(k));
    }
}

/// Pops return the entries newest first: the pop after `count` others
/// returns the entry `count` places from the top, and once every entry has
/// been popped the next pop is refused.
pub proof fn lemma_pops_reverse(entries: Seq<usize>, count: nat)
    requires
        count <= entries.len(),
    ensures
        popped_times(entries, count) == entries.take(entries.len() - count),
        count < entries.len() ==> pop_result(popped_times(entries, count)) == Ok::<
            usize,
            StackError,
        >(entries[entries.len() - 1 - count]),
        count == entries.len() ==> pop_result(popped_times(entries, count)) == Err::<
            usize,
            StackError,
        >(StackError::Underflow),
    decreases count,
{
    if count > 0 {
        lemma_pops_reverse(entries, (count - 1) as nat);
        assert(entries.take(entries.len() - (count - 1)).drop_last() =~= entries.take(
            entries.len() - count,
        ));
    } else {
        assert(entries.take(entries.len() as int) =~= entries);
    }
}

/// Sixteen slots and a pointer that counts the slots in use.
///
/// The live entries are `array[0..stack_pointer]`, oldest first; whatever the
/// remaining slots hold is never observed.
#[derive(Debug)]
pub struct Stack {
    array: [usize; 16],
    stack_pointer: usize,
}

impl View for Stack {
    type V = Seq<usize>;

    /// The live entries, oldest first.
    closed spec fn view(&self) -> Seq<usize> {
        self.array@.subrange(0, self.stack_pointer as int)
    }
}

impl Stack {
    /// The pointer never runs past the last slot.
    pub closed spec fn wf(&self) -> bool {
        self.stack_pointer <= STACK_SIZE
    }

    /// A well-formed stack holds at most `STACK_SIZE` entries.
    pub proof fn lemma_bounded(&self)
        requires
            self.wf(),
        ensures
            self@.len() <= STACK_SIZE,
    {
    }

    /// Creates an empty stack.
    pub fn new() -> (stack: Self)
        ensures
            stack.wf(),
            stack@ == Seq::<usize>::empty(),
    {
        Stack { array: [0; 16], stack_pointer: 0 }
    }

    /// The number of entries.
    pub fn len(&self) -> (len: usize)
        requires
            self.wf(),
        ensures
            len == self@.len(),
    {
        self.stack_pointer
    }

    /// Stores `v` on top of the stack; refuses with `Overflow`, changing
    /// nothing, if all slots are taken.
    pub fn push(&mut self, v: usize) -> (result: Result<(), StackError>)
        requires
            old(self).wf(),
        ensures
            final(self).wf(),
            final(self)@ == pushed(old(self)@, v),
            result == push_result(old(self)@),
    {
        if self.stack_pointer >= STACK_SIZE {
            Err(StackError::Overflow)
        } else {
            self.array[self.stack_pointer] = v;
            self.stack_pointer += 1;
            assert(self@ =~= old(self)@.push(v));
            Ok(())
        }
    }

    /// Removes the newest entry and returns it; refuses with `Underflow`,
    /// changing nothing, if there is none.
    pub fn pop(&mut self) -> (result: Result<usize, StackError>)
        requires
            old(self).wf(),
        ensures
            final(self).wf(),
            final(self)@ == popped(old(self)@),
            result == pop_result(old(self)@),
    {
        if self.stack_pointer == 0 {
            Err(StackError::Underflow)
        } else {
            self.stack_pointer -= 1;
            assert(self@ =~= old(self)@.drop_last());
            Ok(self.array[self.stack_pointer])
        }
    }
}

impl Default for Stack {
    fn default() -> (stack: Self)
        ensures
            stack.wf(),
            stack@ == Seq::<usize>::empty(),
    {
        Stack::new()
    }
}

} // verus!
