//! The descriptor table: which routine each of the 256 vectors is bound to,
//! and the processor's dispatch through the table it was pointed at.

use crate::gdt;
use crate::interrupts::{InterruptIndex, LINES_PER_CONTROLLER, PIC_1_OFFSET};
use vstd::prelude::*;

verus! {

/// Number of vectors, and of entries in a descriptor table.
pub const VECTORS: usize = 256;

/// Vector of the breakpoint trap.
pub const BREAKPOINT_VECTOR: u8 = 3;

/// Vector of the double fault.
pub const DOUBLE_FAULT_VECTOR: u8 = 8;

/// Vector of the page fault.
pub const PAGE_FAULT_VECTOR: u8 = 14;

/// Number of vectors the processor keeps for its own exceptions.
pub const RESERVED_VECTORS: u8 = 32;

/// The routines a vector can be bound to.
#[derive(Debug, Clone, Copy, PartialEq, Eq, Structural)]
pub enum Handler {
    Breakpoint,
    DoubleFault,
    PageFault,
    Timer,
    Keyboard,
}

/// One entry of the descriptor table. Without a handler the entry is not
/// present and the vector takes the architecture's default. With a stack
/// index the processor switches to that slot of the interrupt stack table
/// before the handler runs.
#[derive(Debug, Clone, Copy, PartialEq, Eq, Structural)]
pub struct Entry {
    pub handler: Option<Handler>,
    pub stack_index: Option<u16>,
}

impl Entry {
    /// The entry of a vector that nothing is bound to.
    pub open spec fn missing() -> Entry {
        Entry { handler: None, stack_index: None }
    }
}

/// The entry that the finished table holds for `vector`.
pub open spec fn bound_entry(vector: int) -> Entry {
    if vector == BREAKPOINT_VECTOR {
        Entry { handler: Some(Handler::Breakpoint), stack_index: None }
    } else if vector == DOUBLE_FAULT_VECTOR {
        Entry {
            handler: Some(Handler::DoubleFault),
            stack_index: Some(gdt::DOUBLE_FAULT_IST_INDEX),
        }
    } else if vector == PAGE_FAULT_VECTOR {
        Entry { handler: Some(Handler::PageFault), stack_index: None }
    } else if vector == InterruptIndex::Timer.vector() {
        Entry { handler: Some(Handler::Timer), stack_index: None }
    } else if vector == InterruptIndex::Keyboard.vector() {
        Entry { handler: Some(Handler::Keyboard), stack_index: None }
    } else {
        Entry::missing()
    }
}

/// The finished table, entry by entry.
pub open spec fn bound_table() -> Seq<Entry> {
    Seq::new(VECTORS as nat, |vector: int| bound_entry(vector))
}

/// The vectors that the finished table binds to a handler.
pub open spec fn bound_vectors() -> Set<int> {
    Set::new(|vector: int| 0 <= vector < VECTORS && bound_table()[vector].handler is Some)
}

/// The finished table binds exactly five vectors: breakpoint, double fault,
/// page fault, timer and keyboard, each to its own handler. Every other
/// vector is left to the architecture's default.
pub proof fn lemma_exactly_five_vectors_bound()
    ensures
        bound_table().len() == VECTORS,
        bound_vectors() == set![3int, 8int, 14int, 32int, 33int],
        bound_vectors().len() == 5,
        bound_table()[BREAKPOINT_VECTOR as int].handler == Some(Handler::Breakpoint),
        bound_table()[DOUBLE_FAULT_VECTOR as int].handler == Some(Handler::DoubleFault),
        bound_table()[PAGE_FAULT_VECTOR as int].handler == Some(Handler::PageFault),
        bound_table()[InterruptIndex::Timer.vector() as int].handler == Some(Handler::Timer),
        bound_table()[InterruptIndex::Keyboard.vector() as int].handler == Some(Handler::Keyboard),
{
    broadcast use vstd::set::group_set_axioms;

    assert(bound_vectors() =~= set![3int, 8int, 14int, 32int, 33int]);
}

/// Only the double fault runs on a stack of its own: the slot reserved for
/// it, which the interrupt stack table has.
pub proof fn lemma_only_double_fault_switches_stack()
    ensures
        forall|vector: int|
            0 <= vector < VECTORS ==> ((#[trigger] bound_table()[vector]).stack_index is Some
                <==> vector == DOUBLE_FAULT_VECTOR),
        bound_table()[DOUBLE_FAULT_VECTOR as int].stack_index == Some(gdt::DOUBLE_FAULT_IST_INDEX),
        gdt::DOUBLE_FAULT_IST_INDEX < gdt::IST_SLOTS,
{
}

/// The device handlers sit outside the vectors that the processor keeps for
/// its exceptions, and the exception handlers inside them.
pub proof fn lemma_device_vectors_not_reserved(vector: int)
    requires
        0 <= vector < VECTORS,
    ensures
        bound_table()[vector].handler == Some(Handler::Timer) || bound_table()[vector].handler
            == Some(Handler::Keyboard) ==> PIC_1_OFFSET <= vector < PIC_1_OFFSET
            + LINES_PER_CONTROLLER,
        bound_table()[vector].handler == Some(Handler::Breakpoint) || bound_table()[vector].handler
            == Some(Handler::DoubleFault) || bound_table()[vector].handler == Some(
            Handler::PageFault,
        ) ==> vector < RESERVED_VECTORS,
{
}

/// The descriptor table: one entry for each of the 256 vectors. Its view is
/// the sequence of its entries, indexed by vector.
pub struct InterruptDescriptorTable {
    entries: [Entry; VECTORS],
}

impl View for InterruptDescriptorTable {
    type V = Seq<Entry>;

    closed spec fn view(&self) -> Seq<Entry> {
        self.entries@
    }
}

impl InterruptDescriptorTable {
    /// A table in which no vector is bound.
    pub fn new() -> (table: Self)
        ensures
            table@.len() == VECTORS,
            forall|vector: int| 0 <= vector < VECTORS ==> table@[vector] == Entry::missing(),
    {
        broadcast use vstd::array::group_array_axioms;

        InterruptDescriptorTable { entries: [Entry { handler: None, stack_index: None };VECTORS] }
    }

    /// Binds `vector` to `handler` and marks the entry present. A stack index
    /// set earlier stays.
    fn set_handler_fn(&mut self, vector: u8, handler: Handler)
        ensures
            final(self)@ == old(self)@.update(
                vector as int,
                Entry { handler: Some(handler), stack_index: old(self)@[vector as int].stack_index },
            ),
    {
        let stack_index = self.entries[vector as usize].stack_index;
        self.entries[vector as usize] = Entry { handler: Some(handler), stack_index };
    }

    /// Makes the processor switch to slot `index` of the interrupt stack table
    /// when it enters the handler of `vector`.
    fn set_stack_index(&mut self, vector: u8, index: u16)
        requires
            index < gdt::IST_SLOTS,
        ensures
            final(self)@ == old(self)@.update(
                vector as int,
                Entry { handler: old(self)@[vector as int].handler, stack_index: Some(index) },
            ),
    {
        let handler = self.entries[vector as usize].handler;
        self.entries[vector as usize] = Entry { handler, stack_index: Some(index) };
    }

    /// The finished table: the three exception handlers at their fixed
    /// vectors, the double fault on its own stack, the timer and the keyboard
    /// on the first two device vectors, and nothing else.
    pub fn build() -> (table: Self)
        ensures
            table@ == bound_table(),
    {
        let mut idt = InterruptDescriptorTable::new();

        idt.set_handler_fn(BREAKPOINT_VECTOR, Handler::Breakpoint);

        // The double fault must be reachable when the stack is exhausted
        idt.set_handler_fn(DOUBLE_FAULT_VECTOR, Handler::DoubleFault);
        idt.set_stack_index(DOUBLE_FAULT_VECTOR, gdt::DOUBLE_FAULT_IST_INDEX);

        idt.set_handler_fn(InterruptIndex::Timer.as_u8(), Handler::Timer);
        idt.set_handler_fn(InterruptIndex::Keyboard.as_u8(), Handler::Keyboard);
        idt.set_handler_fn(PAGE_FAULT_VECTOR, Handler::PageFault);

        proof {
            assert(idt@ =~= bound_table());
        }
        idt
    }

    /// A table has an entry for every vector.
    pub proof fn lemma_has_all_vectors(self)
        ensures
            self@.len() == VECTORS,
    {
    }

    /// The entry of `vector`.
    pub fn entry(&self, vector: u8) -> (entry: Entry)
        ensures
            entry == self@[vector as int],
    {
        self.entries[vector as usize]
    }

    /// Points the processor at this table. From then on a vector that fires
    /// is dispatched through it, whatever was loaded before.
    pub fn load(self, cpu: &mut Cpu)
        ensures
            final(cpu)@ == old(cpu)@.load(self@),
    {
        cpu.idt = Some(self);
    }
}

/// The processor's dispatch state as a mathematical value: the entries of the
/// table it was last pointed at, if any.
pub struct Dispatch {
    pub table: Option<Seq<Entry>>,
}

impl Dispatch {
    /// The state after `table` is loaded.
    pub open spec fn load(self, table: Seq<Entry>) -> Dispatch {
        Dispatch { table: Some(table) }
    }

    /// The routine that runs when `vector` fires; `None` is the
    /// architecture's default for a vector that nothing is bound to.
    pub open spec fn handler(self, vector: u8) -> Option<Handler> {
        match self.table {
            Some(table) => table[vector as int].handler,
            None => None,
        }
    }
}

/// Loading a table a second time changes nothing: the processor dispatches
/// every vector as it did after the first load.
pub proof fn lemma_second_load_changes_nothing(dispatch: Dispatch, table: Seq<Entry>)
    ensures
        dispatch.load(table).load(table) == dispatch.load(table),
        forall|vector: u8|
            dispatch.load(table).load(table).handler(vector) == #[trigger] dispatch.load(
                table,
            ).handler(vector),
{
}

/// Once the finished table is loaded, a vector reaches a handler exactly if
/// it is one of the five bound vectors, whatever was loaded before.
pub proof fn lemma_dispatch_after_load(dispatch: Dispatch, vector: u8)
    ensures
        dispatch.load(bound_table()).handler(vector) == bound_entry(vector as int).handler,
        dispatch.load(bound_table()).handler(vector) is Some <==> bound_vectors().contains(
            vector as int,
        ),
{
}

/// The processor as far as interrupt dispatch goes: the table that its
/// interrupt-vector base register points at. Before the first load there is
/// none, and every vector takes the architecture's default.
pub struct Cpu {
    idt: Option<InterruptDescriptorTable>,
}

impl View for Cpu {
    type V = Dispatch;

    closed spec fn view(&self) -> Dispatch {
        Dispatch {
            table: match self.idt {
                Some(table) => Some(table@),
                None => None,
            },
        }
    }
}

impl Cpu {
    /// A processor that no table has been loaded into.
    pub fn new() -> (cpu: Self)
        ensures
            cpu@.table is None,
    {
        Cpu { idt: None }
    }

    /// The entry through which `vector` is dispatched, once a table is
    /// loaded.
    pub fn entry(&self, vector: u8) -> (entry: Option<Entry>)
        ensures
            entry == match self@.table {
                Some(table) => Some(table[vector as int]),
                None => None,
            },
    {
        match &self.idt {
            Some(table) => Some(table.entry(vector)),
            None => None,
        }
    }

    /// The routine that runs when `vector` fires. A vector that nothing is
    /// bound to takes the architecture's default, reported as `None`.
    pub fn dispatch(&self, vector: u8) -> (handler: Option<Handler>)
        ensures
            handler == self@.handler(vector),
    {
        match &self.idt {
            Some(table) => table.entry(vector).handler,
            None => None,
        }
    }
}

} // verus!
