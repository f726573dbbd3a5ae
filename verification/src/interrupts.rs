//! The interrupt layer: the device lines and their vectors, the installation
//! of the descriptor table, and what each handler does with the text surface,
//! the decoder and the controller line it serves.

use crate::idt::{bound_table, Cpu, InterruptDescriptorTable, RESERVED_VECTORS, VECTORS};
use crate::keyboard::{print_key, DecodedKey, Decoder, RELEASE_BASE};
use crate::surface::{ascii_bytes, Surface};
use crate::vga_buffer::Writer;
use vstd::prelude::*;
use x86_64::structures::idt::{InterruptStackFrameValue, PageFaultErrorCode};
use x86_64::VirtAddr;

verus! {

/// Vector of the first line of the first controller: the first vector after
/// those the processor keeps for its own exceptions.
pub const PIC_1_OFFSET: u8 = 32;

/// Vector of the first line of the second controller.
pub const PIC_2_OFFSET: u8 = PIC_1_OFFSET + 8;

/// Number of lines one controller serves.
pub const LINES_PER_CONTROLLER: u8 = 8;

/// The controller offsets are valid: the second controller follows the first
/// after exactly its eight lines, and no device vector falls among the
/// processor's reserved vectors or past the last vector.
pub proof fn lemma_controller_offsets_valid()
    ensures
        PIC_2_OFFSET == PIC_1_OFFSET + LINES_PER_CONTROLLER,
        PIC_1_OFFSET >= RESERVED_VECTORS,
        PIC_2_OFFSET >= RESERVED_VECTORS,
        PIC_2_OFFSET + LINES_PER_CONTROLLER <= VECTORS,
{
}

/// The device lines that have a handler.
#[derive(Debug, Clone, Copy, PartialEq, Eq, Structural)]
pub enum InterruptIndex {
    Timer,
    Keyboard,
}

impl InterruptIndex {
    /// The vector on which the line's interrupt arrives.
    pub open spec fn vector(self) -> u8 {
        match self {
            InterruptIndex::Timer => PIC_1_OFFSET,
            InterruptIndex::Keyboard => (PIC_1_OFFSET + 1) as u8,
        }
    }

    /// The line's vector. It lies on the first controller, past the
    /// processor's reserved vectors.
    pub fn as_u8(self) -> (vector: u8)
        ensures
            vector == self.vector(),
            PIC_1_OFFSET <= vector < PIC_1_OFFSET + LINES_PER_CONTROLLER,
    {
        match self {
            InterruptIndex::Timer => PIC_1_OFFSET,
            InterruptIndex::Keyboard => PIC_1_OFFSET + 1,
        }
    }

    /// The line's vector as an index into a descriptor table.
    pub fn as_usize(self) -> (vector: usize)
        ensures
            vector == self.vector(),
            RESERVED_VECTORS <= vector < VECTORS,
    {
        self.as_u8() as usize
    }
}

/// Builds the descriptor table and points the processor at it. Afterwards
/// exactly the five bound vectors reach a handler. A call on a processor that
/// already dispatches through the table changes nothing.
pub fn init_idt(cpu: &mut Cpu)
    ensures
        final(cpu)@ == old(cpu)@.load(bound_table()),
        final(cpu)@.table == Some(bound_table()),
        old(cpu)@.table == Some(bound_table()) ==> final(cpu)@ == old(cpu)@,
{
    InterruptDescriptorTable::build().load(cpu);
}

/// The glyph that marks a timer tick: a dot.
pub const TICK_MARK: u8 = 0x2E;

/// The machine state that the processor saves on entry to a handler.
#[derive(Debug, Clone, Copy, PartialEq, Eq, Structural)]
pub struct InterruptStackFrame {
    /// Where execution continues when the handler returns.
    pub instruction_pointer: u64,
    /// The code segment selector, padded with zeros.
    pub code_segment: u64,
    /// The flags register before the handler was entered.
    pub cpu_flags: u64,
    /// The stack pointer at the time of the interrupt.
    pub stack_pointer: u64,
    /// The stack segment descriptor at the time of the interrupt.
    pub stack_segment: u64,
}

/// The multi-line `{:#?}` form that `x86_64` gives a stack frame with these
/// fields, the two addresses brought to canonical form.
pub uninterp spec fn stack_frame_debug(
    instruction_pointer: u64,
    code_segment: u64,
    cpu_flags: u64,
    stack_pointer: u64,
    stack_segment: u64,
) -> Seq<char>;

/// The `{:?}` form that `x86_64` gives a page-fault error code with these bits.
pub uninterp spec fn error_code_debug(bits: u64) -> Seq<char>;

/// The `{:?}` form that `x86_64` gives this virtual address, brought to
/// canonical form.
pub uninterp spec fn address_debug(address: u64) -> Seq<char>;

impl InterruptStackFrame {
    /// The frame as it is shown in a diagnostic.
    pub open spec fn debug_text(self) -> Seq<char> {
        stack_frame_debug(
            self.instruction_pointer,
            self.code_segment,
            self.cpu_flags,
            self.stack_pointer,
            self.stack_segment,
        )
    }
}

/// `Debug` of `x86_64`'s `InterruptStackFrameValue`, in its alternate form,
/// on a value with the frame's fields; the addresses go through
/// `VirtAddr::new_truncate`. Claimed: the text is the one that
/// `stack_frame_debug` stands for, the same for the same fields.
#[verifier::external_body]
fn stack_frame_to_string(stack_frame: &InterruptStackFrame) -> (text: String)
    ensures
        text@ == stack_frame_debug(
            stack_frame.instruction_pointer,
            stack_frame.code_segment,
            stack_frame.cpu_flags,
            stack_frame.stack_pointer,
            stack_frame.stack_segment,
        ),
{
    format!("{:#?}", InterruptStackFrameValue {
        instruction_pointer: VirtAddr::new_truncate(stack_frame.instruction_pointer),
        code_segment: stack_frame.code_segment,
        cpu_flags: stack_frame.cpu_flags,
        stack_pointer: VirtAddr::new_truncate(stack_frame.stack_pointer),
        stack_segment: stack_frame.stack_segment,
    })
}

/// `Debug` of `x86_64`'s `PageFaultErrorCode` on the code that
/// `from_bits_retain` makes of exactly these bits. Claimed: the text is the
/// one that `error_code_debug` stands for, the same for the same bits.
#[verifier::external_body]
fn error_code_to_string(bits: u64) -> (text: String)
    ensures
        text@ == error_code_debug(bits),
{
    format!("{:?}", PageFaultErrorCode::from_bits_retain(bits))
}

/// `Debug` of `x86_64`'s `VirtAddr` on `VirtAddr::new_truncate` of the
/// address. Claimed: the text is the one that `address_debug` stands for, the
/// same for the same address.
#[verifier::external_body]
fn address_to_string(address: u64) -> (text: String)
    ensures
        text@ == address_debug(address),
{
    format!("{:?}", VirtAddr::new_truncate(address))
}

/// What the code around a handler must do once the handler is done. A device
/// line that is not acknowledged delivers no further interrupts, so an
/// outcome is not to be dropped.
#[must_use]
#[derive(Debug, Clone, PartialEq, Eq)]
pub enum Outcome {
    /// Return to the interrupted code.
    Resume,
    /// Signal end-of-interrupt for this line to the controllers, then return
    /// to the interrupted code.
    Acknowledge(InterruptIndex),
    /// Park the processor in the idle halt loop; execution never resumes.
    Halt,
    /// Stop for good with this message; execution never resumes.
    Panic(String),
}

/// The diagnostic of a breakpoint trap.
pub open spec fn breakpoint_report(stack_frame: InterruptStackFrame) -> Seq<char> {
    "EXCEPTION <BREAKPOINT>\n"@ + stack_frame.debug_text() + "\n"@
}

/// The message of a double fault.
pub open spec fn double_fault_message(stack_frame: InterruptStackFrame) -> Seq<char> {
    "EXCEPTION <DOUBLE_FAULT>\n"@ + stack_frame.debug_text()
}

/// The diagnostic of a page fault: the address that was accessed, the error
/// code and the saved machine state, a line each.
pub open spec fn page_fault_report(
    stack_frame: InterruptStackFrame,
    error_code: u64,
    accessed_address: u64,
) -> Seq<char> {
    "EXCEPTION <PAGE_FAULT>\n"@ + "Accessed address: "@ + address_debug(accessed_address) + "\n"@
        + "Error code: "@ + error_code_debug(error_code) + "\n"@ + stack_frame.debug_text()
        + "\n"@
}

/// The surface after the keyboard handler has shown what a byte decoded to:
/// the key's text, or nothing where the byte completed no key press.
pub open spec fn key_shown(surface: Surface, key: Option<DecodedKey>) -> Surface {
    match key {
        Some(key) => surface.write_str(crate::keyboard::key_text(key)),
        None => surface,
    }
}

/// Breakpoint: shows the saved machine state. Execution resumes after the
/// instruction that trapped.
pub fn breakpoint_handler(stack_frame: InterruptStackFrame, writer: &mut Writer) -> (outcome:
    Outcome)
    ensures
        outcome == Outcome::Resume,
        final(writer)@ == old(writer)@.write_str(breakpoint_report(stack_frame)),
{
    let frame = stack_frame_to_string(&stack_frame);
    writer.write_string("EXCEPTION <BREAKPOINT>\n");
    writer.write_string(frame.as_str());
    writer.write_string("\n");
    proof {
        let head = "EXCEPTION <BREAKPOINT>\n"@;
        old(writer)@.lemma_write_str_concat(head, stack_frame.debug_text());
        old(writer)@.lemma_write_str_concat(head + stack_frame.debug_text(), "\n"@);
    }
    Outcome::Resume
}

/// Double fault: always fatal. Nothing is written here; the message goes
/// with the outcome, for the code that stops the system to show.
pub fn double_fault_handler(stack_frame: InterruptStackFrame, _error_code: u64) -> (outcome:
    Outcome)
    ensures
        outcome matches Outcome::Panic(message) && message@ == double_fault_message(stack_frame),
{
    let frame = stack_frame_to_string(&stack_frame);
    let mut message = String::from_str("EXCEPTION <DOUBLE_FAULT>\n");
    message.append(frame.as_str());
    Outcome::Panic(message)
}

/// Timer tick: shows a dot as a progress marker, then has the timer line
/// acknowledged.
pub fn timer_interrupt_handler(_stack_frame: InterruptStackFrame, writer: &mut Writer) -> (outcome:
    Outcome)
    ensures
        outcome == Outcome::Acknowledge(InterruptIndex::Timer),
        final(writer)@ == old(writer)@.write_str("."@),
        final(writer)@ == old(writer)@.put(TICK_MARK),
{
    writer.write_string(".");
    proof {
        reveal_strlit(".");
        assert("."@ =~= seq!['.']);
        assert(ascii_bytes(seq!['.']) =~= seq![TICK_MARK]);
        old(writer)@.lemma_write_str_ascii("."@);
        old(writer)@.lemma_write_single_byte(TICK_MARK);
    }
    Outcome::Acknowledge(InterruptIndex::Timer)
}

/// Keyboard: feeds the byte read from the data port to the decoder and shows
/// the key it decodes to, if it completes a key press. The keyboard line is
/// acknowledged whether or not anything was shown. A release, and the byte
/// that opens a longer sequence, show nothing.
pub fn keyboard_interrupt_handler(
    _stack_frame: InterruptStackFrame,
    scancode: u8,
    keyboard: &mut Decoder,
    writer: &mut Writer,
) -> (outcome: Outcome)
    ensures
        outcome == Outcome::Acknowledge(InterruptIndex::Keyboard),
        final(keyboard)@ == old(keyboard)@.after_decode(scancode),
        final(writer)@ == key_shown(old(writer)@, old(keyboard)@.decoded(scancode)),
        scancode >= RELEASE_BASE ==> final(writer)@ == old(writer)@,
{
    let key = keyboard.decode(scancode);
    show_key(key, writer);
    Outcome::Acknowledge(InterruptIndex::Keyboard)
}

/// Shows what a scancode decoded to: the key's text, or nothing.
pub fn show_key(key: Option<DecodedKey>, writer: &mut Writer)
    ensures
        final(writer)@ == key_shown(old(writer)@, key),
{
    if let Some(key) = key {
        print_key(writer, key);
    }
}

/// Page fault: shows the address that was accessed, the error code and the
/// saved machine state. There is no recovery: the processor is to be parked.
pub fn page_fault_handler(
    stack_frame: InterruptStackFrame,
    error_code: u64,
    accessed_address: u64,
    writer: &mut Writer,
) -> (outcome: Outcome)
    ensures
        outcome == Outcome::Halt,
        final(writer)@ == old(writer)@.write_str(
            page_fault_report(stack_frame, error_code, accessed_address),
        ),
{
    let address = address_to_string(accessed_address);
    let code = error_code_to_string(error_code);
    let frame = stack_frame_to_string(&stack_frame);

    writer.write_string("EXCEPTION <PAGE_FAULT>\n");
    writer.write_string("Accessed address: ");
    writer.write_string(address.as_str());
    writer.write_string("\n");
    writer.write_string("Error code: ");
    writer.write_string(code.as_str());
    writer.write_string("\n");
    writer.write_string(frame.as_str());
    writer.write_string("\n");
    proof {
        let start = old(writer)@;
        let t1 = "EXCEPTION <PAGE_FAULT>\n"@;
        let t2 = t1 + "Accessed address: "@;
        let t3 = t2 + address_debug(accessed_address);
        let t4 = t3 + "\n"@;
        let t5 = t4 + "Error code: "@;
        let t6 = t5 + error_code_debug(error_code);
        let t7 = t6 + "\n"@;
        let t8 = t7 + stack_frame.debug_text();
        start.lemma_write_str_concat(t1, "Accessed address: "@);
        start.lemma_write_str_concat(t2, address_debug(accessed_address));
        start.lemma_write_str_concat(t3, "\n"@);
        start.lemma_write_str_concat(t4, "Error code: "@);
        start.lemma_write_str_concat(t5, error_code_debug(error_code));
        start.lemma_write_str_concat(t6, "\n"@);
        start.lemma_write_str_concat(t7, stack_frame.debug_text());
        start.lemma_write_str_concat(t8, "\n"@);
    }
    Outcome::Halt
}

} // verus!
