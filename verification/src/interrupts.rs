//! Interrupt dispatch: which vectors have a handler, what each handler
//! answers, and how scancodes from the keyboard become keys.
//!
//! The two interrupt controllers are chained: the secondary one reports
//! through a line of the primary one.
//!
//! ```text
//!                      ____________                          ____________
//! Real Time Clock --> |            |   Timer -------------> |            |
//! ACPI -------------> |            |   Keyboard-----------> |            |      _____
//! Available --------> | Secondary  |----------------------> | Primary    |     |     |
//! Available --------> | Interrupt  |   Serial Port 2 -----> | Interrupt  |---> | CPU |
//! Mouse ------------> | Controller |   Serial Port 1 -----> | Controller |     |_____|
//! Co-Processor -----> |            |   Parallel Port 2/3 -> |            |
//! Primary ATA ------> |            |   Floppy disk -------> |            |
//! Secondary ATA ----> |____________|   Parallel Port 1----> |____________|
//! ```

use crate::gdt::DOUBLE_FAULT_IST_INDEX;
use pc_keyboard::layouts::Us104Key;
use pc_keyboard::{DecodedKey, Error, HandleControl, KeyCode, KeyEvent, Keyboard, ScancodeSet1};
use vstd::prelude::*;

verus! {

/// The vector of the primary controller's first line: the first one after
/// the 32 vectors that the processor keeps for its exceptions.
pub const PIC_1_OFFSET: u8 = 32;

/// The vector of the secondary controller's first line.
pub const PIC_2_OFFSET: u8 = PIC_1_OFFSET + 8;

/// The vector of the breakpoint exception.
pub const BREAKPOINT_VECTOR: u8 = 3;

/// The vector of the double fault exception.
pub const DOUBLE_FAULT_VECTOR: u8 = 8;

/// The I/O port at which the keyboard controller hands over a scancode.
pub const KEYBOARD_DATA_PORT: u16 = 0x60;

/// The number of vectors of an interrupt descriptor table.
pub const IDT_ENTRIES: usize = 256;

/// The hardware interrupts that the kernel serves.
#[derive(Debug, Clone, Copy, PartialEq, Eq, Structural)]
pub enum InterruptIndex {
    /// The periodic timer: line 0 of the primary controller.
    Timer,
    /// The keyboard: line 1 of the primary controller.
    Keyboard,
}

impl InterruptIndex {
    /// The interrupt's vector.
    pub open spec fn vector(self) -> u8 {
        match self {
            InterruptIndex::Timer => PIC_1_OFFSET,
            InterruptIndex::Keyboard => (PIC_1_OFFSET + 1) as u8,
        }
    }

    /// The interrupt's vector as a byte.
    pub fn as_u8(self) -> (vector: u8)
        ensures
            vector == self.vector(),
    {
        match self {
            InterruptIndex::Timer => PIC_1_OFFSET,
            InterruptIndex::Keyboard => PIC_1_OFFSET + 1,
        }
    }

    /// The interrupt's vector as an index into the table.
    pub fn as_usize(self) -> (vector: usize)
        ensures
            vector == self.vector(),
    {
        self.as_u8() as usize
    }
}

/// The handlers that the kernel has.
#[derive(Debug, Clone, Copy, PartialEq, Eq, Structural)]
pub enum Handler {
    /// Reports a breakpoint and goes on.
    Breakpoint,
    /// Reports a double fault and halts.
    DoubleFault,
    /// Serves the timer.
    Timer,
    /// Serves the keyboard.
    Keyboard,
}

/// What the table holds for a vector that has a handler.
#[derive(Debug, Clone, Copy, PartialEq, Eq, Structural)]
pub struct IdtEntry {
    /// The handler to run.
    pub handler: Handler,
    /// The entry of the interrupt stack table whose stack the handler runs
    /// on, or `None` for the stack that was in use.
    pub stack_index: Option<u16>,
}

/// What the table is to hold for `vector`: the four handlers at their
/// vectors, the one for double faults on its own stack, and nothing
/// anywhere else.
pub open spec fn registered(vector: int) -> Option<IdtEntry> {
    if vector == BREAKPOINT_VECTOR {
        Some(IdtEntry { handler: Handler::Breakpoint, stack_index: None })
    } else if vector == DOUBLE_FAULT_VECTOR {
        Some(IdtEntry { handler: Handler::DoubleFault, stack_index: Some(DOUBLE_FAULT_IST_INDEX) })
    } else if vector == InterruptIndex::Timer.vector() {
        Some(IdtEntry { handler: Handler::Timer, stack_index: None })
    } else if vector == InterruptIndex::Keyboard.vector() {
        Some(IdtEntry { handler: Handler::Keyboard, stack_index: None })
    } else {
        None
    }
}

/// Every hardware interrupt has its vector above the 32 that the processor
/// keeps for its exceptions, on a line of the primary controller, and has
/// its own handler registered there; no two share a vector.
pub proof fn lemma_hardware_vectors(index: InterruptIndex)
    ensures
        32 <= PIC_1_OFFSET <= index.vector() < PIC_2_OFFSET,
        registered(index.vector() as int) is Some,
        registered(index.vector() as int)->Some_0.handler == (match index {
            InterruptIndex::Timer => Handler::Timer,
            InterruptIndex::Keyboard => Handler::Keyboard,
        }),
        InterruptIndex::Timer.vector() != InterruptIndex::Keyboard.vector(),
{
}

/// The interrupt descriptor table as the kernel fills it: for each of the
/// 256 vectors the handler that is registered, if any.
pub struct InterruptTable {
    entries: [Option<IdtEntry>; 256],
}

impl View for InterruptTable {
    type V = Seq<Option<IdtEntry>>;

    closed spec fn view(&self) -> Seq<Option<IdtEntry>> {
        self.entries@
    }
}

impl InterruptTable {
    /// What the table holds for `vector`. A vector without an entry is left
    /// to the processor, which resets the machine when it comes up.
    pub fn entry(&self, vector: u8) -> (entry: Option<IdtEntry>)
        ensures
            self@.len() == IDT_ENTRIES,
            entry == self@[vector as int],
    {
        self.entries[vector as usize]
    }
}

/// The kernel's interrupt descriptor table: `registered` for every vector.
pub fn init_idt() -> (idt: InterruptTable)
    ensures
        idt@.len() == IDT_ENTRIES,
        forall|vector: int| 0 <= vector < IDT_ENTRIES ==> #[trigger] idt@[vector] == registered(vector),
{
    let mut entries: [Option<IdtEntry>; 256] = [None; 256];
    entries[BREAKPOINT_VECTOR as usize] = Some(
        IdtEntry { handler: Handler::Breakpoint, stack_index: None },
    );
    entries[DOUBLE_FAULT_VECTOR as usize] = Some(
        IdtEntry { handler: Handler::DoubleFault, stack_index: Some(DOUBLE_FAULT_IST_INDEX) },
    );
    entries[InterruptIndex::Timer.as_usize()] = Some(
        IdtEntry { handler: Handler::Timer, stack_index: None },
    );
    entries[InterruptIndex::Keyboard.as_usize()] = Some(
        IdtEntry { handler: Handler::Keyboard, stack_index: None },
    );
    InterruptTable { entries }
}

/// What a handler has to show.
#[derive(Debug, Clone, Copy, PartialEq, Eq)]
pub enum Output {
    /// Nothing.
    Nothing,
    /// That a breakpoint was hit, with the interrupted state.
    Breakpoint,
    /// That a double fault struck, with the interrupted state.
    DoubleFault,
    /// One dot for one tick of the timer.
    Tick,
    /// A character that was typed.
    Character(char),
    /// A key that has no character.
    RawKey(KeyCode),
}

/// What a handler decides: what to show, which interrupt to acknowledge to
/// the interrupt controllers once it is served, and whether the interrupted
/// code goes on afterwards.
#[derive(Debug, Clone, Copy, PartialEq, Eq)]
pub struct Outcome {
    /// What to show.
    pub output: Output,
    /// The vector of the hardware interrupt to acknowledge, or `None` for an
    /// exception, which no controller has raised.
    pub acknowledge: Option<u8>,
    /// Whether control goes back to the interrupted code.
    pub resume: bool,
}

/// A breakpoint is reported, and the interrupted code goes on.
pub fn breakpoint_handler() -> (outcome: Outcome)
    ensures
        outcome == (Outcome { output: Output::Breakpoint, acknowledge: None, resume: true }),
{
    Outcome { output: Output::Breakpoint, acknowledge: None, resume: true }
}

/// A double fault is reported, and the machine halts: the interrupted code
/// never goes on.
pub fn double_fault_handler(_error_code: u64) -> (outcome: Outcome)
    ensures
        outcome == (Outcome { output: Output::DoubleFault, acknowledge: None, resume: false }),
{
    Outcome { output: Output::DoubleFault, acknowledge: None, resume: false }
}

/// A tick of the timer shows a dot and is acknowledged.
pub fn timer_interrupt_handler() -> (outcome: Outcome)
    ensures
        outcome == (Outcome {
            output: Output::Tick,
            acknowledge: Some(InterruptIndex::Timer.vector()),
            resume: true,
        }),
{
    Outcome { output: Output::Tick, acknowledge: Some(InterruptIndex::Timer.as_u8()), resume: true }
}

/// A key code of `pc_keyboard`.
#[verifier::external_type_specification]
#[verifier::external_body]
pub struct ExKeyCode(KeyCode);

/// A key going down or up, as `pc_keyboard` reports it.
#[verifier::external_type_specification]
#[verifier::external_body]
pub struct ExKeyEvent(KeyEvent);

/// Why `pc_keyboard` could not make sense of its input.
#[verifier::external_type_specification]
#[verifier::external_body]
pub struct ExError(Error);

/// A key as the layout reads it: a character, or a key without one.
#[derive(Debug, Clone, Copy, PartialEq, Eq)]
pub enum Key {
    /// A key that has no character.
    RawKey(KeyCode),
    /// A character.
    Unicode(char),
}

/// The state of a keyboard that sends scancode set 1 and has the US layout
/// with 104 keys: how far a scancode of several bytes has come, and which
/// modifier keys are down.
#[verifier::external_body]
pub struct ScancodeDecoder {
    keyboard: Keyboard<Us104Key, ScancodeSet1>,
}

/// The byte that begins a scancode of two bytes.
pub const EXTENDED_PREFIX: u8 = 0xe0;

/// What `Keyboard::add_byte` returns: a key event, nothing yet, or an error.
pub type Added = Result<Option<KeyEvent>, Error>;

/// The bytes that `decoder` has taken of a scancode that is not complete
/// yet, in order: none, or the prefix of a scancode of two bytes.
pub uninterp spec fn pending_bytes(decoder: ScancodeDecoder) -> Seq<u8>;

/// What `Keyboard::add_byte` returns for `byte` when `pending` is what it
/// has taken of a scancode that is not complete yet.
pub uninterp spec fn add_byte_result(pending: Seq<u8>, byte: u8) -> Added;

/// Which modifier keys `decoder` holds to be down or switched on, in this
/// order: left shift, right shift, left control, right control, num lock,
/// caps lock, right alt.
pub uninterp spec fn modifier_keys(decoder: ScancodeDecoder) -> Seq<bool>;

/// What `Keyboard::process_keyevent` returns for `event` when the modifier
/// keys stand as `modifiers` says, on the US layout with the control keys
/// passed through as keys.
pub uninterp spec fn key_for(modifiers: Seq<bool>, event: KeyEvent) -> Option<Key>;

/// How the modifier keys stand after `Keyboard::process_keyevent` has read
/// `event`, when they stood as `modifiers` says before.
pub uninterp spec fn modifiers_after(modifiers: Seq<bool>, event: KeyEvent) -> Seq<bool>;

/// The modifier keys of a keyboard that has read no event: num lock is on,
/// nothing else.
pub open spec fn initial_modifiers() -> Seq<bool> {
    seq![false, false, false, false, true, false, false]
}

/// What is pending after `byte` was taken: the prefix, where it begins a
/// scancode; nothing after any other byte, which ends a scancode or is
/// dropped.
pub open spec fn pending_after(pending: Seq<u8>, byte: u8) -> Seq<u8> {
    if pending.len() == 0 && byte == EXTENDED_PREFIX {
        seq![byte]
    } else {
        Seq::empty()
    }
}

/// The key event in what `Keyboard::add_byte` has returned, if there is
/// one.
pub open spec fn completed(added: Added) -> Option<KeyEvent> {
    match added {
        Ok(Some(event)) => Some(event),
        _ => None,
    }
}

/// The key that `decoder` gives for `byte`: the one that the modifier keys
/// make of the key event that the byte completes, and none where it
/// completes no event.
pub open spec fn decoded(decoder: ScancodeDecoder, byte: u8) -> Option<Key> {
    match completed(add_byte_result(pending_bytes(decoder), byte)) {
        Some(event) => key_for(modifier_keys(decoder), event),
        None => None,
    }
}

/// How the modifier keys of `decoder` stand after it has taken `byte`: as
/// the key event that the byte completes leaves them, and as before where
/// it completes no event.
pub open spec fn modifiers_after_byte(decoder: ScancodeDecoder, byte: u8) -> Seq<bool> {
    match completed(add_byte_result(pending_bytes(decoder), byte)) {
        Some(event) => modifiers_after(modifier_keys(decoder), event),
        None => modifier_keys(decoder),
    }
}

/// What is shown for a key: its character, the key itself where it has
/// none, and nothing where there is no key.
pub open spec fn shown(key: Option<Key>) -> Output {
    match key {
        Some(Key::Unicode(character)) => Output::Character(character),
        Some(Key::RawKey(code)) => Output::RawKey(code),
        None => Output::Nothing,
    }
}

/// `Keyboard::new`, for scancode set 1 and the US layout, with the control
/// keys passed through as keys. The keyboard starts between two scancodes,
/// with num lock on and no other modifier key down.
#[verifier::external_body]
fn keyboard_new() -> (decoder: ScancodeDecoder)
    ensures
        pending_bytes(decoder) == Seq::<u8>::empty(),
        modifier_keys(decoder) == initial_modifiers(),
{
    ScancodeDecoder { keyboard: Keyboard::new(Us104Key, ScancodeSet1, HandleControl::Ignore) }
}

/// `Keyboard::add_byte`: takes one byte of a scancode. For scancode set 1
/// the result hangs on the byte and on whether the prefix came before it,
/// and on nothing else. The prefix between two scancodes gives `Ok(None)`
/// and is kept; every other byte leaves the keyboard between two scancodes.
/// The modifier keys are not touched.
#[verifier::external_body]
fn keyboard_add_byte(decoder: &mut ScancodeDecoder, byte: u8) -> (added: Added)
    ensures
        added == add_byte_result(pending_bytes(*old(decoder)), byte),
        pending_bytes(*old(decoder)).len() == 0 && byte == EXTENDED_PREFIX ==> added == Added::Ok(
            None,
        ),
        pending_bytes(*final(decoder)) == pending_after(pending_bytes(*old(decoder)), byte),
        modifier_keys(*final(decoder)) == modifier_keys(*old(decoder)),
{
    decoder.keyboard.add_byte(byte)
}

/// `Keyboard::process_keyevent`: reads a key event with the modifier keys
/// that are down, and keeps track of those keys. The key that comes back and
/// the modifier keys afterwards hang on the event and on the modifier keys
/// before, and on nothing else. The bytes taken of a scancode are not
/// touched.
#[verifier::external_body]
fn keyboard_process_keyevent(decoder: &mut ScancodeDecoder, event: KeyEvent) -> (key: Option<Key>)
    ensures
        key == key_for(modifier_keys(*old(decoder)), event),
        modifier_keys(*final(decoder)) == modifiers_after(modifier_keys(*old(decoder)), event),
        pending_bytes(*final(decoder)) == pending_bytes(*old(decoder)),
{
    match decoder.keyboard.process_keyevent(event) {
        Some(DecodedKey::RawKey(code)) => Some(Key::RawKey(code)),
        Some(DecodedKey::Unicode(character)) => Some(Key::Unicode(character)),
        None => None,
    }
}

/// The key event that a byte has completed, if it has: a scancode that is
/// not complete yet and a byte that makes no sense both give none.
pub fn completed_event(added: Result<Option<KeyEvent>, Error>) -> (event: Option<KeyEvent>)
    ensures
        event == completed(added),
{
    match added {
        Ok(Some(event)) => Some(event),
        _ => None,
    }
}

/// What to show for a key: its character, the key itself where it has
/// none, and nothing where there is no key.
pub fn key_output(key: Option<Key>) -> (output: Output)
    ensures
        output == shown(key),
{
    match key {
        Some(Key::Unicode(character)) => Output::Character(character),
        Some(Key::RawKey(code)) => Output::RawKey(code),
        None => Output::Nothing,
    }
}

impl ScancodeDecoder {
    /// A decoder that has seen no byte yet: no scancode is begun, num lock
    /// is on and no other modifier key is down.
    pub fn new() -> (decoder: Self)
        ensures
            pending_bytes(decoder) == Seq::<u8>::empty(),
            modifier_keys(decoder) == initial_modifiers(),
    {
        keyboard_new()
    }

    /// Takes one byte from the keyboard and gives the key that it
    /// completes, if any: the key that the modifier keys make of the key
    /// event. The prefix of a scancode of two bytes is kept for the byte
    /// that follows and gives no key; a byte that completes no key event,
    /// because it makes no sense, gives no key either and is dropped
    /// without a word.
    pub fn decode(&mut self, scancode: u8) -> (key: Option<Key>)
        ensures
            key == decoded(*old(self), scancode),
            pending_bytes(*final(self)) == pending_after(pending_bytes(*old(self)), scancode),
            modifier_keys(*final(self)) == modifiers_after_byte(*old(self), scancode),
            pending_bytes(*old(self)).len() == 0 && scancode == EXTENDED_PREFIX ==> key is None
                && modifier_keys(*final(self)) == modifier_keys(*old(self)) && add_byte_result(
                pending_bytes(*old(self)),
                scancode,
            ) == Added::Ok(None),
    {
        match completed_event(keyboard_add_byte(self, scancode)) {
            Some(event) => keyboard_process_keyevent(self, event),
            None => None,
        }
    }
}

/// A byte from the keyboard is decoded, the key that it completes is shown,
/// and the interrupt is acknowledged whatever the byte was.
pub fn keyboard_interrupt_handler(decoder: &mut ScancodeDecoder, scancode: u8) -> (outcome: Outcome)
    ensures
        outcome == (Outcome {
            output: shown(decoded(*old(decoder), scancode)),
            acknowledge: Some(InterruptIndex::Keyboard.vector()),
            resume: true,
        }),
        pending_bytes(*final(decoder)) == pending_after(pending_bytes(*old(decoder)), scancode),
        modifier_keys(*final(decoder)) == modifiers_after_byte(*old(decoder), scancode),
        pending_bytes(*old(decoder)).len() == 0 && scancode == EXTENDED_PREFIX ==> outcome.output
            is Nothing && modifier_keys(*final(decoder)) == modifier_keys(*old(decoder))
            && add_byte_result(pending_bytes(*old(decoder)), scancode) == Added::Ok(None),
{
    let key = decoder.decode(scancode);
    Outcome {
        output: key_output(key),
        acknowledge: Some(InterruptIndex::Keyboard.as_u8()),
        resume: true,
    }
}

} // verus!
