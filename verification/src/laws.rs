//! Laws of the processor, stated over the model that its contracts use: what
//! short instruction sequences do from any state, and what every cycle keeps.

use vstd::prelude::*;
use crate::model::{Machine, Status, family, halts, halts_within, iterate, step_spec, word_at};

verus! {

/// The instruction word of a jump to `target`.
pub open spec fn jump_word(target: u16) -> u16 {
    (0x1000 + target) as u16
}

/// The instruction word of a call to `target`.
pub open spec fn call_word(target: u16) -> u16 {
    (0x2000 + target) as u16
}

/// The instruction word that loads `value` into the index register.
pub open spec fn load_index_word(value: u16) -> u16 {
    (0xA000 + value) as u16
}

/// The instruction word of a return.
pub open spec fn return_word() -> u16 {
    0x00EE
}

/// The instruction word that clears the display.
pub open spec fn clear_word() -> u16 {
    0x00E0
}

/// `word` belongs to a family for which the processor has no handler.
pub open spec fn is_unimplemented(word: u16) -> bool {
    family(word) != 0x0 && family(word) != 0x1 && family(word) != 0x2 && family(word) != 0xA
}

/// A full instruction word can be fetched at the program counter of `m`,
/// and the counter can move past it.
pub open spec fn can_fetch(m: Machine, program: Seq<u8>) -> bool {
    m.program_counter + 2 <= program.len() && m.program_counter + 2 <= u16::MAX
}

/// Load Index followed by an instruction of an unimplemented family: the
/// processor stops after two cycles, the index register holds the twelve-bit
/// `value`, the program counter stands behind the second word, and nothing
/// else has changed.
pub proof fn lemma_load_index_then_unimplemented(
    m: Machine,
    program: Seq<u8>,
    value: u16,
    word: u16,
)
    requires
        value < 0x1000,
        m.program_counter + 4 <= program.len(),
        m.program_counter + 4 <= u16::MAX,
        word_at(program, m.program_counter as int) == load_index_word(value),
        word_at(program, m.program_counter + 2) == word,
        is_unimplemented(word),
    ensures
        iterate(m, program, 2) == (
            m.index_loaded(value).jumped((m.program_counter + 4) as u16),
            Status::Unimplemented(word),
        ),
        halts(m, program),
{
    reveal_with_fuel(iterate, 3);
    let first = step_spec(m, program);
    assert(first == (m.index_loaded(value).jumped((m.program_counter + 2) as u16), Status::Running));
    assert(halts_within(m, program, 2));
}

/// A call to `target` followed, at `target`, by Load Index: after two
/// cycles the call stack has grown by exactly one entry, the address of the
/// word behind the call; the index register holds `value`; and the program
/// counter stands behind the Load Index.
pub proof fn lemma_call_then_load_index(m: Machine, program: Seq<u8>, target: u16, value: u16)
    requires
        target < 0x1000,
        value < 0x1000,
        can_fetch(m, program),
        target + 2 <= program.len(),
        word_at(program, m.program_counter as int) == call_word(target),
        word_at(program, target as int) == load_index_word(value),
    ensures
        iterate(m, program, 2) == (
            (Machine {
                program_counter: (target + 2) as u16,
                register_i: value,
                stack: m.stack.push((m.program_counter + 2) as u16),
                ..m
            }),
            if target + 2 >= program.len() {
                Status::Finished
            } else {
                Status::Running
            },
        ),
{
    reveal_with_fuel(iterate, 3);
    let first = step_spec(m, program);
    assert(first == (
        m.jumped((m.program_counter + 2) as u16).called(target),
        Status::Running,
    ));
}

/// Call, Load Index, Return, Load Index: the return resumes at the word
/// behind the call, where the second Load Index is carried out. After four
/// cycles the call stack is what it was before the call, the index register
/// holds `second`, and the program counter stands behind the second Load
/// Index.
pub proof fn lemma_call_return_resumes(
    m: Machine,
    program: Seq<u8>,
    target: u16,
    first: u16,
    second: u16,
)
    requires
        target < 0x1000,
        first < 0x1000,
        second < 0x1000,
        m.program_counter + 4 <= program.len(),
        m.program_counter + 4 <= u16::MAX,
        target + 4 <= program.len(),
        word_at(program, m.program_counter as int) == call_word(target),
        word_at(program, target as int) == load_index_word(first),
        word_at(program, target + 2) == return_word(),
        word_at(program, m.program_counter + 2) == load_index_word(second),
    ensures
        iterate(m, program, 4) == (
            (Machine {
                program_counter: (m.program_counter + 4) as u16,
                register_i: second,
                ..m
            }),
            if m.program_counter + 4 >= program.len() {
                Status::Finished
            } else {
                Status::Running
            },
        ),
{
    reveal_with_fuel(iterate, 5);
    let resume = (m.program_counter + 2) as u16;
    let s1 = step_spec(m, program);
    assert(s1 == (m.jumped(resume).called(target), Status::Running));
    let s2 = step_spec(s1.0, program);
    assert(s2 == (s1.0.index_loaded(first).jumped((target + 2) as u16), Status::Running));
    let s3 = step_spec(s2.0, program);
    assert(s2.0.stack.last() == resume);
    assert(s2.0.stack.drop_last() =~= m.stack);
    assert(s3 == (
        (Machine { program_counter: resume, register_i: first, ..m }),
        Status::Running,
    ));
}

/// Clear sets every cell of the display buffer to zero, whatever it held,
/// keeps the number of cells, and changes nothing else but the program
/// counter, which moves past the word.
pub proof fn lemma_clear_zeroes_display(m: Machine, program: Seq<u8>)
    requires
        can_fetch(m, program),
        word_at(program, m.program_counter as int) == clear_word(),
    ensures
        step_spec(m, program).0 == m.jumped((m.program_counter + 2) as u16).cleared(),
        step_spec(m, program).0.display_buffer.len() == m.display_buffer.len(),
        forall|i: int|
            0 <= i < m.display_buffer.len() ==> step_spec(m, program).0.display_buffer[i] == 0,
{
}

/// A jump to `target` sets the program counter to `target`, whatever it was
/// and whatever the advance past the jump would have made it, and changes
/// nothing else.
pub proof fn lemma_jump_sets_counter(m: Machine, program: Seq<u8>, target: u16)
    requires
        target < 0x1000,
        can_fetch(m, program),
        word_at(program, m.program_counter as int) == jump_word(target),
    ensures
        step_spec(m, program).0 == m.jumped(target),
        step_spec(m, program).1 == if target as int >= program.len() {
            Status::Finished
        } else {
            Status::Running
        },
{
}

/// A cycle keeps the fixed sizes of the processor, and so does a run.
pub proof fn lemma_iterate_well_formed(m: Machine, program: Seq<u8>, cycles: nat)
    requires
        m.well_formed(),
    ensures
        step_spec(m, program).0.well_formed(),
        iterate(m, program, cycles).0.well_formed(),
    decreases cycles,
{
    if cycles > 0 {
        let (next, status) = step_spec(m, program);
        if status is Running {
            lemma_iterate_well_formed(next, program, (cycles - 1) as nat);
        }
    }
}

/// A cycle that ends in a fault changes nothing but, at most, the program
/// counter.
pub proof fn lemma_fault_keeps_state(m: Machine, program: Seq<u8>)
    requires
        step_spec(m, program).1.is_fault(),
    ensures
        step_spec(m, program).0 == m.jumped(step_spec(m, program).0.program_counter),
{
}

} // verus!
