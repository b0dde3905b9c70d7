//! The executable processor.

use vstd::prelude::*;
use crate::model::{Machine, Status, halts, halts_within, iterate, operand, step_spec, word_at};
use crate::model::lemma_iterate_deterministic;

verus! {

/// The processor state: program counter, registers, call stack, memory,
/// display buffer and timers.
#[allow(clippy::upper_case_acronyms)]
pub struct CPU {
    pub program_counter: u16,
    pub register_v: [u8; 15],
    pub register_i: u16,
    pub stack: Vec<u16>,
    pub ram: [u8; 4095],
    pub display_buffer: [u8; 2048],
    pub delay: u8,
    pub sound: u8,
}

impl View for CPU {
    type V = Machine;

    open spec fn view(&self) -> Machine {
        Machine {
            program_counter: self.program_counter,
            register_v: self.register_v@,
            register_i: self.register_i,
            stack: self.stack@,
            ram: self.ram@,
            display_buffer: self.display_buffer@,
            delay: self.delay,
            sound: self.sound,
        }
    }
}

/// The state of a processor that has just been created: every register,
/// memory cell, display cell and timer is zero and the call stack is empty.
pub open spec fn initial_machine() -> Machine {
    Machine {
        program_counter: 0,
        register_v: Seq::new(15, |i: int| 0u8),
        register_i: 0,
        stack: Seq::empty(),
        ram: Seq::new(4095, |i: int| 0u8),
        display_buffer: Seq::new(2048, |i: int| 0u8),
        delay: 0,
        sound: 0,
    }
}

impl CPU {
    /// Creates a zero-initialised processor.
    pub fn new() -> (cpu: Self)
        ensures
            cpu@ == initial_machine(),
            cpu@.well_formed(),
    {
        let cpu = CPU {
            program_counter: 0x0000,
            register_v: [0x00; 15],
            register_i: 0x0000,
            stack: Vec::with_capacity(0x40),
            ram: [0x00; 4095],
            display_buffer: [0x00; 2048],
            delay: 0x00,
            sound: 0x00,
        };
        assert(cpu.register_v@ =~= initial_machine().register_v);
        assert(cpu.ram@ =~= initial_machine().ram);
        assert(cpu.display_buffer@ =~= initial_machine().display_buffer);
        cpu
    }

    /// Load Index: sets the index register to the low twelve bits of
    /// `opscode`.
    pub fn ldi(&mut self, opscode: u16)
        ensures
            final(self)@ == old(self)@.index_loaded(operand(opscode)),
            final(self).register_i < 0x1000,
    {
        assert(opscode & 0x0FFF == opscode % 4096) by (bit_vector);
        self.register_i = opscode & 0x0FFF;
    }

    /// Call: pushes the program counter onto the call stack and jumps to
    /// the low twelve bits of `opscode`.
    pub fn call(&mut self, opscode: u16)
        ensures
            final(self)@ == old(self)@.called(operand(opscode)),
            final(self).program_counter < 0x1000,
    {
        assert(opscode & 0x0FFF == opscode % 4096) by (bit_vector);
        self.stack.push(self.program_counter);
        self.program_counter = opscode & 0x0FFF;
    }

    /// Return: pops the top of the call stack into the program counter.
    pub fn ret(&mut self)
        requires
            old(self)@.stack.len() > 0,
        ensures
            final(self)@ == old(self)@.returned(),
    {
        self.program_counter = self.stack.pop().unwrap();
    }

    /// Jump: sets the program counter to the low twelve bits of `opscode`.
    pub fn jp(&mut self, opscode: u16)
        ensures
            final(self)@ == old(self)@.jumped(operand(opscode)),
            final(self).program_counter < 0x1000,
    {
        assert(opscode & 0x0FFF == opscode % 4096) by (bit_vector);
        self.program_counter = opscode & 0x0FFF;
    }

    /// Sys: a call into machine code of the host hardware, which this
    /// processor does not have. It is ignored.
    #[allow(unused_variables)]
    pub fn sys(&mut self, opscode: u16)
        ensures
            final(self)@ == old(self)@,
    {
    }

    /// Clear: sets every cell of the display buffer to zero.
    pub fn clear_buffer(&mut self)
        ensures
            final(self)@ == old(self)@.cleared(),
            forall|i: int| 0 <= i < 2048 ==> final(self).display_buffer@[i] == 0,
    {
        let mut at: usize = 0;
        while at < 2048
            invariant
                at <= 2048,
                forall|i: int| 0 <= i < at ==> self.display_buffer@[i] == 0,
                self@ == (Machine { display_buffer: self.display_buffer@, ..old(self)@ }),
            decreases 2048 - at,
        {
            self.display_buffer[at] = 0x00;
            at = at + 1;
        }
        assert(self@.display_buffer =~= old(self)@.cleared().display_buffer);
    }

    /// Runs one fetch-decode-execute cycle over `program` and reports how
    /// it ended. The word is fetched at the program counter, the counter
    /// moves past it, and the word is then decoded and carried out. Nothing
    /// is fetched when the counter is already at or past the end of the
    /// program. On a fault nothing but the program counter can have changed.
    pub fn step(&mut self, program: &Vec<u8>) -> (status: Status)
        ensures
            (final(self)@, status) == step_spec(old(self)@, program@),
    {
        let pc: usize = self.program_counter as usize;
        if pc >= program.len() {
            return Status::Finished;
        }
        if pc + 1 >= program.len() {
            return Status::TruncatedInstruction;
        }
        if self.program_counter > 0xFFFD {
            return Status::CounterOverflow;
        }
        let high: u8 = program[pc];
        let low: u8 = program[pc + 1];
        let opscode: u16 = ((high as u16) << 8) | (low as u16);
        assert(((high as u16) << 8) | (low as u16) == high as u16 * 256 + low as u16)
            by (bit_vector);
        assert(opscode >> 12 == opscode / 4096) by (bit_vector);
        assert(opscode == word_at(program@, pc as int));
        self.program_counter = self.program_counter + 2;
        match opscode >> 12 {
            0x0 => {
                match opscode {
                    0x00E0 => self.clear_buffer(),
                    0x00EE => {
                        if self.stack.len() == 0 {
                            return Status::StackUnderflow;
                        }
                        self.ret()
                    },
                    _ => self.sys(opscode),
                };
            },
            0x1 => self.jp(opscode),
            0x2 => self.call(opscode),
            0xA => self.ldi(opscode),
            _ => {
                return Status::Unimplemented(opscode);
            },
        }
        if self.program_counter as usize >= program.len() {
            Status::Finished
        } else {
            Status::Running
        }
    }

    /// Runs at most `cycles` cycles over `program`, stopping after the first
    /// one that does not end in `Running`, and reports the last status.
    /// `Running` means that the budget ran out first.
    pub fn run_bounded(&mut self, program: &Vec<u8>, cycles: usize) -> (status: Status)
        ensures
            (final(self)@, status) == iterate(old(self)@, program@, cycles as nat),
    {
        let mut left: usize = cycles;
        while left > 0
            invariant
                iterate(self@, program@, left as nat) == iterate(
                    old(self)@,
                    program@,
                    cycles as nat,
                ),
            decreases left,
        {
            let status = self.step(program);
            match status {
                Status::Running => {},
                _ => {
                    return status;
                },
            }
            left = left - 1;
        }
        Status::Running
    }

    /// Runs `program` from the current state until the processor stops: the
    /// program counter reaches the end of the program, or an instruction of
    /// an unimplemented family is met. Programs on which the processor
    /// faults or never stops are left out; `run_bounded` takes any program
    /// and reports how it ended.
    pub fn run(&mut self, program: Vec<u8>)
        requires
            program@.len() > 0,
            halts(old(self)@, program@),
        ensures
            forall|cycles: nat|
                #![trigger iterate(old(self)@, program@, cycles)]
                halts_within(old(self)@, program@, cycles) ==> final(self)@ == iterate(
                    old(self)@,
                    program@,
                    cycles,
                ).0,
    {
        let ghost budget: nat = choose|cycles: nat| halts_within(old(self)@, program@, cycles);
        let ghost mut left: nat = budget;
        loop
            invariant_except_break
                halts_within(self@, program@, left),
                iterate(self@, program@, left) == iterate(old(self)@, program@, budget),
            ensures
                halts_within(old(self)@, program@, budget),
                self@ == iterate(old(self)@, program@, budget).0,
            decreases left,
        {
            let status = self.step(&program);
            proof {
                left = (left - 1) as nat;
            }
            match status {
                Status::Running => {},
                _ => {
                    break ;
                },
            }
        }
        assert forall|cycles: nat| halts_within(old(self)@, program@, cycles) implies self@
            == #[trigger] iterate(old(self)@, program@, cycles).0 by {
            lemma_iterate_deterministic(old(self)@, program@, cycles, budget);
        }
    }
}

impl Default for CPU {
    fn default() -> (cpu: Self)
        ensures
            cpu@ == initial_machine(),
    {
        CPU::new()
    }
}

} // verus!
