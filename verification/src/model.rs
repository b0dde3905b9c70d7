//! Mathematical model of the processor and of program execution.

use vstd::prelude::*;

verus! {

/// How one fetch-decode-execute cycle ended.
#[derive(Clone, Copy, Debug, PartialEq, Eq, Structural)]
pub enum Status {
    /// The instruction was executed and the program counter still points
    /// inside the program.
    Running,
    /// The program counter is at or past the end of the program.
    Finished,
    /// The instruction word belongs to a family without a handler. The
    /// processor stops; only the program counter has moved past the word.
    Unimplemented(u16),
    /// The program counter points at the last byte of the program, so no
    /// full instruction word can be fetched. The state is left as it was.
    TruncatedInstruction,
    /// A return was decoded while the call stack was empty. Only the
    /// program counter has moved past the word.
    StackUnderflow,
    /// The address following the fetched instruction does not fit in the
    /// 16-bit program counter. The state is left as it was.
    CounterOverflow,
}

impl Status {
    /// The statuses on which a run of the processor stops normally.
    pub open spec fn is_halt(self) -> bool {
        self is Finished || self is Unimplemented
    }

    /// The statuses that report a fault.
    pub open spec fn is_fault(self) -> bool {
        self is TruncatedInstruction || self is StackUnderflow || self is CounterOverflow
    }
}

/// The processor state as plain mathematical values.
pub struct Machine {
    pub program_counter: u16,
    pub register_v: Seq<u8>,
    pub register_i: u16,
    pub stack: Seq<u16>,
    pub ram: Seq<u8>,
    pub display_buffer: Seq<u8>,
    pub delay: u8,
    pub sound: u8,
}

impl Machine {
    /// The state has the fixed sizes of the processor: 15 general-purpose
    /// registers, 4095 bytes of memory and 64 x 32 display cells.
    pub open spec fn well_formed(self) -> bool {
        &&& self.register_v.len() == 15
        &&& self.ram.len() == 4095
        &&& self.display_buffer.len() == 2048
    }

    /// The state with every display cell set to zero.
    pub open spec fn cleared(self) -> Machine {
        Machine {
            display_buffer: Seq::new(self.display_buffer.len(), |i: int| 0u8),
            ..self
        }
    }

    /// The state after an absolute jump to `target`.
    pub open spec fn jumped(self, target: u16) -> Machine {
        Machine { program_counter: target, ..self }
    }

    /// The state after a subroutine call to `target`: the current program
    /// counter becomes the top of the call stack.
    pub open spec fn called(self, target: u16) -> Machine {
        Machine {
            program_counter: target,
            stack: self.stack.push(self.program_counter),
            ..self
        }
    }

    /// The state after a return: the top of the call stack becomes the
    /// program counter.
    pub open spec fn returned(self) -> Machine
        recommends
            self.stack.len() > 0,
    {
        Machine {
            program_counter: self.stack.last(),
            stack: self.stack.drop_last(),
            ..self
        }
    }

    /// The state after loading `value` into the index register.
    pub open spec fn index_loaded(self, value: u16) -> Machine {
        Machine { register_i: value, ..self }
    }
}

/// The big-endian instruction word formed by the bytes at `at` and `at + 1`.
pub open spec fn word_at(program: Seq<u8>, at: int) -> u16
    recommends
        0 <= at,
        at + 1 < program.len(),
{
    (program[at] as int * 256 + program[at + 1] as int) as u16
}

/// The opcode family: the top four bits of an instruction word.
pub open spec fn family(word: u16) -> int {
    word as int / 4096
}

/// The operand: the low twelve bits of an instruction word.
pub open spec fn operand(word: u16) -> u16 {
    (word as int % 4096) as u16
}

/// The effect of the instruction `word` on a state whose program counter
/// already points past it. `Running` stands for an instruction that was
/// carried out.
pub open spec fn dispatch(m: Machine, word: u16) -> (Machine, Status) {
    if word == 0x00E0 {
        (m.cleared(), Status::Running)
    } else if word == 0x00EE {
        if m.stack.len() == 0 {
            (m, Status::StackUnderflow)
        } else {
            (m.returned(), Status::Running)
        }
    } else if family(word) == 0x0 {
        (m, Status::Running)
    } else if family(word) == 0x1 {
        (m.jumped(operand(word)), Status::Running)
    } else if family(word) == 0x2 {
        (m.called(operand(word)), Status::Running)
    } else if family(word) == 0xA {
        (m.index_loaded(operand(word)), Status::Running)
    } else {
        (m, Status::Unimplemented(word))
    }
}

/// One fetch-decode-execute cycle of `m` over `program`: the next state and
/// how the cycle ended.
pub open spec fn step_spec(m: Machine, program: Seq<u8>) -> (Machine, Status) {
    let pc = m.program_counter as int;
    if pc >= program.len() {
        (m, Status::Finished)
    } else if pc + 1 >= program.len() {
        (m, Status::TruncatedInstruction)
    } else if pc + 2 > u16::MAX {
        (m, Status::CounterOverflow)
    } else {
        let (next, status) = dispatch(m.jumped((pc + 2) as u16), word_at(program, pc));
        if status is Running && next.program_counter as int >= program.len() {
            (next, Status::Finished)
        } else {
            (next, status)
        }
    }
}

/// At most `cycles` cycles of `m` over `program`, stopping after the first
/// cycle that does not end in `Running`.
pub open spec fn iterate(m: Machine, program: Seq<u8>, cycles: nat) -> (Machine, Status)
    decreases cycles,
{
    if cycles == 0 {
        (m, Status::Running)
    } else {
        let (next, status) = step_spec(m, program);
        if status is Running {
            iterate(next, program, (cycles - 1) as nat)
        } else {
            (next, status)
        }
    }
}

/// `m` stops normally within `cycles` cycles over `program`.
pub open spec fn halts_within(m: Machine, program: Seq<u8>, cycles: nat) -> bool {
    iterate(m, program, cycles).1.is_halt()
}

/// `m` stops normally over `program` after some number of cycles.
pub open spec fn halts(m: Machine, program: Seq<u8>) -> bool {
    exists|cycles: nat| halts_within(m, program, cycles)
}

/// Once a run has stopped, further cycles change nothing: a run that stops
/// (normally or with a fault) within `a` cycles gives the same state and
/// status for every larger budget `b`.
pub proof fn lemma_iterate_stable(m: Machine, program: Seq<u8>, a: nat, b: nat)
    requires
        a <= b,
        !(iterate(m, program, a).1 is Running),
    ensures
        iterate(m, program, b) == iterate(m, program, a),
    decreases a,
{
    if a > 0 {
        let (next, status) = step_spec(m, program);
        if status is Running {
            lemma_iterate_stable(next, program, (a - 1) as nat, (b - 1) as nat);
        }
    }
}

/// The state in which a run stops does not depend on the budget: any two
/// budgets within which `m` stops give the same result.
pub proof fn lemma_iterate_deterministic(m: Machine, program: Seq<u8>, a: nat, b: nat)
    requires
        !(iterate(m, program, a).1 is Running),
        !(iterate(m, program, b).1 is Running),
    ensures
        iterate(m, program, a) == iterate(m, program, b),
{
    if a <= b {
        lemma_iterate_stable(m, program, a, b);
    } else {
        lemma_iterate_stable(m, program, b, a);
    }
}

} // verus!
