use vstd::prelude::*;
use crate::nes::opcodes::{AddressingMode, Mnemonic, lemma_table_well_formed, opcode_spec};
use crate::nes::status::with_zero_and_negative;

verus! {

/// Size of the address space, in bytes.
pub const MEMORY_SIZE: usize = 0x10000;

/// Address of the two-byte reset vector.
pub const RESET_VECTOR: u16 = 0xFFFC;

/// Address at which a program image is loaded.
pub const PROGRAM_START: u16 = 0x8000;

/// A fatal condition that stops the interpreter.
#[derive(Clone, Copy, Debug, PartialEq, Eq, Structural)]
pub enum CpuError {
    /// The byte fetched as an opcode has no entry in the table.
    UnrecognizedOpcode { code: u8, program_counter: u16 },
    /// The instruction needs an operand address that its mode cannot give.
    UnsupportedAddressingMode { mode: AddressingMode, mnemonic: Mnemonic },
    /// The instruction at this address would run past the end of memory.
    ProgramCounterOverflow { program_counter: u16 },
}

/// What one executed instruction leaves the interpreter to do.
#[derive(Clone, Copy, Debug, PartialEq, Eq, Structural)]
pub enum StepOutcome {
    /// Fetch the next instruction.
    Continue,
    /// A break instruction was executed.
    Halted,
}

/// The abstract state of the processor: its registers and its whole memory.
pub struct MachineState {
    pub register_a: u8,
    pub register_x: u8,
    pub register_y: u8,
    pub status: u8,
    pub program_counter: u16,
    pub memory: Seq<u8>,
}

/// The address one past `addr`, wrapping at the top of the address space.
pub open spec fn next_address(addr: u16) -> u16 {
    ((addr as int + 1) % 0x10000) as u16
}

/// The little-endian word at `addr`: low byte there, high byte at the next address.
pub open spec fn word_at(mem: Seq<u8>, addr: u16) -> u16 {
    (mem[addr as int] as int + 256 * mem[next_address(addr) as int] as int) as u16
}

/// Memory after writing the word `v` little-endian at `addr`.
pub open spec fn write_word(mem: Seq<u8>, addr: u16, v: u16) -> Seq<u8> {
    mem.update(addr as int, (v % 256) as u8).update(next_address(addr) as int, (v / 256) as u8)
}

/// The word stored at `ptr` in the zero page, its high byte fetched from
/// `ptr + 1` wrapped within the zero page.
pub open spec fn zero_page_word(mem: Seq<u8>, ptr: u8) -> u16 {
    (mem[ptr as int] as int + 256 * mem[(ptr as int + 1) % 256] as int) as u16
}

/// The effective address of the operand for `mode`, with the program counter
/// at the first byte after the opcode; none for `NoneAddressing`.
pub open spec fn operand_address(s: MachineState, mode: AddressingMode) -> Option<u16> {
    let pc = s.program_counter;
    let b = s.memory[pc as int];
    match mode {
        AddressingMode::Immediate => Some(pc),
        AddressingMode::ZeroPage => Some(b as u16),
        AddressingMode::ZeroPage_X => Some(((b as int + s.register_x as int) % 256) as u16),
        AddressingMode::ZeroPage_Y => Some(((b as int + s.register_y as int) % 256) as u16),
        AddressingMode::Absolute => Some(word_at(s.memory, pc)),
        AddressingMode::Absolute_X => Some(
            ((word_at(s.memory, pc) as int + s.register_x as int) % 0x10000) as u16,
        ),
        AddressingMode::Absolute_Y => Some(
            ((word_at(s.memory, pc) as int + s.register_y as int) % 0x10000) as u16,
        ),
        AddressingMode::Indirect_X => Some(
            zero_page_word(s.memory, ((b as int + s.register_x as int) % 256) as u8),
        ),
        AddressingMode::Indirect_Y => Some(
            ((zero_page_word(s.memory, b) as int + s.register_y as int) % 0x10000) as u16,
        ),
        AddressingMode::NoneAddressing => None,
    }
}

/// The state after executing instruction `m` in `mode`, the program counter
/// at the first byte after the opcode; the program counter itself is left alone.
pub open spec fn execute(s: MachineState, m: Mnemonic, mode: AddressingMode) -> Result<
    MachineState,
    CpuError,
> {
    match m {
        Mnemonic::Lda => match operand_address(s, mode) {
            Some(addr) => {
                let v = s.memory[addr as int];
                Ok(
                    MachineState {
                        register_a: v,
                        status: with_zero_and_negative(s.status, v),
                        ..s
                    },
                )
            },
            None => Err(CpuError::UnsupportedAddressingMode { mode, mnemonic: m }),
        },
        Mnemonic::Ldx => match operand_address(s, mode) {
            Some(addr) => {
                let v = s.memory[addr as int];
                Ok(
                    MachineState {
                        register_x: v,
                        status: with_zero_and_negative(s.status, v),
                        ..s
                    },
                )
            },
            None => Err(CpuError::UnsupportedAddressingMode { mode, mnemonic: m }),
        },
        Mnemonic::Sta => match operand_address(s, mode) {
            Some(addr) => Ok(
                MachineState { memory: s.memory.update(addr as int, s.register_a), ..s },
            ),
            None => Err(CpuError::UnsupportedAddressingMode { mode, mnemonic: m }),
        },
        Mnemonic::Tax => Ok(
            MachineState {
                register_x: s.register_a,
                status: with_zero_and_negative(s.status, s.register_a),
                ..s
            },
        ),
        Mnemonic::Inx => {
            let x = ((s.register_x as int + 1) % 256) as u8;
            Ok(MachineState { register_x: x, status: with_zero_and_negative(s.status, x), ..s })
        },
        Mnemonic::Brk => Ok(s),
    }
}

/// One fetch-decode-execute step: the next state and whether the machine
/// halted, or the fatal condition met, in which case nothing changes.
pub open spec fn step_spec(s: MachineState) -> Result<(MachineState, bool), CpuError> {
    let pc = s.program_counter;
    if pc == 0xFFFF {
        Err(CpuError::ProgramCounterOverflow { program_counter: pc })
    } else {
        let code = s.memory[pc as int];
        match opcode_spec(code) {
            None => Err(CpuError::UnrecognizedOpcode { code, program_counter: pc }),
            Some(op) => {
                let fetched = MachineState { program_counter: (pc + 1) as u16, ..s };
                if op.mnemonic == Mnemonic::Brk {
                    Ok((fetched, true))
                } else if pc as int + op.len as int > 0xFFFF {
                    Err(CpuError::ProgramCounterOverflow { program_counter: pc })
                } else {
                    match execute(fetched, op.mnemonic, op.mode) {
                        Ok(done) => Ok(
                            (MachineState { program_counter: (pc + op.len) as u16, ..done }, false),
                        ),
                        Err(e) => Err(e),
                    }
                }
            },
        }
    }
}

/// Runs steps from `s` until a break or a fatal condition: the outcome, the
/// final state, and the number of instructions that completed.
pub open spec fn run_spec(s: MachineState) -> (Result<(), CpuError>, MachineState, nat)
    decreases 0x10000 - s.program_counter,
{
    match step_spec(s) {
        Err(e) => (Err(e), s, 0),
        Ok((next, halted)) => {
            if !halted && next.program_counter > s.program_counter {
                let (r, last, n) = run_spec(next);
                (r, last, n + 1)
            } else {
                (Ok(()), next, 1)
            }
        },
    }
}

/// The state after a reset: registers and flags cleared, the program counter
/// taken from the reset vector.
pub open spec fn reset_spec(s: MachineState) -> MachineState {
    MachineState {
        register_a: 0,
        register_x: 0,
        register_y: 0,
        status: 0,
        program_counter: word_at(s.memory, RESET_VECTOR),
        ..s
    }
}

/// Memory with `program` copied to the load address.
pub open spec fn with_program(mem: Seq<u8>, program: Seq<u8>) -> Seq<u8> {
    Seq::new(
        mem.len(),
        |i: int|
            if PROGRAM_START <= i < PROGRAM_START + program.len() {
                program[i - PROGRAM_START]
            } else {
                mem[i]
            },
    )
}

/// The state after loading `program`: copied to the load address, and the
/// reset vector pointing there.
pub open spec fn load_spec(s: MachineState, program: Seq<u8>) -> MachineState {
    MachineState {
        memory: write_word(with_program(s.memory, program), RESET_VECTOR, PROGRAM_START),
        ..s
    }
}

/// Writing a word and reading it back at the same address gives the word,
/// with its low byte at the address and its high byte at the next one.
pub proof fn lemma_word_round_trip(mem: Seq<u8>, addr: u16, v: u16)
    requires
        mem.len() == MEMORY_SIZE,
    ensures
        word_at(write_word(mem, addr, v), addr) == v,
        write_word(mem, addr, v)[addr as int] == v % 256,
        write_word(mem, addr, v)[next_address(addr) as int] == v / 256,
        write_word(mem, addr, v).len() == MEMORY_SIZE,
{
}

/// After every step that neither halts nor fails, the program counter stands
/// just past the instruction executed: its old value plus the instruction's
/// length. Only a store changes memory.
pub proof fn lemma_step_advances(s: MachineState)
    requires
        s.memory.len() == MEMORY_SIZE,
    ensures
        step_spec(s) matches Ok((next, false)) ==> opcode_spec(s.memory[s.program_counter as int])
            matches Some(op) && next.program_counter == s.program_counter + op.len && (
        op.mnemonic != Mnemonic::Sta ==> next.memory == s.memory),
{
    lemma_table_well_formed(s.memory[s.program_counter as int]);
}

/// The address a store at `pc` writes to when it depends on the instruction
/// bytes alone: its zero-page or absolute operand.
pub open spec fn fixed_store_target(mem: Seq<u8>, pc: u16, mode: AddressingMode) -> Option<u16> {
    match mode {
        AddressingMode::ZeroPage => Some(mem[pc + 1] as u16),
        AddressingMode::Absolute => Some(word_at(mem, (pc + 1) as u16)),
        _ => None,
    }
}

/// Memory from `pc` holds `n` instructions of the table other than a break,
/// each lying wholly below the top address, followed by a break. A store
/// among them has a fixed target below the end of its own instruction, so
/// that it never rewrites an instruction still to be fetched.
pub open spec fn straight_line_program(mem: Seq<u8>, pc: u16, n: nat) -> bool
    decreases n,
{
    pc < 0xFFFF && match opcode_spec(mem[pc as int]) {
        None => false,
        Some(op) => if n == 0 {
            op.mnemonic == Mnemonic::Brk
        } else {
            &&& op.mnemonic != Mnemonic::Brk
            &&& pc + op.len <= 0xFFFF
            &&& op.mnemonic == Mnemonic::Sta ==> (fixed_store_target(mem, pc, op.mode) matches Some(
                t,
            ) && t < pc + op.len)
            &&& straight_line_program(mem, (pc + op.len) as u16, (n - 1) as nat)
        },
    }
}

/// A write below `pc` does not change the program found at `pc`.
proof fn lemma_straight_line_frame(mem: Seq<u8>, pc: u16, n: nat, addr: int, v: u8)
    requires
        mem.len() == MEMORY_SIZE,
        0 <= addr < pc,
    ensures
        straight_line_program(mem.update(addr, v), pc, n) == straight_line_program(mem, pc, n),
    decreases n,
{
    let m2 = mem.update(addr, v);
    let code = mem[pc as int];
    assert(m2[pc as int] == code);
    lemma_table_well_formed(code);
    if pc < 0xFFFF {
        if let Some(op) = opcode_spec(code) {
            if pc + op.len <= 0xFFFF {
                assert(m2[pc + 1] == mem[pc + 1]);
                if pc + 2 <= 0xFFFF {
                    assert(m2[pc + 2] == mem[pc + 2]);
                }
                if op.mnemonic == Mnemonic::Sta {
                    assert(fixed_store_target(m2, pc, op.mode) == fixed_store_target(
                        mem,
                        pc,
                        op.mode,
                    ));
                }
                if n > 0 {
                    lemma_straight_line_frame(mem, (pc + op.len) as u16, (n - 1) as nat, addr, v);
                }
            }
        }
    }
}

/// Running a program of `n` such instructions followed by a break halts
/// without error after exactly `n + 1` instructions.
pub proof fn lemma_straight_line_halts(s: MachineState, n: nat)
    requires
        s.memory.len() == MEMORY_SIZE,
        straight_line_program(s.memory, s.program_counter, n),
    ensures
        run_spec(s).0 == Ok::<(), CpuError>(()),
        run_spec(s).2 == n + 1,
    decreases n,
{
    let code = s.memory[s.program_counter as int];
    lemma_table_well_formed(code);
    lemma_step_advances(s);
    if n > 0 {
        let op = opcode_spec(code).unwrap();
        let next = step_spec(s).unwrap().0;
        assert(step_spec(s) == Ok::<(MachineState, bool), CpuError>((next, false)));
        if op.mnemonic == Mnemonic::Sta {
            let t = fixed_store_target(s.memory, s.program_counter, op.mode).unwrap();
            assert(next.memory == s.memory.update(t as int, s.register_a));
            lemma_straight_line_frame(
                s.memory,
                next.program_counter,
                (n - 1) as nat,
                t as int,
                s.register_a,
            );
        }
        lemma_straight_line_halts(next, (n - 1) as nat);
    }
}

} // verus!
