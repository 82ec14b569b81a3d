use vstd::prelude::*;
use crate::nes::machine::{
    CpuError, MachineState, MEMORY_SIZE, PROGRAM_START, RESET_VECTOR, StepOutcome, execute,
    load_spec, operand_address, reset_spec, run_spec, step_spec, with_program, word_at,
    write_word, zero_page_word,
};
use crate::nes::opcodes::{Mnemonic, lookup, lemma_table_well_formed};
use crate::nes::status::{StatusRegister, with_zero_and_negative};

pub use crate::nes::opcodes::AddressingMode;

verus! {

/// Whether an instruction handler's result and the state it left agree with
/// `expected`: the new state on success, the old state kept on failure.
pub open spec fn handled(
    r: Result<(), CpuError>,
    before: MachineState,
    after: MachineState,
    expected: Result<MachineState, CpuError>,
) -> bool {
    match expected {
        Ok(s) => r == Ok::<(), CpuError>(()) && after == s,
        Err(e) => r == Err::<(), CpuError>(e) && after == before,
    }
}

/// A 6502 processor with its 64 KiB of memory.
///
/// Sixteen-bit values are stored little-endian: the low byte first.
pub struct CPU {
    /// Accumulator.
    pub register_a: u8,
    /// Index register X.
    pub register_x: u8,
    /// Index register Y.
    pub register_y: u8,
    /// Processor status flags.
    pub status: StatusRegister,
    pub program_counter: u16,
    memory: Vec<u8>,
}

impl View for CPU {
    type V = MachineState;

    closed spec fn view(&self) -> MachineState {
        MachineState {
            register_a: self.register_a,
            register_x: self.register_x,
            register_y: self.register_y,
            status: self.status@,
            program_counter: self.program_counter,
            memory: self.memory@,
        }
    }
}

impl CPU {
    /// The memory holds exactly one byte per address.
    pub closed spec fn wf(&self) -> bool {
        self.memory@.len() == MEMORY_SIZE
    }

    /// A processor with every register and flag clear and zero-filled memory.
    pub fn new() -> (r: CPU)
        ensures
            r.wf(),
            r@ == (MachineState {
                register_a: 0,
                register_x: 0,
                register_y: 0,
                status: 0,
                program_counter: 0,
                memory: Seq::new(MEMORY_SIZE as nat, |i: int| 0u8),
            }),
    {
        let mut memory: Vec<u8> = Vec::new();
        while memory.len() < MEMORY_SIZE
            invariant
                memory.len() <= MEMORY_SIZE,
                forall|i: int| 0 <= i < memory.len() ==> memory@[i] == 0u8,
            decreases MEMORY_SIZE - memory.len(),
        {
            memory.push(0);
        }
        let r = CPU {
            register_a: 0,
            register_x: 0,
            register_y: 0,
            status: StatusRegister::new(),
            program_counter: 0,
            memory,
        };
        assert(r@.memory =~= Seq::new(MEMORY_SIZE as nat, |i: int| 0u8));
        r
    }

    /// The byte at `addr`.
    pub fn mem_read(&self, addr: u16) -> (r: u8)
        requires
            self.wf(),
        ensures
            r == self@.memory[addr as int],
    {
        self.memory[addr as usize]
    }

    /// Stores `data` at `addr`.
    pub fn mem_write(&mut self, addr: u16, data: u8)
        requires
            old(self).wf(),
        ensures
            final(self).wf(),
            final(self)@ == (MachineState {
                memory: old(self)@.memory.update(addr as int, data),
                ..old(self)@
            }),
    {
        self.memory.set(addr as usize, data);
        assert(self@.memory =~= old(self)@.memory.update(addr as int, data));
    }

    /// The little-endian word at `pos`: low byte at `pos`, high byte at the
    /// next address.
    pub fn mem_read_u16(&self, pos: u16) -> (r: u16)
        requires
            self.wf(),
        ensures
            r == word_at(self@.memory, pos),
    {
        let lo = self.mem_read(pos) as u16;
        let hi = self.mem_read(pos.wrapping_add(1)) as u16;
        hi * 256 + lo
    }

    /// Writes `data` little-endian at `pos`: low byte first.
    pub fn mem_write_u16(&mut self, pos: u16, data: u16)
        requires
            old(self).wf(),
        ensures
            final(self).wf(),
            final(self)@ == (MachineState {
                memory: write_word(old(self)@.memory, pos, data),
                ..old(self)@
            }),
    {
        let hi = (data / 256) as u8;
        let lo = (data % 256) as u8;
        self.mem_write(pos, lo);
        self.mem_write(pos.wrapping_add(1), hi);
    }

    /// Copies `program` to the load address and points the reset vector at it.
    pub fn load(&mut self, program: Vec<u8>)
        requires
            old(self).wf(),
            program.len() <= MEMORY_SIZE - PROGRAM_START,
        ensures
            final(self).wf(),
            final(self)@ == load_spec(old(self)@, program@),
    {
        let ghost start = self@;
        let mut i: usize = 0;
        while i < program.len()
            invariant
                self.wf(),
                i <= program.len(),
                program.len() <= MEMORY_SIZE - PROGRAM_START,
                self@ == (MachineState { memory: self@.memory, ..start }),
                forall|j: int|
                    0 <= j < MEMORY_SIZE ==> #[trigger] self@.memory[j] == if PROGRAM_START <= j
                        < PROGRAM_START + i {
                        program@[j - PROGRAM_START]
                    } else {
                        start.memory[j]
                    },
            decreases program.len() - i,
        {
            self.mem_write(PROGRAM_START + i as u16, program[i]);
            i = i + 1;
        }
        assert(self@.memory =~= with_program(start.memory, program@));
        self.mem_write_u16(RESET_VECTOR, PROGRAM_START);
    }

    /// Clears the registers and flags and takes the program counter from the
    /// reset vector; memory is kept.
    pub fn reset(&mut self)
        requires
            old(self).wf(),
        ensures
            final(self).wf(),
            final(self)@ == reset_spec(old(self)@),
    {
        self.register_a = 0;
        self.register_x = 0;
        self.register_y = 0;
        self.status.clear();
        self.program_counter = self.mem_read_u16(RESET_VECTOR);
    }
    /// Sets the zero flag if `result` is zero and the negative flag if its
    /// bit 7 is set, clearing each otherwise.
    pub fn update_zero_and_negative_flags(&mut self, result: u8)
        requires
            old(self).wf(),
        ensures
            final(self).wf(),
            final(self)@ == (MachineState {
                status: with_zero_and_negative(old(self)@.status, result),
                ..old(self)@
            }),
    {
        self.status.update_zero_and_negative(result);
    }

    /// The word in the zero page at `ptr`, the high byte's address wrapping
    /// within the zero page.
    fn read_zero_page_u16(&self, ptr: u8) -> (r: u16)
        requires
            self.wf(),
        ensures
            r == zero_page_word(self@.memory, ptr),
    {
        let lo = self.mem_read(ptr as u16) as u16;
        let hi = self.mem_read(ptr.wrapping_add(1) as u16) as u16;
        hi * 256 + lo
    }

    /// The effective operand address for `mode`, the program counter standing
    /// at the first byte after the opcode; `None` for `NoneAddressing`.
    pub fn get_operand_address(&self, mode: AddressingMode) -> (r: Option<u16>)
        requires
            self.wf(),
        ensures
            r == operand_address(self@, mode),
    {
        let pc = self.program_counter;
        match mode {
            AddressingMode::Immediate => Some(pc),
            AddressingMode::ZeroPage => Some(self.mem_read(pc) as u16),
            AddressingMode::Absolute => Some(self.mem_read_u16(pc)),
            AddressingMode::ZeroPage_X => {
                let pos = self.mem_read(pc);
                Some(pos.wrapping_add(self.register_x) as u16)
            },
            AddressingMode::ZeroPage_Y => {
                let pos = self.mem_read(pc);
                Some(pos.wrapping_add(self.register_y) as u16)
            },
            AddressingMode::Absolute_X => {
                let base = self.mem_read_u16(pc);
                Some(base.wrapping_add(self.register_x as u16))
            },
            AddressingMode::Absolute_Y => {
                let base = self.mem_read_u16(pc);
                Some(base.wrapping_add(self.register_y as u16))
            },
            AddressingMode::Indirect_X => {
                let base = self.mem_read(pc);
                let ptr: u8 = base.wrapping_add(self.register_x);
                Some(self.read_zero_page_u16(ptr))
            },
            AddressingMode::Indirect_Y => {
                let base = self.mem_read(pc);
                let deref_base = self.read_zero_page_u16(base);
                Some(deref_base.wrapping_add(self.register_y as u16))
            },
            AddressingMode::NoneAddressing => None,
        }
    }

    /// Loads the accumulator from the operand.
    pub fn lda(&mut self, mode: AddressingMode) -> (r: Result<(), CpuError>)
        requires
            old(self).wf(),
        ensures
            final(self).wf(),
            handled(r, old(self)@, final(self)@, execute(old(self)@, Mnemonic::Lda, mode)),
    {
        match self.get_operand_address(mode) {
            Some(addr) => {
                let value = self.mem_read(addr);
                self.register_a = value;
                self.update_zero_and_negative_flags(value);
                Ok(())
            },
            None => Err(CpuError::UnsupportedAddressingMode { mode, mnemonic: Mnemonic::Lda }),
        }
    }

    /// Loads the X register from the operand.
    pub fn ldx(&mut self, mode: AddressingMode) -> (r: Result<(), CpuError>)
        requires
            old(self).wf(),
        ensures
            final(self).wf(),
            handled(r, old(self)@, final(self)@, execute(old(self)@, Mnemonic::Ldx, mode)),
    {
        match self.get_operand_address(mode) {
            Some(addr) => {
                let value = self.mem_read(addr);
                self.register_x = value;
                self.update_zero_and_negative_flags(value);
                Ok(())
            },
            None => Err(CpuError::UnsupportedAddressingMode { mode, mnemonic: Mnemonic::Ldx }),
        }
    }

    /// Stores the accumulator at the operand address.
    pub fn sta(&mut self, mode: AddressingMode) -> (r: Result<(), CpuError>)
        requires
            old(self).wf(),
        ensures
            final(self).wf(),
            handled(r, old(self)@, final(self)@, execute(old(self)@, Mnemonic::Sta, mode)),
    {
        match self.get_operand_address(mode) {
            Some(addr) => {
                self.mem_write(addr, self.register_a);
                Ok(())
            },
            None => Err(CpuError::UnsupportedAddressingMode { mode, mnemonic: Mnemonic::Sta }),
        }
    }

    /// Copies the accumulator into X.
    pub fn tax(&mut self)
        requires
            old(self).wf(),
        ensures
            final(self).wf(),
            execute(old(self)@, Mnemonic::Tax, AddressingMode::NoneAddressing) == Ok::<MachineState, CpuError>(
                final(self)@,
            ),
    {
        self.register_x = self.register_a;
        self.update_zero_and_negative_flags(self.register_x);
    }

    /// Increments X, wrapping from 0xFF to 0x00.
    pub fn inx(&mut self)
        requires
            old(self).wf(),
        ensures
            final(self).wf(),
            execute(old(self)@, Mnemonic::Inx, AddressingMode::NoneAddressing) == Ok::<MachineState, CpuError>(
                final(self)@,
            ),
    {
        self.register_x = self.register_x.wrapping_add(1);
        self.update_zero_and_negative_flags(self.register_x);
    }

    /// Fetches, decodes and executes one instruction. On a fatal condition
    /// the state is left as it was.
    pub fn step(&mut self) -> (r: Result<StepOutcome, CpuError>)
        requires
            old(self).wf(),
        ensures
            final(self).wf(),
            match step_spec(old(self)@) {
                Ok((s, halted)) => final(self)@ == s && r == Ok::<StepOutcome, CpuError>(
                    if halted {
                        StepOutcome::Halted
                    } else {
                        StepOutcome::Continue
                    },
                ),
                Err(e) => final(self)@ == old(self)@ && r == Err::<StepOutcome, CpuError>(e),
            },
    {
        let pc = self.program_counter;
        if pc == 0xFFFF {
            return Err(CpuError::ProgramCounterOverflow { program_counter: pc });
        }
        let code = self.mem_read(pc);
        let opcode = match lookup(code) {
            Some(op) => op,
            None => {
                return Err(CpuError::UnrecognizedOpcode { code, program_counter: pc });
            },
        };
        proof {
            lemma_table_well_formed(code);
        }
        if opcode.mnemonic == Mnemonic::Brk {
            self.program_counter = pc + 1;
            return Ok(StepOutcome::Halted);
        }
        if pc as u32 + opcode.len as u32 > 0xFFFF {
            return Err(CpuError::ProgramCounterOverflow { program_counter: pc });
        }
        self.program_counter = pc + 1;
        let program_counter_state = self.program_counter;
        let result = match opcode.mnemonic {
            Mnemonic::Lda => self.lda(opcode.mode),
            Mnemonic::Ldx => self.ldx(opcode.mode),
            Mnemonic::Sta => self.sta(opcode.mode),
            Mnemonic::Tax => {
                self.tax();
                Ok(())
            },
            Mnemonic::Inx => {
                self.inx();
                Ok(())
            },
            Mnemonic::Brk => Ok(()),
        };
        if let Err(e) = result {
            self.program_counter = pc;
            return Err(e);
        }
        // An instruction that moves the program counter itself is left where
        // it went; any other skips its operand bytes.
        if self.program_counter == program_counter_state {
            self.program_counter = self.program_counter + (opcode.len - 1) as u16;
        }
        Ok(StepOutcome::Continue)
    }

    /// Executes instructions until a break instruction or a fatal condition.
    pub fn run(&mut self) -> (r: Result<(), CpuError>)
        requires
            old(self).wf(),
        ensures
            final(self).wf(),
            r == run_spec(old(self)@).0,
            final(self)@ == run_spec(old(self)@).1,
    {
        loop
            invariant
                self.wf(),
                run_spec(self@).0 == run_spec(old(self)@).0,
                run_spec(self@).1 == run_spec(old(self)@).1,
            decreases 0x10000 - self.program_counter,
        {
            let ghost before = self@;
            match self.step() {
                Ok(StepOutcome::Halted) => {
                    return Ok(());
                },
                Ok(StepOutcome::Continue) => {
                    assert(self@.program_counter > before.program_counter);
                },
                Err(e) => {
                    return Err(e);
                },
            }
        }
    }

    /// Loads `program`, resets, and runs it.
    pub fn load_and_run(&mut self, program: Vec<u8>) -> (r: Result<(), CpuError>)
        requires
            old(self).wf(),
            program.len() <= MEMORY_SIZE - PROGRAM_START,
        ensures
            final(self).wf(),
            r == run_spec(reset_spec(load_spec(old(self)@, program@))).0,
            final(self)@ == run_spec(reset_spec(load_spec(old(self)@, program@))).1,
    {
        self.load(program);
        self.reset();
        self.run()
    }
}

} // verus!
