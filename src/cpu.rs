use vstd::prelude::*;

use crate::flags::CpuFlags;
use crate::model::{
    adc_result, adc_status, branch_target, execute, is_implemented, load_spec, needs_address,
    operand_address, reset_spec, run_spec, step_spec, CpuState,
};
use crate::opcodes::{lookup, AddressingMode, Mnemonic, OpCode};

verus! {

/// Size of the flat address space.
pub const MEMORY_SIZE: usize = 0x10000;

/// Where `load` places a program.
pub const PROGRAM_START: u16 = 0x8000;

/// Little-endian location of the address that `reset` jumps to.
pub const RESET_VECTOR: u16 = 0xfffc;

/// The longest program `load` accepts: it must end below the reset vector.
pub const MAX_PROGRAM_LEN: usize = 0x7ffc;

pub const STACK_RESET: u8 = 0xfd;

/// Interrupt-disable and the unused second break bit.
pub const STATUS_RESET: u8 = 0b0010_0100;

/// Faults that stop execution or loading.
#[derive(Clone, Copy, Debug, PartialEq, Eq, Structural)]
pub enum CpuError {
    /// The byte at `pc` is no known opcode.
    UnrecognizedOpcode { pc: u16, code: u8 },
    /// The byte at `pc` is a known opcode that this core does not execute.
    UnimplementedOpcode { pc: u16, code: u8 },
    /// The opcode at `pc` needs an operand address but its table entry gives none.
    InvalidAddressingMode { pc: u16, code: u8 },
    /// A program of `len` bytes does not fit between the load origin and the reset vector.
    ProgramTooLarge { len: usize },
    /// `run_for` executed its whole budget of instructions without reaching a halt.
    StepLimitReached,
}

/// The processor: registers, status flags and its own 64 KiB of memory.
pub struct CPU {
    pub register_a: u8,
    pub register_x: u8,
    pub register_y: u8,
    pub status: CpuFlags,
    pub program_counter: u16,
    pub stack_pointer: u8,
    pub memory: [u8; 0x10000],
}

impl View for CPU {
    type V = CpuState;

    open spec fn view(&self) -> CpuState {
        CpuState {
            a: self.register_a,
            x: self.register_x,
            y: self.register_y,
            status: self.status.bits,
            pc: self.program_counter,
            sp: self.stack_pointer,
            mem: self.memory@,
        }
    }
}

fn implemented(m: Mnemonic) -> (r: bool)
    ensures
        r == is_implemented(m),
{
    match m {
        Mnemonic::Cmp | Mnemonic::Cpx | Mnemonic::Cpy | Mnemonic::Dec | Mnemonic::Dex
        | Mnemonic::Dey | Mnemonic::Jmp | Mnemonic::Jsr | Mnemonic::Rts | Mnemonic::Rti
        | Mnemonic::Pha | Mnemonic::Pla | Mnemonic::Php | Mnemonic::Plp | Mnemonic::Tsx
        | Mnemonic::Txs | Mnemonic::Clc | Mnemonic::Sec | Mnemonic::Cli | Mnemonic::Sei
        | Mnemonic::Clv | Mnemonic::Cld | Mnemonic::Sed => false,
        _ => true,
    }
}

fn uses_address(m: Mnemonic) -> (r: bool)
    ensures
        r == needs_address(m),
{
    match m {
        Mnemonic::Lda | Mnemonic::Ldx | Mnemonic::Ldy | Mnemonic::Sta | Mnemonic::Stx
        | Mnemonic::Sty | Mnemonic::Inc | Mnemonic::And | Mnemonic::Ora | Mnemonic::Eor
        | Mnemonic::Adc | Mnemonic::Sbc | Mnemonic::Bit => true,
        _ => false,
    }
}

impl CPU {
    pub fn new() -> (r: CPU)
        ensures
            r@.a == 0 && r@.x == 0 && r@.y == 0,
            r@.status == STATUS_RESET,
            r@.pc == 0,
            r@.sp == STACK_RESET,
            r@.mem == Seq::new(MEMORY_SIZE as nat, |i: int| 0u8),
    {
        let r = CPU {
            register_a: 0,
            register_x: 0,
            register_y: 0,
            stack_pointer: STACK_RESET,
            status: CpuFlags::from_bits_truncate(STATUS_RESET),
            program_counter: 0,
            memory: [0u8; 0x10000],
        };
        assert(r@.mem =~= Seq::new(MEMORY_SIZE as nat, |i: int| 0u8));
        r
    }

    pub fn mem_read(&self, addr: u16) -> (r: u8)
        ensures
            r == self@.read(addr),
    {
        self.memory[addr as usize]
    }

    pub fn mem_write(&mut self, addr: u16, data: u8)
        ensures
            final(self)@ == old(self)@.write(addr, data),
    {
        self.memory[addr as usize] = data;
    }

    /// Reads a little-endian word; the byte after 0xFFFF is 0x0000.
    pub fn mem_read_u16(&self, pos: u16) -> (r: u16)
        ensures
            r == self@.read_u16(pos),
    {
        let lo = self.mem_read(pos) as u16;
        let hi = self.mem_read(pos.wrapping_add(1)) as u16;
        hi * 256 + lo
    }

    /// Writes a little-endian word; the byte after 0xFFFF is 0x0000.
    pub fn mem_write_u16(&mut self, pos: u16, data: u16)
        ensures
            final(self)@ == old(self)@.write_u16(pos, data),
    {
        let hi = (data / 256) as u8;
        let lo = (data % 256) as u8;
        self.mem_write(pos, lo);
        self.mem_write(pos.wrapping_add(1), hi);
    }

    fn read_zero_page_pointer(&self, ptr: u8) -> (r: u16)
        ensures
            r == self@.zero_page_pointer(ptr),
    {
        let lo = self.mem_read(ptr as u16) as u16;
        let hi = self.mem_read(ptr.wrapping_add(1) as u16) as u16;
        hi * 256 + lo
    }

    fn get_operand_address(&self, mode: AddressingMode) -> (r: u16)
        requires
            mode != AddressingMode::NoneAddressing,
        ensures
            r == operand_address(self@, mode),
    {
        match mode {
            AddressingMode::Immediate => self.program_counter,
            AddressingMode::ZeroPage => self.mem_read(self.program_counter) as u16,
            AddressingMode::Absolute => self.mem_read_u16(self.program_counter),
            AddressingMode::ZeroPage_X => {
                let pos = self.mem_read(self.program_counter);
                pos.wrapping_add(self.register_x) as u16
            },
            AddressingMode::ZeroPage_Y => {
                let pos = self.mem_read(self.program_counter);
                pos.wrapping_add(self.register_y) as u16
            },
            AddressingMode::Absolute_X => {
                let base = self.mem_read_u16(self.program_counter);
                base.wrapping_add(self.register_x as u16)
            },
            AddressingMode::Absolute_Y => {
                let base = self.mem_read_u16(self.program_counter);
                base.wrapping_add(self.register_y as u16)
            },
            AddressingMode::Indirect_X => {
                let base = self.mem_read(self.program_counter);
                self.read_zero_page_pointer(base.wrapping_add(self.register_x))
            },
            AddressingMode::Indirect_Y => {
                let base = self.mem_read(self.program_counter);
                let deref = self.read_zero_page_pointer(base);
                deref.wrapping_add(self.register_y as u16)
            },
            // excluded by the precondition
            AddressingMode::NoneAddressing => 0,
        }
    }

    fn update_zero_and_negative_flags(&mut self, result: u8)
        ensures
            final(self)@ == old(self)@.with_zn(result),
    {
        self.status.set(CpuFlags::ZERO, result == 0);
        self.status.set(CpuFlags::NEGATIVE, result & 0x80 != 0);
    }

    fn lda(&mut self, mode: AddressingMode)
        requires
            mode != AddressingMode::NoneAddressing,
        ensures
            final(self)@ == execute(old(self)@, Mnemonic::Lda, mode),
    {
        let addr = self.get_operand_address(mode);
        let value = self.mem_read(addr);
        self.register_a = value;
        self.update_zero_and_negative_flags(value);
    }

    fn ldx(&mut self, mode: AddressingMode)
        requires
            mode != AddressingMode::NoneAddressing,
        ensures
            final(self)@ == execute(old(self)@, Mnemonic::Ldx, mode),
    {
        let addr = self.get_operand_address(mode);
        let value = self.mem_read(addr);
        self.register_x = value;
        self.update_zero_and_negative_flags(value);
    }

    fn ldy(&mut self, mode: AddressingMode)
        requires
            mode != AddressingMode::NoneAddressing,
        ensures
            final(self)@ == execute(old(self)@, Mnemonic::Ldy, mode),
    {
        let addr = self.get_operand_address(mode);
        let value = self.mem_read(addr);
        self.register_y = value;
        self.update_zero_and_negative_flags(value);
    }

    fn sta(&mut self, mode: AddressingMode)
        requires
            mode != AddressingMode::NoneAddressing,
        ensures
            final(self)@ == execute(old(self)@, Mnemonic::Sta, mode),
    {
        let addr = self.get_operand_address(mode);
        self.mem_write(addr, self.register_a);
    }

    fn stx(&mut self, mode: AddressingMode)
        requires
            mode != AddressingMode::NoneAddressing,
        ensures
            final(self)@ == execute(old(self)@, Mnemonic::Stx, mode),
    {
        let addr = self.get_operand_address(mode);
        self.mem_write(addr, self.register_x);
    }

    fn sty(&mut self, mode: AddressingMode)
        requires
            mode != AddressingMode::NoneAddressing,
        ensures
            final(self)@ == execute(old(self)@, Mnemonic::Sty, mode),
    {
        let addr = self.get_operand_address(mode);
        self.mem_write(addr, self.register_y);
    }

    fn tax(&mut self)
        ensures
            final(self)@ == execute(old(self)@, Mnemonic::Tax, AddressingMode::NoneAddressing),
    {
        self.register_x = self.register_a;
        self.update_zero_and_negative_flags(self.register_x);
    }

    fn txa(&mut self)
        ensures
            final(self)@ == execute(old(self)@, Mnemonic::Txa, AddressingMode::NoneAddressing),
    {
        self.register_a = self.register_x;
        self.update_zero_and_negative_flags(self.register_a);
    }

    fn tay(&mut self)
        ensures
            final(self)@ == execute(old(self)@, Mnemonic::Tay, AddressingMode::NoneAddressing),
    {
        self.register_y = self.register_a;
        self.update_zero_and_negative_flags(self.register_y);
    }

    fn tya(&mut self)
        ensures
            final(self)@ == execute(old(self)@, Mnemonic::Tya, AddressingMode::NoneAddressing),
    {
        self.register_a = self.register_y;
        self.update_zero_and_negative_flags(self.register_a);
    }

    fn inc(&mut self, mode: AddressingMode)
        requires
            mode != AddressingMode::NoneAddressing,
        ensures
            final(self)@ == execute(old(self)@, Mnemonic::Inc, mode),
    {
        let addr = self.get_operand_address(mode);
        let value = self.mem_read(addr).wrapping_add(1);
        self.mem_write(addr, value);
        self.update_zero_and_negative_flags(value);
    }

    fn inx(&mut self)
        ensures
            final(self)@ == execute(old(self)@, Mnemonic::Inx, AddressingMode::NoneAddressing),
    {
        self.register_x = self.register_x.wrapping_add(1);
        self.update_zero_and_negative_flags(self.register_x);
    }

    fn iny(&mut self)
        ensures
            final(self)@ == execute(old(self)@, Mnemonic::Iny, AddressingMode::NoneAddressing),
    {
        self.register_y = self.register_y.wrapping_add(1);
        self.update_zero_and_negative_flags(self.register_y);
    }

    fn and(&mut self, mode: AddressingMode)
        requires
            mode != AddressingMode::NoneAddressing,
        ensures
            final(self)@ == execute(old(self)@, Mnemonic::And, mode),
    {
        let addr = self.get_operand_address(mode);
        self.register_a = self.register_a & self.mem_read(addr);
        self.update_zero_and_negative_flags(self.register_a);
    }

    fn ora(&mut self, mode: AddressingMode)
        requires
            mode != AddressingMode::NoneAddressing,
        ensures
            final(self)@ == execute(old(self)@, Mnemonic::Ora, mode),
    {
        let addr = self.get_operand_address(mode);
        self.register_a = self.register_a | self.mem_read(addr);
        self.update_zero_and_negative_flags(self.register_a);
    }

    fn eor(&mut self, mode: AddressingMode)
        requires
            mode != AddressingMode::NoneAddressing,
        ensures
            final(self)@ == execute(old(self)@, Mnemonic::Eor, mode),
    {
        let addr = self.get_operand_address(mode);
        self.register_a = self.register_a ^ self.mem_read(addr);
        self.update_zero_and_negative_flags(self.register_a);
    }

    /// Adds `data` and the carry to the accumulator, setting Carry and Overflow; returns the
    /// sum without storing it.
    fn add_to_register_a(&mut self, data: u8) -> (r: u8)
        ensures
            r == adc_result(old(self)@.a, data, old(self)@.flag(CpuFlags::CARRY)),
            final(self)@ == old(self)@.with_status(adc_status(old(self)@.status, old(self)@.a, data)),
    {
        let carry_in: u16 = if self.status.is_set(CpuFlags::CARRY) {
            1
        } else {
            0
        };
        let sum: u16 = self.register_a as u16 + data as u16 + carry_in;
        let result = (sum % 256) as u8;
        let same_sign = (self.register_a & 0x80) == (data & 0x80);
        let overflow = same_sign && (result & 0x80) != (self.register_a & 0x80);
        self.status.set(CpuFlags::CARRY, sum > 0xff);
        self.status.set(CpuFlags::OVERFLOW, overflow);
        result
    }

    fn adc(&mut self, mode: AddressingMode)
        requires
            mode != AddressingMode::NoneAddressing,
        ensures
            final(self)@ == execute(old(self)@, Mnemonic::Adc, mode),
    {
        let addr = self.get_operand_address(mode);
        let value = self.mem_read(addr);
        self.register_a = self.add_to_register_a(value);
        self.update_zero_and_negative_flags(self.register_a);
    }

    /// Subtraction as addition of the two's-complement negation of the operand.
    fn sbc(&mut self, mode: AddressingMode)
        requires
            mode != AddressingMode::NoneAddressing,
        ensures
            final(self)@ == execute(old(self)@, Mnemonic::Sbc, mode),
    {
        let addr = self.get_operand_address(mode);
        let neg_value = (!self.mem_read(addr)).wrapping_add(1);
        self.register_a = self.add_to_register_a(neg_value);
        self.update_zero_and_negative_flags(self.register_a);
    }

    fn asl_accumulator(&mut self)
        ensures
            final(self)@ == execute(old(self)@, Mnemonic::Asl, AddressingMode::NoneAddressing),
    {
        let value = self.register_a;
        self.status.set(CpuFlags::CARRY, value & 0x80 != 0);
        self.register_a = value << 1u8;
        self.update_zero_and_negative_flags(self.register_a);
    }

    fn asl(&mut self, mode: AddressingMode)
        requires
            mode != AddressingMode::NoneAddressing,
        ensures
            final(self)@ == execute(old(self)@, Mnemonic::Asl, mode),
    {
        let addr = self.get_operand_address(mode);
        let value = self.mem_read(addr);
        self.status.set(CpuFlags::CARRY, value & 0x80 != 0);
        self.mem_write(addr, value << 1u8);
        self.update_zero_and_negative_flags(value << 1u8);
    }

    fn lsr_accumulator(&mut self)
        ensures
            final(self)@ == execute(old(self)@, Mnemonic::Lsr, AddressingMode::NoneAddressing),
    {
        let value = self.register_a;
        self.status.set(CpuFlags::CARRY, value & 1 != 0);
        self.register_a = value >> 1u8;
        self.update_zero_and_negative_flags(self.register_a);
    }

    fn lsr(&mut self, mode: AddressingMode)
        requires
            mode != AddressingMode::NoneAddressing,
        ensures
            final(self)@ == execute(old(self)@, Mnemonic::Lsr, mode),
    {
        let addr = self.get_operand_address(mode);
        let value = self.mem_read(addr);
        self.status.set(CpuFlags::CARRY, value & 1 != 0);
        self.mem_write(addr, value >> 1u8);
        self.update_zero_and_negative_flags(value >> 1u8);
    }

    fn rol_accumulator(&mut self)
        ensures
            final(self)@ == execute(old(self)@, Mnemonic::Rol, AddressingMode::NoneAddressing),
    {
        let old_carry = self.status.is_set(CpuFlags::CARRY);
        let value = self.register_a;
        self.status.set(CpuFlags::CARRY, value & 0x80 != 0);
        let mut shifted = value << 1u8;
        if old_carry {
            shifted = shifted | 1;
        }
        self.register_a = shifted;
        self.update_zero_and_negative_flags(shifted);
    }

    /// Rotates the byte at the operand address, not the accumulator.
    fn rol(&mut self, mode: AddressingMode)
        requires
            mode != AddressingMode::NoneAddressing,
        ensures
            final(self)@ == execute(old(self)@, Mnemonic::Rol, mode),
    {
        let addr = self.get_operand_address(mode);
        let old_carry = self.status.is_set(CpuFlags::CARRY);
        let value = self.mem_read(addr);
        self.status.set(CpuFlags::CARRY, value & 0x80 != 0);
        let mut shifted = value << 1u8;
        if old_carry {
            shifted = shifted | 1;
        }
        self.mem_write(addr, shifted);
        self.update_zero_and_negative_flags(shifted);
    }

    fn ror_accumulator(&mut self)
        ensures
            final(self)@ == execute(old(self)@, Mnemonic::Ror, AddressingMode::NoneAddressing),
    {
        let old_carry = self.status.is_set(CpuFlags::CARRY);
        let value = self.register_a;
        self.status.set(CpuFlags::CARRY, value & 1 != 0);
        let mut shifted = value >> 1u8;
        if old_carry {
            shifted = shifted | 0x80;
        }
        self.register_a = shifted;
        self.update_zero_and_negative_flags(shifted);
    }

    /// Rotates the byte at the operand address, not the accumulator.
    fn ror(&mut self, mode: AddressingMode)
        requires
            mode != AddressingMode::NoneAddressing,
        ensures
            final(self)@ == execute(old(self)@, Mnemonic::Ror, mode),
    {
        let addr = self.get_operand_address(mode);
        let old_carry = self.status.is_set(CpuFlags::CARRY);
        let value = self.mem_read(addr);
        self.status.set(CpuFlags::CARRY, value & 1 != 0);
        let mut shifted = value >> 1u8;
        if old_carry {
            shifted = shifted | 0x80;
        }
        self.mem_write(addr, shifted);
        self.update_zero_and_negative_flags(shifted);
    }

    /// Jumps by the signed offset at `pc` when `condition` holds.
    fn branch(&mut self, condition: bool)
        ensures
            condition ==> final(self)@ == old(self)@.with_pc(
                branch_target(old(self)@.pc.wrapping_add(1), old(self)@.read(old(self)@.pc)),
            ),
            !condition ==> final(self)@ == old(self)@,
    {
        if condition {
            let next = self.program_counter.wrapping_add(1);
            let offset = self.mem_read(self.program_counter);
            self.program_counter = if offset < 0x80 {
                next.wrapping_add(offset as u16)
            } else {
                next.wrapping_sub(0x100 - offset as u16)
            };
        }
    }

    fn bit(&mut self, mode: AddressingMode)
        requires
            mode != AddressingMode::NoneAddressing,
        ensures
            final(self)@ == execute(old(self)@, Mnemonic::Bit, mode),
    {
        let addr = self.get_operand_address(mode);
        let value = self.mem_read(addr);
        self.status.set(CpuFlags::OVERFLOW, value & 0x40 != 0);
        self.status.set(CpuFlags::NEGATIVE, value & 0x80 != 0);
        self.status.set(CpuFlags::ZERO, value & self.register_a == 0);
    }

    /// Executes one decoded instruction, with the program counter at its first operand byte.
    #[verifier::rlimit(50)]
    #[verifier::spinoff_prover]
    fn dispatch(&mut self, op: OpCode)
        requires
            is_implemented(op.mnemonic),
            op.mnemonic != Mnemonic::Brk,
            needs_address(op.mnemonic) ==> op.mode != AddressingMode::NoneAddressing,
        ensures
            final(self)@ == execute(old(self)@, op.mnemonic, op.mode),
    {
        let mode = op.mode;
        match op.mnemonic {
            Mnemonic::Adc => self.adc(mode),
            Mnemonic::Sbc => self.sbc(mode),
            Mnemonic::Lda => self.lda(mode),
            Mnemonic::And => self.and(mode),
            Mnemonic::Ora => self.ora(mode),
            Mnemonic::Eor => self.eor(mode),
            Mnemonic::Sta => self.sta(mode),
            Mnemonic::Ldx => self.ldx(mode),
            Mnemonic::Ldy => self.ldy(mode),
            Mnemonic::Stx => self.stx(mode),
            Mnemonic::Sty => self.sty(mode),
            Mnemonic::Inc => self.inc(mode),
            Mnemonic::Bit => self.bit(mode),
            Mnemonic::Asl => {
                if mode == AddressingMode::NoneAddressing {
                    self.asl_accumulator()
                } else {
                    self.asl(mode)
                }
            },
            Mnemonic::Lsr => {
                if mode == AddressingMode::NoneAddressing {
                    self.lsr_accumulator()
                } else {
                    self.lsr(mode)
                }
            },
            Mnemonic::Rol => {
                if mode == AddressingMode::NoneAddressing {
                    self.rol_accumulator()
                } else {
                    self.rol(mode)
                }
            },
            Mnemonic::Ror => {
                if mode == AddressingMode::NoneAddressing {
                    self.ror_accumulator()
                } else {
                    self.ror(mode)
                }
            },
            Mnemonic::Inx => self.inx(),
            Mnemonic::Iny => self.iny(),
            Mnemonic::Tax => self.tax(),
            Mnemonic::Txa => self.txa(),
            Mnemonic::Tay => self.tay(),
            Mnemonic::Tya => self.tya(),
            Mnemonic::Bcs => self.branch(self.status.is_set(CpuFlags::CARRY)),
            Mnemonic::Bcc => self.branch(!self.status.is_set(CpuFlags::CARRY)),
            Mnemonic::Beq => self.branch(self.status.is_set(CpuFlags::ZERO)),
            Mnemonic::Bne => self.branch(!self.status.is_set(CpuFlags::ZERO)),
            Mnemonic::Bmi => self.branch(self.status.is_set(CpuFlags::NEGATIVE)),
            Mnemonic::Bpl => self.branch(!self.status.is_set(CpuFlags::NEGATIVE)),
            Mnemonic::Bvs => self.branch(self.status.is_set(CpuFlags::OVERFLOW)),
            Mnemonic::Bvc => self.branch(!self.status.is_set(CpuFlags::OVERFLOW)),
            _ => {},
        }
    }

    /// Fetches, decodes and executes one instruction. `Ok(true)` when it was the halt
    /// instruction. On a fault nothing changes, so the program counter still points at the
    /// offending opcode.
    pub fn step(&mut self) -> (r: Result<bool, CpuError>)
        ensures
            match step_spec(old(self)@) {
                Ok((t, halted)) => r == Ok::<bool, CpuError>(halted) && final(self)@ == t,
                Err(e) => r == Err::<bool, CpuError>(e) && final(self)@ == old(self)@,
            },
    {
        let pc = self.program_counter;
        let code = self.mem_read(pc);
        let op = match lookup(code) {
            Some(op) => op,
            None => return Err(CpuError::UnrecognizedOpcode { pc, code }),
        };
        if !implemented(op.mnemonic) {
            return Err(CpuError::UnimplementedOpcode { pc, code });
        }
        if uses_address(op.mnemonic) && op.mode == AddressingMode::NoneAddressing {
            return Err(CpuError::InvalidAddressingMode { pc, code });
        }
        self.program_counter = pc.wrapping_add(1);
        if op.mnemonic == Mnemonic::Brk {
            return Ok(true);
        }
        let program_counter_state = self.program_counter;
        self.dispatch(op);
        if program_counter_state == self.program_counter {
            self.program_counter = self.program_counter.wrapping_add(op.len as u16).wrapping_sub(1);
        }
        Ok(false)
    }

    /// Executes instructions until a halt, a fault, or `max_steps` instructions.
    pub fn run_for(&mut self, max_steps: u64) -> (r: Result<(), CpuError>)
        ensures
            (final(self)@, r) == run_spec(old(self)@, max_steps as nat),
    {
        let mut remaining: u64 = max_steps;
        while remaining > 0
            invariant
                run_spec(self@, remaining as nat) == run_spec(old(self)@, max_steps as nat),
            decreases remaining,
        {
            let ghost before = self@;
            let res = self.step();
            proof {
                assert(run_spec(before, remaining as nat) == match step_spec(before) {
                    Err(e) => (before, Err(e)),
                    Ok((t, true)) => (t, Ok(())),
                    Ok((t, false)) => run_spec(t, (remaining - 1) as nat),
                });
            }
            match res {
                Err(e) => return Err(e),
                Ok(true) => return Ok(()),
                Ok(false) => {},
            }
            remaining = remaining - 1;
        }
        Err(CpuError::StepLimitReached)
    }

    /// Executes instructions until a halt or a fault (or, in practice never, 2^64 - 1
    /// instructions).
    pub fn run(&mut self) -> (r: Result<(), CpuError>)
        ensures
            (final(self)@, r) == run_spec(old(self)@, u64::MAX as nat),
    {
        self.run_for(u64::MAX)
    }

    pub fn reset(&mut self)
        ensures
            final(self)@ == reset_spec(old(self)@),
    {
        self.register_a = 0;
        self.register_x = 0;
        self.register_y = 0;
        self.status = CpuFlags::from_bits_truncate(STATUS_RESET);
        self.program_counter = self.mem_read_u16(RESET_VECTOR);
    }

    /// Copies `program` to the load origin and points the reset vector at it. A program longer
    /// than `MAX_PROGRAM_LEN` is refused and nothing changes.
    pub fn load(&mut self, program: Vec<u8>) -> (r: Result<(), CpuError>)
        ensures
            program@.len() > MAX_PROGRAM_LEN ==> r == Err::<(), CpuError>(
                CpuError::ProgramTooLarge { len: program@.len() as usize },
            ) && final(self)@ == old(self)@,
            program@.len() <= MAX_PROGRAM_LEN ==> r == Ok::<(), CpuError>(()) && final(self)@
                == load_spec(old(self)@, program@),
    {
        let len = program.len();
        if len > MAX_PROGRAM_LEN {
            return Err(CpuError::ProgramTooLarge { len });
        }
        let ghost start = self@;
        let base: usize = PROGRAM_START as usize;
        let mut i: usize = 0;
        while i < len
            invariant
                len == program@.len() <= MAX_PROGRAM_LEN,
                i <= len,
                base == PROGRAM_START,
                self@ == (CpuState { mem: self@.mem, ..start }),
                forall|j: int|
                    0 <= j < MEMORY_SIZE ==> #[trigger] self@.mem[j] == if base <= j < base + i {
                        program@[j - base]
                    } else {
                        start.mem[j]
                    },
            decreases len - i,
        {
            self.memory[base + i] = program[i];
            i = i + 1;
        }
        proof {
            assert(self@.mem =~= Seq::new(
                start.mem.len(),
                |j: int|
                    if base <= j < base + len {
                        program@[j - base]
                    } else {
                        start.mem[j]
                    },
            ));
        }
        self.mem_write_u16(RESET_VECTOR, PROGRAM_START);
        Ok(())
    }

    /// `load`, `reset`, then `run`.
    pub fn load_and_run(&mut self, program: Vec<u8>) -> (r: Result<(), CpuError>)
        ensures
            program@.len() > MAX_PROGRAM_LEN ==> r == Err::<(), CpuError>(
                CpuError::ProgramTooLarge { len: program@.len() as usize },
            ) && final(self)@ == old(self)@,
            program@.len() <= MAX_PROGRAM_LEN ==> (final(self)@, r) == run_spec(
                reset_spec(load_spec(old(self)@, program@)),
                u64::MAX as nat,
            ),
    {
        match self.load(program) {
            Err(e) => return Err(e),
            Ok(()) => {},
        }
        self.reset();
        self.run()
    }
}

} // verus!
