use vstd::prelude::*;

use crate::cpu::{CpuError, MEMORY_SIZE, PROGRAM_START, RESET_VECTOR, STATUS_RESET};
use crate::flags::{has_flag, with_flag, CpuFlags};
use crate::opcodes::{opcode_table, AddressingMode, Mnemonic};

verus! {

/// Mathematical model of the processor state.
pub struct CpuState {
    pub a: u8,
    pub x: u8,
    pub y: u8,
    pub status: u8,
    pub pc: u16,
    pub sp: u8,
    pub mem: Seq<u8>,
}

/// The 16-bit value of a little-endian byte pair.
pub open spec fn word(lo: u8, hi: u8) -> u16 {
    (lo as int + hi as int * 256) as u16
}

/// `status` with Zero and Negative recomputed from `r`, every other flag kept.
pub open spec fn zn_flags(status: u8, r: u8) -> u8 {
    with_flag(with_flag(status, CpuFlags::ZERO, r == 0), CpuFlags::NEGATIVE, r & 0x80 != 0)
}

impl CpuState {
    pub open spec fn wf(self) -> bool {
        self.mem.len() == MEMORY_SIZE
    }

    pub open spec fn read(self, addr: u16) -> u8 {
        self.mem[addr as int]
    }

    pub open spec fn read_u16(self, addr: u16) -> u16 {
        word(self.read(addr), self.read(addr.wrapping_add(1)))
    }

    pub open spec fn write(self, addr: u16, v: u8) -> CpuState {
        CpuState { mem: self.mem.update(addr as int, v), ..self }
    }

    pub open spec fn write_u16(self, addr: u16, v: u16) -> CpuState {
        self.write(addr, (v % 256) as u8).write(addr.wrapping_add(1), (v / 256) as u8)
    }

    pub open spec fn flag(self, mask: u8) -> bool {
        has_flag(self.status, mask)
    }

    pub open spec fn with_status(self, status: u8) -> CpuState {
        CpuState { status, ..self }
    }

    pub open spec fn with_zn(self, r: u8) -> CpuState {
        self.with_status(zn_flags(self.status, r))
    }

    pub open spec fn with_pc(self, pc: u16) -> CpuState {
        CpuState { pc, ..self }
    }

    pub open spec fn with_a(self, a: u8) -> CpuState {
        CpuState { a, ..self }
    }

    pub open spec fn with_x(self, x: u8) -> CpuState {
        CpuState { x, ..self }
    }

    pub open spec fn with_y(self, y: u8) -> CpuState {
        CpuState { y, ..self }
    }

    /// The address stored little-endian at `ptr` in page zero; the high byte comes from
    /// `ptr + 1` wrapped within the page.
    pub open spec fn zero_page_pointer(self, ptr: u8) -> u16 {
        word(self.read(ptr as u16), self.read(ptr.wrapping_add(1) as u16))
    }
}

/// The effective address an instruction with addressing mode `mode` operates on, with `s.pc`
/// at its first operand byte.
pub open spec fn operand_address(s: CpuState, mode: AddressingMode) -> u16
    recommends
        mode != AddressingMode::NoneAddressing,
{
    match mode {
        AddressingMode::Immediate => s.pc,
        AddressingMode::ZeroPage => s.read(s.pc) as u16,
        AddressingMode::ZeroPage_X => s.read(s.pc).wrapping_add(s.x) as u16,
        AddressingMode::ZeroPage_Y => s.read(s.pc).wrapping_add(s.y) as u16,
        AddressingMode::Absolute => s.read_u16(s.pc),
        AddressingMode::Absolute_X => s.read_u16(s.pc).wrapping_add(s.x as u16),
        AddressingMode::Absolute_Y => s.read_u16(s.pc).wrapping_add(s.y as u16),
        AddressingMode::Indirect_X => s.zero_page_pointer(s.read(s.pc).wrapping_add(s.x)),
        AddressingMode::Indirect_Y => s.zero_page_pointer(s.read(s.pc)).wrapping_add(s.y as u16),
        AddressingMode::NoneAddressing => 0,
    }
}

/// `a + m + c` in full width.
pub open spec fn adc_sum(a: u8, m: u8, c: bool) -> int {
    a as int + m as int + if c {
        1int
    } else {
        0int
    }
}

/// The low eight bits of `adc_sum`.
pub open spec fn adc_result(a: u8, m: u8, c: bool) -> u8 {
    (adc_sum(a, m, c) % 256) as u8
}

/// Two operands of one sign gave a result of the other sign.
pub open spec fn signed_overflow(a: u8, m: u8, r: u8) -> bool {
    (a & 0x80) == (m & 0x80) && (r & 0x80) != (a & 0x80)
}

/// `status` after adding `m` with carry to the accumulator `a`: Carry is the ninth bit of the
/// sum, Overflow the signed overflow.
pub open spec fn adc_status(status: u8, a: u8, m: u8) -> u8 {
    let c = has_flag(status, CpuFlags::CARRY);
    with_flag(
        with_flag(status, CpuFlags::CARRY, adc_sum(a, m, c) > 0xff),
        CpuFlags::OVERFLOW,
        signed_overflow(a, m, adc_result(a, m, c)),
    )
}

/// Two's-complement negation: bitwise not, plus one.
pub open spec fn negate(m: u8) -> u8 {
    (!m).wrapping_add(1)
}

/// `v` shifted one bit left, `carry_in` entering bit 0.
pub open spec fn shift_left(v: u8, carry_in: bool) -> u8 {
    if carry_in {
        (v << 1u8) | 1
    } else {
        v << 1u8
    }
}

/// `v` shifted one bit right, `carry_in` entering bit 7.
pub open spec fn shift_right(v: u8, carry_in: bool) -> u8 {
    if carry_in {
        (v >> 1u8) | 0x80
    } else {
        v >> 1u8
    }
}

/// What a shift or rotate `m` makes of `v` when the Carry flag is `c`.
pub open spec fn shifted(m: Mnemonic, v: u8, c: bool) -> u8 {
    match m {
        Mnemonic::Asl => shift_left(v, false),
        Mnemonic::Rol => shift_left(v, c),
        Mnemonic::Lsr => shift_right(v, false),
        _ => shift_right(v, c),
    }
}

/// The bit that a shift or rotate `m` moves out of `v`.
pub open spec fn shift_carry_out(m: Mnemonic, v: u8) -> bool {
    match m {
        Mnemonic::Asl | Mnemonic::Rol => v & 0x80 != 0,
        _ => v & 1 != 0,
    }
}

/// The address a taken branch goes to: `next` plus the signed offset, wrapped to 16 bits.
pub open spec fn branch_target(next: u16, offset: u8) -> u16 {
    let delta = if offset < 128 {
        offset as int
    } else {
        offset as int - 256
    };
    ((next as int + delta) % 0x10000) as u16
}

/// Whether the branch `m` is taken under the flags of `s`.
pub open spec fn branch_condition(s: CpuState, m: Mnemonic) -> bool {
    match m {
        Mnemonic::Bcs => s.flag(CpuFlags::CARRY),
        Mnemonic::Bcc => !s.flag(CpuFlags::CARRY),
        Mnemonic::Beq => s.flag(CpuFlags::ZERO),
        Mnemonic::Bne => !s.flag(CpuFlags::ZERO),
        Mnemonic::Bmi => s.flag(CpuFlags::NEGATIVE),
        Mnemonic::Bpl => !s.flag(CpuFlags::NEGATIVE),
        Mnemonic::Bvs => s.flag(CpuFlags::OVERFLOW),
        Mnemonic::Bvc => !s.flag(CpuFlags::OVERFLOW),
        _ => false,
    }
}

impl CpuState {
    /// The accumulator after adding `m` and the carry, with all four arithmetic flags.
    pub open spec fn add_to_a(self, m: u8) -> CpuState {
        let r = adc_result(self.a, m, self.flag(CpuFlags::CARRY));
        self.with_status(adc_status(self.status, self.a, m)).with_a(r).with_zn(r)
    }

    /// A shift or rotate of the accumulator (`NoneAddressing`) or of a memory byte.
    pub open spec fn shift(self, m: Mnemonic, mode: AddressingMode) -> CpuState {
        let c = self.flag(CpuFlags::CARRY);
        if mode == AddressingMode::NoneAddressing {
            let r = shifted(m, self.a, c);
            self.with_status(
                with_flag(self.status, CpuFlags::CARRY, shift_carry_out(m, self.a)),
            ).with_a(r).with_zn(r)
        } else {
            let addr = operand_address(self, mode);
            let v = self.read(addr);
            let r = shifted(m, v, c);
            self.with_status(
                with_flag(self.status, CpuFlags::CARRY, shift_carry_out(m, v)),
            ).write(addr, r).with_zn(r)
        }
    }

    /// A conditional branch, with `pc` at its offset byte.
    pub open spec fn branch(self, m: Mnemonic) -> CpuState {
        if branch_condition(self, m) {
            self.with_pc(branch_target(self.pc.wrapping_add(1), self.read(self.pc)))
        } else {
            self
        }
    }

    /// BIT: Overflow and Negative from bits 6 and 7 of the operand, Zero from its AND with
    /// the accumulator.
    pub open spec fn bit_test(self, v: u8) -> CpuState {
        self.with_status(
            with_flag(
                with_flag(
                    with_flag(self.status, CpuFlags::OVERFLOW, v & 0x40 != 0),
                    CpuFlags::NEGATIVE,
                    v & 0x80 != 0,
                ),
                CpuFlags::ZERO,
                v & self.a == 0,
            ),
        )
    }
}

/// The effect of instruction `m` with addressing mode `mode` on `s`, whose `pc` is at the first
/// byte after the opcode. The program counter moves only for a taken branch.
pub open spec fn execute(s: CpuState, m: Mnemonic, mode: AddressingMode) -> CpuState {
    let addr = operand_address(s, mode);
    match m {
        Mnemonic::Lda => s.with_a(s.read(addr)).with_zn(s.read(addr)),
        Mnemonic::Ldx => s.with_x(s.read(addr)).with_zn(s.read(addr)),
        Mnemonic::Ldy => s.with_y(s.read(addr)).with_zn(s.read(addr)),
        Mnemonic::Sta => s.write(addr, s.a),
        Mnemonic::Stx => s.write(addr, s.x),
        Mnemonic::Sty => s.write(addr, s.y),
        Mnemonic::Tax => s.with_x(s.a).with_zn(s.a),
        Mnemonic::Txa => s.with_a(s.x).with_zn(s.x),
        Mnemonic::Tay => s.with_y(s.a).with_zn(s.a),
        Mnemonic::Tya => s.with_a(s.y).with_zn(s.y),
        Mnemonic::Inc => {
            let v = s.read(addr).wrapping_add(1);
            s.write(addr, v).with_zn(v)
        },
        Mnemonic::Inx => s.with_x(s.x.wrapping_add(1)).with_zn(s.x.wrapping_add(1)),
        Mnemonic::Iny => s.with_y(s.y.wrapping_add(1)).with_zn(s.y.wrapping_add(1)),
        Mnemonic::And => s.with_a(s.a & s.read(addr)).with_zn(s.a & s.read(addr)),
        Mnemonic::Ora => s.with_a(s.a | s.read(addr)).with_zn(s.a | s.read(addr)),
        Mnemonic::Eor => s.with_a(s.a ^ s.read(addr)).with_zn(s.a ^ s.read(addr)),
        Mnemonic::Adc => s.add_to_a(s.read(addr)),
        Mnemonic::Sbc => s.add_to_a(negate(s.read(addr))),
        Mnemonic::Asl | Mnemonic::Lsr | Mnemonic::Rol | Mnemonic::Ror => s.shift(m, mode),
        Mnemonic::Bit => s.bit_test(s.read(addr)),
        Mnemonic::Bcc | Mnemonic::Bcs | Mnemonic::Beq | Mnemonic::Bne | Mnemonic::Bmi
        | Mnemonic::Bpl | Mnemonic::Bvc | Mnemonic::Bvs => s.branch(m),
        _ => s,
    }
}

/// Families of the opcode table that this core executes.
pub open spec fn is_implemented(m: Mnemonic) -> bool {
    match m {
        Mnemonic::Cmp | Mnemonic::Cpx | Mnemonic::Cpy | Mnemonic::Dec | Mnemonic::Dex
        | Mnemonic::Dey | Mnemonic::Jmp | Mnemonic::Jsr | Mnemonic::Rts | Mnemonic::Rti
        | Mnemonic::Pha | Mnemonic::Pla | Mnemonic::Php | Mnemonic::Plp | Mnemonic::Tsx
        | Mnemonic::Txs | Mnemonic::Clc | Mnemonic::Sec | Mnemonic::Cli | Mnemonic::Sei
        | Mnemonic::Clv | Mnemonic::Cld | Mnemonic::Sed => false,
        _ => true,
    }
}

/// Instructions that always act on an operand address.
pub open spec fn needs_address(m: Mnemonic) -> bool {
    match m {
        Mnemonic::Lda | Mnemonic::Ldx | Mnemonic::Ldy | Mnemonic::Sta | Mnemonic::Stx
        | Mnemonic::Sty | Mnemonic::Inc | Mnemonic::And | Mnemonic::Ora | Mnemonic::Eor
        | Mnemonic::Adc | Mnemonic::Sbc | Mnemonic::Bit => true,
        _ => false,
    }
}

/// One fetch-decode-execute cycle from `s`: the new state and whether it halted, or the fault,
/// in which case the state stays as it was. After an instruction that left the program counter
/// where the fetch put it, the counter skips the operand bytes.
pub open spec fn step_spec(s: CpuState) -> Result<(CpuState, bool), CpuError> {
    let code = s.read(s.pc);
    match opcode_table(code) {
        None => Err(CpuError::UnrecognizedOpcode { pc: s.pc, code }),
        Some(op) => {
            if !is_implemented(op.mnemonic) {
                Err(CpuError::UnimplementedOpcode { pc: s.pc, code })
            } else if needs_address(op.mnemonic) && op.mode == AddressingMode::NoneAddressing {
                Err(CpuError::InvalidAddressingMode { pc: s.pc, code })
            } else {
                let fetched = s.with_pc(s.pc.wrapping_add(1));
                if op.mnemonic == Mnemonic::Brk {
                    Ok((fetched, true))
                } else {
                    let t = execute(fetched, op.mnemonic, op.mode);
                    if t.pc == fetched.pc {
                        Ok((t.with_pc(t.pc.wrapping_add(op.len as u16).wrapping_sub(1)), false))
                    } else {
                        Ok((t, false))
                    }
                }
            }
        },
    }
}

/// Runs at most `fuel` instructions from `s`: the state it stops in and why. `Ok` means a
/// halt instruction was executed.
pub open spec fn run_spec(s: CpuState, fuel: nat) -> (CpuState, Result<(), CpuError>)
    decreases fuel,
{
    if fuel == 0 {
        (s, Err(CpuError::StepLimitReached))
    } else {
        match step_spec(s) {
            Err(e) => (s, Err(e)),
            Ok((t, true)) => (t, Ok(())),
            Ok((t, false)) => run_spec(t, (fuel - 1) as nat),
        }
    }
}

/// Registers and flags back to their power-on values, the program counter from the reset
/// vector; memory and stack pointer kept.
pub open spec fn reset_spec(s: CpuState) -> CpuState {
    CpuState { a: 0, x: 0, y: 0, status: STATUS_RESET, pc: s.read_u16(RESET_VECTOR), ..s }
}

/// Memory with `program` copied to the load origin and the reset vector pointing there.
pub open spec fn load_spec(s: CpuState, program: Seq<u8>) -> CpuState {
    let start = PROGRAM_START as int;
    CpuState {
        mem: Seq::new(
            s.mem.len(),
            |i: int|
                if start <= i < start + program.len() {
                    program[i - start]
                } else {
                    s.mem[i]
                },
        ),
        ..s
    }.write_u16(RESET_VECTOR, PROGRAM_START)
}

} // verus!
