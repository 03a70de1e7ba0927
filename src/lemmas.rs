use vstd::prelude::*;

use crate::cpu::CpuError;
use crate::model::{
    adc_status, execute, needs_address, negate, operand_address, run_spec, shift_carry_out,
    step_spec, word, zn_flags, CpuState,
};
use crate::flags::{has_flag, lemma_with_flag, with_flag, CpuFlags};
use crate::opcodes::{AddressingMode, Mnemonic};

verus! {

/// Instructions whose result becomes the new contents of a register or a memory byte.
pub open spec fn writes_result(m: Mnemonic) -> bool {
    match m {
        Mnemonic::Lda | Mnemonic::Ldx | Mnemonic::Ldy | Mnemonic::Tax | Mnemonic::Txa
        | Mnemonic::Tay | Mnemonic::Tya | Mnemonic::Inc | Mnemonic::Inx | Mnemonic::Iny
        | Mnemonic::And | Mnemonic::Ora | Mnemonic::Eor | Mnemonic::Adc | Mnemonic::Sbc
        | Mnemonic::Asl | Mnemonic::Lsr | Mnemonic::Rol | Mnemonic::Ror => true,
        _ => false,
    }
}

/// Where instruction `m`, run from `s`, left its result: read in the state `t` after it.
pub open spec fn result_of(s: CpuState, t: CpuState, m: Mnemonic, mode: AddressingMode) -> u8 {
    match m {
        Mnemonic::Ldx | Mnemonic::Tax | Mnemonic::Inx => t.x,
        Mnemonic::Ldy | Mnemonic::Tay | Mnemonic::Iny => t.y,
        Mnemonic::Inc => t.read(operand_address(s, mode)),
        Mnemonic::Asl | Mnemonic::Lsr | Mnemonic::Rol | Mnemonic::Ror => {
            if mode == AddressingMode::NoneAddressing {
                t.a
            } else {
                t.read(operand_address(s, mode))
            }
        },
        _ => t.a,
    }
}

/// The shared Zero/Negative update: Zero tells whether the result is 0, Negative copies its
/// bit 7.
pub proof fn lemma_zn_flags(status: u8, r: u8)
    ensures
        has_flag(zn_flags(status, r), CpuFlags::ZERO) == (r == 0),
        has_flag(zn_flags(status, r), CpuFlags::NEGATIVE) == (r & 0x80 != 0),
{
    let z = with_flag(status, CpuFlags::ZERO, r == 0);
    lemma_with_flag(status, CpuFlags::ZERO, r == 0, CpuFlags::ZERO);
    lemma_with_flag(z, CpuFlags::NEGATIVE, r & 0x80 != 0, CpuFlags::ZERO);
    lemma_with_flag(z, CpuFlags::NEGATIVE, r & 0x80 != 0, CpuFlags::NEGATIVE);
}

/// After every instruction that writes a result to a register or to memory, the Zero flag is
/// set exactly when that result is 0, and the Negative flag exactly when its bit 7 is set.
pub proof fn lemma_zero_negative_follow_result(s: CpuState, m: Mnemonic, mode: AddressingMode)
    requires
        s.wf(),
        writes_result(m),
        needs_address(m) ==> mode != AddressingMode::NoneAddressing,
    ensures
        ({
            let t = execute(s, m, mode);
            let r = result_of(s, t, m, mode);
            t.flag(CpuFlags::ZERO) == (r == 0) && t.flag(CpuFlags::NEGATIVE) == (r & 0x80 != 0)
        }),
{
    let t = execute(s, m, mode);
    let r = result_of(s, t, m, mode);
    let v = if mode == AddressingMode::NoneAddressing {
        s.a
    } else {
        s.read(operand_address(s, mode))
    };
    // the status just before the final Zero/Negative update
    let before = match m {
        Mnemonic::Adc => adc_status(s.status, s.a, v),
        Mnemonic::Sbc => adc_status(s.status, s.a, negate(v)),
        Mnemonic::Asl | Mnemonic::Lsr | Mnemonic::Rol | Mnemonic::Ror => with_flag(
            s.status,
            CpuFlags::CARRY,
            shift_carry_out(m, v),
        ),
        _ => s.status,
    };
    assert(t.status == zn_flags(before, r));
    lemma_zn_flags(before, r);
}

/// Zero-page indexed addressing wraps within page zero: the effective address is the base
/// plus the index modulo 256.
pub proof fn lemma_zero_page_indexed_wraps(s: CpuState, mode: AddressingMode)
    requires
        mode == AddressingMode::ZeroPage_X || mode == AddressingMode::ZeroPage_Y,
    ensures
        operand_address(s, mode) < 0x100,
        operand_address(s, mode) == (s.read(s.pc) as int + if mode == AddressingMode::ZeroPage_X {
            s.x as int
        } else {
            s.y as int
        }) % 256,
{
}

/// The indirect modes fetch the high byte of a pointer stored at 0xFF from address 0x00,
/// not 0x100.
pub proof fn lemma_indirect_pointer_wraps(s: CpuState)
    ensures
        s.read(s.pc).wrapping_add(s.x) == 0xff ==> operand_address(s, AddressingMode::Indirect_X)
            == word(s.read(0xff), s.read(0)),
        s.read(s.pc) == 0xff ==> operand_address(s, AddressingMode::Indirect_Y) == word(
            s.read(0xff),
            s.read(0),
        ).wrapping_add(s.y as u16),
{
}

/// The halt opcode stops execution at once: only the program counter moves, past the halt byte.
pub proof fn lemma_halt_stops(s: CpuState, fuel: nat)
    requires
        s.read(s.pc) == 0x00,
        fuel > 0,
    ensures
        step_spec(s) == Ok::<(CpuState, bool), CpuError>((s.with_pc(s.pc.wrapping_add(1)), true)),
        run_spec(s, fuel) == (s.with_pc(s.pc.wrapping_add(1)), Ok::<(), CpuError>(())),
{
}

/// A run that ends without a fault ends just past a halt opcode.
pub proof fn lemma_run_ends_past_halt(s: CpuState, fuel: nat)
    requires
        run_spec(s, fuel).1 is Ok,
    ensures
        ({
            let t = run_spec(s, fuel).0;
            t.read(t.pc.wrapping_sub(1)) == 0x00
        }),
    decreases fuel,
{
    if fuel > 0 {
        match step_spec(s) {
            Ok((t, false)) => lemma_run_ends_past_halt(t, (fuel - 1) as nat),
            _ => {},
        }
    }
}

} // verus!
