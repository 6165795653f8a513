//! The addresses that an instruction refers to, as the decoder's renderer
//! works them out when it may ask a symbol table.
//!
//! The renderer writes the operands up to the first absent one. For a
//! branch destination it adds the displacement to the program counter; for
//! a load through the program counter, which is a dereferenced `pc`
//! followed by an immediate offset that is not post-indexed, it adds the
//! offset and the load offset. It adds signed 32-bit numbers, so each sum
//! has to be one. It then clears the lowest bit of a branch's address, and
//! the two lowest of a load's, and asks the table for the result.

use vstd::prelude::*;
use crate::operand::{Argument, Register};
use crate::symbols::names;
use crate::value::{word_signed, word_to_signed};

verus! {

/// Whether the renderer writes the operand at `index`: none before it, nor
/// the operand itself, is absent.
pub open spec fn is_shown(operands: Seq<Argument>, index: int) -> bool {
    &&& 0 <= index < operands.len()
    &&& forall|j: int| 0 <= j <= index ==> operands[j] != Argument::Absent
}

/// Whether the operand at `index` begins a load through the program
/// counter.
pub open spec fn is_pc_load(operands: Seq<Argument>, index: int) -> bool {
    &&& is_shown(operands, index + 1)
    &&& operands[index] matches Argument::Reg(r)
    &&& r.deref
    &&& r.reg == Register::Pc
    &&& operands[index + 1] matches Argument::OffsetImm(o)
    &&& !o.post_indexed
}

/// Whether a sum is a signed 32-bit number.
pub open spec fn fits(sum: int) -> bool {
    i32::MIN <= sum <= i32::MAX
}

/// Whether the sums that the renderer makes for the operand at `index` are
/// signed 32-bit numbers.
pub open spec fn place_fits(operands: Seq<Argument>, index: int, pc: u32, pc_load_offset: i32)
    -> bool {
    let base = word_signed(pc) as int;
    &&& operands[index] matches Argument::BranchDest(d) ==> fits(base + d)
    &&& is_pc_load(operands, index) ==> {
        let value = operands[index + 1]->OffsetImm_0.value;
        fits(base + value) && fits(base + value + pc_load_offset)
    }
}

/// Whether every sum that the renderer makes for these operands is a signed
/// 32-bit number.
pub open spec fn sums_fit(operands: Seq<Argument>, pc: u32, pc_load_offset: i32) -> bool {
    forall|index: int|
        #![trigger is_shown(operands, index)]
        is_shown(operands, index) ==> place_fits(operands, index, pc, pc_load_offset)
}

/// The unsigned number with the same 32 bits as a sum that fits.
pub open spec fn sum_word(sum: int) -> u32 {
    if sum >= 0 {
        sum as u32
    } else {
        (sum + 0x1_0000_0000) as u32
    }
}

/// The address that the renderer asks the table for when a branch has the
/// displacement `displacement`.
pub open spec fn branch_target(pc: u32, displacement: i32) -> u32 {
    let address = sum_word(word_signed(pc) + displacement);
    (address - address % 2) as u32
}

/// The address that the renderer asks the table for when a load through
/// the program counter has the offset `value`.
pub open spec fn load_target(pc: u32, value: i32, pc_load_offset: i32) -> u32 {
    let address = sum_word(word_signed(pc) + value + pc_load_offset);
    (address - address % 4) as u32
}

/// Whether no entry of the table names the address.
pub open spec fn names_none_at(table: Seq<(Seq<u8>, u32)>, address: u32) -> bool {
    forall|k: int| 0 <= k < table.len() ==> !names(#[trigger] table[k], address)
}

/// Whether the table names none of the addresses that the renderer asks
/// for on account of the operand at `index`.
pub open spec fn place_misses(
    table: Seq<(Seq<u8>, u32)>,
    operands: Seq<Argument>,
    index: int,
    pc: u32,
    pc_load_offset: i32,
) -> bool {
    &&& operands[index] matches Argument::BranchDest(d) ==> names_none_at(
        table,
        branch_target(pc, d),
    )
    &&& is_pc_load(operands, index) ==> names_none_at(
        table,
        load_target(pc, operands[index + 1]->OffsetImm_0.value, pc_load_offset),
    )
}

/// Whether the table names none of the addresses that these operands refer
/// to: it is empty, or every entry with a valid name has another address.
pub open spec fn misses(
    table: Seq<(Seq<u8>, u32)>,
    operands: Seq<Argument>,
    pc: u32,
    pc_load_offset: i32,
) -> bool {
    forall|index: int|
        #![trigger is_shown(operands, index)]
        is_shown(operands, index) ==> place_misses(table, operands, index, pc, pc_load_offset)
}

/// Whether the renderer asks the table for `address` on account of the
/// operand at `index`.
pub open spec fn place_asks(
    operands: Seq<Argument>,
    index: int,
    pc: u32,
    pc_load_offset: i32,
    address: u32,
) -> bool {
    ||| operands[index] matches Argument::BranchDest(d) && address == branch_target(pc, d)
    ||| is_pc_load(operands, index) && address == load_target(
        pc,
        operands[index + 1]->OffsetImm_0.value,
        pc_load_offset,
    )
}

/// Whether `address` is one of the addresses that these operands refer to.
pub open spec fn asks_for(operands: Seq<Argument>, pc: u32, pc_load_offset: i32, address: u32)
    -> bool {
    exists|index: int|
        #![trigger is_shown(operands, index)]
        is_shown(operands, index) && place_asks(operands, index, pc, pc_load_offset, address)
}

fn sum_fits(sum: i64) -> (fit: bool)
    ensures
        fit == fits(sum as int),
{
    i32::MIN as i64 <= sum && sum <= i32::MAX as i64
}

/// Tests whether every sum that the renderer makes for these operands is a
/// signed 32-bit number.
pub fn check_sums(operands: &[Argument], pc: u32, pc_load_offset: i32) -> (fit: bool)
    ensures
        fit == sums_fit(operands@, pc, pc_load_offset),
{
    let base: i64 = word_to_signed(pc) as i64;
    let mut i: usize = 0;
    while i < operands.len()
        invariant
            0 <= i <= operands.len(),
            base == word_signed(pc),
            forall|j: int| 0 <= j < i ==> operands@[j] != Argument::Absent,
            forall|j: int|
                0 <= j < i ==> #[trigger] place_fits(operands@, j, pc, pc_load_offset),
        decreases operands.len() - i,
    {
        match operands[i] {
            Argument::Absent => {
                assert forall|k: int| is_shown(operands@, k) implies place_fits(
                    operands@,
                    k,
                    pc,
                    pc_load_offset,
                ) by {
                    assert(k < i);
                }
                return true;
            },
            Argument::BranchDest(d) => {
                if !sum_fits(base + d as i64) {
                    assert(is_shown(operands@, i as int));
                    return false;
                }
            },
            Argument::Reg(r) => {
                if r.deref && r.reg == Register::Pc && i + 1 < operands.len() {
                    match operands[i + 1] {
                        Argument::OffsetImm(o) => {
                            if !o.post_indexed {
                                let first: i64 = base + o.value as i64;
                                if !sum_fits(first) || !sum_fits(first + pc_load_offset as i64) {
                                    assert(is_shown(operands@, i as int + 1));
                                    assert(is_shown(operands@, i as int));
                                    return false;
                                }
                            }
                        },
                        _ => {},
                    }
                }
            },
            _ => {},
        }
        assert(place_fits(operands@, i as int, pc, pc_load_offset));
        i += 1;
    }
    true
}

fn word_of_sum(sum: i64) -> (word: u32)
    requires
        fits(sum as int),
    ensures
        word == sum_word(sum as int),
{
    if sum >= 0 {
        sum as u32
    } else {
        (sum + 0x1_0000_0000) as u32
    }
}

/// Tests whether `address` is one of the addresses that these operands
/// refer to, so that the renderer asks the table for it.
pub fn is_asked(operands: &[Argument], pc: u32, pc_load_offset: i32, address: u32) -> (asked: bool)
    requires
        sums_fit(operands@, pc, pc_load_offset),
    ensures
        asked == asks_for(operands@, pc, pc_load_offset, address),
{
    let base: i64 = word_to_signed(pc) as i64;
    let mut i: usize = 0;
    while i < operands.len()
        invariant
            0 <= i <= operands.len(),
            base == word_signed(pc),
            sums_fit(operands@, pc, pc_load_offset),
            forall|j: int| 0 <= j < i ==> operands@[j] != Argument::Absent,
            forall|j: int|
                0 <= j < i ==> !#[trigger] place_asks(operands@, j, pc, pc_load_offset, address),
        decreases operands.len() - i,
    {
        match operands[i] {
            Argument::Absent => {
                assert forall|k: int| is_shown(operands@, k) implies !place_asks(
                    operands@,
                    k,
                    pc,
                    pc_load_offset,
                    address,
                ) by {
                    assert(k < i);
                }
                return false;
            },
            Argument::BranchDest(d) => {
                assert(is_shown(operands@, i as int));
                assert(place_fits(operands@, i as int, pc, pc_load_offset));
                let word = word_of_sum(base + d as i64);
                if address == word - word % 2 {
                    return true;
                }
            },
            Argument::Reg(r) => {
                if r.deref && r.reg == Register::Pc && i + 1 < operands.len() {
                    match operands[i + 1] {
                        Argument::OffsetImm(o) => {
                            if !o.post_indexed {
                                assert(is_shown(operands@, i as int + 1));
                                assert(is_shown(operands@, i as int));
                                assert(place_fits(operands@, i as int, pc, pc_load_offset));
                                let sum: i64 = base + o.value as i64 + pc_load_offset as i64;
                                let word = word_of_sum(sum);
                                if address == word - word % 4 {
                                    return true;
                                }
                            }
                        },
                        _ => {},
                    }
                }
            },
            _ => {},
        }
        assert(!place_asks(operands@, i as int, pc, pc_load_offset, address));
        i += 1;
    }
    assert forall|k: int| is_shown(operands@, k) implies !place_asks(
        operands@,
        k,
        pc,
        pc_load_offset,
        address,
    ) by {
        assert(k < i);
    }
    false
}

/// A table that names none of the addresses that the operands refer to
/// misses, and the other way round.
pub proof fn lemma_misses_what_is_asked(
    table: Seq<(Seq<u8>, u32)>,
    operands: Seq<Argument>,
    pc: u32,
    pc_load_offset: i32,
)
    ensures
        misses(table, operands, pc, pc_load_offset) <==> forall|address: u32|
            asks_for(operands, pc, pc_load_offset, address) ==> #[trigger] names_none_at(
                table,
                address,
            ),
{
    if misses(table, operands, pc, pc_load_offset) {
        assert forall|address: u32|
            asks_for(operands, pc, pc_load_offset, address) implies #[trigger] names_none_at(
            table,
            address,
        ) by {
            let index = choose|index: int|
                #![trigger is_shown(operands, index)]
                is_shown(operands, index) && place_asks(
                    operands,
                    index,
                    pc,
                    pc_load_offset,
                    address,
                );
            assert(place_misses(table, operands, index, pc, pc_load_offset));
        }
    }
    if forall|address: u32|
        asks_for(operands, pc, pc_load_offset, address) ==> #[trigger] names_none_at(
            table,
            address,
        ) {
        assert forall|index: int| is_shown(operands, index) implies place_misses(
            table,
            operands,
            index,
            pc,
            pc_load_offset,
        ) by {
            if operands[index] is BranchDest {
                let address = branch_target(pc, operands[index]->BranchDest_0);
                assert(place_asks(operands, index, pc, pc_load_offset, address));
                assert(asks_for(operands, pc, pc_load_offset, address));
                assert(names_none_at(table, address));
            }
            if is_pc_load(operands, index) {
                let address = load_target(
                    pc,
                    operands[index + 1]->OffsetImm_0.value,
                    pc_load_offset,
                );
                assert(place_asks(operands, index, pc, pc_load_offset, address));
                assert(asks_for(operands, pc, pc_load_offset, address));
                assert(names_none_at(table, address));
            }
        }
    }
}

/// A table that names no address at all names none that an instruction
/// refers to.
pub proof fn lemma_nothing_named_misses(
    table: Seq<(Seq<u8>, u32)>,
    operands: Seq<Argument>,
    pc: u32,
    pc_load_offset: i32,
)
    requires
        crate::symbols::names_nothing(table),
    ensures
        misses(table, operands, pc, pc_load_offset),
{
}

} // verus!
