//! The disassembler: a sweep over the bytes of a code section that follows
//! branches, and the listing it produces.

use vstd::prelude::*;
use vstd::string::StringExecFns;
use crate::binfmt::{
    symbol_views, RcxBin, RcxBinView, Section, SectionType, SectionView, Symbol, SymbolType,
    SymbolView,
};
use crate::errors::Error;
use crate::opcodes::{parse_opcode, parsed, Opcode, Opcodes};
use crate::text::{
    decimal, hex, hex2, hex_encode, hex_string, lossy_text, push_decimal, push_hex, push_hex2,
    push_quoted, quoted, utf8_lossy,
};

verus! {

/// Where a branch leads, and whether it is always taken.
#[derive(Debug, Clone, Copy, PartialEq, Eq)]
pub enum BranchType {
    /// The branch is taken on a condition; otherwise the next instruction
    /// runs.
    Conditional(usize),
    /// The branch is always taken.
    Unconditional(usize),
}

/// One decoded instruction of a code section.
#[derive(Debug, Clone, PartialEq, Eq)]
pub struct Instruction {
    /// Where in the section the instruction starts.
    pub offset: usize,
    /// The opcode with its parameters.
    pub opcode: Opcodes,
    /// Where the instruction branches to, if it is a branch.
    pub branch_target: Option<BranchType>,
}

/// The address a branch leads to. `base` is the address of the last byte of
/// the instruction: the offset byte of a near branch, the extension byte of
/// a far one. An offset byte below 128 leads forward from the base by that
/// many bytes, and by 128 bytes more for each unit of the extension. An
/// offset byte with the high bit set leads to 128 bytes behind the base,
/// less its low seven bits, less 128 bytes for each unit of the extension.
/// The offset byte is no two's complement: the high bit selects the rule.
pub open spec fn branch_address(base: int, offset: u8, extension: u8) -> int {
    if offset < 128 {
        base + offset + 128 * extension
    } else {
        base + 128 - (offset - 128) - 128 * extension
    }
}

/// For a branch, whether it is always taken, and the address it leads to
/// when the program counter stands at `pc` behind the instruction.
pub open spec fn branch_of(op: Opcodes, pc: int) -> Option<(bool, int)> {
    match op {
        Opcodes::BranchAlwaysNear(code) => Some((true, branch_address(pc - 1, code.offset, 0))),
        Opcodes::BranchAlwaysFar(code) => Some(
            (true, branch_address(pc - 1, code.offset, code.extension)),
        ),
        Opcodes::DecrementLoopCounterNear(code) => Some(
            (false, branch_address(pc - 1, code.offset, 0)),
        ),
        Opcodes::DecrementLoopCounterFar(code) => Some(
            (false, branch_address(pc - 1, code.offset, code.extension)),
        ),
        Opcodes::TestAndBranchNear(code) => Some((false, branch_address(pc - 1, code.offset, 0))),
        Opcodes::TestAndBranchFar(code) => Some(
            (false, branch_address(pc - 1, code.offset, code.extension)),
        ),
        _ => None,
    }
}

/// What [`is_branch`] returns: nothing for an opcode that is no branch, the
/// kind and the target for a branch, and a failure for a branch whose
/// target is no address at all.
pub open spec fn branch_result(op: Opcodes, pc: int) -> Result<Option<BranchType>, Error> {
    match branch_of(op, pc) {
        None => Ok(None),
        Some((always, address)) => if 0 <= address <= usize::MAX {
            if always {
                Ok(Some(BranchType::Unconditional(address as usize)))
            } else {
                Ok(Some(BranchType::Conditional(address as usize)))
            }
        } else {
            Err(Error::IntConversion)
        },
    }
}

/// If the opcode is a branch, returns where it leads. `pc` is the program
/// counter behind the instruction. A target before the start of the section
/// or beyond what an address can hold is refused.
///
/// The branches that count a loop down are taken for conditional branches
/// with the offsets of the others; the firmware has not been asked.
pub fn is_branch(opcode: &Opcodes, pc: usize) -> (r: Result<Option<BranchType>, Error>)
    ensures
        r == branch_result(*opcode, pc as int),
{
    let (always, offset, extension): (bool, u8, u8) = match opcode {
        Opcodes::BranchAlwaysNear(code) => (true, code.offset, 0),
        Opcodes::BranchAlwaysFar(code) => (true, code.offset, code.extension),
        Opcodes::DecrementLoopCounterNear(code) => (false, code.offset, 0),
        Opcodes::DecrementLoopCounterFar(code) => (false, code.offset, code.extension),
        Opcodes::TestAndBranchNear(code) => (false, code.offset, 0),
        Opcodes::TestAndBranchFar(code) => (false, code.offset, code.extension),
        _ => {
            return Ok(None);
        },
    };
    let base: i128 = pc as i128 - 1;
    let address: i128 = if offset < 128 {
        base + offset as i128 + 128 * (extension as i128)
    } else {
        base + 128 - (offset as i128 - 128) - 128 * (extension as i128)
    };
    if address < 0 || address > usize::MAX as i128 {
        return Err(Error::IntConversion);
    }
    let target = address as usize;
    if always {
        Ok(Some(BranchType::Unconditional(target)))
    } else {
        Ok(Some(BranchType::Conditional(target)))
    }
}

impl Instruction {
    /// The address of the byte behind the instruction.
    pub open spec fn next(&self) -> int {
        self.offset + 1 + self.opcode.encoding().len()
    }

    /// Where the sweep goes on after the instruction: to the target of a
    /// branch, else to the next instruction.
    pub open spec fn jump(&self) -> int {
        match self.branch_target {
            Some(BranchType::Unconditional(target)) => target as int,
            Some(BranchType::Conditional(target)) => target as int,
            None => self.next(),
        }
    }

    /// What the sweep comes back to after a conditional branch: the next
    /// instruction. Any other instruction has one way on only.
    pub open spec fn fall(&self) -> int {
        match self.branch_target {
            Some(BranchType::Conditional(_)) => self.next(),
            _ => self.jump(),
        }
    }
}

/// The instruction that stands at an offset of a section, if one can be
/// decoded there and, where it is a branch, its target is an address.
#[verifier::opaque]
pub open spec fn instruction_at(section: Seq<u8>, at: int) -> Option<Instruction> {
    match parsed(section, at) {
        Ok(opcode) => match branch_result(opcode, at + 1 + opcode.encoding().len()) {
            Ok(branch_target) => Some(Instruction { offset: at as usize, opcode, branch_target }),
            Err(_) => None,
        },
        Err(_) => None,
    }
}

/// Whether control can pass from the instruction at `from` to offset `to`.
pub open spec fn step(section: Seq<u8>, from: int, to: int) -> bool {
    match instruction_at(section, from) {
        Some(instruction) => to == instruction.jump() || to == instruction.fall(),
        None => false,
    }
}

/// Whether the offsets are a way through the section: they start at 0,
/// and control can pass from each to the next.
pub open spec fn path(section: Seq<u8>, way: Seq<int>) -> bool
    decreases way.len(),
{
    if way.len() == 0 {
        false
    } else if way.len() == 1 {
        way[0] == 0
    } else {
        path(section, way.drop_last()) && step(section, way[way.len() - 2], way.last())
    }
}

/// Whether some way through the section ends at the offset.
pub open spec fn reached(section: Seq<u8>, at: int) -> bool {
    exists|way: Seq<int>| path(section, way) && #[trigger] way.last() == at
}

/// Whether the listing of a section holds an instruction at the offset:
/// control can reach the offset, and an instruction can be decoded there.
pub open spec fn listed(section: Seq<u8>, at: int) -> bool {
    reached(section, at) && instruction_at(section, at) is Some
}

/// Why no instruction stands at an offset of a section, if none does:
/// the failure to decode one there, or to tell where it branches to.
#[verifier::opaque]
pub open spec fn fault_at(section: Seq<u8>, at: int) -> Option<Error> {
    match parsed(section, at) {
        Err(error) => Some(error),
        Ok(opcode) => match branch_result(opcode, at + 1 + opcode.encoding().len()) {
            Err(error) => Some(error),
            Ok(_) => None,
        },
    }
}

/// An offset of a section at which no instruction can be decoded.
#[derive(Debug, Clone, PartialEq, Eq)]
pub struct DecodeFailure {
    /// The offset in the section.
    pub offset: usize,
    /// Why no instruction stands there.
    pub error: Error,
}

/// Decodes the instruction at an offset and returns it with the address of
/// the byte behind it.
pub fn decode_at(section: &[u8], at: usize) -> (r: Result<(Instruction, usize), Error>)
    ensures
        match r {
            Ok((instruction, next)) => {
                &&& instruction_at(section@, at as int) == Some(instruction)
                &&& fault_at(section@, at as int) is None
                &&& next == instruction.next()
                &&& at < section@.len()
            },
            Err(error) => {
                &&& instruction_at(section@, at as int) is None
                &&& fault_at(section@, at as int) == Some(error)
            },
        },
{
    reveal(instruction_at);
    reveal(fault_at);
    let mut pc = at;
    let opcode = parse_opcode(section, &mut pc)?;
    let branch_target = is_branch(&opcode, pc)?;
    Ok((Instruction { offset: at, opcode, branch_target }, pc))
}

/// Whether the slots hold an instruction for the offset.
spec fn held(slots: Seq<Option<Instruction>>, at: int) -> bool {
    0 <= at < slots.len() && slots[at] is Some
}

/// Whether the offset waits in the work queue.
spec fn awaited(pending: Seq<usize>, at: int) -> bool {
    exists|j: int| 0 <= j < pending.len() && #[trigger] pending[j] == at
}

/// Whether a failure is recorded for the offset.
pub open spec fn failed(failures: Seq<DecodeFailure>, at: int) -> bool {
    exists|i: int| 0 <= i < failures.len() && (#[trigger] failures[i]).offset == at
}

/// Whether the sweep is done with an offset or still has it before it: an
/// instruction is held for it, a failure is recorded for it, it waits in
/// the queue, or it is the program counter.
spec fn covered(
    slots: Seq<Option<Instruction>>,
    failures: Seq<DecodeFailure>,
    pending: Seq<usize>,
    pc: int,
    at: int,
) -> bool {
    held(slots, at) || failed(failures, at) || awaited(pending, at) || at == pc
}

/// The number of offsets for which no instruction is held.
spec fn unseen(slots: Seq<Option<Instruction>>) -> nat
    decreases slots.len(),
{
    if slots.len() == 0 {
        0
    } else if slots.last() is None {
        unseen(slots.drop_last()) + 1
    } else {
        unseen(slots.drop_last())
    }
}

/// Whether failures are recorded soundly: by ascending offset, each at an
/// offset that control can reach, with the reason why no instruction
/// stands there.
spec fn recorded(section: Seq<u8>, failures: Seq<DecodeFailure>) -> bool {
    &&& forall|i: int|
        0 <= i < failures.len() ==> fault_at(section, (#[trigger] failures[i]).offset as int)
            == Some(failures[i].error) && reached(section, failures[i].offset as int)
    &&& forall|i: int, j: int|
        0 <= i < j < failures.len() ==> (#[trigger] failures[i]).offset < (
        #[trigger] failures[j]).offset
}

/// What holds of the sweep before and after every step.
spec fn sweeping(
    section: Seq<u8>,
    slots: Seq<Option<Instruction>>,
    failures: Seq<DecodeFailure>,
    pending: Seq<usize>,
    pc: int,
) -> bool {
    &&& slots.len() == section.len()
    &&& forall|at: int|
        0 <= at < slots.len() && (#[trigger] slots[at]) is Some ==> slots[at] == instruction_at(
            section,
            at,
        ) && reached(section, at)
    &&& recorded(section, failures)
    &&& reached(section, pc)
    &&& forall|j: int| 0 <= j < pending.len() ==> reached(section, #[trigger] pending[j] as int)
    &&& forall|at: int|
        0 <= at < slots.len() && (#[trigger] slots[at]) is Some ==> covered(
            slots,
            failures,
            pending,
            pc,
            slots[at]->0.jump(),
        ) && covered(slots, failures, pending, pc, slots[at]->0.fall())
    &&& covered(slots, failures, pending, pc, 0)
}

/// Holding one more instruction leaves one offset fewer unseen.
proof fn lemma_unseen_update(slots: Seq<Option<Instruction>>, at: int, instruction: Instruction)
    requires
        0 <= at < slots.len(),
        slots[at] is None,
    ensures
        unseen(slots.update(at, Some(instruction))) + 1 == unseen(slots),
    decreases slots.len(),
{
    let updated = slots.update(at, Some(instruction));
    if at == slots.len() - 1 {
        assert(updated.drop_last() =~= slots.drop_last());
    } else {
        assert(updated.drop_last() =~= slots.drop_last().update(at, Some(instruction)));
        lemma_unseen_update(slots.drop_last(), at, instruction);
    }
}

/// A way that ends where control can pass on reaches the next offset too.
proof fn lemma_reached_step(section: Seq<u8>, from: int, to: int)
    requires
        reached(section, from),
        step(section, from, to),
    ensures
        reached(section, to),
{
    let way = choose|way: Seq<int>| path(section, way) && #[trigger] way.last() == from;
    let longer = way.push(to);
    assert(longer.drop_last() =~= way);
    assert(path(section, longer));
    assert(longer.last() == to);
}

/// What was covered stays covered when an instruction is held for the
/// program counter, the queue only grows, and the counter moves on.
proof fn lemma_covered_advance(
    slots: Seq<Option<Instruction>>,
    failures: Seq<DecodeFailure>,
    pending: Seq<usize>,
    pc: int,
    instruction: Instruction,
    longer: Seq<usize>,
    onward: int,
    at: int,
)
    requires
        0 <= pc < slots.len(),
        pending.len() <= longer.len(),
        forall|j: int| 0 <= j < pending.len() ==> longer[j] == pending[j],
        covered(slots, failures, pending, pc, at),
    ensures
        covered(slots.update(pc, Some(instruction)), failures, longer, onward, at),
{
    if awaited(pending, at) {
        let j = choose|j: int| 0 <= j < pending.len() && #[trigger] pending[j] == at;
        assert(longer[j] == at);
    }
}

/// A step of the sweep that decodes an instruction keeps what holds of the
/// sweep, and leaves one offset fewer unseen.
proof fn lemma_advance(
    section: Seq<u8>,
    slots: Seq<Option<Instruction>>,
    failures: Seq<DecodeFailure>,
    pending: Seq<usize>,
    pc: int,
    instruction: Instruction,
    longer: Seq<usize>,
    onward: int,
)
    requires
        sweeping(section, slots, failures, pending, pc),
        0 <= pc < slots.len(),
        slots[pc] is None,
        instruction_at(section, pc) == Some(instruction),
        onward == instruction.jump(),
        0 <= instruction.fall() <= usize::MAX,
        longer == pending || longer == pending.push(instruction.fall() as usize),
        instruction.fall() != instruction.jump() ==> longer != pending,
    ensures
        sweeping(section, slots.update(pc, Some(instruction)), failures, longer, onward),
        unseen(slots.update(pc, Some(instruction))) + 1 == unseen(slots),
{
    let held_now = slots.update(pc, Some(instruction));
    lemma_unseen_update(slots, pc, instruction);
    lemma_reached_step(section, pc, instruction.jump());
    lemma_reached_step(section, pc, instruction.fall());
    assert forall|j: int| 0 <= j < longer.len() implies reached(
        section,
        #[trigger] longer[j] as int,
    ) by {
        if j < pending.len() {
            assert(longer[j] == pending[j]);
        }
    }
    if longer != pending {
        assert(longer[pending.len() as int] == instruction.fall());
        assert(awaited(longer, instruction.fall()));
    }
    assert forall|at: int| 0 <= at < held_now.len() && (#[trigger] held_now[at]) is Some implies {
        &&& held_now[at] == instruction_at(section, at)
        &&& reached(section, at)
        &&& covered(held_now, failures, longer, onward, held_now[at]->0.jump())
        &&& covered(held_now, failures, longer, onward, held_now[at]->0.fall())
    } by {
        if at != pc {
            assert(slots[at] is Some);
            lemma_covered_advance(
                slots,
                failures,
                pending,
                pc,
                instruction,
                longer,
                onward,
                slots[at]->0.jump(),
            );
            lemma_covered_advance(
                slots,
                failures,
                pending,
                pc,
                instruction,
                longer,
                onward,
                slots[at]->0.fall(),
            );
        }
    }
    lemma_covered_advance(slots, failures, pending, pc, instruction, longer, onward, 0);
}

/// Recording a failure for the program counter keeps what holds of the
/// sweep.
proof fn lemma_record(
    section: Seq<u8>,
    slots: Seq<Option<Instruction>>,
    failures: Seq<DecodeFailure>,
    pending: Seq<usize>,
    pc: int,
    more: Seq<DecodeFailure>,
)
    requires
        sweeping(section, slots, failures, pending, pc),
        recorded(section, more),
        forall|at: int| failed(failures, at) ==> failed(more, at),
    ensures
        sweeping(section, slots, more, pending, pc),
{
    assert forall|at: int| covered(slots, failures, pending, pc, at) implies covered(
        slots,
        more,
        pending,
        pc,
        at,
    ) by {}
}

/// A step of the sweep that takes an offset from the queue keeps what
/// holds of the sweep.
proof fn lemma_resume(
    section: Seq<u8>,
    slots: Seq<Option<Instruction>>,
    failures: Seq<DecodeFailure>,
    pending: Seq<usize>,
    pc: int,
)
    requires
        sweeping(section, slots, failures, pending, pc),
        held(slots, pc) || failed(failures, pc),
        pending.len() > 0,
    ensures
        sweeping(section, slots, failures, pending.drop_last(), pending.last() as int),
{
    let shorter = pending.drop_last();
    let onward = pending.last() as int;
    assert(reached(section, pending[pending.len() - 1] as int));
    assert forall|at: int| covered(slots, failures, pending, pc, at) implies covered(
        slots,
        failures,
        shorter,
        onward,
        at,
    ) by {
        if awaited(pending, at) {
            let j = choose|j: int| 0 <= j < pending.len() && #[trigger] pending[j] == at;
            if j < shorter.len() {
                assert(shorter[j] == at);
            }
        }
    }
    assert forall|j: int| 0 <= j < shorter.len() implies reached(
        section,
        #[trigger] shorter[j] as int,
    ) by {
        assert(shorter[j] == pending[j]);
    }
}

/// Where the sweep stops, nothing is left before it: what follows a held
/// instruction is held too, or a failure is recorded for it.
proof fn lemma_stopped(
    section: Seq<u8>,
    slots: Seq<Option<Instruction>>,
    failures: Seq<DecodeFailure>,
    pending: Seq<usize>,
    pc: int,
)
    requires
        sweeping(section, slots, failures, pending, pc),
        held(slots, pc) || failed(failures, pc),
        pending.len() == 0,
    ensures
        swept(section, slots, failures),
{
    assert forall|at: int| covered(slots, failures, pending, pc, at) implies held(slots, at)
        || failed(failures, at) by {}
}

/// What holds of the slots and the failures when the sweep has stopped.
spec fn swept(
    section: Seq<u8>,
    slots: Seq<Option<Instruction>>,
    failures: Seq<DecodeFailure>,
) -> bool {
    &&& slots.len() == section.len()
    &&& forall|at: int|
        0 <= at < slots.len() && (#[trigger] slots[at]) is Some ==> slots[at] == instruction_at(
            section,
            at,
        ) && reached(section, at)
    &&& recorded(section, failures)
    &&& forall|at: int|
        0 <= at < slots.len() && (#[trigger] slots[at]) is Some ==> (held(
            slots,
            slots[at]->0.jump(),
        ) || failed(failures, slots[at]->0.jump())) && (held(slots, slots[at]->0.fall())
            || failed(failures, slots[at]->0.fall()))
    &&& held(slots, 0) || failed(failures, 0)
}

/// At an offset stands an instruction, or there is a reason why none
/// does, and never both.
proof fn lemma_fault_or_instruction(section: Seq<u8>, at: int)
    ensures
        fault_at(section, at) is Some <==> instruction_at(section, at) is None,
{
    reveal(instruction_at);
    reveal(fault_at);
}

/// Where the sweep has stopped, every offset on a way through the section
/// is held if an instruction can be decoded there, and has a failure
/// recorded if none can.
proof fn lemma_swept(
    section: Seq<u8>,
    slots: Seq<Option<Instruction>>,
    failures: Seq<DecodeFailure>,
    way: Seq<int>,
)
    requires
        swept(section, slots, failures),
        path(section, way),
    ensures
        instruction_at(section, way.last()) is Some ==> held(slots, way.last()),
        instruction_at(section, way.last()) is None ==> failed(failures, way.last()),
    decreases way.len(),
{
    let at = way.last();
    lemma_fault_or_instruction(section, at);
    if held(slots, at) {
        assert(slots[at] is Some);
    }
    if failed(failures, at) {
        let i = choose|i: int| 0 <= i < failures.len() && (#[trigger] failures[i]).offset == at;
        assert(fault_at(section, failures[i].offset as int) is Some);
    }
    if way.len() > 1 {
        let from = way[way.len() - 2];
        assert(way.drop_last().last() == from);
        lemma_swept(section, slots, failures, way.drop_last());
        assert(slots[from] is Some);
    }
}

/// Records a failure at an offset, unless one is recorded there.
fn record(
    failures: &mut Vec<DecodeFailure>,
    offset: usize,
    error: Error,
    Ghost(section): Ghost<Seq<u8>>,
)
    requires
        recorded(section, old(failures)@),
        reached(section, offset as int),
        fault_at(section, offset as int) == Some(error),
    ensures
        recorded(section, final(failures)@),
        failed(final(failures)@, offset as int),
        forall|at: int| failed(old(failures)@, at) ==> failed(final(failures)@, at),
{
    let mut i: usize = 0;
    while i < failures.len() && failures[i].offset < offset
        invariant
            i <= failures@.len(),
            failures@ == old(failures)@,
            forall|k: int| 0 <= k < i ==> (#[trigger] failures@[k]).offset < offset,
        decreases failures@.len() - i,
    {
        i += 1;
    }
    if i < failures.len() && failures[i].offset == offset {
        return ;
    }
    let ghost before = failures@;
    failures.insert(i, DecodeFailure { offset, error });
    proof {
        let after = failures@;
        assert(after[i as int].offset == offset);
        assert forall|at: int| failed(before, at) implies failed(after, at) by {
            let k = choose|k: int| 0 <= k < before.len() && (#[trigger] before[k]).offset == at;
            if k < i {
                assert(after[k].offset == at);
            } else {
                assert(after[k + 1].offset == at);
            }
        }
        assert forall|a: int, b: int| 0 <= a < b < after.len() implies (
        #[trigger] after[a]).offset < (#[trigger] after[b]).offset by {
            if b < i {
                assert(after[a] == before[a] && after[b] == before[b]);
            } else if b == i {
                assert(after[a] == before[a]);
            } else if a < i {
                assert(after[a] == before[a] && after[b] == before[b - 1]);
                assert(before[a].offset < before[b - 1].offset || a == b - 1);
                if i < before.len() {
                    assert(before[i as int].offset <= before[b - 1].offset) by {
                        if i < b - 1 {
                            assert(before[i as int].offset < before[b - 1].offset);
                        }
                    }
                }
            } else if a == i {
                assert(after[b] == before[b - 1]);
                if i < b - 1 {
                    assert(before[i as int].offset < before[b - 1].offset);
                }
            } else {
                assert(after[a] == before[a - 1] && after[b] == before[b - 1]);
            }
        }
        assert forall|k: int| 0 <= k < after.len() implies fault_at(
            section,
            (#[trigger] after[k]).offset as int,
        ) == Some(after[k].error) && reached(section, after[k].offset as int) by {
            if k < i {
                assert(after[k] == before[k]);
            } else if k > i {
                assert(after[k] == before[k - 1]);
            }
        }
    }
}

/// An empty slot for every byte of a section.
fn empty_slots(n: usize) -> (slots: Vec<Option<Instruction>>)
    ensures
        slots@.len() == n,
        forall|at: int| 0 <= at < n ==> (#[trigger] slots@[at]) is None,
        unseen(slots@) == n,
{
    let mut slots: Vec<Option<Instruction>> = Vec::new();
    while slots.len() < n
        invariant
            slots@.len() <= n,
            forall|at: int| 0 <= at < slots@.len() ==> (#[trigger] slots@[at]) is None,
            unseen(slots@) == slots@.len(),
        decreases n - slots@.len(),
    {
        let ghost before = slots@;
        slots.push(None);
        assert(slots@.drop_last() =~= before);
    }
    slots
}

/// The instructions that the slots hold, by ascending offset.
fn collect(slots: Vec<Option<Instruction>>) -> (out: Vec<Instruction>)
    requires
        forall|at: int|
            0 <= at < slots@.len() && (#[trigger] slots@[at]) is Some ==> slots@[at]->0.offset
                == at,
    ensures
        forall|i: int| 0 <= i < out@.len() ==> held(slots@, (#[trigger] out@[i]).offset as int),
        forall|i: int|
            0 <= i < out@.len() ==> slots@[(#[trigger] out@[i]).offset as int] == Some(out@[i]),
        forall|i: int, j: int|
            0 <= i < j < out@.len() ==> (#[trigger] out@[i]).offset < (#[trigger] out@[j]).offset,
        forall|at: int| held(slots@, at) ==> holds(out@, at),
{
    let ghost all = slots@;
    let mut slots = slots;
    let mut out: Vec<Instruction> = Vec::new();
    let mut at: usize = 0;
    while at < slots.len()
        invariant
            at <= slots@.len(),
            slots@.len() == all.len(),
            forall|k: int| at <= k < all.len() ==> slots@[k] == all[k],
            forall|k: int|
                0 <= k < all.len() && (#[trigger] all[k]) is Some ==> all[k]->0.offset == k,
            forall|i: int| 0 <= i < out@.len() ==> (#[trigger] out@[i]).offset < at,
            forall|i: int| 0 <= i < out@.len() ==> held(all, (#[trigger] out@[i]).offset as int),
            forall|i: int|
                0 <= i < out@.len() ==> all[(#[trigger] out@[i]).offset as int] == Some(out@[i]),
            forall|i: int, j: int|
                0 <= i < j < out@.len() ==> (#[trigger] out@[i]).offset < (
                #[trigger] out@[j]).offset,
            forall|k: int| 0 <= k < at && held(all, k) ==> holds(out@, k),
        decreases slots@.len() - at,
    {
        let ghost before = out@;
        let slot = slots[at].take();
        match slot {
            Some(instruction) => {
                assert(all[at as int] == Some(instruction));
                out.push(instruction);
                assert(out@[before.len() as int].offset == at);
                assert forall|k: int| 0 <= k < at + 1 && held(all, k) implies holds(out@, k) by {
                    if k < at {
                        let i = choose|i: int| 0 <= i < before.len() && before[i].offset == k;
                        assert(out@[i].offset == k);
                    } else {
                        assert(out@[before.len() as int].offset == k);
                    }
                }
            },
            None => {},
        }
        at += 1;
    }
    out
}

/// Whether a listing holds an instruction at the offset.
pub open spec fn holds(listing: Seq<Instruction>, at: int) -> bool {
    exists|i: int| 0 <= i < listing.len() && (#[trigger] listing[i]).offset == at
}

/// Whether instructions are the listing of a section: each is the
/// instruction that stands at its offset, they come by ascending offset,
/// and there is one for exactly the offsets that control can reach and at
/// which an instruction can be decoded.
pub open spec fn is_listing(section: Seq<u8>, listing: Seq<Instruction>) -> bool {
    &&& forall|i: int|
        0 <= i < listing.len() ==> instruction_at(section, (#[trigger] listing[i]).offset as int)
            == Some(listing[i])
    &&& forall|i: int, j: int|
        0 <= i < j < listing.len() ==> (#[trigger] listing[i]).offset < (
        #[trigger] listing[j]).offset
    &&& forall|at: int| listed(section, at) <==> holds(listing, at)
}

/// The listing of a section.
pub open spec fn listing_of(section: Seq<u8>) -> Seq<Instruction> {
    choose|listing: Seq<Instruction>| is_listing(section, listing)
}

/// A section has one listing only.
pub proof fn lemma_listing_unique(section: Seq<u8>, a: Seq<Instruction>, b: Seq<Instruction>)
    requires
        is_listing(section, a),
        is_listing(section, b),
    ensures
        a == b,
{
    if a.len() == 0 {
        if b.len() > 0 {
            assert(holds(b, b[0].offset as int));
            assert(holds(a, b[0].offset as int));
        }
        assert(a =~= b);
    } else {
        let bound = a.last().offset + 1;
        assert forall|at: int| holds(a, at) implies at < bound by {
            let i = choose|i: int| 0 <= i < a.len() && (#[trigger] a[i]).offset == at;
            if i < a.len() - 1 {
                assert(a[i].offset < a[a.len() - 1].offset);
            }
        }
        assert forall|at: int| holds(b, at) implies at < bound by {
            assert(listed(section, at));
            assert(holds(a, at));
        }
        lemma_listing_unique_below(section, a, b, bound);
    }
}

/// Whether instructions are the part of the listing of a section that lies
/// below an offset.
pub open spec fn is_listing_below(section: Seq<u8>, listing: Seq<Instruction>, bound: int) -> bool {
    &&& forall|i: int|
        0 <= i < listing.len() ==> instruction_at(section, (#[trigger] listing[i]).offset as int)
            == Some(listing[i])
    &&& forall|i: int, j: int|
        0 <= i < j < listing.len() ==> (#[trigger] listing[i]).offset < (
        #[trigger] listing[j]).offset
    &&& forall|at: int| listed(section, at) && at < bound <==> holds(listing, at)
}

/// A section has one listing below an offset only.
pub proof fn lemma_listing_unique_below(
    section: Seq<u8>,
    a: Seq<Instruction>,
    b: Seq<Instruction>,
    bound: int,
)
    requires
        is_listing_below(section, a, bound),
        is_listing_below(section, b, bound),
    ensures
        a == b,
    decreases a.len(),
{
    if a.len() == 0 {
        if b.len() > 0 {
            assert(holds(b, b[0].offset as int));
            assert(holds(a, b[0].offset as int));
        }
        assert(a =~= b);
    } else {
        let top = a.last();
        assert(holds(a, top.offset as int));
        assert(holds(b, top.offset as int));
        let j = choose|j: int| 0 <= j < b.len() && (#[trigger] b[j]).offset == top.offset;
        assert(holds(b, b.last().offset as int));
        assert(holds(a, b.last().offset as int));
        let i = choose|i: int| 0 <= i < a.len() && (#[trigger] a[i]).offset == b.last().offset;
        assert(b.last().offset == top.offset);
        assert(b.last() == top);
        let shorter_a = a.drop_last();
        let shorter_b = b.drop_last();
        assert forall|at: int| listed(section, at) && at < top.offset implies holds(
            shorter_a,
            at,
        ) && holds(shorter_b, at) by {
            assert(holds(a, at));
            let i = choose|i: int| 0 <= i < a.len() && (#[trigger] a[i]).offset == at;
            assert(shorter_a[i].offset == at);
            assert(holds(b, at));
            let j = choose|j: int| 0 <= j < b.len() && (#[trigger] b[j]).offset == at;
            assert(shorter_b[j].offset == at);
        }
        assert forall|at: int| holds(shorter_a, at) implies listed(section, at) && at
            < top.offset by {
            let i = choose|i: int|
                0 <= i < shorter_a.len() && (#[trigger] shorter_a[i]).offset == at;
            assert(a[i].offset == at);
            assert(holds(a, at));
        }
        assert forall|at: int| holds(shorter_b, at) implies listed(section, at) && at
            < top.offset by {
            let j = choose|j: int|
                0 <= j < shorter_b.len() && (#[trigger] shorter_b[j]).offset == at;
            assert(b[j].offset == at);
            assert(holds(b, at));
        }
        lemma_listing_unique_below(section, shorter_a, shorter_b, top.offset as int);
        assert(a =~= shorter_a.push(top));
        assert(b =~= shorter_b.push(top));
    }
}

/// Whether failures are those of the sweep over a section: they come by
/// ascending offset, and there is one for exactly the offsets that control
/// can reach and at which no instruction can be decoded, with the reason.
pub open spec fn is_failure_list(section: Seq<u8>, failures: Seq<DecodeFailure>) -> bool {
    &&& forall|i: int|
        0 <= i < failures.len() ==> fault_at(section, (#[trigger] failures[i]).offset as int)
            == Some(failures[i].error)
    &&& forall|i: int, j: int|
        0 <= i < j < failures.len() ==> (#[trigger] failures[i]).offset < (
        #[trigger] failures[j]).offset
    &&& forall|at: int| reached(section, at) && fault_at(section, at) is Some <==> failed(
        failures,
        at,
    )
}

/// Sweeps a code section from offset 0: follows every branch, comes back
/// to what follows a conditional branch, and skips what it has seen. Where
/// no instruction can be decoded the failure is recorded, and the sweep
/// goes on with the offset that was put aside last. The listing holds, by
/// ascending offset, exactly the instructions that control can reach; the
/// failures are, by ascending offset, exactly the offsets that control can
/// reach without an instruction to be decoded there.
pub fn sweep(section: &[u8]) -> (r: (Vec<Instruction>, Vec<DecodeFailure>))
    ensures
        is_listing(section@, r.0@),
        r.0@ == listing_of(section@),
        is_failure_list(section@, r.1@),
{
    let mut slots = empty_slots(section.len());
    let mut failures: Vec<DecodeFailure> = Vec::new();
    let mut pending: Vec<usize> = Vec::new();
    let mut pc: usize = 0;
    proof {
        let start = seq![0int];
        assert(path(section@, start));
        assert(start.last() == 0);
    }
    loop
        invariant_except_break
            sweeping(section@, slots@, failures@, pending@, pc as int),
        ensures
            swept(section@, slots@, failures@),
        decreases 2 * unseen(slots@) + pending@.len(),
    {
        let seen = pc < slots.len() && slots[pc].is_some();
        let mut advanced = false;
        if !seen {
            let ghost from = pc as int;
            match decode_at(section, pc) {
                Ok((instruction, next)) => {
                    let ghost before = slots@;
                    let ghost waiting = pending@;
                    let branch_target = instruction.branch_target;
                    slots[pc] = Some(instruction);
                    match branch_target {
                        Some(BranchType::Unconditional(target)) => {
                            pc = target;
                        },
                        Some(BranchType::Conditional(target)) => {
                            pending.push(next);
                            pc = target;
                        },
                        None => {
                            pc = next;
                        },
                    }
                    proof {
                        lemma_advance(
                            section@,
                            before,
                            failures@,
                            waiting,
                            from,
                            instruction,
                            pending@,
                            pc as int,
                        );
                    }
                    advanced = true;
                },
                Err(error) => {
                    let ghost had = failures@;
                    record(&mut failures, pc, error, Ghost(section@));
                    proof {
                        lemma_record(section@, slots@, had, pending@, from, failures@);
                    }
                },
            }
        }
        if !advanced {
            let ghost waiting = pending@;
            let ghost from = pc as int;
            match pending.pop() {
                Some(next) => {
                    pc = next;
                    proof {
                        lemma_resume(section@, slots@, failures@, waiting, from);
                    }
                },
                None => {
                    proof {
                        lemma_stopped(section@, slots@, failures@, waiting, from);
                    }
                    break ;
                },
            }
        }
    }
    let ghost final_slots = slots@;
    proof {
        reveal(instruction_at);
    }
    let out = collect(slots);
    proof {
        assert forall|at: int| listed(section@, at) implies holds(out@, at) by {
            let way = choose|way: Seq<int>| path(section@, way) && #[trigger] way.last() == at;
            lemma_swept(section@, final_slots, failures@, way);
        }
        assert forall|at: int| holds(out@, at) implies listed(section@, at) by {
            let i = choose|i: int| 0 <= i < out@.len() && (#[trigger] out@[i]).offset == at;
            assert(held(final_slots, out@[i].offset as int));
        }
        assert(is_listing(section@, out@));
        lemma_listing_unique(section@, out@, listing_of(section@));
        assert forall|at: int| reached(section@, at) && fault_at(section@, at) is Some implies failed(
            failures@,
            at,
        ) by {
            let way = choose|way: Seq<int>| path(section@, way) && #[trigger] way.last() == at;
            lemma_fault_or_instruction(section@, at);
            lemma_swept(section@, final_slots, failures@, way);
        }
        assert forall|at: int| failed(failures@, at) implies reached(section@, at) && fault_at(
            section@,
            at,
        ) is Some by {
            let i = choose|i: int|
                0 <= i < failures@.len() && (#[trigger] failures@[i]).offset == at;
            assert(fault_at(section@, failures@[i].offset as int) is Some);
        }
    }
    (out, failures)
}

/// Disassembles a code section: the listing of the sweep over it, by
/// ascending offset.
pub fn disasm_code_section(section: &[u8]) -> (out: Vec<Instruction>)
    ensures
        is_listing(section@, out@),
        out@ == listing_of(section@),
{
    let (out, _failures) = sweep(section);
    out
}

impl BranchType {
    /// The address the branch leads to.
    pub open spec fn address(self) -> usize {
        match self {
            Self::Conditional(target) => target,
            Self::Unconditional(target) => target,
        }
    }

    /// The target in hexadecimal, at least two digits.
    pub open spec fn text(self) -> Seq<char> {
        hex2(self.address() as nat)
    }

    /// The target in hexadecimal, at least two digits.
    pub fn to_string(&self) -> (r: String)
        ensures
            r@ == self.text(),
    {
        let target = match self {
            Self::Conditional(target) => *target,
            Self::Unconditional(target) => *target,
        };
        let mut out = String::new();
        push_hex2(&mut out, target);
        assert(out@ =~= self.text());
        out
    }
}

/// A line of a listing, from its parts: the offset, the opcode byte, the
/// opcode as it prints, the target if there is one, and the bytes of the
/// parameters in hexadecimal.
pub open spec fn line_text(
    offset: nat,
    code: nat,
    opcode: Seq<char>,
    target: Option<Seq<char>>,
    source: Seq<char>,
) -> Seq<char> {
    let head = hex2(offset) + ": "@ + hex2(code) + " "@ + opcode;
    let aimed = match target {
        Some(target) => head + " => "@ + target,
        None => head,
    };
    aimed + "    "@ + hex2(code) + source + "\n"@
}

/// Renders a line of a listing from its parts.
fn render_line(offset: usize, code: u8, opcode: &str, target: Option<&str>, source: &str) -> (out:
    String)
    ensures
        out@ == line_text(
            offset as nat,
            code as nat,
            opcode@,
            match target {
                Some(target) => Some(target@),
                None => None,
            },
            source@,
        ),
{
    let mut out = String::new();
    push_hex2(&mut out, offset);
    assert(out@ =~= hex2(offset as nat));
    out.append(": ");
    push_hex2(&mut out, code as usize);
    out.append(" ");
    out.append(opcode);
    match target {
        Some(target) => {
            out.append(" => ");
            out.append(target);
        },
        None => {},
    }
    out.append("    ");
    push_hex2(&mut out, code as usize);
    out.append(source);
    out.append("\n");
    out
}

impl Instruction {
    /// The line of a listing for the instruction: offset, opcode byte, the
    /// opcode with its parameters, the target if it is a branch, and the
    /// bytes of the instruction in hexadecimal.
    pub open spec fn line(&self) -> Seq<char> {
        line_text(
            self.offset as nat,
            self.opcode.opcode() as nat,
            self.opcode.text(),
            match self.branch_target {
                Some(target) => Some(target.text()),
                None => None,
            },
            hex_string(self.opcode.encoding()),
        )
    }

    /// The line of a listing for the instruction.
    pub fn to_string(&self) -> (r: String)
        ensures
            r@ == self.line(),
    {
        let opcode = self.opcode.to_string();
        let bytes = self.opcode.encode();
        let source = hex_encode(bytes.as_slice());
        match self.branch_target {
            Some(target) => {
                let aim = target.to_string();
                render_line(
                    self.offset,
                    self.opcode.request_opcode(),
                    opcode.as_str(),
                    Some(aim.as_str()),
                    source.as_str(),
                )
            },
            None => render_line(
                self.offset,
                self.opcode.request_opcode(),
                opcode.as_str(),
                None,
                source.as_str(),
            ),
        }
    }
}

/// Renders the lines of a listing, in order.
fn listing_string(listing: &Vec<Instruction>) -> (out: String)
    ensures
        out@ == listing_text(listing@),
{
    let mut out = String::new();
    let mut i: usize = 0;
    assert(listing@.take(0) =~= Seq::<Instruction>::empty());
    while i < listing.len()
        invariant
            i <= listing@.len(),
            out@ == listing_text(listing@.take(i as int)),
        decreases listing@.len() - i,
    {
        proof {
            let next = listing@.take(i + 1);
            assert(next.drop_last() =~= listing@.take(i as int));
            assert(next.last() == listing@[i as int]);
        }
        let line = listing[i].to_string();
        out.append(line.as_str());
        i += 1;
    }
    assert(listing@.take(i as int) =~= listing@);
    out
}

/// The lines of a listing, in order.
pub open spec fn listing_text(listing: Seq<Instruction>) -> Seq<char>
    decreases listing.len(),
{
    if listing.len() == 0 {
        Seq::empty()
    } else {
        listing_text(listing.drop_last()) + listing.last().line()
    }
}

/// The first line of a disassembly: signature, version and target.
pub open spec fn header_text(bin: RcxBinView) -> Seq<char> {
    utf8_lossy(bin.signature) + " version "@ + hex(bin.version as nat) + " targeting "@
        + bin.target_type.name() + "\n"@
}

/// The lines of a symbol table: type, index and name of each symbol.
pub open spec fn symbol_lines(symbols: Seq<SymbolView>) -> Seq<char>
    decreases symbols.len(),
{
    if symbols.len() == 0 {
        Seq::empty()
    } else {
        symbol_lines(symbols.drop_last()) + "  "@ + symbols.last().ty.name() + " "@ + decimal(
            symbols.last().index as nat,
        ) + " "@ + quoted(symbols.last().name) + "\n"@
    }
}

/// The symbol table of a disassembly.
pub open spec fn symbol_table_text(bin: RcxBinView) -> Seq<char> {
    ".SYMBOLS:\n"@ + symbol_lines(bin.symbols)
}

/// The first symbol of a type and an index, from position `from` on.
pub open spec fn first_symbol(
    symbols: Seq<SymbolView>,
    ty: SymbolType,
    index: u8,
    from: int,
) -> Option<SymbolView>
    decreases symbols.len() - from,
{
    if from < 0 || from >= symbols.len() {
        None
    } else if symbols[from].ty == ty && symbols[from].index == index {
        Some(symbols[from])
    } else {
        first_symbol(symbols, ty, index, from + 1)
    }
}

/// The symbol that names a section: for a task the first symbol of a task
/// with its number, for a subroutine the first symbol of a subroutine with
/// its number, for any other section none.
pub open spec fn section_symbol(section: SectionView, symbols: Seq<SymbolView>) -> Option<
    SymbolView,
> {
    match section.ty {
        SectionType::Task => first_symbol(symbols, SymbolType::Task, section.number, 0),
        SectionType::Subroutine => first_symbol(symbols, SymbolType::Sub, section.number, 0),
        _ => None,
    }
}

/// Whether a section holds code: a task or a subroutine.
pub open spec fn holds_code(ty: SectionType) -> bool {
    ty == SectionType::Task || ty == SectionType::Subroutine
}

/// The part of a disassembly for one section: an empty line, the name of
/// the section, and, for a section that holds code, the listing of its
/// data.
pub open spec fn section_text(section: SectionView, symbols: Seq<SymbolView>) -> Seq<char> {
    let named = match section_symbol(section, symbols) {
        Some(symbol) => "\n.SECTION "@ + quoted(symbol.name),
        None => "\n.SECTION "@,
    };
    if holds_code(section.ty) {
        named + "\n"@ + listing_text(listing_of(section.data))
    } else {
        named + "\n"@
    }
}

/// The parts of a disassembly for the sections, in order.
pub open spec fn sections_text(sections: Seq<SectionView>, symbols: Seq<SymbolView>) -> Seq<char>
    decreases sections.len(),
{
    if sections.len() == 0 {
        Seq::empty()
    } else {
        sections_text(sections.drop_last(), symbols) + section_text(sections.last(), symbols)
    }
}

/// The disassembly of an image that was read from a file of a name.
pub open spec fn disassembly(file: Seq<char>, bin: RcxBinView) -> Seq<char> {
    "Disassembly of `"@ + file + "`\n"@ + header_text(bin) + symbol_table_text(bin)
        + sections_text(bin.sections, bin.symbols)
}

/// Disassembles an image. `file` is the name of the file it was read from.
#[must_use]
pub fn print(file: &str, bin: &RcxBin) -> (out: String)
    ensures
        out@ == disassembly(file@, bin@),
{
    let mut out = String::from_str("Disassembly of `");
    out.append(file);
    out.append("`\n");
    print_header(bin, &mut out);
    print_symbol_table(bin, &mut out);
    print_sections(bin, &mut out);
    out
}

/// Appends the first line of a disassembly.
pub fn print_header(bin: &RcxBin, out: &mut String)
    ensures
        final(out)@ == old(out)@ + header_text(bin@),
{
    let mut line = lossy_text(bin.signature.as_slice());
    line.append(" version ");
    push_hex(&mut line, bin.version as usize);
    line.append(" targeting ");
    let target = bin.target_type.to_string();
    line.append(target.as_str());
    line.append("\n");
    out.append(line.as_str());
}

/// Renders the lines of a symbol table.
fn symbol_lines_string(symbols: &Vec<Symbol>) -> (out: String)
    ensures
        out@ == symbol_lines(symbol_views(symbols@)),
{
    let ghost views = symbol_views(symbols@);
    let mut out = String::new();
    let mut i: usize = 0;
    assert(views.take(0) =~= Seq::<SymbolView>::empty());
    while i < symbols.len()
        invariant
            i <= symbols@.len(),
            views == symbol_views(symbols@),
            out@ == symbol_lines(views.take(i as int)),
        decreases symbols@.len() - i,
    {
        proof {
            let next = views.take(i + 1);
            assert(next.drop_last() =~= views.take(i as int));
            assert(next.last() == symbols@[i as int]@);
        }
        let symbol = &symbols[i];
        out.append("  ");
        let ty = symbol.ty.to_string();
        out.append(ty.as_str());
        out.append(" ");
        push_decimal(&mut out, symbol.index as usize);
        out.append(" ");
        push_quoted(&mut out, symbol.name.as_slice());
        out.append("\n");
        i += 1;
    }
    assert(views.take(i as int) =~= views);
    out
}

/// Appends the symbol table of a disassembly.
pub fn print_symbol_table(bin: &RcxBin, out: &mut String)
    ensures
        final(out)@ == old(out)@ + symbol_table_text(bin@),
{
    let mut table = String::from_str(".SYMBOLS:\n");
    let lines = symbol_lines_string(&bin.symbols);
    table.append(lines.as_str());
    out.append(table.as_str());
}

/// Appends the parts of a disassembly for the sections.
pub fn print_sections(bin: &RcxBin, out: &mut String)
    ensures
        final(out)@ == old(out)@ + sections_text(bin@.sections, bin@.symbols),
{
    let ghost sections = bin@.sections;
    let mut body = String::new();
    let mut i: usize = 0;
    assert(sections.take(0) =~= Seq::<SectionView>::empty());
    while i < bin.sections.len()
        invariant
            i <= bin.sections@.len(),
            sections == bin@.sections,
            body@ == sections_text(sections.take(i as int), bin@.symbols),
        decreases bin.sections@.len() - i,
    {
        proof {
            let next = sections.take(i + 1);
            assert(next.drop_last() =~= sections.take(i as int));
            assert(next.last() == bin.sections@[i as int]@);
        }
        print_section(&bin.sections[i], bin, &mut body);
        i += 1;
    }
    assert(sections.take(i as int) =~= sections);
    out.append(body.as_str());
}

/// Finds the first symbol of a type and an index.
fn find_symbol(symbols: &Vec<Symbol>, ty: SymbolType, index: u8) -> (r: Option<usize>)
    ensures
        match r {
            Some(i) => i < symbols@.len() && first_symbol(symbol_views(symbols@), ty, index, 0)
                == Some(symbols@[i as int]@),
            None => first_symbol(symbol_views(symbols@), ty, index, 0) is None,
        },
{
    let ghost views = symbol_views(symbols@);
    let mut i: usize = 0;
    while i < symbols.len()
        invariant
            i <= symbols@.len(),
            views == symbol_views(symbols@),
            first_symbol(views, ty, index, 0) == first_symbol(views, ty, index, i as int),
        decreases symbols@.len() - i,
    {
        assert(views[i as int] == symbols@[i as int]@);
        if symbols[i].ty == ty && symbols[i].index == index {
            return Some(i);
        }
        i += 1;
    }
    None
}

/// Renders the part of a disassembly for one section.
fn section_string(section: &Section, bin: &RcxBin) -> (out: String)
    ensures
        out@ == section_text(section@, bin@.symbols),
{
    let found = match section.ty {
        SectionType::Task => find_symbol(&bin.symbols, SymbolType::Task, section.number),
        SectionType::Subroutine => find_symbol(&bin.symbols, SymbolType::Sub, section.number),
        _ => None,
    };
    let mut out = String::from_str("\n.SECTION ");
    match found {
        Some(i) => {
            push_quoted(&mut out, bin.symbols[i].name.as_slice());
        },
        None => {},
    }
    out.append("\n");
    match section.ty {
        SectionType::Task => {
            let listing = disasm_code_section(section.data.as_slice());
            let lines = listing_string(&listing);
            out.append(lines.as_str());
        },
        SectionType::Subroutine => {
            let listing = disasm_code_section(section.data.as_slice());
            let lines = listing_string(&listing);
            out.append(lines.as_str());
        },
        _ => {},
    }
    out
}

/// Appends the part of a disassembly for one section.
pub fn print_section(section: &Section, bin: &RcxBin, out: &mut String)
    ensures
        final(out)@ == old(out)@ + section_text(section@, bin@.symbols),
{
    let text = section_string(section, bin);
    out.append(text.as_str());
}

} // verus!
