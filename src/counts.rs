//! Per-kind counts of executed instructions.
use vstd::prelude::*;
use crate::instr::Instruction;

verus! {

/// The number of kinds of instruction.
pub const NUM_INSTRUCTION_KINDS: usize = 55;

/// The position of an instruction's kind in [`InstructionCounts`].
pub open spec fn kind_index(instr: Instruction) -> nat {
    match instr {
        Instruction::Const32 { .. } => 0,
        Instruction::Trap { .. } => 1,
        Instruction::ConsumeFuel { .. } => 2,
        Instruction::Return => 3,
        Instruction::ReturnReg { .. } => 4,
        Instruction::ReturnImm32 { .. } => 5,
        Instruction::ReturnSpan { .. } => 6,
        Instruction::ReturnNez { .. } => 7,
        Instruction::ReturnNezReg { .. } => 8,
        Instruction::Branch { .. } => 9,
        Instruction::BranchTable { .. } => 10,
        Instruction::BranchCmp { .. } => 11,
        Instruction::BranchCmpImm { .. } => 12,
        Instruction::Copy { .. } => 13,
        Instruction::CopyImm32 { .. } => 14,
        Instruction::CopyI64Imm32 { .. } => 15,
        Instruction::CopySpan { .. } => 16,
        Instruction::CopySpanNonOverlapping { .. } => 17,
        Instruction::Select { .. } => 18,
        Instruction::Unary { .. } => 19,
        Instruction::Binary { .. } => 20,
        Instruction::BinaryImm16 { .. } => 21,
        Instruction::BinaryImm16Lhs { .. } => 22,
        Instruction::Load { .. } => 23,
        Instruction::Store { .. } => 24,
        Instruction::MemorySize { .. } => 25,
        Instruction::MemoryGrow { .. } => 26,
        Instruction::GlobalGet { .. } => 27,
        Instruction::GlobalSet { .. } => 28,
        Instruction::RefFunc { .. } => 29,
        Instruction::Call { .. } => 30,
        Instruction::CallIndirect { .. } => 31,
        Instruction::Truncate { .. } => 32,
        Instruction::TruncateSat { .. } => 33,
        Instruction::ReturnCall { .. } => 34,
        Instruction::FloatUnary { .. } => 35,
        Instruction::FloatBinary { .. } => 36,
        Instruction::ReturnNezSpan { .. } => 37,
        Instruction::MemoryFill { .. } => 38,
        Instruction::MemoryCopy { .. } => 39,
        Instruction::TableGet { .. } => 40,
        Instruction::TableSet { .. } => 41,
        Instruction::TableSize { .. } => 42,
        Instruction::MemoryInit { .. } => 43,
        Instruction::DataDrop { .. } => 44,
        Instruction::GlobalSetImm16 { .. } => 45,
        Instruction::ReturnCallIndirect { .. } => 46,
        Instruction::TableGrow { .. } => 47,
        Instruction::TableFill { .. } => 48,
        Instruction::TableCopy { .. } => 49,
        Instruction::TableInit { .. } => 50,
        Instruction::ElemDrop { .. } => 51,
        Instruction::BranchNezCopy { .. } => 52,
        Instruction::BranchNezCopyImm32 { .. } => 53,
        Instruction::ReturnI64Imm32 { .. } => 54,
    }
}

/// Returns the position [`kind_index`] gives `instr`.
pub fn instruction_kind(instr: &Instruction) -> (r: usize)
    ensures
        r == kind_index(*instr),
        r < NUM_INSTRUCTION_KINDS,
{
    match instr {
        Instruction::Const32 { .. } => 0,
        Instruction::Trap { .. } => 1,
        Instruction::ConsumeFuel { .. } => 2,
        Instruction::Return => 3,
        Instruction::ReturnReg { .. } => 4,
        Instruction::ReturnImm32 { .. } => 5,
        Instruction::ReturnSpan { .. } => 6,
        Instruction::ReturnNez { .. } => 7,
        Instruction::ReturnNezReg { .. } => 8,
        Instruction::Branch { .. } => 9,
        Instruction::BranchTable { .. } => 10,
        Instruction::BranchCmp { .. } => 11,
        Instruction::BranchCmpImm { .. } => 12,
        Instruction::Copy { .. } => 13,
        Instruction::CopyImm32 { .. } => 14,
        Instruction::CopyI64Imm32 { .. } => 15,
        Instruction::CopySpan { .. } => 16,
        Instruction::CopySpanNonOverlapping { .. } => 17,
        Instruction::Select { .. } => 18,
        Instruction::Unary { .. } => 19,
        Instruction::Binary { .. } => 20,
        Instruction::BinaryImm16 { .. } => 21,
        Instruction::BinaryImm16Lhs { .. } => 22,
        Instruction::Load { .. } => 23,
        Instruction::Store { .. } => 24,
        Instruction::MemorySize { .. } => 25,
        Instruction::MemoryGrow { .. } => 26,
        Instruction::GlobalGet { .. } => 27,
        Instruction::GlobalSet { .. } => 28,
        Instruction::RefFunc { .. } => 29,
        Instruction::Call { .. } => 30,
        Instruction::CallIndirect { .. } => 31,
        Instruction::Truncate { .. } => 32,
        Instruction::TruncateSat { .. } => 33,
        Instruction::ReturnCall { .. } => 34,
        Instruction::FloatUnary { .. } => 35,
        Instruction::FloatBinary { .. } => 36,
        Instruction::ReturnNezSpan { .. } => 37,
        Instruction::MemoryFill { .. } => 38,
        Instruction::MemoryCopy { .. } => 39,
        Instruction::TableGet { .. } => 40,
        Instruction::TableSet { .. } => 41,
        Instruction::TableSize { .. } => 42,
        Instruction::MemoryInit { .. } => 43,
        Instruction::DataDrop { .. } => 44,
        Instruction::GlobalSetImm16 { .. } => 45,
        Instruction::ReturnCallIndirect { .. } => 46,
        Instruction::TableGrow { .. } => 47,
        Instruction::TableFill { .. } => 48,
        Instruction::TableCopy { .. } => 49,
        Instruction::TableInit { .. } => 50,
        Instruction::ElemDrop { .. } => 51,
        Instruction::BranchNezCopy { .. } => 52,
        Instruction::BranchNezCopyImm32 { .. } => 53,
        Instruction::ReturnI64Imm32 { .. } => 54,
    }
}

/// Each pair holds a kind and that kind's count.
pub open spec fn entries_ok(r: Seq<(usize, usize)>, counts: Seq<usize>) -> bool {
    forall|a: int|
        0 <= a < r.len() ==> r[a].0 < NUM_INSTRUCTION_KINDS && r[a].1 == counts[r[a].0 as int]
}

/// No kind appears twice.
pub open spec fn distinct_kinds(r: Seq<(usize, usize)>) -> bool {
    forall|a: int, b: int| 0 <= a < b < r.len() ==> r[a].0 != r[b].0
}

/// Some pair holds kind `k`.
pub open spec fn has_kind(r: Seq<(usize, usize)>, k: usize) -> bool {
    exists|a: int| 0 <= a < r.len() && r[a].0 == k
}

/// `x` comes no later than `y`: a smaller count, or an equal one and a smaller kind.
pub open spec fn entry_before(x: (usize, usize), y: (usize, usize)) -> bool {
    x.1 < y.1 || (x.1 == y.1 && x.0 <= y.0)
}

/// Ordered by count, ties by kind.
pub open spec fn by_count_then_kind(r: Seq<(usize, usize)>) -> bool {
    forall|a: int, b: int| 0 <= a < b < r.len() ==> entry_before(r[a], r[b])
}

/// How often each kind of instruction was seen.
pub struct InstructionCounts {
    /// The count of each kind, by [`kind_index`].
    pub counts: Vec<usize>,
}

impl InstructionCounts {
    pub open spec fn wf(&self) -> bool {
        self.counts@.len() == NUM_INSTRUCTION_KINDS
    }

    /// All counts at zero.
    pub fn new() -> (r: InstructionCounts)
        ensures
            r.wf(),
            forall|k: int| 0 <= k < NUM_INSTRUCTION_KINDS ==> r.counts@[k] == 0,
    {
        let mut counts: Vec<usize> = Vec::new();
        let mut i: usize = 0;
        while i < NUM_INSTRUCTION_KINDS
            invariant
                i <= NUM_INSTRUCTION_KINDS,
                counts@.len() == i,
                forall|k: int| 0 <= k < i ==> counts@[k] == 0,
            decreases NUM_INSTRUCTION_KINDS - i,
        {
            counts.push(0);
            i = i + 1;
        }
        InstructionCounts { counts }
    }

    /// Counts one more instruction of the kind of `instr`.
    pub fn bump(&mut self, instr: &Instruction)
        requires
            old(self).wf(),
            old(self).counts@[kind_index(*instr) as int] < usize::MAX,
        ensures
            final(self).wf(),
            final(self).counts@ == old(self).counts@.update(
                kind_index(*instr) as int,
                (old(self).counts@[kind_index(*instr) as int] + 1) as usize,
            ),
    {
        let k = instruction_kind(instr);
        let c = self.counts[k];
        self.counts.set(k, c + 1);
    }

    /// Sorts kind and count pairs by count, ties by kind.
    fn sort_entries(&self, r: &mut Vec<(usize, usize)>)
        requires
            self.wf(),
            entries_ok(old(r)@, self.counts@),
            distinct_kinds(old(r)@),
        ensures
            final(r)@.len() == old(r)@.len(),
            entries_ok(final(r)@, self.counts@),
            distinct_kinds(final(r)@),
            by_count_then_kind(final(r)@),
            forall|k: usize| has_kind(old(r)@, k) == has_kind(final(r)@, k),
    {
        let n = r.len();
        let ghost orig = r@;
        let mut i: usize = 1;
        while i < n
            invariant
                self.wf(),
                n == r@.len() == orig.len(),
                1 <= i <= n || n == 0,
                forall|a: int, b: int| 0 <= a < b < i ==> entry_before(r@[a], r@[b]),
                entries_ok(r@, self.counts@),
                distinct_kinds(r@),
                forall|k: usize| has_kind(orig, k) == has_kind(r@, k),
            decreases n - i,
        {
            let mut j: usize = i;
            while j > 0 && (r[j - 1].1 > r[j].1 || (r[j - 1].1 == r[j].1 && r[j - 1].0 > r[j].0))
                invariant
                    self.wf(),
                    n == r@.len() == orig.len(),
                    0 <= j <= i < n,
                    forall|a: int, b: int|
                        0 <= a < b <= i && a != j && b != j ==> entry_before(r@[a], r@[b]),
                    forall|b: int| j < b <= i ==> entry_before(r@[j as int], r@[b]),
                    entries_ok(r@, self.counts@),
                    distinct_kinds(r@),
                    forall|k: usize| has_kind(orig, k) == has_kind(r@, k),
                decreases j,
            {
                let lower = r[j - 1];
                let upper = r[j];
                let ghost before = r@;
                r.set(j - 1, upper);
                r.set(j, lower);
                assert forall|k: usize| has_kind(before, k) == has_kind(r@, k) by {
                    if has_kind(before, k) {
                        let a = choose|a: int| 0 <= a < before.len() && before[a].0 == k;
                        let w = if a == j - 1 { j as int } else if a == j { j - 1 } else { a };
                        assert(r@[w].0 == k);
                    }
                    if has_kind(r@, k) {
                        let a = choose|a: int| 0 <= a < r@.len() && r@[a].0 == k;
                        let w = if a == j - 1 { j as int } else if a == j { j - 1 } else { a };
                        assert(before[w].0 == k);
                    }
                }
                j = j - 1;
            }
            assert forall|a: int, b: int| 0 <= a < b <= i implies entry_before(r@[a], r@[b]) by {
                if b == j && a + 1 < j {
                    assert(entry_before(r@[a], r@[j - 1]));
                    assert(entry_before(r@[j - 1], r@[j as int]));
                }
            }
            i = i + 1;
        }
    }

    /// Every kind with its count, fewest first; equal counts in kind order.
    pub fn sorted_by_count(&self) -> (r: Vec<(usize, usize)>)
        requires
            self.wf(),
        ensures
            r@.len() == NUM_INSTRUCTION_KINDS,
            by_count_then_kind(r@),
            entries_ok(r@, self.counts@),
            distinct_kinds(r@),
            forall|k: usize| k < NUM_INSTRUCTION_KINDS ==> has_kind(r@, k),
    {
        let mut r: Vec<(usize, usize)> = Vec::new();
        let mut k: usize = 0;
        while k < NUM_INSTRUCTION_KINDS
            invariant
                self.wf(),
                k <= NUM_INSTRUCTION_KINDS,
                r@.len() == k,
                forall|a: int| 0 <= a < k ==> r@[a] == (a as usize, self.counts@[a]),
            decreases NUM_INSTRUCTION_KINDS - k,
        {
            r.push((k, self.counts[k]));
            k = k + 1;
        }
        assert forall|k: usize| k < NUM_INSTRUCTION_KINDS implies has_kind(r@, k) by {
            assert(r@[k as int].0 == k);
        }
        self.sort_entries(&mut r);
        r
    }

    /// The kinds that were counted at least once, with their counts, fewest
    /// first; equal counts in kind order.
    pub fn nonzero_by_count(&self) -> (r: Vec<(usize, usize)>)
        requires
            self.wf(),
        ensures
            by_count_then_kind(r@),
            entries_ok(r@, self.counts@),
            distinct_kinds(r@),
            forall|a: int| 0 <= a < r@.len() ==> r@[a].1 > 0,
            forall|k: usize| k < NUM_INSTRUCTION_KINDS && self.counts@[k as int] > 0 ==> has_kind(r@, k),
    {
        let mut r: Vec<(usize, usize)> = Vec::new();
        let mut k: usize = 0;
        while k < NUM_INSTRUCTION_KINDS
            invariant
                self.wf(),
                k <= NUM_INSTRUCTION_KINDS,
                entries_ok(r@, self.counts@),
                forall|a: int| 0 <= a < r@.len() ==> r@[a].1 > 0 && r@[a].0 < k,
                forall|a: int, b: int| 0 <= a < b < r@.len() ==> r@[a].0 < r@[b].0,
                forall|j: usize| j < k && self.counts@[j as int] > 0 ==> has_kind(r@, j),
            decreases NUM_INSTRUCTION_KINDS - k,
        {
            let c = self.counts[k];
            if c > 0 {
                let ghost before = r@;
                assert forall|j: usize| j < k && self.counts@[j as int] > 0 implies has_kind(before, j) by {
                    assert(has_kind(r@, j));
                }
                r.push((k, c));
                assert forall|j: usize| j <= k && self.counts@[j as int] > 0 implies has_kind(r@, j) by {
                    if j < k {
                        assert(has_kind(before, j));
                        let a = choose|a: int| 0 <= a < before.len() && before[a].0 == j;
                        assert(r@[a].0 == j);
                    } else {
                        assert(r@[before.len() as int].0 == j);
                    }
                }
            }
            k = k + 1;
        }
        let ghost unsorted = r@;
        self.sort_entries(&mut r);
        assert forall|a: int| 0 <= a < r@.len() implies r@[a].1 > 0 by {
            let k = r@[a].0;
            assert(has_kind(r@, k));
            let b = choose|b: int| 0 <= b < unsorted.len() && unsorted[b].0 == k;
            assert(unsorted[b].1 == self.counts@[k as int]);
        }
        r
    }

    /// How many instructions of the kind of `instr` were counted.
    pub fn count_of(&self, instr: &Instruction) -> (r: usize)
        requires
            self.wf(),
        ensures
            r == self.counts@[kind_index(*instr) as int],
    {
        self.counts[instruction_kind(instr)]
    }
}

} // verus!
