//! Linear memory: little-endian reads and writes of up to eight bytes.
use vstd::prelude::*;
use crate::instr::{load_width, store_width, LoadKind, StoreKind};
use crate::value::{unary_spec, execute_unary_op, UnaryOp};

verus! {

/// The size of a page of linear memory in bytes.
pub const PAGE_SIZE: u64 = 65536;

/// `256^n`.
pub open spec fn pow256(n: nat) -> nat
    decreases n,
{
    if n == 0 {
        1
    } else {
        256 * pow256((n - 1) as nat)
    }
}

/// The number whose little-endian encoding is the `n` bytes of `mem` from `at` on.
pub open spec fn le_value(mem: Seq<u8>, at: int, n: nat) -> nat
    decreases n,
{
    if n == 0 {
        0
    } else {
        mem[at] as nat + 256 * le_value(mem, at + 1, (n - 1) as nat)
    }
}

/// Byte `k` of the little-endian encoding of `v`.
pub open spec fn le_byte(v: u64, k: nat) -> u8 {
    ((v as nat / pow256(k)) % 256) as u8
}

/// `mem` with its `n` bytes from `at` on replaced by the low `n` bytes of `v`,
/// least significant first.
pub open spec fn store_spec(mem: Seq<u8>, at: int, v: u64, n: nat) -> Seq<u8> {
    Seq::new(mem.len(), |j: int| if at <= j < at + n { le_byte(v, (j - at) as nat) } else { mem[j] })
}

/// The cell a load writes, given the number `raw` that its bytes encode.
pub open spec fn load_extend(kind: LoadKind, raw: u64) -> u64 {
    match kind {
        LoadKind::I32From8S => unary_spec(UnaryOp::I32Extend8S, raw),
        LoadKind::I32From16S => unary_spec(UnaryOp::I32Extend16S, raw),
        LoadKind::I64From8S => unary_spec(UnaryOp::I64Extend8S, raw),
        LoadKind::I64From16S => unary_spec(UnaryOp::I64Extend16S, raw),
        LoadKind::I64From32S => unary_spec(UnaryOp::I64Extend32S, raw),
        _ => raw,
    }
}

/// The effective address `ptr + offset` of an access of `width` bytes is in bounds.
pub open spec fn access_ok(mem_len: nat, address: int, width: nat) -> bool {
    address + width <= mem_len
}

/// What a load of `kind` at `address` yields.
pub open spec fn load_spec(mem: Seq<u8>, kind: LoadKind, address: int) -> u64 {
    load_extend(kind, le_value(mem, address, load_width(kind)) as u64)
}

/// What a store of `kind` of cell `v` at `address` leaves in memory.
pub open spec fn store_kind_spec(mem: Seq<u8>, kind: StoreKind, address: int, v: u64) -> Seq<u8> {
    store_spec(mem, address, v, store_width(kind))
}

proof fn lemma_pow256_mono(a: nat, b: nat)
    requires
        a <= b,
    ensures
        1 <= pow256(a) <= pow256(b),
    decreases b,
{
    if a < b {
        lemma_pow256_mono(a, (b - 1) as nat);
    } else if a > 0 {
        lemma_pow256_mono((a - 1) as nat, (a - 1) as nat);
    }
}

proof fn lemma_pow256_8()
    ensures
        pow256(8) == 0x1_0000_0000_0000_0000,
{
    reveal_with_fuel(pow256, 9);
}

/// Reads `n` bytes of `mem` from `at` on as a little-endian number.
pub fn read_le(mem: &Vec<u8>, at: usize, n: usize) -> (r: u64)
    requires
        n <= 8,
        at + n <= mem.len(),
    ensures
        r as nat == le_value(mem@, at as int, n as nat),
{
    let mut v: u64 = 0;
    let mut i: usize = n;
    while i > 0
        invariant
            i <= n <= 8,
            at + n <= mem.len(),
            v as nat == le_value(mem@, at + i, (n - i) as nat),
            v < pow256((n - i) as nat),
        decreases i,
    {
        i = i - 1;
        proof {
            lemma_pow256_mono((n - i) as nat, 8);
            lemma_pow256_8();
        }
        v = v * 256 + mem[at + i] as u64;
    }
    v
}

/// Writes the low `n` bytes of `v` into `mem` from `at` on, least significant first.
pub fn write_le(mem: &mut Vec<u8>, at: usize, v: u64, n: usize)
    requires
        n <= 8,
        at + n <= old(mem).len(),
    ensures
        final(mem)@ == store_spec(old(mem)@, at as int, v, n as nat),
{
    let mut w: u64 = v;
    let mut i: usize = 0;
    assert(pow256(0) == 1);
    assert(v as nat / 1 == v as nat);
    while i < n
        invariant
            i <= n <= 8,
            at + n <= mem.len(),
            mem@.len() == old(mem)@.len(),
            w as nat == v as nat / pow256(i as nat),
            forall|j: int|
                0 <= j < mem@.len() ==> #[trigger] mem@[j] == if at <= j < at + i {
                    le_byte(v, (j - at) as nat)
                } else {
                    old(mem)@[j]
                },
        decreases n - i,
    {
        assert(w & 0xff == w % 256 && w >> 8 == w / 256) by (bit_vector);
        proof {
            lemma_pow256_mono(i as nat, i as nat);
            vstd::arithmetic::div_mod::lemma_div_denominator(v as int, pow256(i as nat) as int, 256);
            assert(pow256((i + 1) as nat) == pow256(i as nat) * 256);
        }
        mem.set(at + i, (w & 0xff) as u8);
        w = w >> 8;
        i = i + 1;
    }
    assert(mem@ =~= store_spec(old(mem)@, at as int, v, n as nat));
}

/// `mem` with `n` bytes from `at` on set to `byte`.
pub open spec fn fill_spec(mem: Seq<u8>, at: int, n: int, byte: u8) -> Seq<u8> {
    Seq::new(mem.len(), |j: int| if at <= j < at + n { byte } else { mem[j] })
}

/// `mem` with the `n` bytes from `src` on copied to `dst`, as through a buffer.
pub open spec fn copy_bytes_spec(mem: Seq<u8>, dst: int, src: int, n: int) -> Seq<u8> {
    Seq::new(mem.len(), |j: int| if dst <= j < dst + n { mem[src + j - dst] } else { mem[j] })
}

/// Sets `n` bytes of `mem` from `at` on to `byte`.
pub fn fill(mem: &mut Vec<u8>, at: usize, n: usize, byte: u8)
    requires
        at + n <= old(mem).len(),
    ensures
        final(mem)@ == fill_spec(old(mem)@, at as int, n as int, byte),
{
    let mut i: usize = 0;
    while i < n
        invariant
            i <= n,
            at + n <= mem.len(),
            mem@.len() == old(mem)@.len(),
            forall|j: int|
                0 <= j < mem@.len() ==> #[trigger] mem@[j] == if at <= j < at + i {
                    byte
                } else {
                    old(mem)@[j]
                },
        decreases n - i,
    {
        mem.set(at + i, byte);
        i = i + 1;
    }
    assert(mem@ =~= fill_spec(old(mem)@, at as int, n as int, byte));
}

/// Copies `n` bytes of `mem` from `src` to `dst`; the ranges may overlap.
pub fn copy_within(mem: &mut Vec<u8>, dst: usize, src: usize, n: usize)
    requires
        dst + n <= old(mem).len(),
        src + n <= old(mem).len(),
    ensures
        final(mem)@ == copy_bytes_spec(old(mem)@, dst as int, src as int, n as int),
{
    let mut buffer: Vec<u8> = Vec::new();
    let mut i: usize = 0;
    while i < n
        invariant
            i <= n,
            src + n <= mem.len(),
            mem@ == old(mem)@,
            buffer@ =~= mem@.subrange(src as int, src + i),
        decreases n - i,
    {
        buffer.push(mem[src + i]);
        i = i + 1;
    }
    let mut k: usize = 0;
    while k < n
        invariant
            k <= n,
            dst + n <= mem.len(),
            src + n <= old(mem)@.len(),
            mem@.len() == old(mem)@.len(),
            buffer@ =~= old(mem)@.subrange(src as int, src + n),
            forall|j: int|
                0 <= j < mem@.len() ==> #[trigger] mem@[j] == if dst <= j < dst + k {
                    old(mem)@[src + j - dst]
                } else {
                    old(mem)@[j]
                },
        decreases n - k,
    {
        mem.set(dst + k, buffer[k]);
        k = k + 1;
    }
    assert(mem@ =~= copy_bytes_spec(old(mem)@, dst as int, src as int, n as int));
}

/// `v` with `n` cells from `at` on set to `x`.
pub open spec fn fill_seq<T>(v: Seq<T>, at: int, n: int, x: T) -> Seq<T> {
    Seq::new(v.len(), |j: int| if at <= j < at + n { x } else { v[j] })
}

/// `v` with the `n` cells of `src` from `from` on written from `at` on.
pub open spec fn write_seq<T>(v: Seq<T>, at: int, src: Seq<T>, from: int, n: int) -> Seq<T> {
    Seq::new(v.len(), |j: int| if at <= j < at + n { src[from + j - at] } else { v[j] })
}

/// Sets `n` cells of `v` from `at` on to `x`.
pub fn fill_cells<T: Copy>(v: &mut Vec<T>, at: usize, n: usize, x: T)
    requires
        at + n <= old(v).len(),
    ensures
        final(v)@ == fill_seq(old(v)@, at as int, n as int, x),
{
    let mut i: usize = 0;
    while i < n
        invariant
            i <= n,
            at + n <= v.len(),
            v@.len() == old(v)@.len(),
            forall|j: int|
                0 <= j < v@.len() ==> #[trigger] v@[j] == if at <= j < at + i {
                    x
                } else {
                    old(v)@[j]
                },
        decreases n - i,
    {
        v.set(at + i, x);
        i = i + 1;
    }
    assert(v@ =~= fill_seq(old(v)@, at as int, n as int, x));
}

/// Writes the `n` cells of `src` from `from` on into `v` from `at` on.
pub fn write_cells<T: Copy>(v: &mut Vec<T>, at: usize, src: &Vec<T>, from: usize, n: usize)
    requires
        at + n <= old(v).len(),
        from + n <= src.len(),
    ensures
        final(v)@ == write_seq(old(v)@, at as int, src@, from as int, n as int),
{
    let mut i: usize = 0;
    while i < n
        invariant
            i <= n,
            at + n <= v.len(),
            from + n <= src.len(),
            v@.len() == old(v)@.len(),
            forall|j: int|
                0 <= j < v@.len() ==> #[trigger] v@[j] == if at <= j < at + i {
                    src@[from + j - at]
                } else {
                    old(v)@[j]
                },
        decreases n - i,
    {
        v.set(at + i, src[from + i]);
        i = i + 1;
    }
    assert(v@ =~= write_seq(old(v)@, at as int, src@, from as int, n as int));
}

/// Copies `n` cells of `v` from `from` on to `at` on, as through a buffer.
pub fn copy_cells<T: Copy>(v: &mut Vec<T>, at: usize, from: usize, n: usize)
    requires
        at + n <= old(v).len(),
        from + n <= old(v).len(),
    ensures
        final(v)@ == write_seq(old(v)@, at as int, old(v)@, from as int, n as int),
{
    let mut buffer: Vec<T> = Vec::new();
    let mut i: usize = 0;
    while i < n
        invariant
            i <= n,
            from + n <= v.len(),
            v@ == old(v)@,
            buffer@ =~= v@.subrange(from as int, from + i),
        decreases n - i,
    {
        buffer.push(v[from + i]);
        i = i + 1;
    }
    write_cells(v, at, &buffer, 0, n);
    assert(write_seq(old(v)@, at as int, buffer@, 0, n as int) =~= write_seq(
        old(v)@,
        at as int,
        old(v)@,
        from as int,
        n as int,
    ));
}

/// Loads a value of `kind` from `address`, which must be in bounds.
pub fn load(mem: &Vec<u8>, kind: LoadKind, address: usize) -> (r: u64)
    requires
        address + load_width(kind) <= mem@.len(),
    ensures
        r == load_spec(mem@, kind, address as int),
{
    let raw = read_le(mem, address, kind.width() as usize);
    match kind {
        LoadKind::I32From8S => execute_unary_op(UnaryOp::I32Extend8S, raw),
        LoadKind::I32From16S => execute_unary_op(UnaryOp::I32Extend16S, raw),
        LoadKind::I64From8S => execute_unary_op(UnaryOp::I64Extend8S, raw),
        LoadKind::I64From16S => execute_unary_op(UnaryOp::I64Extend16S, raw),
        LoadKind::I64From32S => execute_unary_op(UnaryOp::I64Extend32S, raw),
        _ => raw,
    }
}

/// Stores the low bytes of `v` that `kind` asks for at `address`, which must be in bounds.
pub fn store(mem: &mut Vec<u8>, kind: StoreKind, address: usize, v: u64)
    requires
        address + store_width(kind) <= old(mem)@.len(),
    ensures
        final(mem)@ == store_kind_spec(old(mem)@, kind, address as int, v),
{
    write_le(mem, address, v, kind.width() as usize);
}

} // verus!
