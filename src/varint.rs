//! Variable-length integers: seven data bits per byte, least significant
//! group first, high bit set on every byte but the last.
use vstd::prelude::*;

verus! {

/// The largest number of bytes a 32-bit variable-length integer may take.
pub const VAR_INT_MAX_BYTES: usize = 5;

/// The bytes that encode the unsigned value `v`.
pub open spec fn var_int_spec(v: nat) -> Seq<u8>
    decreases v,
{
    if v < 128 {
        seq![v as u8]
    } else {
        seq![(v % 128 + 128) as u8] + var_int_spec(v / 128)
    }
}

/// Outcome of reading a variable-length integer.
pub enum VarIntRead {
    /// The value read and the number of bytes it took.
    Done(int, nat),
    /// The buffer ended before the terminating byte.
    End,
    /// No terminating byte within the allowed number of bytes.
    TooLong,
}

/// Reads a variable-length integer at `i` using at most `budget` bytes.
pub open spec fn var_int_read(s: Seq<u8>, i: int, budget: nat) -> VarIntRead
    decreases budget,
{
    if budget == 0 {
        VarIntRead::TooLong
    } else if i < 0 || i >= s.len() {
        VarIntRead::End
    } else if s[i] < 128 {
        VarIntRead::Done(s[i] as int, 1)
    } else {
        match var_int_read(s, i + 1, (budget - 1) as nat) {
            VarIntRead::Done(v, n) => VarIntRead::Done(s[i] - 128 + 128 * v, n + 1),
            r => r,
        }
    }
}

/// How a 32-bit variable-length integer is read from `s` at `i`.
pub open spec fn var_int_decode_spec(s: Seq<u8>, i: int) -> VarIntRead {
    var_int_read(s, i, VAR_INT_MAX_BYTES as nat)
}

/// Why a variable-length integer could not be read.
#[derive(Debug, Clone, Copy, PartialEq, Eq, Structural)]
pub enum VarIntError {
    /// The input ended before the last byte of the integer.
    UnexpectedEnd,
    /// More than five bytes without a terminating byte.
    TooLong,
}

pub open spec fn pow128(k: nat) -> nat
    decreases k,
{
    if k == 0 {
        1
    } else {
        128 * pow128((k - 1) as nat)
    }
}

proof fn lemma_var_int_len(v: nat, k: nat)
    requires
        v < pow128(k),
        k >= 1,
    ensures
        var_int_spec(v).len() <= k,
    decreases v,
{
    if v >= 128 {
        if k == 1 {
            assert(pow128(1) == 128) by {
                reveal_with_fuel(pow128, 2);
            }
        } else {
            assert(pow128(k) == 128 * pow128((k - 1) as nat));
            assert(v / 128 < pow128((k - 1) as nat)) by (nonlinear_arith)
                requires
                    v < 128 * pow128((k - 1) as nat),
            ;
            lemma_var_int_len(v / 128, (k - 1) as nat);
        }
    }
}

/// A 32-bit value takes at most five bytes.
pub proof fn lemma_var_int_u32_len(v: u32)
    ensures
        1 <= var_int_spec(v as nat).len() <= VAR_INT_MAX_BYTES,
{
    reveal_with_fuel(pow128, 6);
    lemma_var_int_len(v as nat, 5);
    lemma_var_int_nonempty(v as nat);
}

proof fn lemma_var_int_nonempty(v: nat)
    ensures
        var_int_spec(v).len() >= 1,
    decreases v,
{
    if v >= 128 {
        lemma_var_int_nonempty(v / 128);
    }
}

/// Reading back the bytes of `var_int_spec(v)`, wherever they stand, gives `v`.
pub proof fn lemma_var_int_read_encoded(v: nat, s: Seq<u8>, i: int, budget: nat)
    requires
        0 <= i,
        i + var_int_spec(v).len() <= s.len(),
        s.subrange(i, i + var_int_spec(v).len()) == var_int_spec(v),
        budget >= var_int_spec(v).len(),
    ensures
        var_int_read(s, i, budget) == VarIntRead::Done(v as int, var_int_spec(v).len()),
    decreases v,
{
    let e = var_int_spec(v);
    assert(s[i] == e[0]) by {
        assert(s.subrange(i, i + e.len())[0] == s[i]);
    }
    if v >= 128 {
        let t = var_int_spec(v / 128);
        assert(e == seq![(v % 128 + 128) as u8] + t);
        assert(s.subrange(i + 1, i + 1 + t.len()) =~= t) by {
            assert forall|j: int| 0 <= j < t.len() implies s.subrange(i + 1, i + 1 + t.len())[j]
                == t[j] by {
                assert(s.subrange(i, i + e.len())[j + 1] == e[j + 1]);
            }
        }
        lemma_var_int_read_encoded(v / 128, s, i + 1, (budget - 1) as nat);
        assert((v % 128 + 128) as u8 == v % 128 + 128);
    } else {
        assert(e == seq![v as u8]);
    }
}

/// Every 32-bit value, written with `encode_var_int` into a buffer at
/// position `i`, is read back by `decode_var_int` at `i` as the same value,
/// taking exactly the bytes that were written.
pub proof fn lemma_var_int_round_trip(value: i32, s: Seq<u8>, i: int)
    requires
        0 <= i,
        i + var_int_spec(value as u32 as nat).len() <= s.len(),
        s.subrange(i, i + var_int_spec(value as u32 as nat).len()) == var_int_spec(
            value as u32 as nat,
        ),
    ensures
        var_int_decode_spec(s, i) == VarIntRead::Done(
            value as u32 as int,
            var_int_spec(value as u32 as nat).len(),
        ),
        (value as u32 as int) as u32 as i32 == value,
{
    lemma_var_int_u32_len(value as u32);
    lemma_var_int_read_encoded(value as u32 as nat, s, i, VAR_INT_MAX_BYTES as nat);
    let u = value as u32;
    assert(u as i32 == value) by (bit_vector)
        requires
            u == value as u32,
    ;
}

/// Five bytes that all carry the continuation bit are rejected as too long.
pub proof fn lemma_var_int_too_long(s: Seq<u8>, i: int)
    requires
        0 <= i,
        i + VAR_INT_MAX_BYTES <= s.len(),
        forall|j: int| i <= j < i + VAR_INT_MAX_BYTES ==> s[j] >= 128,
    ensures
        var_int_decode_spec(s, i) == VarIntRead::TooLong,
{
    assert(var_int_read(s, i + 5, 0) == VarIntRead::TooLong);
    assert(var_int_read(s, i + 4, 1) == VarIntRead::TooLong);
    assert(var_int_read(s, i + 3, 2) == VarIntRead::TooLong);
    assert(var_int_read(s, i + 2, 3) == VarIntRead::TooLong);
    assert(var_int_read(s, i + 1, 4) == VarIntRead::TooLong);
}

/// Appends the encoding of `value` to `bytes`.
pub fn encode_var_int(value: i32, bytes: &mut Vec<u8>)
    ensures
        final(bytes)@ == old(bytes)@ + var_int_spec(value as u32 as nat),
{
    let mut v: u32 = value as u32;
    let ghost start = old(bytes)@;
    while v >= 128
        invariant
            bytes@ + var_int_spec(v as nat) == start + var_int_spec(value as u32 as nat),
        decreases v,
    {
        let ghost before = bytes@;
        let b: u8 = (v % 128 + 128) as u8;
        bytes.push(b);
        assert(var_int_spec(v as nat) == seq![b] + var_int_spec((v / 128) as nat));
        assert(bytes@ + var_int_spec((v / 128) as nat) =~= before + var_int_spec(v as nat));
        v = v / 128;
    }
    let ghost before = bytes@;
    bytes.push(v as u8);
    assert(bytes@ =~= before + var_int_spec(v as nat));
}

/// Reads a variable-length integer at `*index` and moves `*index` past it.
/// Encodings longer than five bytes are rejected.
pub fn decode_var_int(bytes: &Vec<u8>, index: &mut usize) -> (r: Result<i32, VarIntError>)
    ensures
        match var_int_decode_spec(bytes@, *old(index) as int) {
            VarIntRead::Done(v, n) => r == Ok::<i32, VarIntError>(v as u32 as i32) && *final(index)
                == *old(index) + n,
            VarIntRead::End => r == Err::<i32, VarIntError>(VarIntError::UnexpectedEnd),
            VarIntRead::TooLong => r == Err::<i32, VarIntError>(VarIntError::TooLong),
        },
{
    let start: usize = *index;
    if start >= bytes.len() {
        return Err(VarIntError::UnexpectedEnd);
    }
    let mut acc: u64 = 0;
    let mut mult: u64 = 1;
    let mut k: usize = 0;
    proof {
        reveal_with_fuel(pow128, 6);
    }
    while k < VAR_INT_MAX_BYTES
        invariant
            k <= VAR_INT_MAX_BYTES,
            start < bytes@.len(),
            *index == start,
            start == *old(index),
            mult == pow128(k as nat),
            pow128(5) == 34359738368,
            pow128(4) == 268435456,
            pow128(3) == 2097152,
            pow128(2) == 16384,
            pow128(1) == 128,
            pow128(0) == 1,
            acc < mult,
            match var_int_read(bytes@, start + k, (VAR_INT_MAX_BYTES - k) as nat) {
                VarIntRead::Done(w, n) => var_int_decode_spec(bytes@, start as int)
                    == VarIntRead::Done(acc + mult * w, (n + k) as nat),
                r => var_int_decode_spec(bytes@, start as int) == r,
            },
        decreases VAR_INT_MAX_BYTES - k,
    {
        if k >= bytes.len() - start {
            return Err(VarIntError::UnexpectedEnd);
        }
        let b: u8 = bytes[start + k];
        let ghost rest = var_int_read(bytes@, start + k + 1, (VAR_INT_MAX_BYTES - k - 1) as nat);
        assert(mult <= 268435456) by {
            if k == 5 {
            }
        }
        if b < 128 {
            assert(acc + mult * b < 34359738368) by (nonlinear_arith)
                requires
                    acc < mult,
                    mult <= 268435456,
                    b < 128,
            ;
            let total: u64 = acc + mult * (b as u64);
            *index = start + k + 1;
            return Ok(total as u32 as i32);
        }
        let d: u64 = (b - 128) as u64;
        assert(acc + mult * d < mult * 128) by (nonlinear_arith)
            requires
                acc < mult,
                d < 128,
        ;
        proof {
            match rest {
                VarIntRead::Done(w, n) => {
                    assert(acc + mult * (d + 128 * w) == (acc + mult * d) + (mult * 128) * w)
                        by (nonlinear_arith);
                },
                _ => {},
            }
        }
        acc = acc + mult * d;
        mult = mult * 128;
        k = k + 1;
    }
    proof {
        assert(var_int_read(bytes@, start + k, 0) == VarIntRead::TooLong);
    }
    Err(VarIntError::TooLong)
}

} // verus!
