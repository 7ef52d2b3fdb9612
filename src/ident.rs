//! The device's identity: its 64-bit unique ID, as read from the flash
//! chip, and the USB serial string that spells it out in hex.

use vstd::prelude::*;

verus! {

/// The ASCII digit, upper case, of a value below sixteen.
pub open spec fn hex_digit(v: u8) -> u8 {
    if v < 10 {
        (0x30 + v) as u8
    } else {
        (0x41 + v - 10) as u8
    }
}

/// The `i`-th four-bit group of `id`, counting from the most significant.
pub open spec fn nibble(id: u64, i: int) -> u8 {
    ((id >> ((60 - 4 * i) as u64)) & 0xf) as u8
}

/// The big-endian value of eight bytes.
pub open spec fn be_value(b: Seq<u8>) -> int
    decreases b.len(),
{
    if b.len() == 0 {
        0
    } else {
        be_value(b.drop_last()) * 256 + b.last() as int
    }
}

/// The unique ID that the flash chip reports as eight big-endian bytes.
pub fn unique_id_from_bytes(b: [u8; 8]) -> (r: u64)
    ensures
        r as int == be_value(b@),
{
    let mut acc: u64 = 0;
    let mut i: usize = 0;
    while i < 8
        invariant
            i <= 8,
            b@.len() == 8,
            acc as int == be_value(b@.subrange(0, i as int)),
            acc < pow256(i as nat),
        decreases 8 - i,
    {
        proof {
            let s = b@.subrange(0, i as int + 1);
            assert(s.drop_last() =~= b@.subrange(0, i as int));
            assert(s.last() == b@[i as int]);
            lemma_pow256_step(i as nat);
            reveal_with_fuel(pow256, 9);
            assert(pow256(8) == 0x1_0000_0000_0000_0000);
            lemma_pow256_mono(i as nat + 1, 8);
            assert(acc * 256 + b@[i as int] < pow256(i as nat + 1)) by (nonlinear_arith)
                requires
                    acc < pow256(i as nat),
                    pow256(i as nat + 1) == pow256(i as nat) * 256,
                    b@[i as int] < 256,
            ;
        }
        acc = acc * 256 + b[i] as u64;
        i = i + 1;
    }
    assert(b@.subrange(0, 8) =~= b@);
    acc
}

/// Powers of 256.
pub open spec fn pow256(n: nat) -> int
    decreases n,
{
    if n == 0 {
        1
    } else {
        256 * pow256((n - 1) as nat)
    }
}

proof fn lemma_pow256_step(n: nat)
    ensures
        pow256(n + 1) == pow256(n) * 256,
        pow256(n) >= 1,
    decreases n,
{
    if n > 0 {
        lemma_pow256_step((n - 1) as nat);
    }
}

proof fn lemma_pow256_mono(a: nat, b: nat)
    requires
        a <= b,
    ensures
        pow256(a) <= pow256(b),
    decreases b - a,
{
    if a < b {
        lemma_pow256_mono(a, (b - 1) as nat);
        lemma_pow256_step((b - 1) as nat);
    }
}

/// The USB serial string of a device: its unique ID as sixteen upper-case
/// hex digits, most significant first.
pub fn serial_string(id: u64) -> (r: Vec<u8>)
    ensures
        r@.len() == 16,
        forall|i: int| 0 <= i < 16 ==> #[trigger] r@[i] == hex_digit(nibble(id, i)),
{
    let mut r: Vec<u8> = Vec::new();
    let mut i: usize = 0;
    while i < 16
        invariant
            i <= 16,
            r@.len() == i,
            forall|j: int| 0 <= j < i ==> #[trigger] r@[j] == hex_digit(nibble(id, j)),
        decreases 16 - i,
    {
        let shift: u64 = 60 - 4 * (i as u64);
        let v: u8 = ((id >> shift) & 0xf) as u8;
        assert(v == nibble(id, i as int));
        assert(v < 16) by (bit_vector)
            requires
                v == ((id >> shift) & 0xf) as u8,
        ;
        let d: u8 = if v < 10 {
            0x30 + v
        } else {
            0x41 + v - 10
        };
        r.push(d);
        i = i + 1;
    }
    r
}

} // verus!
