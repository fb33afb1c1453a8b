//! The record published for out-of-process readers: the most recently
//! spawned child's identifier, rendered in decimal into a fixed-size
//! buffer.  Writing the buffer into the sealed shared-memory region is the
//! publisher's business outside this library; the bytes themselves are
//! decided here.

use vstd::prelude::*;

verus! {

/// The fixed size of the published record.
pub const RECORD_LEN: usize = 12;

/// The decimal digits of `n`, most significant first, as ASCII bytes.
pub open spec fn dec_rep(n: nat) -> Seq<u8>
    decreases n,
{
    if n < 10 {
        seq![(48 + n) as u8]
    } else {
        dec_rep(n / 10).push((48 + n % 10) as u8)
    }
}

/// Appends the decimal digits of `n` to `out`.
fn push_dec(n: u32, out: &mut Vec<u8>)
    ensures
        final(out)@ == old(out)@ + dec_rep(n as nat),
    decreases n,
{
    if n < 10 {
        out.push(48 + n as u8);
        assert(out@ =~= old(out)@ + dec_rep(n as nat));
    } else {
        push_dec(n / 10, out);
        out.push(48 + (n % 10) as u8);
        assert(out@ =~= old(out)@ + dec_rep(n as nat));
    }
}

/// Ten to the `k`.
pub open spec fn pow10(k: nat) -> nat
    decreases k,
{
    if k == 0 {
        1
    } else {
        10 * pow10((k - 1) as nat)
    }
}

/// A number below ten to the `k` has at most `k` decimal digits.
proof fn lemma_dec_rep_len(n: nat, k: nat)
    requires
        k >= 1,
        n < pow10(k),
    ensures
        dec_rep(n).len() <= k,
    decreases k,
{
    if n >= 10 {
        assert(pow10(0) == 1);
        assert(pow10(1) == 10);
        assert(k >= 2);
        assert(n < 10 * pow10((k - 1) as nat));
        assert(n / 10 < pow10((k - 1) as nat)) by (nonlinear_arith)
            requires
                n < 10 * pow10((k - 1) as nat),
        ;
        lemma_dec_rep_len(n / 10, (k - 1) as nat);
    }
}

/// Ten to the ten, spelled out: one digit more than any `u32` has.
proof fn lemma_pow10_ten()
    ensures
        pow10(10) == 10000000000,
{
    assert(pow10(0) == 1);
    assert(pow10(1) == 10);
    assert(pow10(2) == 100);
    assert(pow10(3) == 1000);
    assert(pow10(4) == 10000);
    assert(pow10(5) == 100000);
    assert(pow10(6) == 1000000);
    assert(pow10(7) == 10000000);
    assert(pow10(8) == 100000000);
    assert(pow10(9) == 1000000000);
    assert(pow10(10) == 10000000000);
}

/// The published record for process `pid`: its decimal digits, a line
/// feed, and zero padding up to the fixed record size.
pub open spec fn pid_record(pid: u32) -> Seq<u8> {
    dec_rep(pid as nat) + seq![10u8] + Seq::new(
        (RECORD_LEN - 1 - dec_rep(pid as nat).len()) as nat,
        |i: int| 0u8,
    )
}

/// Renders the record published for process `pid`.
pub fn render_pid(pid: u32) -> (record: Vec<u8>)
    ensures
        record@ == pid_record(pid),
        record@.len() == RECORD_LEN,
{
    let ghost digits = dec_rep(pid as nat);
    proof {
        lemma_pow10_ten();
        lemma_dec_rep_len(pid as nat, 10);
    }
    let mut record: Vec<u8> = Vec::new();
    push_dec(pid, &mut record);
    proof {
        assert(record@ =~= digits);
    }
    record.push(10u8);
    proof {
        assert(record@.subrange(0, digits.len() as int + 1) =~= digits + seq![10u8]);
    }
    while record.len() < RECORD_LEN
        invariant
            digits == dec_rep(pid as nat),
            digits.len() <= 10,
            digits.len() + 1 <= record@.len() <= RECORD_LEN,
            record@.subrange(0, digits.len() as int + 1) == digits + seq![10u8],
            forall|k: int| digits.len() + 1 <= k < record@.len() ==> record@[k] == 0u8,
        decreases RECORD_LEN - record@.len(),
    {
        record.push(0u8);
        proof {
            assert(record@.subrange(0, digits.len() as int + 1) =~= digits + seq![10u8]);
        }
    }
    proof {
        assert(record@ =~= pid_record(pid));
    }
    record
}

} // verus!
