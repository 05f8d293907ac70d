//! The batch of lines that is written over and over: a line, repeated as
//! often as fits into a fixed number of bytes.

use vstd::prelude::*;
use vstd::string::*;
use vstd::utf8::*;

verus! {

/// The number of bytes that a batch may take at most.
pub const BUFSIZE: usize = 16384;

/// The number of bytes that `s` takes as UTF-8.
pub open spec fn byte_len(s: Seq<char>) -> nat {
    encode_utf8(s).len()
}

/// `s` with a line feed behind it.
pub open spec fn terminated(s: Seq<char>) -> Seq<char> {
    s.push('\n')
}

/// `unit`, `times` times in a row, with nothing in between.
pub open spec fn repeated(unit: Seq<char>, times: nat) -> Seq<char>
    decreases times,
{
    if times == 0 {
        Seq::empty()
    } else {
        repeated(unit, (times - 1) as nat) + unit
    }
}

/// How many whole copies of `unit` fit into `max` bytes.
pub open spec fn copies(unit: Seq<char>, max: nat) -> nat
    recommends
        unit.len() > 0,
{
    max / byte_len(unit)
}

/// As many whole copies of `unit` as fit into `max` bytes.
pub open spec fn filled(unit: Seq<char>, max: nat) -> Seq<char>
    recommends
        unit.len() > 0,
{
    repeated(unit, copies(unit, max))
}

/// The batch for the string `base`: its line, as often as fits into
/// `capacity` bytes. A line longer than `capacity` gives the empty batch.
pub open spec fn batch(base: Seq<char>, capacity: nat) -> Seq<char> {
    filled(terminated(base), capacity)
}

/// The bytes of two strings in a row are the bytes of the first followed by
/// the bytes of the second.
pub proof fn lemma_encode_concat(a: Seq<char>, b: Seq<char>)
    ensures
        encode_utf8(a + b) == encode_utf8(a) + encode_utf8(b),
    decreases a.len(),
{
    if a.len() == 0 {
        assert(a + b =~= b);
        assert(encode_utf8(a) + encode_utf8(b) =~= encode_utf8(b));
    } else {
        lemma_encode_concat(a.drop_first(), b);
        assert((a + b).drop_first() =~= a.drop_first() + b);
        assert((a + b)[0] == a[0]);
        assert(encode_utf8(a + b) =~= encode_utf8(a) + encode_utf8(b));
    }
}

/// A string that holds a character takes at least one byte.
pub proof fn lemma_byte_len_positive(s: Seq<char>)
    requires
        s.len() > 0,
    ensures
        byte_len(s) > 0,
{
    assert(encode_scalar(s[0] as u32).len() > 0);
}

/// The line feed takes one byte.
pub proof fn lemma_terminated_len(s: Seq<char>)
    ensures
        byte_len(terminated(s)) == byte_len(s) + 1,
{
    let nl = seq!['\n'];
    assert(terminated(s) =~= s + nl);
    lemma_encode_concat(s, nl);
    assert(is_ascii_chars(nl));
    is_ascii_chars_encode_utf8(nl);
}

/// `times` copies of `unit` take `times` times the bytes of `unit`.
pub proof fn lemma_repeated_len(unit: Seq<char>, times: nat)
    ensures
        byte_len(repeated(unit, times)) == times * byte_len(unit),
    decreases times,
{
    if times == 0 {
        assert(times * byte_len(unit) == 0) by (nonlinear_arith)
            requires
                times == 0,
        ;
    } else {
        let before = (times - 1) as nat;
        lemma_repeated_len(unit, before);
        lemma_encode_concat(repeated(unit, before), unit);
        assert(times * byte_len(unit) == before * byte_len(unit) + byte_len(unit))
            by (nonlinear_arith)
            requires
                times == before + 1,
        ;
    }
}

/// The batch is the line of `base`, `k` times over and nothing else, for the
/// largest `k` whose copies fit into `capacity` bytes; so it fits as well.
pub proof fn lemma_batch_is_largest_that_fits(base: Seq<char>, capacity: nat)
    ensures
        ({
            let n = byte_len(base) + 1;
            let k = capacity / n;
            &&& batch(base, capacity) == repeated(terminated(base), k)
            &&& byte_len(batch(base, capacity)) == k * n
            &&& k * n <= capacity
            &&& capacity < (k + 1) * n
            &&& byte_len(batch(base, capacity)) <= capacity
        }),
{
    let n = byte_len(base) + 1;
    let k = capacity / n;
    lemma_terminated_len(base);
    lemma_repeated_len(terminated(base), k);
    lemma_fill_bounds(n, capacity);
    assert((k + 1) * n == k * n + n) by (nonlinear_arith);
}

/// Equal strings and equal capacities give equal batches: the batch depends
/// on nothing else.
pub proof fn lemma_batch_depends_on_inputs_only(
    base1: Seq<char>,
    capacity1: nat,
    base2: Seq<char>,
    capacity2: nat,
)
    requires
        base1 == base2,
        capacity1 == capacity2,
    ensures
        batch(base1, capacity1) == batch(base2, capacity2),
{
}

/// A capacity of exactly one line gives exactly one line.
pub proof fn lemma_batch_of_exact_capacity(base: Seq<char>, capacity: nat)
    requires
        capacity == byte_len(base) + 1,
    ensures
        batch(base, capacity) == terminated(base),
{
    lemma_terminated_len(base);
    let n = byte_len(base) + 1;
    assert(capacity / n == 1) by (nonlinear_arith)
        requires
            capacity == n,
            n > 0,
    ;
    reveal_with_fuel(repeated, 2);
    assert(repeated(terminated(base), 1) =~= terminated(base));
}

/// A capacity under one line gives the empty batch.
pub proof fn lemma_batch_of_small_capacity(base: Seq<char>, capacity: nat)
    requires
        capacity < byte_len(base) + 1,
    ensures
        batch(base, capacity) == Seq::<char>::empty(),
{
    lemma_terminated_len(base);
    let n = byte_len(base) + 1;
    assert(capacity / n == 0) by (nonlinear_arith)
        requires
            capacity < n,
    ;
}

/// Where one line fits, the batch holds at least one line, and whole lines
/// only: whatever is written is one or more copies of the line.
pub proof fn lemma_batch_is_whole_lines(base: Seq<char>, capacity: nat)
    requires
        capacity >= byte_len(base) + 1,
    ensures
        copies(terminated(base), capacity) >= 1,
        batch(base, capacity) == repeated(terminated(base), copies(terminated(base), capacity)),
        batch(base, capacity).len() > 0,
{
    lemma_terminated_len(base);
    let n = byte_len(base) + 1;
    let k = capacity / n;
    assert(k >= 1) by (nonlinear_arith)
        requires
            capacity >= n,
            n > 0,
            k == capacity / n,
    ;
    assert(repeated(terminated(base), k) == repeated(terminated(base), (k - 1) as nat)
        + terminated(base));
}

/// Returns `s` with a line feed behind it.
pub fn newline_terminate(s: &str) -> (res: String)
    ensures
        res@ == terminated(s@),
{
    let mut copy = s.to_owned();
    copy.append("\n");
    proof {
        reveal_strlit("\n");
        assert("\n"@ =~= seq!['\n']);
        assert(copy@ =~= terminated(s@));
    }
    copy
}

/// Repeats `unit` as often as fits into `max` bytes: `max / n` times, where
/// `n` is the number of bytes of `unit`.
pub fn fill(unit: &str, max: usize) -> (res: String)
    requires
        unit@.len() > 0,
    ensures
        res@ == filled(unit@, max as nat),
        byte_len(res@) == copies(unit@, max as nat) * byte_len(unit@),
        byte_len(res@) <= max,
        max < byte_len(res@) + byte_len(unit@),
{
    let n: usize = unit.as_bytes().len();
    proof {
        lemma_byte_len_positive(unit@);
    }
    let times: usize = max / n;
    let mut buf = String::new();
    let mut i: usize = 0;
    while i < times
        invariant
            i <= times,
            buf@ == repeated(unit@, i as nat),
        decreases times - i,
    {
        buf.append(unit);
        i += 1;
    }
    proof {
        lemma_repeated_len(unit@, times as nat);
        lemma_fill_bounds(n as nat, max as nat);
    }
    buf
}

/// The whole copies of something `n` long that fit into `max` take at most
/// `max`, and one more would not fit.
pub proof fn lemma_fill_bounds(n: nat, max: nat)
    requires
        n > 0,
    ensures
        (max / n) * n <= max,
        max < (max / n) * n + n,
{
    vstd::arithmetic::div_mod::lemma_fundamental_div_mod(max as int, n as int);
    vstd::arithmetic::div_mod::lemma_mod_bound(max as int, n as int);
    assert((max / n) * n == n * (max / n)) by (nonlinear_arith);
}

/// Builds the batch for `base`: the line `base` plus line feed, repeated as
/// often as fits into `capacity` bytes. Where not even one line fits, the
/// batch is empty.
pub fn build_buffer(base: &str, capacity: usize) -> (res: String)
    ensures
        res@ == batch(base@, capacity as nat),
        byte_len(res@) == (capacity as nat / (byte_len(base@) + 1)) * (byte_len(base@) + 1),
        byte_len(res@) <= capacity,
        capacity < byte_len(res@) + byte_len(base@) + 1,
{
    let unit = newline_terminate(base);
    proof {
        lemma_terminated_len(base@);
    }
    fill(unit.as_str(), capacity)
}

} // verus!
