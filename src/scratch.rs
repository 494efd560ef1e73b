use vstd::prelude::*;
use crate::language::{Language, extension_of};

verus! {

/// ASCII code of the digit zero.
pub const DIGIT_ZERO: u8 = 48;

/// ASCII code of the separator between the numbers of a scratch name.
pub const UNDERSCORE: u8 = 95;

/// ASCII code of the dot before the extension.
pub const DOT: u8 = 46;

/// The decimal digits of `n`, most significant first, without leading zeros.
pub open spec fn decimal(n: nat) -> Seq<u8>
    decreases n,
{
    if n < 10 {
        seq![(DIGIT_ZERO + n) as u8]
    } else {
        decimal(n / 10).push((DIGIT_ZERO + n % 10) as u8)
    }
}

pub open spec fn is_digit(b: u8) -> bool {
    DIGIT_ZERO <= b < DIGIT_ZERO + 10
}

/// The fixed part that starts each file name: "/temp_".
pub open spec fn name_prefix() -> Seq<u8> {
    seq![47u8, 116u8, 101u8, 109u8, 112u8, UNDERSCORE]
}

/// The scratch file of one execution: the directory, then
/// "/temp_<pid>_<seq>.<extension>".
pub open spec fn scratch_path(dir: Seq<u8>, pid: nat, seq: nat, lang: Language) -> Seq<u8> {
    dir + name_prefix() + decimal(pid) + seq![UNDERSCORE] + decimal(seq) + seq![DOT] + extension_of(lang)
}

proof fn lemma_decimal_digits(n: nat)
    ensures
        decimal(n).len() >= 1,
        n >= 10 ==> decimal(n).len() >= 2,
        forall|i: int| 0 <= i < decimal(n).len() ==> is_digit(#[trigger] decimal(n)[i]),
    decreases n,
{
    if n >= 10 {
        lemma_decimal_digits(n / 10);
    }
}

proof fn lemma_decimal_injective(a: nat, b: nat)
    requires
        decimal(a) == decimal(b),
    ensures
        a == b,
    decreases a,
{
    lemma_decimal_digits(a);
    lemma_decimal_digits(b);
    if a < 10 || b < 10 {
        assert(a < 10 && b < 10);
        assert(decimal(a) == seq![(DIGIT_ZERO + a) as u8]);
        assert(decimal(b) == seq![(DIGIT_ZERO + b) as u8]);
        let ca = (DIGIT_ZERO + a) as u8;
        let cb = (DIGIT_ZERO + b) as u8;
        assert(seq![ca][0] == ca);
        assert(seq![cb][0] == cb);
        assert(ca == cb);
    } else {
        let da = decimal(a);
        assert(decimal(a / 10) == da.drop_last());
        assert(decimal(b / 10) == decimal(b).drop_last());
        lemma_decimal_injective(a / 10, b / 10);
        assert(da.last() == decimal(b).last());
        assert((DIGIT_ZERO + a % 10) as u8 == (DIGIT_ZERO + b % 10) as u8);
        assert(a % 10 == b % 10);
        assert(a == 10 * (a / 10) + a % 10) by (nonlinear_arith);
        assert(b == 10 * (b / 10) + b % 10) by (nonlinear_arith);
    }
}

/// Splits `decimal(a) + [s] + x` from `decimal(b) + [s] + y` where `s` is
/// no digit: the numbers and the rests coincide.
proof fn lemma_split_after_number(a: nat, b: nat, s: u8, x: Seq<u8>, y: Seq<u8>)
    requires
        !is_digit(s),
        decimal(a) + seq![s] + x == decimal(b) + seq![s] + y,
    ensures
        a == b,
        x == y,
{
    let da = decimal(a);
    let db = decimal(b);
    let l = da + seq![s] + x;
    let r = db + seq![s] + y;
    lemma_decimal_digits(a);
    lemma_decimal_digits(b);
    if da.len() < db.len() {
        assert(l[da.len() as int] == s);
        assert(r[da.len() as int] == db[da.len() as int]);
    } else if db.len() < da.len() {
        assert(r[db.len() as int] == s);
        assert(l[db.len() as int] == da[db.len() as int]);
    } else {
        assert(da == l.subrange(0, da.len() as int));
        assert(db == r.subrange(0, db.len() as int));
        lemma_decimal_injective(a, b);
        assert(x == l.subrange(da.len() as int + 1, l.len() as int));
        assert(y == r.subrange(db.len() as int + 1, r.len() as int));
    }
}

/// Two scratch paths in one directory are equal only when they come from the
/// same process number, the same sequence number and the same language: calls
/// that draw distinct sequence numbers never share a scratch file.
pub proof fn lemma_scratch_paths_distinct(
    dir: Seq<u8>,
    pid1: nat,
    seq1: nat,
    lang1: Language,
    pid2: nat,
    seq2: nat,
    lang2: Language,
)
    requires
        scratch_path(dir, pid1, seq1, lang1) == scratch_path(dir, pid2, seq2, lang2),
    ensures
        pid1 == pid2,
        seq1 == seq2,
        lang1 == lang2,
{
    let head = dir + name_prefix();
    let x1 = decimal(seq1) + seq![DOT] + extension_of(lang1);
    let x2 = decimal(seq2) + seq![DOT] + extension_of(lang2);
    let p1 = scratch_path(dir, pid1, seq1, lang1);
    let p2 = scratch_path(dir, pid2, seq2, lang2);
    assert(p1 == head + (decimal(pid1) + seq![UNDERSCORE] + x1));
    assert(p2 == head + (decimal(pid2) + seq![UNDERSCORE] + x2));
    assert(decimal(pid1) + seq![UNDERSCORE] + x1 == p1.subrange(head.len() as int, p1.len() as int));
    assert(decimal(pid2) + seq![UNDERSCORE] + x2 == p2.subrange(head.len() as int, p2.len() as int));
    lemma_split_after_number(pid1, pid2, UNDERSCORE, x1, x2);
    lemma_split_after_number(seq1, seq2, DOT, extension_of(lang1), extension_of(lang2));
    if lang1 != lang2 {
        assert(extension_of(lang1)[0] != extension_of(lang2)[0]);
    }
}

/// Appends the decimal digits of `n` to `buf`.
pub fn push_decimal(buf: &mut Vec<u8>, n: u64)
    ensures
        final(buf)@ == old(buf)@ + decimal(n as nat),
    decreases n,
{
    if n >= 10 {
        push_decimal(buf, n / 10);
    }
    let digit: u8 = (n % 10) as u8;
    buf.push(DIGIT_ZERO + digit);
    proof {
        if n >= 10 {
            assert(old(buf)@ + decimal(n as nat) == old(buf)@ + decimal((n / 10) as nat) + seq![(DIGIT_ZERO + digit) as u8]);
        }
    }
}

/// Appends every byte of `s` to `buf`.
pub fn push_bytes(buf: &mut Vec<u8>, s: &[u8])
    ensures
        final(buf)@ == old(buf)@ + s@,
{
    let mut i: usize = 0;
    while i < s.len()
        invariant
            0 <= i <= s@.len(),
            buf@ == old(buf)@ + s@.subrange(0, i as int),
        decreases s@.len() - i,
    {
        buf.push(s[i]);
        i = i + 1;
        assert(s@.subrange(0, i as int) == s@.subrange(0, (i - 1) as int).push(s@[i - 1]));
    }
    assert(s@.subrange(0, s@.len() as int) == s@);
}

/// Builds the scratch file path for one execution in directory `dir`, from
/// the process number and a sequence number unique to the call.
pub fn make_scratch_path(dir: &[u8], pid: u32, seq: u64, lang: Language) -> (r: Vec<u8>)
    ensures
        r@ == scratch_path(dir@, pid as nat, seq as nat, lang),
{
    let mut buf: Vec<u8> = Vec::new();
    push_bytes(&mut buf, dir);
    buf.push(47u8);
    buf.push(116u8);
    buf.push(101u8);
    buf.push(109u8);
    buf.push(112u8);
    buf.push(UNDERSCORE);
    assert(buf@ == dir@ + name_prefix());
    push_decimal(&mut buf, pid as u64);
    buf.push(UNDERSCORE);
    push_decimal(&mut buf, seq);
    buf.push(DOT);
    let ext = lang.extension();
    push_bytes(&mut buf, ext.as_slice());
    buf
}

} // verus!
