//! The line printed for each acquisition.
use vstd::prelude::*;
use vstd::string::StringExecFns;

verus! {

/// The character of a decimal digit.
pub open spec fn digit_char(d: nat) -> char {
    if d == 0 { '0' }
    else if d == 1 { '1' }
    else if d == 2 { '2' }
    else if d == 3 { '3' }
    else if d == 4 { '4' }
    else if d == 5 { '5' }
    else if d == 6 { '6' }
    else if d == 7 { '7' }
    else if d == 8 { '8' }
    else { '9' }
}

/// The decimal digits of `n`, most significant first, with no leading zero.
pub open spec fn decimal(n: nat) -> Seq<char>
    decreases n,
{
    if n < 10 {
        seq![digit_char(n)]
    } else {
        decimal(n / 10).push(digit_char(n % 10))
    }
}

/// What a reader prints after it released the lock.
pub open spec fn reader_text(waited_us: nat, held_ms: nat, task: Seq<char>) -> Seq<char> {
    "Reader waited "@ + decimal(waited_us) + " \u{3bc}s for a lock, held it "@ + decimal(held_ms)
        + " ms "@ + task
}

/// What a writer prints while it holds the lock.
pub open spec fn writer_text(waited_us: nat, task: Seq<char>) -> Seq<char> {
    "Writer waited "@ + decimal(waited_us) + " \u{3bc}s for a lock "@ + task
}

fn digit_str(d: u64) -> (r: &'static str)
    requires
        d < 10,
    ensures
        r@ == seq![digit_char(d as nat)],
{
    proof {
        reveal_strlit("0");
        reveal_strlit("1");
        reveal_strlit("2");
        reveal_strlit("3");
        reveal_strlit("4");
        reveal_strlit("5");
        reveal_strlit("6");
        reveal_strlit("7");
        reveal_strlit("8");
        reveal_strlit("9");
    }
    if d == 0 { "0" }
    else if d == 1 { "1" }
    else if d == 2 { "2" }
    else if d == 3 { "3" }
    else if d == 4 { "4" }
    else if d == 5 { "5" }
    else if d == 6 { "6" }
    else if d == 7 { "7" }
    else if d == 8 { "8" }
    else { "9" }
}

/// Appends the decimal digits of `n`.
pub fn push_decimal(s: &mut String, n: u64)
    ensures
        final(s)@ == old(s)@ + decimal(n as nat),
    decreases n,
{
    if n < 10 {
        s.append(digit_str(n));
    } else {
        push_decimal(s, n / 10);
        s.append(digit_str(n % 10));
        assert(final(s)@ =~= old(s)@ + decimal(n as nat));
    }
}

/// The decimal digits of `n` as a string.
pub fn decimal_string(n: u64) -> (r: String)
    ensures
        r@ == decimal(n as nat),
{
    let mut s = String::from_str("");
    proof { reveal_strlit(""); }
    push_decimal(&mut s, n);
    assert(s@ =~= decimal(n as nat));
    s
}

/// The line a reader prints: how long it waited for the lock, in
/// microseconds, how long it held it, in milliseconds, and which task it is.
pub fn reader_line(waited_us: u64, held_ms: u64, task: &str) -> (r: String)
    ensures
        r@ == reader_text(waited_us as nat, held_ms as nat, task@),
{
    let mut s = String::from_str("Reader waited ");
    push_decimal(&mut s, waited_us);
    s.append(" \u{3bc}s for a lock, held it ");
    push_decimal(&mut s, held_ms);
    s.append(" ms ");
    s.append(task);
    s
}

/// The line a writer prints: how long it waited for the lock, in
/// microseconds, and which task it is.
pub fn writer_line(waited_us: u64, task: &str) -> (r: String)
    ensures
        r@ == writer_text(waited_us as nat, task@),
{
    let mut s = String::from_str("Writer waited ");
    push_decimal(&mut s, waited_us);
    s.append(" \u{3bc}s for a lock ");
    s.append(task);
    s
}

} // verus!
