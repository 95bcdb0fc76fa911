//! Small verified helpers for building and comparing strings.

use vstd::prelude::*;
use vstd::string::StringExecFns;

verus! {

/// Compares two string slices by their character sequences.
pub fn str_eq(a: &str, b: &str) -> (r: bool)
    ensures
        r == (a@ == b@),
{
    let sa = a.to_owned();
    let sb = b.to_owned();
    sa == sb
}

/// Concatenates two string slices.
pub fn str_concat(a: &str, b: &str) -> (r: String)
    ensures
        r@ == a@ + b@,
{
    let mut s = a.to_owned();
    s.append(b);
    s
}

/// Concatenates three string slices.
pub fn str_concat3(a: &str, b: &str, c: &str) -> (r: String)
    ensures
        r@ == a@ + b@ + c@,
{
    let mut s = a.to_owned();
    s.append(b);
    s.append(c);
    s
}

/// The decimal digits of `n`, most significant first.
pub open spec fn dec_digits(n: nat) -> Seq<char>
    decreases n,
{
    if n < 10 {
        seq![digit_char(n)]
    } else {
        dec_digits(n / 10) + seq![digit_char(n % 10)]
    }
}

/// The character for one decimal digit.
pub open spec fn digit_char(d: nat) -> char {
    seq!['0', '1', '2', '3', '4', '5', '6', '7', '8', '9'][d as int]
}

/// The text of one decimal digit.
fn digit_text(d: u64) -> (r: &'static str)
    requires
        d < 10,
    ensures
        r@ == seq![digit_char(d as nat)],
{
    proof {
        reveal_strlit("0");
        reveal_strlit("1");
        reveal_strlit("2");
        reveal_strlit("3");
        reveal_strlit("4");
        reveal_strlit("5");
        reveal_strlit("6");
        reveal_strlit("7");
        reveal_strlit("8");
        reveal_strlit("9");
    }
    match d {
        0 => "0",
        1 => "1",
        2 => "2",
        3 => "3",
        4 => "4",
        5 => "5",
        6 => "6",
        7 => "7",
        8 => "8",
        _ => "9",
    }
}

/// The text of a run of digits held least significant first, printed most
/// significant first.
spec fn rev_digits_text(ds: Seq<u64>) -> Seq<char>
    decreases ds.len(),
{
    if ds.len() == 0 {
        Seq::empty()
    } else {
        seq![digit_char(ds.last() as nat)] + rev_digits_text(ds.drop_last())
    }
}

/// One division step of the digit loop: pushing `m % 10` onto the collected
/// digits keeps the decimal text of `n` accounted for.
proof fn lemma_dec_step(n: u64, m: u64, prev: Seq<u64>, cur: Seq<u64>)
    requires
        cur == prev.push(m % 10),
        dec_digits(n as nat) == dec_digits(m as nat) + rev_digits_text(prev),
    ensures
        m / 10 > 0 ==> dec_digits(n as nat) == dec_digits((m / 10) as nat) + rev_digits_text(cur),
        m / 10 == 0 ==> dec_digits(n as nat) == rev_digits_text(cur),
{
    assert(cur.drop_last() =~= prev);
    assert(cur.last() == m % 10);
    assert(rev_digits_text(cur) == seq![digit_char((m % 10) as nat)] + rev_digits_text(prev));
    if m >= 10 {
        assert(dec_digits(m as nat) == dec_digits((m as nat) / 10) + seq![
            digit_char((m as nat) % 10),
        ]);
        assert((m as nat) / 10 == (m / 10) as nat);
        assert((m as nat) % 10 == (m % 10) as nat);
        assert(dec_digits((m / 10) as nat) + rev_digits_text(cur) =~= dec_digits(m as nat)
            + rev_digits_text(prev));
    } else {
        assert(m % 10 == m);
        assert(dec_digits(m as nat) == seq![digit_char(m as nat)]);
        assert(rev_digits_text(cur) =~= dec_digits(m as nat) + rev_digits_text(prev));
    }
}

/// Prints the decimal digits of the number, most significant first, with no
/// sign and no leading zeros.
pub(crate) fn u64_to_string(n: u64) -> (r: String)
    ensures
        r@ == dec_digits(n as nat),
{
    let mut rev: Vec<u64> = Vec::new();
    let mut m: u64 = n;
    proof {
        assert(rev_digits_text(rev@) =~= Seq::<char>::empty());
        assert(dec_digits(n as nat) + rev_digits_text(rev@) =~= dec_digits(n as nat));
    }
    let ghost before_first = rev@;
    rev.push(m % 10);
    proof {
        lemma_dec_step(n, m, before_first, rev@);
    }
    m = m / 10;
    while m > 0
        invariant
            rev@.len() >= 1,
            forall|k: int| 0 <= k < rev@.len() ==> (#[trigger] rev@[k]) < 10,
            dec_digits(n as nat) == (if m > 0 {
                dec_digits(m as nat) + rev_digits_text(rev@)
            } else {
                rev_digits_text(rev@)
            }),
        decreases m,
    {
        let ghost prev = rev@;
        let ghost m_before = m;
        rev.push(m % 10);
        proof {
            lemma_dec_step(n, m_before, prev, rev@);
        }
        m = m / 10;
    }
    let mut s = String::new();
    let mut i: usize = rev.len();
    proof {
        assert(rev@.take(i as int) =~= rev@);
    }
    while i > 0
        invariant
            i <= rev@.len(),
            forall|k: int| 0 <= k < rev@.len() ==> (#[trigger] rev@[k]) < 10,
            rev_digits_text(rev@) == s@ + rev_digits_text(rev@.take(i as int)),
            dec_digits(n as nat) == rev_digits_text(rev@),
        decreases i,
    {
        let ghost before = s@;
        let t = digit_text(rev[i - 1]);
        s.append(t);
        proof {
            let taken = rev@.take(i as int);
            assert(taken.last() == rev@[i - 1]);
            assert(taken.drop_last() =~= rev@.take(i as int - 1));
            assert(before + (seq![digit_char(rev@[i - 1] as nat)] + rev_digits_text(
                rev@.take(i as int - 1),
            )) =~= s@ + rev_digits_text(rev@.take(i as int - 1)));
        }
        i -= 1;
    }
    proof {
        assert(rev@.take(0) =~= Seq::<u64>::empty());
        assert(s@ + Seq::<char>::empty() =~= s@);
    }
    s
}

} // verus!
