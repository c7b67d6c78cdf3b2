//! Decimal rendering of integers into a text buffer, and the byte length of text.
use vstd::prelude::*;

verus! {

/// The character of a decimal digit.
pub open spec fn digit_char(d: nat) -> char {
    seq!['0', '1', '2', '3', '4', '5', '6', '7', '8', '9'][d as int]
}

/// The decimal digits of `n`, most significant first, without leading zeros.
pub open spec fn dec(n: nat) -> Seq<char>
    decreases n,
{
    if n < 10 {
        seq![digit_char(n)]
    } else {
        dec(n / 10).push(digit_char(n % 10))
    }
}

/// The decimal digits of `n`, with zeros in front up to `width` characters.
pub open spec fn padded(n: nat, width: nat) -> Seq<char> {
    if dec(n).len() >= width {
        dec(n)
    } else {
        Seq::new((width - dec(n).len()) as nat, |i: int| '0') + dec(n)
    }
}

/// The number of bytes that text takes in UTF-8.
pub open spec fn byte_len(s: Seq<char>) -> nat {
    vstd::utf8::encode_utf8(s).len()
}

/// UTF-8 encodes a concatenation as the concatenation of the encodings.
pub proof fn lemma_encode_concat(a: Seq<char>, b: Seq<char>)
    ensures
        vstd::utf8::encode_utf8(a + b) == vstd::utf8::encode_utf8(a) + vstd::utf8::encode_utf8(b),
    decreases a.len(),
{
    if a.len() == 0 {
        assert(a + b =~= b);
    } else {
        assert((a + b).drop_first() =~= a.drop_first() + b);
        lemma_encode_concat(a.drop_first(), b);
        assert((a + b)[0] == a[0]);
    }
}

proof fn lemma_dec_len(n: nat)
    ensures
        1 <= dec(n).len(),
        dec(n).len() <= 1 + n / 10,
    decreases n,
{
    if n >= 10 {
        lemma_dec_len(n / 10);
        assert(n / 10 / 10 + 1 <= n / 10) by (nonlinear_arith)
            requires
                n >= 10,
        ;
    }
}

/// The one-character string of a digit.
fn digit_str(d: u64) -> (r: &'static str)
    requires
        d < 10,
    ensures
        r@ == seq![digit_char(d as nat)],
{
    proof {
        reveal_strlit("0");
        reveal_strlit("1");
        reveal_strlit("2");
        reveal_strlit("3");
        reveal_strlit("4");
        reveal_strlit("5");
        reveal_strlit("6");
        reveal_strlit("7");
        reveal_strlit("8");
        reveal_strlit("9");
    }
    match d {
        0 => "0",
        1 => "1",
        2 => "2",
        3 => "3",
        4 => "4",
        5 => "5",
        6 => "6",
        7 => "7",
        8 => "8",
        _ => "9",
    }
}

/// Appends `n` in decimal.
pub fn push_dec(dest: &mut String, n: u64)
    ensures
        final(dest)@ == old(dest)@ + dec(n as nat),
    decreases n,
{
    if n >= 10 {
        push_dec(dest, n / 10);
    }
    dest.append(digit_str(n % 10));
    proof {
        if n >= 10 {
            assert(old(dest)@ + dec(n as nat) =~= old(dest)@ + dec((n / 10) as nat) + seq![digit_char((n % 10) as nat)]);
        } else {
            assert(n % 10 == n);
        }
    }
}

/// The number of decimal digits of `n`.
fn dec_len(n: u64) -> (r: u64)
    ensures
        r == dec(n as nat).len(),
    decreases n,
{
    proof {
        lemma_dec_len(n as nat);
    }
    if n < 10 {
        1
    } else {
        let k = dec_len(n / 10);
        proof {
            lemma_dec_len((n / 10) as nat);
        }
        k + 1
    }
}

/// Appends `n` in decimal, with zeros in front up to `width` characters.
pub fn push_padded(dest: &mut String, n: u64, width: u64)
    ensures
        final(dest)@ == old(dest)@ + padded(n as nat, width as nat),
{
    let len = dec_len(n);
    let mut i: u64 = len;
    while i < width
        invariant
            len <= i,
            len == dec(n as nat).len(),
            i == len || i <= width,
            dest@ == old(dest)@ + Seq::new((i - len) as nat, |j: int| '0'),
        decreases width - i,
    {
        proof {
            reveal_strlit("0");
        }
        dest.append("0");
        i = i + 1;
        assert(dest@ =~= old(dest)@ + Seq::new((i - len) as nat, |j: int| '0'));
    }
    push_dec(dest, n);
    proof {
        if len >= width {
            assert(i == len);
            assert(dest@ =~= old(dest)@ + padded(n as nat, width as nat));
        } else {
            assert(i == width);
            assert(dest@ =~= old(dest)@ + padded(n as nat, width as nat));
        }
    }
}

} // verus!
