//! Splitting text into lines.
use vstd::prelude::*;

verus! {

/// The index of the first line feed in `s` at or after `i`, or `s.len()` if there is none.
pub open spec fn newline_at_or_after(s: Seq<char>, i: int) -> int
    decreases s.len() - i,
{
    if i >= s.len() {
        s.len() as int
    } else if s[i] == '\n' {
        i
    } else {
        newline_at_or_after(s, i + 1)
    }
}

/// `l` without one trailing carriage return.
pub open spec fn strip_cr(l: Seq<char>) -> Seq<char> {
    if l.len() > 0 && l.last() == '\r' {
        l.drop_last()
    } else {
        l
    }
}

/// The lines of `s`: pieces ended by `\n` or `\r\n`, where the last piece needs no
/// line ending and an empty text has no lines at all.
pub open spec fn lines(s: Seq<char>) -> Seq<Seq<char>>
    decreases s.len(),
{
    if s.len() == 0 {
        seq![]
    } else {
        let k = newline_at_or_after(s, 0);
        if k < 0 || k >= s.len() {
            seq![s]
        } else {
            seq![strip_cr(s.subrange(0, k))] + lines(s.subrange(k + 1, s.len() as int))
        }
    }
}

/// Where no line feed stands in `s[i..k]` and `k` ends the text or holds one, the search
/// from `i` stops at `k`.
proof fn lemma_newline_found(s: Seq<char>, i: int, k: int)
    requires
        0 <= i <= k <= s.len(),
        forall|j: int| i <= j < k ==> s[j] != '\n',
        k == s.len() || s[k] == '\n',
    ensures
        newline_at_or_after(s, i) == k,
    decreases k - i,
{
    if i < k {
        lemma_newline_found(s, i + 1, k);
    }
}

/// The lines of `s`, as `lines` describes them.
pub fn split_lines(s: &str) -> (r: Vec<String>)
    ensures
        r@.len() == lines(s@).len(),
        forall|i: int| 0 <= i < r@.len() ==> #[trigger] r@[i]@ == lines(s@)[i],
{
    let n = s.unicode_len();
    let mut out: Vec<String> = Vec::new();
    let mut start: usize = 0;
    let mut i: usize = 0;
    let ghost acc: Seq<Seq<char>> = seq![];
    assert(s@.subrange(0, n as int) =~= s@);
    while i < n
        invariant
            n == s@.len(),
            start <= i <= n,
            forall|j: int| start <= j < i ==> s@[j] != '\n',
            out@.len() == acc.len(),
            forall|j: int| 0 <= j < acc.len() ==> #[trigger] out@[j]@ == acc[j],
            acc + lines(s@.subrange(start as int, n as int)) == lines(s@),
        decreases n - i,
    {
        let c = s.get_char(i);
        if c == '\n' {
            let ghost rest = s@.subrange(start as int, n as int);
            proof {
                lemma_newline_found(rest, 0, i - start);
                assert(rest.subrange(0, i - start) == s@.subrange(start as int, i as int));
                assert(rest.subrange(i - start + 1, rest.len() as int) == s@.subrange(
                    i + 1,
                    n as int,
                ));
            }
            let mut end = i;
            if end > start && s.get_char(end - 1) == '\r' {
                end = end - 1;
            }
            let piece = s.substring_char(start, end).to_owned();
            proof {
                assert(piece@ == strip_cr(rest.subrange(0, i - start)));
                acc = acc.push(piece@);
                assert(acc + lines(s@.subrange(i + 1, n as int)) == lines(s@));
            }
            out.push(piece);
            start = i + 1;
        }
        i = i + 1;
    }
    if start < n {
        let ghost rest = s@.subrange(start as int, n as int);
        proof {
            lemma_newline_found(rest, 0, n - start);
        }
        let piece = s.substring_char(start, n).to_owned();
        proof {
            acc = acc.push(piece@);
        }
        out.push(piece);
    }
    proof {
        assert(acc =~= lines(s@));
    }
    out
}

/// The decimal digit for `d` in `0..10`.
pub open spec fn digit(d: nat) -> char {
    if d == 0 { '0' } else if d == 1 { '1' } else if d == 2 { '2' } else if d == 3 { '3' }
    else if d == 4 { '4' } else if d == 5 { '5' } else if d == 6 { '6' } else if d == 7 { '7' }
    else if d == 8 { '8' } else { '9' }
}

/// `n` written in decimal, without leading zeros.
pub open spec fn decimal(n: nat) -> Seq<char>
    decreases n,
{
    if n < 10 {
        seq![digit(n)]
    } else {
        decimal(n / 10).push(digit(n % 10))
    }
}

/// Relies on the `Display` of `usize` (through `ToString::to_string`), which writes the
/// number in decimal without leading zeros.
#[verifier::external_body]
pub(crate) fn usize_to_decimal(n: usize) -> (r: String)
    ensures
        r@ == decimal(n as nat),
{
    n.to_string()
}

} // verus!
