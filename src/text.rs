//! Small text helpers: decimal rendering and the part of a name after its
//! last separator.

use vstd::prelude::*;

verus! {

/// The decimal digit for `d < 10`.
pub open spec fn digit_char(d: nat) -> char {
    seq!['0', '1', '2', '3', '4', '5', '6', '7', '8', '9'][d as int]
}

/// The decimal rendering of `n`, without sign or leading zeros.
pub open spec fn decimal_of(n: nat) -> Seq<char>
    decreases n,
{
    if n < 10 {
        seq![digit_char(n)]
    } else {
        decimal_of(n / 10).push(digit_char(n % 10))
    }
}

/// The one-character text of the digit `d < 10`.
fn digit_text(d: u64) -> (r: &'static str)
    requires
        d < 10,
    ensures
        r@ == seq![digit_char(d as nat)],
{
    proof {
        reveal_strlit("0");
        reveal_strlit("1");
        reveal_strlit("2");
        reveal_strlit("3");
        reveal_strlit("4");
        reveal_strlit("5");
        reveal_strlit("6");
        reveal_strlit("7");
        reveal_strlit("8");
        reveal_strlit("9");
    }
    let r = match d {
        0 => "0",
        1 => "1",
        2 => "2",
        3 => "3",
        4 => "4",
        5 => "5",
        6 => "6",
        7 => "7",
        8 => "8",
        _ => "9",
    };
    assert(r@ =~= seq![digit_char(d as nat)]);
    r
}

/// `n` in decimal, without sign or leading zeros.
pub fn decimal_text(n: u64) -> (r: String)
    ensures
        r@ == decimal_of(n as nat),
    decreases n,
{
    if n < 10 {
        String::from_str(digit_text(n))
    } else {
        let mut s = decimal_text(n / 10);
        s.append(digit_text(n % 10));
        proof {
            assert(s@ =~= decimal_of((n / 10) as nat).push(digit_char((n % 10) as nat)));
        }
        s
    }
}

/// The part of `s` after the last `sep`, or all of `s` if `sep` does not occur.
pub open spec fn after_last(s: Seq<char>, sep: char) -> Seq<char>
    decreases s.len(),
{
    if s.len() == 0 {
        s
    } else if s.last() == sep {
        Seq::empty()
    } else {
        after_last(s.drop_last(), sep).push(s.last())
    }
}

proof fn lemma_after_last_suffix(s: Seq<char>, sep: char, k: int)
    requires
        0 <= k <= s.len(),
        forall|j: int| k <= j < s.len() ==> s[j] != sep,
        k == 0 || s[k - 1] == sep,
    ensures
        after_last(s, sep) == s.subrange(k, s.len() as int),
    decreases s.len(),
{
    if s.len() == 0 {
        assert(s.subrange(k, 0) =~= s);
    } else if k == s.len() {
        assert(s.subrange(k, k) =~= Seq::<char>::empty());
    } else {
        let p = s.drop_last();
        assert(s.last() == s[s.len() - 1]);
        assert forall|j: int| k <= j < p.len() implies p[j] != sep by {
            assert(p[j] == s[j]);
        }
        if k > 0 {
            assert(p[k - 1] == s[k - 1]);
        }
        lemma_after_last_suffix(p, sep, k);
        assert(s.subrange(k, s.len() as int) =~= p.subrange(k, p.len() as int).push(s.last()));
    }
}

/// The user name without its domain: what follows the last backslash of
/// `DOMAIN\user`, or the whole name if it has none.
pub fn strip_domain(name: &str) -> (r: String)
    ensures
        r@ == after_last(name@, '\\'),
{
    let n = name.unicode_len();
    let mut k: usize = n;
    while k > 0 && name.get_char(k - 1) != '\\'
        invariant
            k <= n,
            n == name@.len(),
            forall|j: int| k <= j < n ==> name@[j] != '\\',
        decreases k,
    {
        k = k - 1;
    }
    proof {
        lemma_after_last_suffix(name@, '\\', k as int);
    }
    String::from_str(name.substring_char(k, n))
}

} // verus!
