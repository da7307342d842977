//! Text helpers: decimal rendering, comparison with literals, prefixes and padding.

use vstd::prelude::*;
use vstd::string::*;

verus! {

/// The character of a decimal digit.
pub open spec fn digit_char(d: int) -> char {
    if d == 0 { '0' }
    else if d == 1 { '1' }
    else if d == 2 { '2' }
    else if d == 3 { '3' }
    else if d == 4 { '4' }
    else if d == 5 { '5' }
    else if d == 6 { '6' }
    else if d == 7 { '7' }
    else if d == 8 { '8' }
    else { '9' }
}

/// The decimal rendering of a natural number, without sign or leading zeros.
pub open spec fn decimal(n: nat) -> Seq<char>
    decreases n,
{
    if n < 10 {
        seq![digit_char(n as int)]
    } else {
        decimal(n / 10).push(digit_char((n % 10) as int))
    }
}

fn digit_text(d: u64) -> (s: &'static str)
    requires
        d < 10,
    ensures
        s@ == seq![digit_char(d as int)],
{
    proof {
        reveal_strlit("0");
        reveal_strlit("1");
        reveal_strlit("2");
        reveal_strlit("3");
        reveal_strlit("4");
        reveal_strlit("5");
        reveal_strlit("6");
        reveal_strlit("7");
        reveal_strlit("8");
        reveal_strlit("9");
    }
    if d == 0 { "0" }
    else if d == 1 { "1" }
    else if d == 2 { "2" }
    else if d == 3 { "3" }
    else if d == 4 { "4" }
    else if d == 5 { "5" }
    else if d == 6 { "6" }
    else if d == 7 { "7" }
    else if d == 8 { "8" }
    else { "9" }
}

/// Renders `n` in decimal, as `to_string` does for an unsigned integer.
pub fn decimal_text(n: u64) -> (s: String)
    ensures
        s@ == decimal(n as nat),
    decreases n,
{
    if n < 10 {
        digit_text(n).to_owned()
    } else {
        let mut s = decimal_text(n / 10);
        s.append(digit_text(n % 10));
        s
    }
}


/// Whether `s` reads exactly `lit`.
pub fn text_is(s: &str, lit: &str) -> (b: bool)
    ensures
        b == (s@ == lit@),
{
    s.to_owned() == lit.to_owned()
}

/// `s` with every leading occurrence of `c` removed.
pub open spec fn trim_start_char(s: Seq<char>, c: char) -> Seq<char>
    decreases s.len(),
{
    if s.len() > 0 && s[0] == c {
        trim_start_char(s.drop_first(), c)
    } else {
        s
    }
}

proof fn lemma_trim_start_skip(s: Seq<char>, c: char, i: int)
    requires
        0 <= i <= s.len(),
        forall|j: int| 0 <= j < i ==> s[j] == c,
    ensures
        trim_start_char(s, c) == trim_start_char(s.skip(i), c),
    decreases i,
{
    if i > 0 {
        assert(s.drop_first().skip(i - 1) =~= s.skip(i));
        lemma_trim_start_skip(s.drop_first(), c, i - 1);
    } else {
        assert(s.skip(0) =~= s);
    }
}

/// Removes every leading slash, as `trim_start_matches('/')` does.
pub fn trim_leading_slashes(s: &str) -> (r: String)
    ensures
        r@ == trim_start_char(s@, '/'),
{
    let len = s.unicode_len();
    let mut i: usize = 0;
    while i < len && s.get_char(i) == '/'
        invariant
            len == s@.len(),
            i <= len,
            forall|j: int| 0 <= j < i ==> s@[j] == '/',
        decreases len - i,
    {
        i = i + 1;
    }
    proof {
        lemma_trim_start_skip(s@, '/', i as int);
        assert(s@.subrange(i as int, len as int) =~= s@.skip(i as int));
    }
    s.substring_char(i, len).to_owned()
}

/// What `str::strip_prefix` gives: the rest of `s` after `prefix`, when `s` starts with it.
pub open spec fn strip_prefix_spec(s: Seq<char>, prefix: Seq<char>) -> Option<Seq<char>> {
    if prefix.len() <= s.len() && s.take(prefix.len() as int) == prefix {
        Some(s.skip(prefix.len() as int))
    } else {
        None
    }
}

/// The rest of `s` after `prefix`, or `None` where `s` does not start with `prefix`.
pub fn strip_prefix_text(s: &str, prefix: &str) -> (r: Option<String>)
    ensures
        match r {
            Some(t) => strip_prefix_spec(s@, prefix@) == Some(t@),
            None => strip_prefix_spec(s@, prefix@) is None,
        },
{
    let len = s.unicode_len();
    let plen = prefix.unicode_len();
    if plen > len {
        return None;
    }
    let head = s.substring_char(0, plen);
    if text_is(head, prefix) {
        proof {
            assert(s@.subrange(0, plen as int) =~= s@.take(plen as int));
            assert(s@.subrange(plen as int, len as int) =~= s@.skip(plen as int));
        }
        Some(s.substring_char(plen, len).to_owned())
    } else {
        proof {
            assert(s@.subrange(0, plen as int) =~= s@.take(plen as int));
        }
        None
    }
}

/// `n` copies of the character `c`.
pub open spec fn repeat_char(c: char, n: nat) -> Seq<char> {
    Seq::new(n, |i: int| c)
}

/// `s` followed by as many spaces as it takes to make it `width` characters long,
/// as the format specifier `{:<width}` lays a string out.
pub open spec fn pad_right(s: Seq<char>, width: nat) -> Seq<char> {
    if s.len() < width {
        s + repeat_char(' ', (width - s.len()) as nat)
    } else {
        s
    }
}

/// Appends `n` copies of the one-character text `piece` to `s`.
fn append_repeated(s: &mut String, piece: &str, n: usize)
    requires
        piece@.len() == 1,
    ensures
        final(s)@ == old(s)@ + repeat_char(piece@[0], n as nat),
{
    let ghost start = s@;
    let mut k: usize = 0;
    while k < n
        invariant
            piece@.len() == 1,
            k <= n,
            s@ == start + repeat_char(piece@[0], k as nat),
        decreases n - k,
    {
        assert(repeat_char(piece@[0], k as nat) + piece@ =~= repeat_char(piece@[0], (k + 1) as nat));
        s.append(piece);
        k = k + 1;
    }
}

/// Lays `s` out left-aligned in a column of `width` characters.
pub fn pad_text(s: &str, width: usize) -> (r: String)
    ensures
        r@ == pad_right(s@, width as nat),
{
    let len = s.unicode_len();
    let mut r = s.to_owned();
    if len < width {
        proof {
            reveal_strlit(" ");
        }
        append_repeated(&mut r, " ", width - len);
    }
    r
}

/// `n` copies of `piece`, one after the other.
pub open spec fn repeat_seq(piece: Seq<char>, n: nat) -> Seq<char>
    decreases n,
{
    if n == 0 {
        Seq::empty()
    } else {
        repeat_seq(piece, (n - 1) as nat) + piece
    }
}

/// `n` copies of `piece`, one after the other, as `str::repeat` makes them.
pub fn repeat_text(piece: &str, n: usize) -> (r: String)
    ensures
        r@ == repeat_seq(piece@, n as nat),
{
    let mut r = String::new();
    let mut k: usize = 0;
    while k < n
        invariant
            k <= n,
            r@ == repeat_seq(piece@, k as nat),
        decreases n - k,
    {
        r.append(piece);
        k = k + 1;
    }
    r
}

} // verus!
