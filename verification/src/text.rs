//! Text operations that the rest of the crate is built on.

use vstd::prelude::*;

verus! {

/// The characters with the Unicode property `White_Space`.
pub open spec fn is_white_space(c: char) -> bool {
    ||| '\u{9}' <= c <= '\u{d}'
    ||| c == '\u{20}'
    ||| c == '\u{85}'
    ||| c == '\u{a0}'
    ||| c == '\u{1680}'
    ||| '\u{2000}' <= c <= '\u{200a}'
    ||| c == '\u{2028}'
    ||| c == '\u{2029}'
    ||| c == '\u{202f}'
    ||| c == '\u{205f}'
    ||| c == '\u{3000}'
}

/// A text without the white space that it begins with.
pub open spec fn trimmed_start(s: Seq<char>) -> Seq<char>
    decreases s.len(),
{
    if s.len() > 0 && is_white_space(s.first()) {
        trimmed_start(s.drop_first())
    } else {
        s
    }
}

/// A text without the white space that it ends with.
pub open spec fn trimmed_end(s: Seq<char>) -> Seq<char>
    decreases s.len(),
{
    if s.len() > 0 && is_white_space(s.last()) {
        trimmed_end(s.drop_last())
    } else {
        s
    }
}

/// A text without white space at either end.
pub open spec fn trimmed(s: Seq<char>) -> Seq<char> {
    trimmed_end(trimmed_start(s))
}

/// A text without the characters `c` that it begins with.
pub open spec fn without_leading(s: Seq<char>, c: char) -> Seq<char>
    decreases s.len(),
{
    if s.len() > 0 && s.first() == c {
        without_leading(s.drop_first(), c)
    } else {
        s
    }
}

/// The decimal digit for a value below ten.
pub open spec fn digit_char(d: nat) -> char {
    (d + ('0' as nat)) as char
}

/// A number in decimal, without leading zeros.
pub open spec fn decimal(n: nat) -> Seq<char>
    decreases n,
{
    if n < 10 {
        seq![digit_char(n)]
    } else {
        decimal(n / 10).push(digit_char(n % 10))
    }
}

/// Tells whether a character is white space.
pub fn is_space(c: char) -> (r: bool)
    ensures
        r == is_white_space(c),
{
    ('\u{9}' <= c && c <= '\u{d}') || c == '\u{20}' || c == '\u{85}' || c == '\u{a0}' || c
        == '\u{1680}' || ('\u{2000}' <= c && c <= '\u{200a}') || c == '\u{2028}' || c == '\u{2029}'
        || c == '\u{202f}' || c == '\u{205f}' || c == '\u{3000}'
}

/// The characters of a text.
pub fn chars_of(s: &str) -> (r: Vec<char>)
    ensures
        r@ == s@,
{
    let mut out: Vec<char> = Vec::new();
    for c in it: s.chars()
        invariant
            out@ == it.seq().take(it.index()),
            it.seq() == s@,
    {
        out.push(c);
    }
    out
}

/// Where the text that is left after trimming stands in the whole.
proof fn lemma_trim_bounds(s: Seq<char>, from: int, to: int)
    requires
        0 <= from <= to <= s.len(),
        forall|i: int| 0 <= i < from ==> is_white_space(#[trigger] s[i]),
        forall|i: int| to <= i < s.len() ==> is_white_space(#[trigger] s[i]),
        from < to ==> !is_white_space(s[from]) && !is_white_space(s[to - 1]),
    ensures
        trimmed(s) == s.subrange(from, to),
    decreases s.len(),
{
    if from > 0 {
        lemma_trim_bounds(s.drop_first(), from - 1, to - 1);
    } else if from == to && s.len() > 0 {
        lemma_trim_bounds(s.drop_first(), 0, 0);
    } else {
        lemma_trim_end_bounds(s, to);
    }
}

proof fn lemma_trim_end_bounds(s: Seq<char>, to: int)
    requires
        0 <= to <= s.len(),
        forall|i: int| to <= i < s.len() ==> is_white_space(#[trigger] s[i]),
        to > 0 ==> !is_white_space(s[to - 1]),
    ensures
        trimmed_end(s) == s.subrange(0, to),
    decreases s.len(),
{
    if to < s.len() {
        lemma_trim_end_bounds(s.drop_last(), to);
    }
}

/// Removes white space at both ends.
pub fn trim(s: &str) -> (r: &str)
    ensures
        r@ == trimmed(s@),
{
    let chars: Vec<char> = chars_of(s);
    let n: usize = chars.len();
    let mut from: usize = 0;
    while from < n && is_space(chars[from])
        invariant
            n == chars.len(),
            from <= n,
            forall|i: int| 0 <= i < from ==> is_white_space(#[trigger] chars@[i]),
        decreases n - from,
    {
        from = from + 1;
    }
    let mut to: usize = n;
    while from < to && is_space(chars[to - 1])
        invariant
            n == chars.len(),
            from <= to <= n,
            forall|i: int| to <= i < n ==> is_white_space(#[trigger] chars@[i]),
        decreases to,
    {
        to = to - 1;
    }
    proof {
        lemma_trim_bounds(s@, from as int, to as int);
    }
    s.substring_char(from, to)
}

/// Two texts, one after the other.
pub fn joined(a: &str, b: &str) -> (r: String)
    ensures
        r@ == a@ + b@,
{
    let mut out: String = a.to_owned();
    out.append(b);
    out
}

/// Three texts, one after the other.
pub fn joined3(a: &str, b: &str, c: &str) -> (r: String)
    ensures
        r@ == a@ + b@ + c@,
{
    let mut out: String = joined(a, b);
    out.append(c);
    out
}

/// The text of one digit.
fn digit_text(d: u32) -> (r: &'static str)
    requires
        d < 10,
    ensures
        r@ == seq![digit_char(d as nat)],
{
    proof {
        reveal_strlit("0");
        reveal_strlit("1");
        reveal_strlit("2");
        reveal_strlit("3");
        reveal_strlit("4");
        reveal_strlit("5");
        reveal_strlit("6");
        reveal_strlit("7");
        reveal_strlit("8");
        reveal_strlit("9");
    }
    match d {
        0 => "0",
        1 => "1",
        2 => "2",
        3 => "3",
        4 => "4",
        5 => "5",
        6 => "6",
        7 => "7",
        8 => "8",
        _ => "9",
    }
}

/// Writes a number in decimal.
pub fn decimal_text(n: u32) -> (r: String)
    ensures
        r@ == decimal(n as nat),
    decreases n,
{
    if n < 10 {
        digit_text(n).to_owned()
    } else {
        let head: String = decimal_text(n / 10);
        joined(head.as_str(), digit_text(n % 10))
    }
}

/// What follows a prefix of a text, if it has that prefix.
pub fn without_prefix<'a>(s: &'a str, prefix: &str) -> (r: Option<&'a str>)
    ensures
        match r {
            Some(rest) => s@ == prefix@ + rest@,
            None => !prefix@.is_prefix_of(s@),
        },
{
    let n: usize = s.unicode_len();
    let k: usize = prefix.unicode_len();
    if k > n {
        return None;
    }
    let head: &str = s.substring_char(0, k);
    let tail: &str = s.substring_char(k, n);
    if head.to_owned() == prefix.to_owned() {
        Some(tail)
    } else {
        None
    }
}

/// Takes off the characters `c` that a text begins with.
pub fn skip_leading(s: &str, c: char) -> (r: &str)
    ensures
        r@ == without_leading(s@, c),
{
    let chars: Vec<char> = chars_of(s);
    let n: usize = chars.len();
    let mut from: usize = 0;
    assert(s@.skip(0) =~= s@);
    while from < n && chars[from] == c
        invariant
            n == chars.len(),
            chars@ == s@,
            from <= n,
            without_leading(s@, c) == without_leading(s@.skip(from as int), c),
        decreases n - from,
    {
        assert(s@.skip(from as int).drop_first() =~= s@.skip(from + 1));
        from = from + 1;
    }
    s.substring_char(from, n)
}

/// Tells whether two texts are the same.
pub fn same_text(a: &str, b: &str) -> (r: bool)
    ensures
        r == (a@ == b@),
{
    a.to_owned() == b.to_owned()
}

/// Trimming a text that has been trimmed changes nothing.
pub proof fn law_trim_is_idempotent(s: Seq<char>)
    ensures
        trimmed(trimmed(s)) == trimmed(s),
{
    lemma_trimmed_ends(s);
    let t = trimmed(s);
    lemma_trim_bounds(t, 0, t.len() as int);
}

/// A trimmed text neither begins nor ends with white space.
proof fn lemma_trimmed_ends(s: Seq<char>)
    ensures
        trimmed(s).len() > 0 ==> !is_white_space(trimmed(s).first()) && !is_white_space(
            trimmed(s).last(),
        ),
{
    lemma_start_ends(s);
    lemma_end_ends(trimmed_start(s));
}

/// Leading characters are taken off as far as they go, and nothing else is.
pub proof fn law_skipping_is_complete(s: Seq<char>, c: char)
    ensures
        without_leading(s, c).len() > 0 ==> without_leading(s, c).first() != c,
        exists|k: int|
            0 <= k <= s.len() && without_leading(s, c) == #[trigger] s.skip(k) && (forall|j: int|
                0 <= j < k ==> s[j] == c),
    decreases s.len(),
{
    if s.len() > 0 && s.first() == c {
        let t = s.drop_first();
        law_skipping_is_complete(t, c);
        let k = choose|k: int|
            0 <= k <= t.len() && without_leading(t, c) == #[trigger] t.skip(k) && (forall|j: int|
                0 <= j < k ==> t[j] == c);
        assert(t.skip(k) =~= s.skip(k + 1));
        assert forall|j: int| 0 <= j < k + 1 implies s[j] == c by {
            if j > 0 {
                assert(t[j - 1] == s[j]);
            }
        }
    } else {
        assert(s.skip(0) =~= s);
    }
}

/// Trimming takes off the white space around a text, and nothing of the text itself.
pub proof fn law_trim_takes_off_white_space(before: Seq<char>, core: Seq<char>, after: Seq<char>)
    requires
        forall|i: int| 0 <= i < before.len() ==> is_white_space(#[trigger] before[i]),
        forall|i: int| 0 <= i < after.len() ==> is_white_space(#[trigger] after[i]),
        core.len() > 0 ==> !is_white_space(core.first()) && !is_white_space(core.last()),
    ensures
        trimmed(before + core + after) == core,
{
    let s = before + core + after;
    let from = before.len() as int;
    let to = from + core.len();
    assert forall|i: int| 0 <= i < from implies is_white_space(#[trigger] s[i]) by {
        assert(s[i] == before[i]);
    }
    assert forall|i: int| to <= i < s.len() implies is_white_space(#[trigger] s[i]) by {
        assert(s[i] == after[i - to]);
    }
    lemma_trim_bounds(s, from, to);
    assert(s.subrange(from, to) =~= core);
}

/// A number in decimal is made of digits, and begins with zero only if it is zero.
pub proof fn law_decimal_is_canonical(n: nat)
    ensures
        decimal(n).len() > 0,
        forall|i: int| 0 <= i < decimal(n).len() ==> '0' <= #[trigger] decimal(n)[i] <= '9',
        n > 0 ==> decimal(n)[0] != '0',
    decreases n,
{
    if n >= 10 {
        law_decimal_is_canonical(n / 10);
        assert(decimal(n) == decimal(n / 10).push(digit_char(n % 10)));
    }
}

proof fn lemma_start_ends(s: Seq<char>)
    ensures
        trimmed_start(s).len() > 0 ==> !is_white_space(trimmed_start(s).first()),
    decreases s.len(),
{
    if s.len() > 0 && is_white_space(s.first()) {
        lemma_start_ends(s.drop_first());
    }
}

proof fn lemma_end_ends(s: Seq<char>)
    ensures
        trimmed_end(s).len() > 0 ==> !is_white_space(trimmed_end(s).last()) && s.len() > 0
            && trimmed_end(s).first() == s.first(),
    decreases s.len(),
{
    if s.len() > 0 && is_white_space(s.last()) {
        lemma_end_ends(s.drop_last());
    }
}

} // verus!
