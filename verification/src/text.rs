//! Character-level helpers: case folding, whitespace, substring search and
//! decimal rendering, each with its mathematical counterpart on `Seq<char>`.

use vstd::prelude::*;

verus! {

/// The upper-case form of an ASCII letter; every other character is itself.
pub open spec fn ascii_upper(c: char) -> char {
    if 'a' <= c && c <= 'z' {
        ((c as u8) - 32) as char
    } else {
        c
    }
}

/// `s` with each ASCII lower-case letter replaced by its upper-case form.
pub open spec fn upper(s: Seq<char>) -> Seq<char> {
    Seq::new(s.len(), |i: int| ascii_upper(s[i]))
}

/// The characters with the Unicode property `White_Space`.
pub open spec fn is_whitespace(c: char) -> bool {
    let n = c as u32;
    ||| 0x09 <= n <= 0x0D
    ||| n == 0x20
    ||| n == 0x85
    ||| n == 0xA0
    ||| n == 0x1680
    ||| 0x2000 <= n <= 0x200A
    ||| n == 0x2028
    ||| n == 0x2029
    ||| n == 0x202F
    ||| n == 0x205F
    ||| n == 0x3000
}

/// The first index at or after `from` that holds no whitespace, or the
/// length of `s` when only whitespace follows.
pub open spec fn skip_whitespace(s: Seq<char>, from: int) -> int
    decreases s.len() - from,
{
    if 0 <= from < s.len() && is_whitespace(s[from]) {
        skip_whitespace(s, from + 1)
    } else {
        from
    }
}

/// `s` without its leading whitespace.
pub open spec fn trim_start(s: Seq<char>) -> Seq<char> {
    s.skip(skip_whitespace(s, 0))
}

/// `needle` stands in `haystack` at index `at`.
pub open spec fn occurs_at(haystack: Seq<char>, needle: Seq<char>, at: int) -> bool {
    &&& 0 <= at
    &&& at + needle.len() <= haystack.len()
    &&& haystack.subrange(at, at + needle.len()) == needle
}

/// `needle` stands somewhere in `haystack`.
pub open spec fn contains(haystack: Seq<char>, needle: Seq<char>) -> bool {
    exists|at: int| occurs_at(haystack, needle, at)
}

/// `haystack` begins with `needle`.
pub open spec fn starts_with(haystack: Seq<char>, needle: Seq<char>) -> bool {
    occurs_at(haystack, needle, 0)
}

/// The character of a decimal digit.
pub open spec fn digit(d: nat) -> char
    recommends
        d < 10,
{
    (0x30 + d) as char
}

/// `n` in decimal, without leading zeros.
pub open spec fn decimal(n: nat) -> Seq<char>
    decreases n,
{
    if n < 10 {
        seq![digit(n)]
    } else {
        decimal(n / 10).push(digit(n % 10))
    }
}

/// Folds an ASCII letter to upper case.
pub fn to_ascii_upper(c: char) -> (r: char)
    ensures
        r == ascii_upper(c),
{
    if c >= 'a' && c <= 'z' {
        ((c as u8) - 32) as char
    } else {
        c
    }
}

/// Tells whether `c` is whitespace.
pub fn whitespace(c: char) -> (r: bool)
    ensures
        r == is_whitespace(c),
{
    let n: u32 = c as u32;
    (0x09 <= n && n <= 0x0D) || n == 0x20 || n == 0x85 || n == 0xA0 || n == 0x1680 || (0x2000 <= n
        && n <= 0x200A) || n == 0x2028 || n == 0x2029 || n == 0x202F || n == 0x205F || n == 0x3000
}

/// The characters of `s`, in order.
pub fn chars_of(s: &str) -> (v: Vec<char>)
    ensures
        v@ == s@,
{
    let mut v: Vec<char> = Vec::new();
    for c in it: s.chars()
        invariant
            it.seq() == s@,
            v@ == s@.take(it.index() as int),
    {
        v.push(c);
    }
    v
}

/// The characters of `s`, ASCII letters folded to upper case.
pub fn upper_chars(s: &str) -> (v: Vec<char>)
    ensures
        v@ == upper(s@),
{
    let mut v: Vec<char> = Vec::new();
    for c in it: s.chars()
        invariant
            it.seq() == s@,
            v@ == upper(s@.take(it.index() as int)),
    {
        v.push(to_ascii_upper(c));
        assert(v@ =~= upper(s@.take(it.index() + 1)));
    }
    assert(s@.take(s@.len() as int) =~= s@);
    v
}

/// The index of the first character of `s` at or after `from` that is no
/// whitespace.
pub fn first_visible(s: &Vec<char>, from: usize) -> (r: usize)
    ensures
        r == skip_whitespace(s@, from as int),
        from <= r,
        from <= s.len() ==> r <= s.len(),
{
    let mut i: usize = from;
    while i < s.len() && whitespace(s[i])
        invariant
            from <= i,
            from <= s.len() ==> i <= s.len(),
            skip_whitespace(s@, i as int) == skip_whitespace(s@, from as int),
        decreases s.len() - i,
    {
        i += 1;
    }
    i
}

/// Tells whether `needle` stands in `haystack` at index `at`.
pub fn matches_at(haystack: &Vec<char>, needle: &Vec<char>, at: usize) -> (r: bool)
    ensures
        r == occurs_at(haystack@, needle@, at as int),
{
    if needle.len() > haystack.len() || at > haystack.len() - needle.len() {
        return false;
    }
    let mut k: usize = 0;
    while k < needle.len()
        invariant
            k <= needle.len(),
            at + needle.len() <= haystack.len(),
            forall|j: int| 0 <= j < k ==> haystack@[at + j] == needle@[j],
        decreases needle.len() - k,
    {
        if haystack[at + k] != needle[k] {
            assert(haystack@.subrange(at as int, at + needle.len())[k as int] != needle@[k as int]);
            return false;
        }
        k += 1;
    }
    assert(haystack@.subrange(at as int, at + needle.len()) =~= needle@);
    true
}

/// Tells whether `needle` stands somewhere in `haystack`.
pub fn find(haystack: &Vec<char>, needle: &Vec<char>) -> (r: bool)
    ensures
        r == contains(haystack@, needle@),
{
    if needle.len() > haystack.len() {
        return false;
    }
    let last: usize = haystack.len() - needle.len();
    let mut at: usize = 0;
    while at < last
        invariant
            at <= last,
            last == haystack.len() - needle.len(),
            forall|j: int| 0 <= j < at ==> !occurs_at(haystack@, needle@, j),
        decreases last - at,
    {
        if matches_at(haystack, needle, at) {
            return true;
        }
        at += 1;
    }
    matches_at(haystack, needle, last)
}

/// The one-character text of a decimal digit.
fn digit_text(d: usize) -> (r: &'static str)
    requires
        d < 10,
    ensures
        r@ == seq![digit(d as nat)],
{
    proof {
        reveal_strlit("0");
        reveal_strlit("1");
        reveal_strlit("2");
        reveal_strlit("3");
        reveal_strlit("4");
        reveal_strlit("5");
        reveal_strlit("6");
        reveal_strlit("7");
        reveal_strlit("8");
        reveal_strlit("9");
    }
    let r = if d == 0 {
        "0"
    } else if d == 1 {
        "1"
    } else if d == 2 {
        "2"
    } else if d == 3 {
        "3"
    } else if d == 4 {
        "4"
    } else if d == 5 {
        "5"
    } else if d == 6 {
        "6"
    } else if d == 7 {
        "7"
    } else if d == 8 {
        "8"
    } else {
        "9"
    };
    assert(r@ =~= seq![digit(d as nat)]);
    r
}

/// Appends `n` in decimal to `out`.
pub fn push_decimal(out: &mut String, n: usize)
    ensures
        final(out)@ == old(out)@ + decimal(n as nat),
    decreases n,
{
    if n >= 10 {
        push_decimal(out, n / 10);
    }
    out.append(digit_text(n % 10));
    assert(out@ =~= old(out)@ + decimal(n as nat));
}

} // verus!
