//! Text building blocks: decimal digits, whitespace trimming and line joining.

use vstd::prelude::*;
use vstd::string::*;

verus! {

/// The character of a decimal digit.
pub open spec fn digit_char(d: nat) -> char {
    ((48 + d) as u8) as char
}

/// The decimal numeral of `n`, without leading zeros.
pub open spec fn decimal(n: nat) -> Seq<char>
    decreases n,
{
    if n < 10 {
        seq![digit_char(n)]
    } else {
        decimal(n / 10).push(digit_char(n % 10))
    }
}

/// The last `width` decimal digits of `n`, zero-padded on the left.
pub open spec fn fixed_digits(n: nat, width: nat) -> Seq<char>
    decreases width,
{
    if width == 0 {
        Seq::empty()
    } else {
        fixed_digits(n / 10, (width - 1) as nat).push(digit_char(n % 10))
    }
}

/// Appends one character to a string.
#[verifier::external_body]
pub(crate) fn push_char(s: &mut String, c: char)
    ensures
        final(s)@ == old(s)@.push(c),
{
    s.push(c)
}

fn digit(d: u32) -> (c: char)
    requires
        d < 10,
    ensures
        c == digit_char(d as nat),
{
    ((48 + d) as u8) as char
}

/// Appends the decimal numeral of `n`.
pub fn push_decimal(out: &mut String, n: u32)
    ensures
        final(out)@ == old(out)@ + decimal(n as nat),
    decreases n,
{
    if n >= 10 {
        push_decimal(out, n / 10);
    }
    push_char(out, digit(n % 10));
}


/// Appends the last `width` decimal digits of `n`, zero-padded on the left.
pub fn push_fixed_digits(out: &mut String, n: u32, width: u32)
    ensures
        final(out)@ == old(out)@ + fixed_digits(n as nat, width as nat),
    decreases width,
{
    if width > 0 {
        push_fixed_digits(out, n / 10, width - 1);
        push_char(out, digit(n % 10));
    }
}

/// The decimal numeral of `n` as a new string.
pub fn decimal_string(n: u32) -> (s: String)
    ensures
        s@ == decimal(n as nat),
{
    let mut s = String::new();
    push_decimal(&mut s, n);
    s
}

/// Whether `c` has the Unicode `White_Space` property: the controls from tab to
/// carriage return (U+0009..U+000D), space, next line (U+0085), no-break space
/// (U+00A0), Ogham space mark (U+1680), the spaces U+2000..U+200A, the line and
/// paragraph separators (U+2028, U+2029), narrow no-break space (U+202F), medium
/// mathematical space (U+205F) and ideographic space (U+3000).
pub open spec fn white_space(c: char) -> bool {
    let v = c as u32;
    ||| 0x9 <= v <= 0xd
    ||| v == 0x20
    ||| v == 0x85
    ||| v == 0xa0
    ||| v == 0x1680
    ||| 0x2000 <= v <= 0x200a
    ||| v == 0x2028
    ||| v == 0x2029
    ||| v == 0x202f
    ||| v == 0x205f
    ||| v == 0x3000
}

/// Whether `c` is whitespace, as `char::is_whitespace` decides it.
fn is_whitespace(c: char) -> (b: bool)
    ensures
        b == white_space(c),
{
    let v = c as u32;
    (0x9 <= v && v <= 0xd) || v == 0x20 || v == 0x85 || v == 0xa0 || v == 0x1680 || (0x2000 <= v && v
        <= 0x200a) || v == 0x2028 || v == 0x2029 || v == 0x202f || v == 0x205f || v == 0x3000
}

/// `s` without its trailing whitespace.
pub open spec fn trim_end_spec(s: Seq<char>) -> Seq<char>
    decreases s.len(),
{
    if s.len() > 0 && white_space(s.last()) {
        trim_end_spec(s.drop_last())
    } else {
        s
    }
}

/// `s` without its leading whitespace.
pub open spec fn trim_start_spec(s: Seq<char>) -> Seq<char>
    decreases s.len(),
{
    if s.len() > 0 && white_space(s.first()) {
        trim_start_spec(s.drop_first())
    } else {
        s
    }
}

/// `s` without leading and trailing whitespace.
pub open spec fn trim_spec(s: Seq<char>) -> Seq<char> {
    trim_start_spec(trim_end_spec(s))
}

proof fn lemma_trim_end_prefix(s: Seq<char>, end: int)
    requires
        0 <= end <= s.len(),
        forall|i: int| end <= i < s.len() ==> white_space(#[trigger] s[i]),
    ensures
        trim_end_spec(s) == trim_end_spec(s.subrange(0, end)),
    decreases s.len(),
{
    if end < s.len() {
        assert(s.drop_last() =~= s.subrange(0, s.len() - 1));
        lemma_trim_end_prefix(s.drop_last(), end);
        assert(s.drop_last().subrange(0, end) =~= s.subrange(0, end));
    } else {
        assert(s.subrange(0, end) =~= s);
    }
}

proof fn lemma_trim_start_suffix(s: Seq<char>, start: int)
    requires
        0 <= start <= s.len(),
        forall|i: int| 0 <= i < start ==> white_space(#[trigger] s[i]),
    ensures
        trim_start_spec(s) == trim_start_spec(s.subrange(start, s.len() as int)),
    decreases start,
{
    if start > 0 {
        lemma_trim_start_suffix(s.drop_first(), start - 1);
        assert(s.drop_first().subrange(start - 1, s.len() - 1) =~= s.subrange(start, s.len() as int));
    } else {
        assert(s.subrange(0, s.len() as int) =~= s);
    }
}

/// Trimming the end removes exactly the trailing whitespace: what is left is a prefix
/// of the text, everything removed is whitespace, and what is left does not end in
/// whitespace. Trimming twice is trimming once.
pub proof fn trim_end_removes_trailing_whitespace(s: Seq<char>)
    ensures
        trim_end_spec(s).len() <= s.len(),
        trim_end_spec(s) == s.subrange(0, trim_end_spec(s).len() as int),
        forall|i: int| trim_end_spec(s).len() <= i < s.len() ==> white_space(#[trigger] s[i]),
        trim_end_spec(s).len() > 0 ==> !white_space(trim_end_spec(s).last()),
        trim_end_spec(trim_end_spec(s)) == trim_end_spec(s),
    decreases s.len(),
{
    if s.len() > 0 && white_space(s.last()) {
        trim_end_removes_trailing_whitespace(s.drop_last());
        let t = trim_end_spec(s.drop_last());
        assert(s.drop_last().subrange(0, t.len() as int) =~= s.subrange(0, t.len() as int));
        assert forall|i: int| t.len() <= i < s.len() implies white_space(#[trigger] s[i]) by {
            if i < s.len() - 1 {
                assert(s[i] == s.drop_last()[i]);
            }
        }
    } else {
        assert(s.subrange(0, s.len() as int) =~= s);
    }
}

/// `str::trim_end`: `s` with trailing whitespace removed.
pub fn trim_end(s: &str) -> (r: &str)
    ensures
        r@ == trim_end_spec(s@),
{
    let n = s.unicode_len();
    let mut end: usize = n;
    while end > 0 && is_whitespace(s.get_char(end - 1))
        invariant
            n == s@.len(),
            end <= n,
            forall|i: int| end <= i < n ==> white_space(#[trigger] s@[i]),
        decreases end,
    {
        end = end - 1;
    }
    proof {
        lemma_trim_end_prefix(s@, end as int);
        let t = s@.subrange(0, end as int);
        if t.len() > 0 {
            assert(t.last() == s@[end - 1]);
        }
    }
    s.substring_char(0, end)
}

/// `str::trim_start`: `s` with leading whitespace removed.
pub fn trim_start(s: &str) -> (r: &str)
    ensures
        r@ == trim_start_spec(s@),
{
    let n = s.unicode_len();
    let mut start: usize = 0;
    while start < n && is_whitespace(s.get_char(start))
        invariant
            n == s@.len(),
            start <= n,
            forall|i: int| 0 <= i < start ==> white_space(#[trigger] s@[i]),
        decreases n - start,
    {
        start = start + 1;
    }
    proof {
        lemma_trim_start_suffix(s@, start as int);
        let t = s@.subrange(start as int, n as int);
        if t.len() > 0 {
            assert(t.first() == s@[start as int]);
        }
    }
    s.substring_char(start, n)
}

/// `str::trim`: `s` with leading and trailing whitespace removed.
pub fn trim(s: &str) -> (r: &str)
    ensures
        r@ == trim_spec(s@),
{
    trim_start(trim_end(s))
}


/// The lines joined with a newline between each two of them.
pub open spec fn join_lines_spec(lines: Seq<Seq<char>>) -> Seq<char>
    decreases lines.len(),
{
    if lines.len() == 0 {
        Seq::empty()
    } else if lines.len() == 1 {
        lines[0]
    } else {
        join_lines_spec(lines.drop_last()) + seq!['\n'] + lines.last()
    }
}

/// The views of a vector of strings.
pub open spec fn string_views(v: Seq<String>) -> Seq<Seq<char>> {
    v.map_values(|s: String| s@)
}

/// Joins the lines with `"\n"` between each two of them, as `[..].join("\n")` does.
pub fn join_lines(lines: &Vec<String>) -> (r: String)
    ensures
        r@ == join_lines_spec(string_views(lines@)),
{
    let mut r = String::new();
    let n = lines.len();
    let mut i: usize = 0;
    while i < n
        invariant
            n == lines@.len(),
            i <= n,
            r@ == join_lines_spec(string_views(lines@.subrange(0, i as int))),
        decreases n - i,
    {
        let ghost prev = string_views(lines@.subrange(0, i as int));
        if i > 0 {
            push_char(&mut r, '\n');
        }
        r.append(lines[i].as_str());
        proof {
            let next = string_views(lines@.subrange(0, i + 1));
            assert(next.drop_last() =~= prev);
            assert(next.last() == lines@[i as int]@);
            if i == 0 {
                assert(next =~= seq![lines@[0]@]);
            }
        }
        i = i + 1;
    }
    assert(lines@.subrange(0, n as int) =~= lines@);
    r
}

/// The character of a lower-case hexadecimal digit.
pub open spec fn hex_digit_char(d: nat) -> char {
    if d < 10 {
        digit_char(d)
    } else {
        ((87 + d) as u8) as char
    }
}

/// The last `width` hexadecimal digits of `n` (lower case), zero-padded on the left.
pub open spec fn fixed_hex(n: nat, width: nat) -> Seq<char>
    decreases width,
{
    if width == 0 {
        Seq::empty()
    } else {
        fixed_hex(n / 16, (width - 1) as nat).push(hex_digit_char(n % 16))
    }
}

fn hex_digit(d: u32) -> (c: char)
    requires
        d < 16,
    ensures
        c == hex_digit_char(d as nat),
{
    if d < 10 {
        digit(d)
    } else {
        ((87 + d) as u8) as char
    }
}

/// Appends the last `width` lower-case hexadecimal digits of `n`, as `{:0width$x}` does for
/// values below `16^width`.
pub fn push_fixed_hex(out: &mut String, n: u32, width: u32)
    ensures
        final(out)@ == old(out)@ + fixed_hex(n as nat, width as nat),
    decreases width,
{
    if width > 0 {
        push_fixed_hex(out, n / 16, width - 1);
        push_char(out, hex_digit(n % 16));
    }
}

} // verus!
