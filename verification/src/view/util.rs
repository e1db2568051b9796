//! Measuring and building the text the entities and widgets are drawn with:
//! height is a text's number of lines, width its widest line's character
//! count.
use vstd::prelude::*;
use vstd::std_specs::iter::IteratorSpec;
use vstd::string::StringExecFns;

verus! {

broadcast use vstd::string::axiom_spec_iter, vstd::string::next_postcondition;

/// Number of newline characters in `s`.
pub open spec fn newline_count(s: Seq<char>) -> int
    decreases s.len(),
{
    if s.len() == 0 {
        0
    } else {
        (if s[0] == '\n' {
            1int
        } else {
            0int
        }) + newline_count(s.drop_first())
    }
}

/// Number of lines in `s`, as `str::lines` counts them: the empty text has no
/// lines, and a trailing newline does not open a new one.
pub open spec fn line_count(s: Seq<char>) -> int {
    if s.len() == 0 {
        0
    } else if s[s.len() - 1] == '\n' {
        newline_count(s)
    } else {
        newline_count(s) + 1
    }
}

/// The larger of two lengths.
pub open spec fn len_max(a: int, b: int) -> int {
    if a > b {
        a
    } else {
        b
    }
}

/// The widest line's character count, scanning with the current line's length
/// so far in `cur`.
pub open spec fn max_line_len_from(s: Seq<char>, cur: int) -> int
    decreases s.len(),
{
    if s.len() == 0 {
        cur
    } else if s[0] == '\n' {
        len_max(cur, max_line_len_from(s.drop_first(), 0))
    } else {
        max_line_len_from(s.drop_first(), cur + 1)
    }
}

/// The widest line's character count.
pub open spec fn max_line_len(s: Seq<char>) -> int {
    max_line_len_from(s, 0)
}

/// Every character count is non-negative.
proof fn lemma_newline_count_nonneg(s: Seq<char>)
    ensures
        0 <= newline_count(s) <= s.len(),
    decreases s.len(),
{
    if s.len() > 0 {
        lemma_newline_count_nonneg(s.drop_first());
    }
}

/// Scanning a line can only lengthen the best-so-far count.
proof fn lemma_max_line_len_from_lower(s: Seq<char>, cur: int)
    ensures
        max_line_len_from(s, cur) >= cur,
    decreases s.len(),
{
    if s.len() > 0 {
        if s[0] == '\n' {
            lemma_max_line_len_from_lower(s.drop_first(), 0);
        } else {
            lemma_max_line_len_from_lower(s.drop_first(), cur + 1);
        }
    }
}

/// The number of lines in a text.
pub fn chars_height(s: &str) -> (r: u8)
    requires
        line_count(s@) < 256,
    ensures
        r as int == line_count(s@),
{
    let ghost slen = s@.len();
    proof {
        assert(s@.skip(0) =~= s@);
        lemma_newline_count_nonneg(s@);
    }
    let mut it = s.chars();
    let mut newlines: usize = 0;
    let mut last_newline: bool = false;
    let ghost mut i: int = 0;
    loop
        invariant
            slen == s@.len(),
            line_count(s@) < 256,
            newline_count(s@) <= 255,
            0 <= i <= slen,
            it.obeys_prophetic_iter_laws(),
            it.remaining() == s@.skip(i),
            newlines as int == newline_count(s@) - newline_count(s@.skip(i)),
            newlines <= 255,
            i > 0 ==> last_newline == (s@[i - 1] == '\n'),
        ensures
            newlines as int == newline_count(s@),
            newlines <= 255,
            s@.len() > 0 ==> last_newline == (s@[s@.len() - 1] == '\n'),
        decreases slen - i,
    {
        match it.next() {
            Some(c) => {
                proof {
                    assert(s@.skip(i).drop_first() =~= s@.skip(i + 1));
                    lemma_newline_count_nonneg(s@.skip(i + 1));
                }
                if c == '\n' {
                    newlines = newlines + 1;
                    last_newline = true;
                } else {
                    last_newline = false;
                }
                proof {
                    i = i + 1;
                }
            },
            None => {
                proof {
                    assert(s@.skip(i).len() == 0);
                    assert(i == slen);
                }
                break ;
            },
        }
    }
    if s.is_empty() {
        0
    } else if last_newline {
        newlines as u8
    } else {
        (newlines + 1) as u8
    }
}

/// The character count of a text's widest line.
pub fn chars_width(s: &str) -> (r: u8)
    requires
        max_line_len(s@) < 256,
    ensures
        r as int == max_line_len(s@),
{
    let ghost slen = s@.len();
    proof {
        assert(s@.skip(0) =~= s@);
        lemma_max_line_len_from_lower(s@, 0);
    }
    let mut it = s.chars();
    let mut best: usize = 0;
    let mut cur: usize = 0;
    let ghost mut i: int = 0;
    loop
        invariant
            slen == s@.len(),
            max_line_len(s@) < 256,
            0 <= i <= slen,
            it.obeys_prophetic_iter_laws(),
            it.remaining() == s@.skip(i),
            max_line_len(s@) == len_max(best as int, max_line_len_from(s@.skip(i), cur as int)),
            cur <= 255,
            best <= 255,
        ensures
            max_line_len(s@) == len_max(best as int, cur as int),
            cur <= 255,
            best <= 255,
        decreases slen - i,
    {
        match it.next() {
            Some(c) => {
                proof {
                    assert(s@.skip(i).drop_first() =~= s@.skip(i + 1));
                }
                if c == '\n' {
                    if cur > best {
                        best = cur;
                    }
                    cur = 0;
                    proof {
                        lemma_max_line_len_from_lower(s@.skip(i + 1), 0);
                    }
                } else {
                    proof {
                        lemma_max_line_len_from_lower(s@.skip(i + 1), cur + 1);
                    }
                    cur = cur + 1;
                }
                proof {
                    i = i + 1;
                }
            },
            None => {
                proof {
                    assert(s@.skip(i).len() == 0);
                }
                break ;
            },
        }
    }
    if best > cur {
        best as u8
    } else {
        cur as u8
    }
}

/// Relies on `String`'s `FromIterator` over characters: the collected string
/// holds exactly the given characters in order.
#[verifier::external_body]
pub(crate) fn string_from_chars(chars: &Vec<char>) -> (r: String)
    ensures
        r@ == chars@,
{
    chars.iter().collect()
}

/// A string of `count` copies of one character, as the gauge widgets draw
/// their filled and empty cells.
pub fn repeated(part: char, count: usize) -> (r: String)
    ensures
        r@ == Seq::new(count as nat, |i: int| part),
{
    let mut cells: Vec<char> = Vec::new();
    let mut filled: usize = 0;
    while filled < count
        invariant
            filled <= count,
            cells@ =~= Seq::new(filled as nat, |i: int| part),
        decreases count - filled,
    {
        cells.push(part);
        filled = filled + 1;
        proof {
            assert(cells@ =~= Seq::new(filled as nat, |i: int| part));
        }
    }
    string_from_chars(&cells)
}

/// The decimal digits of a non-negative number, most significant first.
pub open spec fn dec_digits(n: int) -> Seq<char>
    decreases n,
{
    if n < 10 {
        seq![spec_digit(if 0 <= n < 10 {
            n
        } else {
            0
        })]
    } else {
        dec_digits(n / 10) + seq![spec_digit(n % 10)]
    }
}

/// The character of one decimal digit.
pub open spec fn spec_digit(d: int) -> char {
    if d == 0 {
        '0'
    } else if d == 1 {
        '1'
    } else if d == 2 {
        '2'
    } else if d == 3 {
        '3'
    } else if d == 4 {
        '4'
    } else if d == 5 {
        '5'
    } else if d == 6 {
        '6'
    } else if d == 7 {
        '7'
    } else if d == 8 {
        '8'
    } else {
        '9'
    }
}

fn digit_str(d: u32) -> (r: &'static str)
    requires
        d < 10,
    ensures
        r@ =~= seq![spec_digit(d as int)],
{
    proof {
        reveal_strlit("0");
        reveal_strlit("1");
        reveal_strlit("2");
        reveal_strlit("3");
        reveal_strlit("4");
        reveal_strlit("5");
        reveal_strlit("6");
        reveal_strlit("7");
        reveal_strlit("8");
        reveal_strlit("9");
    }
    match d {
        0 => "0",
        1 => "1",
        2 => "2",
        3 => "3",
        4 => "4",
        5 => "5",
        6 => "6",
        7 => "7",
        8 => "8",
        _ => "9",
    }
}

/// Powers of ten.
pub open spec fn pow10(k: nat) -> int
    decreases k,
{
    if k == 0 {
        1
    } else {
        10 * pow10((k - 1) as nat)
    }
}

/// A number below the k-th power of ten has at most k decimal digits, and
/// every number has at least one.
pub proof fn lemma_dec_digits_len(n: int, k: nat)
    requires
        0 <= n < pow10(k),
        k >= 1,
    ensures
        1 <= dec_digits(n).len() <= k,
    decreases k,
{
    if n >= 10 {
        if k == 1 {
            assert(pow10(1) == 10);
        }
        vstd::arithmetic::div_mod::lemma_fundamental_div_mod(n, 10);
        assert(n / 10 < pow10((k - 1) as nat)) by (nonlinear_arith)
            requires
                10 * (n / 10) <= n,
                n < 10 * pow10((k - 1) as nat),
        ;
        lemma_dec_digits_len(n / 10, (k - 1) as nat);
    }
}

/// A non-negative number in decimal notation.
pub fn format_u32(value: u32) -> (r: String)
    ensures
        r@ == dec_digits(value as int),
    decreases value,
{
    if value < 10 {
        let mut s = String::new();
        s.append(digit_str(value));
        s
    } else {
        proof {
            vstd::arithmetic::div_mod::lemma_div_is_ordered_by_denominator(value as int, 1, 10);
        }
        let mut s = format_u32(value / 10);
        s.append(digit_str(value % 10));
        s
    }
}

} // verus!
