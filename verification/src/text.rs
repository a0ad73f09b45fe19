//! Text: the pieces a status line, a title or a row's name is made of.
use vstd::prelude::*;

verus! {

/// How many bytes a row's name takes at most in a project file.
pub const MAX_NAME_BYTES: usize = 32;

/// The decimal digit of a number below ten.
pub open spec fn digit(n: nat) -> char {
    (('0' as u32) + n) as char
}

/// A number written in decimal, without leading zeros.
pub open spec fn decimal(n: nat) -> Seq<char>
    decreases n,
{
    if n < 10 {
        seq![digit(n)]
    } else {
        decimal(n / 10).push(digit(n % 10))
    }
}

/// How many bytes a character takes in UTF-8.
pub open spec fn char_bytes(c: char) -> nat {
    let code = c as u32;
    if code < 0x80 {
        1
    } else if code < 0x800 {
        2
    } else if code < 0x10000 {
        3
    } else {
        4
    }
}

/// How many bytes a text takes in UTF-8.
pub open spec fn text_bytes(s: Seq<char>) -> nat
    decreases s.len(),
{
    if s.len() == 0 {
        0
    } else {
        text_bytes(s.drop_last()) + char_bytes(s.last())
    }
}

/// How many characters of `s`, counted from its start, fit a row's name.
pub open spec fn fitting_chars(s: Seq<char>) -> nat
    decreases s.len(),
{
    if text_bytes(s) <= MAX_NAME_BYTES {
        s.len()
    } else {
        fitting_chars(s.drop_last())
    }
}

/// The longest start of `s` that fits a row's name.
pub open spec fn fitting(s: Seq<char>) -> Seq<char> {
    s.take(fitting_chars(s) as int)
}

/// Whether a character has the Unicode property `White_Space`: the tab and what
/// breaks a line, the space, the spaces of a fixed width, and the separators of
/// lines and paragraphs.
pub open spec fn is_blank(c: char) -> bool {
    let code = c as u32;
    ||| 0x9 <= code <= 0xd
    ||| code == 0x20
    ||| code == 0x85
    ||| code == 0xa0
    ||| code == 0x1680
    ||| 0x2000 <= code <= 0x200a
    ||| 0x2028 <= code <= 0x2029
    ||| code == 0x202f
    ||| code == 0x205f
    ||| code == 0x3000
}

/// Whether a character is white space.
pub fn blank(c: char) -> (b: bool)
    ensures
        b == is_blank(c),
{
    let code: u32 = c as u32;
    (0x9 <= code && code <= 0xd) || code == 0x20 || code == 0x85 || code == 0xa0 || code == 0x1680
        || (0x2000 <= code && code <= 0x200a) || (0x2028 <= code && code <= 0x2029) || code
        == 0x202f || code == 0x205f || code == 0x3000
}

/// A text without the white space at its end.
pub open spec fn trimmed_end(s: Seq<char>) -> Seq<char>
    decreases s.len(),
{
    if s.len() > 0 && is_blank(s.last()) {
        trimmed_end(s.drop_last())
    } else {
        s
    }
}

/// A text without the white space at its start.
pub open spec fn trimmed_start(s: Seq<char>) -> Seq<char>
    decreases s.len(),
{
    if s.len() > 0 && is_blank(s[0]) {
        trimmed_start(s.drop_first())
    } else {
        s
    }
}

/// A text without the white space at either end.
pub open spec fn trimmed(s: Seq<char>) -> Seq<char> {
    trimmed_end(trimmed_start(s))
}

/// Writes a number in decimal.
pub fn write_decimal(n: u64) -> (r: String)
    ensures
        r@ == decimal(n as nat),
    decreases n,
{
    if n < 10 {
        write_digit(n)
    } else {
        let head: String = write_decimal(n / 10);
        let last: String = write_digit(n % 10);
        let r = head.concat(last.as_str());
        assert(r@ =~= decimal(n as nat));
        r
    }
}

/// Writes a single digit.
fn write_digit(n: u64) -> (r: String)
    requires
        n < 10,
    ensures
        r@ == seq![digit(n as nat)],
{
    let s: &str = match n {
        0 => "0",
        1 => "1",
        2 => "2",
        3 => "3",
        4 => "4",
        5 => "5",
        6 => "6",
        7 => "7",
        8 => "8",
        _ => "9",
    };
    proof {
        reveal_strlit("0");
        reveal_strlit("1");
        reveal_strlit("2");
        reveal_strlit("3");
        reveal_strlit("4");
        reveal_strlit("5");
        reveal_strlit("6");
        reveal_strlit("7");
        reveal_strlit("8");
        reveal_strlit("9");
    }
    assert(s@ =~= seq![digit(n as nat)]);
    String::from_str(s)
}

/// Counts the bytes of one character.
fn count_char_bytes(c: char) -> (n: usize)
    ensures
        n == char_bytes(c),
{
    let code: u32 = c as u32;
    if code < 0x80 {
        1
    } else if code < 0x800 {
        2
    } else if code < 0x10000 {
        3
    } else {
        4
    }
}

proof fn lemma_bytes_grow(s: Seq<char>, n: int)
    requires
        0 <= n <= s.len(),
    ensures
        text_bytes(s.take(n)) <= text_bytes(s),
        text_bytes(s.take(n)) >= n,
    decreases s.len(),
{
    if n == s.len() {
        assert(s.take(n) =~= s);
        if n > 0 {
            lemma_bytes_grow(s.drop_last(), n - 1);
            assert(s.drop_last().take(n - 1) =~= s.drop_last());
        }
    } else {
        lemma_bytes_grow(s.drop_last(), n);
        assert(s.drop_last().take(n) =~= s.take(n));
    }
}

/// The start of `s` that ends before the first character which does not fit is
/// the one `fitting_chars` counts.
proof fn lemma_fitting_from_the_start(s: Seq<char>, n: int)
    requires
        0 <= n <= s.len(),
        text_bytes(s.take(n)) <= MAX_NAME_BYTES,
        n == s.len() || text_bytes(s.take(n + 1)) > MAX_NAME_BYTES,
    ensures
        fitting_chars(s) == n,
    decreases s.len(),
{
    if n == s.len() {
        assert(s.take(n) =~= s);
    } else {
        lemma_bytes_grow(s, n + 1);
        assert(text_bytes(s) > MAX_NAME_BYTES);
        let shorter = s.drop_last();
        assert(shorter.take(n) =~= s.take(n));
        if n < shorter.len() {
            assert(shorter.take(n + 1) =~= s.take(n + 1));
        }
        lemma_fitting_from_the_start(shorter, n);
    }
}

/// The longest start of a text that a row's name can hold, cut between two
/// characters.
pub fn name_that_fits(s: &str) -> (r: String)
    ensures
        r@ == fitting(s@),
{
    let count: usize = s.unicode_len();
    let mut n: usize = 0;
    let mut bytes: usize = 0;
    while n < count
        invariant_except_break
            text_bytes(s@.take(n as int)) == bytes,
        invariant
            n <= count,
            count == s@.len(),
            bytes <= MAX_NAME_BYTES,
        ensures
            text_bytes(s@.take(n as int)) <= MAX_NAME_BYTES,
            n == s@.len() || text_bytes(s@.take(n + 1)) > MAX_NAME_BYTES,
        decreases count - n,
    {
        let width: usize = count_char_bytes(s.get_char(n));
        assert(s@.take(n + 1).drop_last() =~= s@.take(n as int));
        if bytes + width > MAX_NAME_BYTES {
            break;
        }
        bytes = bytes + width;
        n = n + 1;
    }
    proof {
        lemma_fitting_from_the_start(s@, n as int);
    }
    let kept: &str = s.substring_char(0, n);
    assert(kept@ =~= s@.take(n as int));
    String::from_str(kept)
}

proof fn lemma_trimmed_start(s: Seq<char>, n: int)
    requires
        0 <= n <= s.len(),
        forall|i: int| 0 <= i < n ==> is_blank(#[trigger] s[i]),
        n == s.len() || !is_blank(s[n]),
    ensures
        trimmed_start(s) == s.skip(n),
    decreases n,
{
    if n == 0 {
        assert(s.skip(0) =~= s);
    } else {
        let rest = s.drop_first();
        assert(is_blank(s[0]));
        assert forall|i: int| 0 <= i < n - 1 implies is_blank(#[trigger] rest[i]) by {
            assert(is_blank(s[i + 1]));
        }
        lemma_trimmed_start(rest, n - 1);
        assert(rest.skip(n - 1) =~= s.skip(n));
    }
}

proof fn lemma_trimmed_end(s: Seq<char>, n: int)
    requires
        0 <= n <= s.len(),
        forall|i: int| n <= i < s.len() ==> is_blank(#[trigger] s[i]),
        n == 0 || !is_blank(s[n - 1]),
    ensures
        trimmed_end(s) == s.take(n),
    decreases s.len(),
{
    if n == s.len() {
        assert(s.take(n) =~= s);
    } else {
        let rest = s.drop_last();
        assert(is_blank(s.last()));
        lemma_trimmed_end(rest, n);
        assert(rest.take(n) =~= s.take(n));
    }
}

/// What is left of a text without the white space at its end is a start of it
/// that does not end in white space.
pub proof fn lemma_trimming_an_end(s: Seq<char>)
    ensures
        trimmed_end(s).len() <= s.len(),
        trimmed_end(s) == s.take(trimmed_end(s).len() as int),
        trimmed_end(s).len() > 0 ==> !is_blank(trimmed_end(s).last()),
        text_bytes(trimmed_end(s)) <= text_bytes(s),
    decreases s.len(),
{
    if s.len() > 0 && is_blank(s.last()) {
        let shorter = s.drop_last();
        lemma_trimming_an_end(shorter);
        let n = trimmed_end(s).len() as int;
        assert(shorter.take(n) =~= s.take(n));
    } else {
        assert(s.take(s.len() as int) =~= s);
    }
}

/// The text without the white space at its end.
pub fn trim_end(s: &str) -> (r: String)
    ensures
        r@ == trimmed_end(s@),
{
    let count: usize = s.unicode_len();
    let mut n: usize = count;
    while n > 0 && blank(s.get_char(n - 1))
        invariant
            n <= count,
            count == s@.len(),
            forall|i: int| n <= i < s@.len() ==> is_blank(#[trigger] s@[i]),
        ensures
            n == 0 || !is_blank(s@[n - 1]),
        decreases n,
    {
        n = n - 1;
    }
    proof {
        lemma_trimmed_end(s@, n as int);
    }
    let kept: &str = s.substring_char(0, n);
    assert(kept@ =~= s@.take(n as int));
    String::from_str(kept)
}

/// The text without the white space at either end.
pub fn trim(s: &str) -> (r: String)
    ensures
        r@ == trimmed(s@),
{
    let count: usize = s.unicode_len();
    let mut n: usize = 0;
    while n < count && blank(s.get_char(n))
        invariant
            n <= count,
            count == s@.len(),
            forall|i: int| 0 <= i < n ==> is_blank(#[trigger] s@[i]),
        ensures
            n == s@.len() || !is_blank(s@[n as int]),
        decreases count - n,
    {
        n = n + 1;
    }
    proof {
        lemma_trimmed_start(s@, n as int);
    }
    let rest: &str = s.substring_char(n, count);
    assert(rest@ =~= s@.skip(n as int));
    trim_end(rest)
}

/// Whether two texts are the same.
pub fn same_text(a: &str, b: &str) -> (r: bool)
    ensures
        r == (a@ == b@),
{
    let x: String = String::from_str(a);
    let y: String = String::from_str(b);
    x == y
}

proof fn lemma_fitting_is_a_start(s: Seq<char>)
    ensures
        fitting_chars(s) <= s.len(),
    decreases s.len(),
{
    if text_bytes(s) > MAX_NAME_BYTES {
        lemma_fitting_is_a_start(s.drop_last());
    }
}

/// A name cut to fit fits, starts as the text did, and stops only where the next
/// character would no longer have fitted.
pub proof fn a_fitting_name_is_the_longest_that_fits(s: Seq<char>)
    ensures
        text_bytes(fitting(s)) <= MAX_NAME_BYTES,
        fitting(s).len() <= s.len(),
        forall|n: int|
            fitting(s).len() < n <= s.len() ==> text_bytes(#[trigger] s.take(n)) > MAX_NAME_BYTES,
    decreases s.len(),
{
    if text_bytes(s) <= MAX_NAME_BYTES {
        assert(s.take(s.len() as int) =~= s);
    } else {
        let shorter = s.drop_last();
        a_fitting_name_is_the_longest_that_fits(shorter);
        lemma_fitting_is_a_start(shorter);
        assert(fitting(shorter) =~= fitting(s));
        assert forall|n: int| fitting(s).len() < n <= s.len() implies text_bytes(
            #[trigger] s.take(n),
        ) > MAX_NAME_BYTES by {
            if n == s.len() {
                assert(s.take(n) =~= s);
            } else {
                assert(shorter.take(n) =~= s.take(n));
            }
        }
    }
}

/// A text that fits a row's name is kept as it is, so cutting a name twice cuts
/// it once.
pub proof fn fitting_twice_is_fitting_once(s: Seq<char>)
    ensures
        text_bytes(s) <= MAX_NAME_BYTES ==> fitting(s) == s,
        fitting(fitting(s)) == fitting(s),
{
    a_fitting_name_is_the_longest_that_fits(s);
    assert(s.take(s.len() as int) =~= s);
    let once = fitting(s);
    assert(once.take(once.len() as int) =~= once);
}

} // verus!
