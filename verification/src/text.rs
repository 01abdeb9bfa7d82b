//! Reading the text of cgroup control files: line splitting, whitespace
//! trimming and decimal integer parsing, with the meaning that Rust's
//! `str::lines`, `str::trim` and `i32::from_str` give them.
use vstd::prelude::*;
use crate::decimal::{decimal, digit_char, signed_decimal};

verus! {

/// The characters of `s`, in order.
pub fn chars_of(s: &str) -> (v: Vec<char>)
    ensures
        v@ == s@,
{
    let mut v: Vec<char> = Vec::new();
    for c in it: s.chars()
        invariant
            v@ == it.seq().take(it.index() as int),
            it.seq() == s@,
    {
        v.push(c);
    }
    v
}


/// Whether `c` is white space as `char::is_whitespace` decides it: the
/// characters with Unicode's `White_Space` property.
pub open spec fn is_white_space(c: char) -> bool {
    let u = c as int;
    ||| 9 <= u <= 13
    ||| u == 0x20
    ||| u == 0x85
    ||| u == 0xA0
    ||| u == 0x1680
    ||| 0x2000 <= u <= 0x200A
    ||| u == 0x2028
    ||| u == 0x2029
    ||| u == 0x202F
    ||| u == 0x205F
    ||| u == 0x3000
}

/// `s` without its leading white space.
pub open spec fn trim_start(s: Seq<char>) -> Seq<char>
    decreases s.len(),
{
    if s.len() > 0 && is_white_space(s[0]) {
        trim_start(s.drop_first())
    } else {
        s
    }
}

/// `s` without its trailing white space.
pub open spec fn trim_end(s: Seq<char>) -> Seq<char>
    decreases s.len(),
{
    if s.len() > 0 && is_white_space(s.last()) {
        trim_end(s.drop_last())
    } else {
        s
    }
}

/// `s` without leading and trailing white space (`str::trim`).
pub open spec fn trim(s: Seq<char>) -> Seq<char> {
    trim_end(trim_start(s))
}

/// Whether `c` is one of the ASCII digits `0` to `9`.
pub open spec fn is_digit(c: char) -> bool {
    48 <= (c as int) <= 57
}

/// The value of the digit `c`.
pub open spec fn digit_value(c: char) -> int {
    (c as int) - 48
}

/// Whether every character of `ds` is a digit.
pub open spec fn all_digits(ds: Seq<char>) -> bool {
    forall|i: int| 0 <= i < ds.len() ==> #[trigger] is_digit(ds[i])
}

/// The number that the digits `ds` denote in base ten (0 for no digits).
pub open spec fn digits_value(ds: Seq<char>) -> int
    decreases ds.len(),
{
    if ds.len() == 0 {
        0
    } else {
        digits_value(ds.drop_last()) * 10 + digit_value(ds.last())
    }
}

/// What `i32::from_str` gives for `s`: an optional `+` or `-` sign followed by
/// at least one decimal digit and nothing else, denoting a value in the range
/// of `i32`; `None` for any other text.
pub open spec fn parse_i32(s: Seq<char>) -> Option<i32> {
    let negative = s.len() > 0 && s[0] == '-';
    let signed = s.len() > 0 && (s[0] == '-' || s[0] == '+');
    let ds = if signed {
        s.drop_first()
    } else {
        s
    };
    let v = if negative {
        -digits_value(ds)
    } else {
        digits_value(ds)
    };
    if ds.len() == 0 || !all_digits(ds) {
        None
    } else if i32::MIN <= v <= i32::MAX {
        Some(v as i32)
    } else {
        None
    }
}

/// The position of the first line feed of `s`, or its length when it has none.
pub open spec fn newline_pos(s: Seq<char>) -> nat
    decreases s.len(),
{
    if s.len() == 0 {
        0
    } else if s[0] == '\n' {
        0
    } else {
        1 + newline_pos(s.drop_first())
    }
}

/// A line that was ended by a line feed, without the carriage return that
/// may precede the line feed.
pub open spec fn strip_cr(l: Seq<char>) -> Seq<char> {
    if l.len() > 0 && l.last() == '\r' {
        l.drop_last()
    } else {
        l
    }
}

/// The lines of `s` as `str::lines` yields them: split at each line feed,
/// a carriage return before a line feed dropped, and no empty last line after
/// a final line feed.
pub open spec fn lines(s: Seq<char>) -> Seq<Seq<char>>
    decreases s.len(),
{
    if s.len() == 0 {
        seq![]
    } else {
        let k = newline_pos(s);
        if k >= s.len() {
            seq![s]
        } else {
            seq![strip_cr(s.take(k as int))] + lines(s.skip(k as int + 1))
        }
    }
}

/// The number that a line holds, if its trimmed text parses as an `i32`.
pub open spec fn line_number(l: Seq<char>) -> Option<i32> {
    parse_i32(trim(l))
}

/// The numbers of those lines of `ls` that hold one, in order.
pub open spec fn numbers_in(ls: Seq<Seq<char>>) -> Seq<i32>
    decreases ls.len(),
{
    if ls.len() == 0 {
        seq![]
    } else {
        let rest = numbers_in(ls.drop_first());
        match line_number(ls[0]) {
            Some(n) => seq![n] + rest,
            None => rest,
        }
    }
}

/// The numbers listed one per line in `s`; lines that do not hold an `i32`
/// are passed over.
pub open spec fn listed_numbers(s: Seq<char>) -> Seq<i32> {
    numbers_in(lines(s))
}

/// Whether `c` is white space (`char::is_whitespace`).
pub fn is_white_space_char(c: char) -> (b: bool)
    ensures
        b == is_white_space(c),
{
    ('\u{9}' <= c && c <= '\u{d}') || c == ' ' || c == '\u{85}' || c == '\u{a0}' || c
        == '\u{1680}' || ('\u{2000}' <= c && c <= '\u{200a}') || c == '\u{2028}' || c
        == '\u{2029}' || c == '\u{202f}' || c == '\u{205f}' || c == '\u{3000}'
}

/// The value of the digit `c`.
fn digit_of(c: char) -> (d: u64)
    requires
        is_digit(c),
    ensures
        d == digit_value(c),
{
    match c {
        '0' => 0,
        '1' => 1,
        '2' => 2,
        '3' => 3,
        '4' => 4,
        '5' => 5,
        '6' => 6,
        '7' => 7,
        '8' => 8,
        _ => 9,
    }
}

/// The bounds of the trimmed text of `v[a..b]`.
fn trim_bounds(v: &Vec<char>, a: usize, b: usize) -> (r: (usize, usize))
    requires
        a <= b <= v@.len(),
    ensures
        a <= r.0 <= r.1 <= b,
        v@.subrange(r.0 as int, r.1 as int) == trim(v@.subrange(a as int, b as int)),
{
    let mut lo = a;
    while lo < b && is_white_space_char(v[lo])
        invariant
            a <= lo <= b <= v@.len(),
            trim_start(v@.subrange(a as int, b as int)) == trim_start(
                v@.subrange(lo as int, b as int),
            ),
        decreases b - lo,
    {
        assert(v@.subrange(lo as int, b as int).drop_first() =~= v@.subrange(
            lo + 1,
            b as int,
        ));
        lo = lo + 1;
    }
    let mut hi = b;
    while hi > lo && is_white_space_char(v[hi - 1])
        invariant
            a <= lo <= hi <= b <= v@.len(),
            trim_end(v@.subrange(lo as int, b as int)) == trim_end(
                v@.subrange(lo as int, hi as int),
            ),
        decreases hi - lo,
    {
        assert(v@.subrange(lo as int, hi as int).drop_last() =~= v@.subrange(
            lo as int,
            hi - 1,
        ));
        hi = hi - 1;
    }
    (lo, hi)
}

proof fn lemma_digits_value_monotone(ds: Seq<char>, k: int)
    requires
        all_digits(ds),
        0 <= k <= ds.len(),
    ensures
        0 <= digits_value(ds.take(k)) <= digits_value(ds),
    decreases ds.len(),
{
    if ds.len() == 0 {
        assert(ds.take(k) =~= ds);
    } else if k == ds.len() {
        assert(ds.take(k) =~= ds);
        lemma_digits_value_monotone(ds.drop_last(), k - 1);
        assert(is_digit(ds[ds.len() - 1]));
    } else {
        let d = ds.drop_last();
        assert(all_digits(d)) by {
            assert forall|i: int| 0 <= i < d.len() implies #[trigger] is_digit(d[i]) by {
                assert(is_digit(ds[i]));
            }
        }
        lemma_digits_value_monotone(d, k);
        assert(d.take(k) =~= ds.take(k));
        assert(is_digit(ds[ds.len() - 1]));
        lemma_digits_value_monotone(d, d.len() as int);
        assert(d.take(d.len() as int) =~= d);
    }
}

/// Parses `v[a..b]` as `i32::from_str` does.
fn parse_i32_range(v: &Vec<char>, a: usize, b: usize) -> (r: Option<i32>)
    requires
        a <= b <= v@.len(),
    ensures
        r == parse_i32(v@.subrange(a as int, b as int)),
{
    let ghost s = v@.subrange(a as int, b as int);
    let mut start = a;
    let mut negative = false;
    if a < b && (v[a] == '-' || v[a] == '+') {
        negative = v[a] == '-';
        start = a + 1;
    }
    let ghost ds = v@.subrange(start as int, b as int);
    assert(ds =~= (if s.len() > 0 && (s[0] == '-' || s[0] == '+') {
        s.drop_first()
    } else {
        s
    }));
    assert(negative == (s.len() > 0 && s[0] == '-'));
    if start == b {
        return None;
    }
    let mut acc: u64 = 0;
    let mut i = start;
    while i < b
        invariant
            a <= start <= i <= b <= v@.len(),
            ds == v@.subrange(start as int, b as int),
            s == v@.subrange(a as int, b as int),
            ds == (if s.len() > 0 && (s[0] == '-' || s[0] == '+') {
                s.drop_first()
            } else {
                s
            }),
            negative == (s.len() > 0 && s[0] == '-'),
            acc == digits_value(ds.take(i - start)),
            acc <= 2147483648,
            all_digits(ds.take(i - start)),
        decreases b - i,
    {
        let c = v[i];
        assert(ds[i - start] == c);
        if c < '0' || c > '9' {
            assert(!is_digit(ds[i - start]));
            assert(!all_digits(ds));
            assert(parse_i32(s) is None);
            return None;
        }
        let next = acc * 10 + digit_of(c);
        assert(ds.take(i - start + 1).drop_last() =~= ds.take(i - start));
        assert(ds.take(i - start + 1).last() == c);
        assert(all_digits(ds.take(i - start + 1))) by {
            let t = ds.take(i - start + 1);
            assert forall|j: int| 0 <= j < t.len() implies #[trigger] is_digit(t[j]) by {
                if j < i - start {
                    assert(t[j] == ds.take(i - start)[j]);
                }
            }
        }
        if next > 2147483648 {
            proof {
                if all_digits(ds) {
                    lemma_digits_value_monotone(ds, i - start + 1);
                }
            }
            return None;
        }
        acc = next;
        i = i + 1;
    }
    assert(ds.take(i - start) =~= ds);
    if negative {
        Some((0i64 - (acc as i64)) as i32)
    } else if acc <= 2147483647 {
        Some(acc as i32)
    } else {
        None
    }
}


proof fn lemma_newline_pos_at(s: Seq<char>, k: int)
    requires
        0 <= k <= s.len(),
        k < s.len() ==> s[k] == '\n',
        forall|j: int| 0 <= j < k ==> s[j] != '\n',
    ensures
        newline_pos(s) == k,
    decreases k,
{
    if k > 0 {
        assert(s[0] != '\n');
        let t = s.drop_first();
        assert forall|j: int| 0 <= j < k - 1 implies t[j] != '\n' by {
            assert(t[j] == s[j + 1]);
        }
        if k < s.len() {
            assert(t[k - 1] == s[k]);
        }
        lemma_newline_pos_at(t, k - 1);
    }
}

/// The lines of a text that starts with a line ending at `k`: the first line,
/// then the lines of what follows the line feed.
proof fn lemma_lines_first(s: Seq<char>, k: int)
    requires
        0 <= k < s.len(),
        s[k] == '\n',
        forall|j: int| 0 <= j < k ==> s[j] != '\n',
    ensures
        lines(s) == seq![strip_cr(s.take(k))] + lines(s.skip(k + 1)),
{
    lemma_newline_pos_at(s, k);
}

/// The lines of a non-empty text without a line feed: the text itself.
proof fn lemma_lines_last(s: Seq<char>)
    requires
        s.len() > 0,
        forall|j: int| 0 <= j < s.len() ==> s[j] != '\n',
    ensures
        lines(s) == seq![s],
{
    lemma_newline_pos_at(s, s.len() as int);
}

proof fn lemma_numbers_in_cons(l: Seq<char>, rest: Seq<Seq<char>>)
    ensures
        numbers_in(seq![l] + rest) == (match line_number(l) {
            Some(n) => seq![n] + numbers_in(rest),
            None => numbers_in(rest),
        }),
{
    let ls = seq![l] + rest;
    assert(ls[0] == l);
    assert(ls.drop_first() =~= rest);
}

/// The number held by the line `v[a..b]`, if any.
fn line_number_range(v: &Vec<char>, a: usize, b: usize) -> (r: Option<i32>)
    requires
        a <= b <= v@.len(),
    ensures
        r == line_number(v@.subrange(a as int, b as int)),
{
    let (lo, hi) = trim_bounds(v, a, b);
    parse_i32_range(v, lo, hi)
}

/// The numbers that `text` lists one per line, as
/// `text.lines().filter_map(|l| l.trim().parse::<i32>().ok())` collects them.
pub fn numbers_listed(text: &str) -> (r: Vec<i32>)
    ensures
        r@ == listed_numbers(text@),
{
    let v = chars_of(text);
    let len = v.len();
    let mut out: Vec<i32> = Vec::new();
    let mut start: usize = 0;
    let mut i: usize = 0;
    assert(v@.skip(0) =~= v@);
    assert(out@ + numbers_in(lines(v@)) =~= numbers_in(lines(v@)));
    while i < len
        invariant
            len == v@.len(),
            v@ == text@,
            start <= i <= len,
            forall|j: int| start <= j < i ==> v@[j] != '\n',
            listed_numbers(text@) == out@ + numbers_in(lines(v@.skip(start as int))),
        decreases len - i,
    {
        if v[i] == '\n' {
            let ghost rest = v@.skip(start as int);
            let mut end = i;
            if end > start && v[end - 1] == '\r' {
                end = end - 1;
            }
            proof {
                assert forall|j: int| 0 <= j < i - start implies rest[j] != '\n' by {
                    assert(rest[j] == v@[start + j]);
                }
                lemma_lines_first(rest, i - start);
                assert(rest.take(i - start) =~= v@.subrange(start as int, i as int));
                assert(rest.skip(i - start + 1) =~= v@.skip(i + 1));
                assert(strip_cr(v@.subrange(start as int, i as int)) =~= v@.subrange(
                    start as int,
                    end as int,
                ));
                lemma_numbers_in_cons(
                    v@.subrange(start as int, end as int),
                    lines(v@.skip(i + 1)),
                );
            }
            let n = line_number_range(&v, start, end);
            match n {
                Some(x) => {
                    out.push(x);
                },
                None => {},
            }
            assert(listed_numbers(text@) =~= out@ + numbers_in(lines(v@.skip(i + 1))));
            start = i + 1;
        }
        i = i + 1;
    }
    if start < len {
        let ghost rest = v@.skip(start as int);
        proof {
            assert forall|j: int| 0 <= j < rest.len() implies rest[j] != '\n' by {
                assert(rest[j] == v@[start + j]);
            }
            lemma_lines_last(rest);
            assert(rest =~= v@.subrange(start as int, len as int));
            lemma_numbers_in_cons(rest, seq![]);
            assert(lines(v@.skip(len as int)) =~= seq![]);
        }
        let n = line_number_range(&v, start, len);
        match n {
            Some(x) => {
                out.push(x);
            },
            None => {},
        }
        assert(numbers_in(seq![]) =~= seq![]);
        assert(listed_numbers(text@) =~= out@);
    } else {
        assert(v@.skip(start as int) =~= seq![]);
        assert(lines(seq![]) =~= seq![]);
        assert(listed_numbers(text@) =~= out@);
    }
    out
}


proof fn lemma_decimal_digits(n: nat)
    ensures
        decimal(n).len() > 0,
        all_digits(decimal(n)),
        digits_value(decimal(n)) == n,
    decreases n,
{
    let d = decimal(n);
    if n < 10 {
        assert(d.drop_last() =~= Seq::<char>::empty());
        assert(is_digit(d[0]));
        assert(digit_value(d.last()) == n);
        assert(digits_value(d.drop_last()) == 0);
        assert(digits_value(d) == digits_value(d.drop_last()) * 10 + digit_value(d.last()));
    } else {
        lemma_decimal_digits(n / 10);
        assert(d.drop_last() =~= decimal(n / 10));
        assert(digit_value(d.last()) == n % 10);
        assert((n / 10) * 10 + n % 10 == n);
        assert(digits_value(d) == digits_value(d.drop_last()) * 10 + digit_value(d.last()));
        assert forall|i: int| 0 <= i < d.len() implies #[trigger] is_digit(d[i]) by {
            if i < d.len() - 1 {
                assert(d[i] == decimal(n / 10)[i]);
            }
        }
    }
}

proof fn lemma_decimal_is_trimmed(n: nat)
    ensures
        trim(decimal(n)) == decimal(n),
        forall|j: int| 0 <= j < decimal(n).len() ==> #[trigger] decimal(n)[j] != '\n',
{
    lemma_decimal_digits(n);
    let d = decimal(n);
    assert(is_digit(d[0]));
    assert(is_digit(d.last()));
    assert forall|j: int| 0 <= j < d.len() implies #[trigger] d[j] != '\n' by {
        assert(is_digit(d[j]));
    }
}

/// Law: the decimal text of an `i32` parses back to it: what
/// `render_i32` writes, `i32::from_str` reads as the same value.
pub proof fn parse_i32_of_signed_decimal(x: i32)
    ensures
        parse_i32(signed_decimal(x as int)) == Some(x),
{
    if x < 0 {
        let m = (-x) as nat;
        lemma_decimal_digits(m);
        let s = seq!['-'] + decimal(m);
        assert(s[0] == '-');
        assert(s.drop_first() =~= decimal(m));
    } else {
        lemma_decimal_digits(x as nat);
        let s = decimal(x as nat);
        assert(is_digit(s[0]));
    }
}

/// Law: a text that holds the decimal digits of one number that fits in an
/// `i32` lists exactly that number.
pub proof fn listed_numbers_of_decimal(n: nat)
    requires
        n <= i32::MAX,
    ensures
        listed_numbers(decimal(n)) == seq![n as i32],
{
    lemma_decimal_is_trimmed(n);
    lemma_decimal_digits(n);
    let d = decimal(n);
    lemma_lines_last(d);
    parse_i32_of_signed_decimal(n as i32);
    lemma_numbers_in_cons(d, seq![]);
    assert(numbers_in(seq![]) =~= Seq::<i32>::empty());
    assert(seq![n as i32] + Seq::<i32>::empty() =~= seq![n as i32]);
}

proof fn lemma_newline_pos_props(s: Seq<char>)
    ensures
        newline_pos(s) <= s.len(),
        newline_pos(s) < s.len() ==> s[newline_pos(s) as int] == '\n',
        forall|j: int| 0 <= j < newline_pos(s) ==> s[j] != '\n',
    decreases s.len(),
{
    if s.len() > 0 && s[0] != '\n' {
        let t = s.drop_first();
        lemma_newline_pos_props(t);
        assert forall|j: int| 0 <= j < newline_pos(s) implies s[j] != '\n' by {
            if j > 0 {
                assert(s[j] == t[j - 1]);
            }
        }
        if newline_pos(s) < s.len() {
            assert(s[newline_pos(s) as int] == t[newline_pos(t) as int]);
        }
    }
}

/// The numbers of an optional number: none or that one.
pub open spec fn opt_numbers(n: Option<i32>) -> Seq<i32> {
    match n {
        Some(x) => seq![x],
        None => seq![],
    }
}

/// Law: an empty text lists no number.
pub proof fn listed_numbers_of_empty()
    ensures
        listed_numbers(Seq::<char>::empty()) == Seq::<i32>::empty(),
{
}

/// Law: a text that is a single line without a line feed lists the number
/// that line holds, if any.
pub proof fn listed_numbers_of_one_line(l: Seq<char>)
    requires
        l.len() > 0,
        forall|j: int| 0 <= j < l.len() ==> l[j] != '\n',
    ensures
        listed_numbers(l) == opt_numbers(line_number(l)),
{
    lemma_lines_last(l);
    lemma_numbers_in_cons(l, seq![]);
    assert(numbers_in(Seq::<Seq<char>>::empty()) =~= Seq::<i32>::empty());
    assert(opt_numbers(line_number(l)) + Seq::<i32>::empty() =~= opt_numbers(line_number(l)));
}

/// Law: a text whose first line is `l` (ended by a line feed, with a carriage
/// return before it dropped) lists the number of `l`, if it holds one,
/// followed by all that the rest of the text lists.
pub proof fn listed_numbers_first_line(l: Seq<char>, rest: Seq<char>)
    requires
        forall|j: int| 0 <= j < l.len() ==> l[j] != '\n',
    ensures
        listed_numbers(l + "\n"@ + rest) == opt_numbers(line_number(strip_cr(l))) + listed_numbers(
            rest,
        ),
{
    reveal_strlit("\n");
    let t = l + "\n"@ + rest;
    assert(t[l.len() as int] == '\n');
    assert forall|j: int| 0 <= j < l.len() implies t[j] != '\n' by {
        assert(t[j] == l[j]);
    }
    lemma_lines_first(t, l.len() as int);
    assert(t.take(l.len() as int) =~= l);
    assert(t.skip(l.len() as int + 1) =~= rest);
    lemma_numbers_in_cons(strip_cr(l), lines(rest));
}

/// Law: the numbers listed in a text are those of its part up to and with a
/// line feed followed by those of the part after it: every line is read, and
/// none is dropped, however many there are.
pub proof fn listed_numbers_split(a: Seq<char>, b: Seq<char>)
    ensures
        listed_numbers(a + "\n"@ + b) == listed_numbers(a + "\n"@) + listed_numbers(b),
    decreases a.len(),
{
    reveal_strlit("\n");
    lemma_newline_pos_props(a);
    let k = newline_pos(a) as int;
    if k < a.len() {
        let l = a.take(k);
        let a2 = a.skip(k + 1);
        assert forall|j: int| 0 <= j < l.len() implies l[j] != '\n' by {
            assert(l[j] == a[j]);
        }
        assert(a =~= l + "\n"@ + a2);
        assert(a + "\n"@ + b =~= l + "\n"@ + (a2 + "\n"@ + b));
        assert(a + "\n"@ =~= l + "\n"@ + (a2 + "\n"@));
        listed_numbers_first_line(l, a2 + "\n"@ + b);
        listed_numbers_first_line(l, a2 + "\n"@);
        listed_numbers_split(a2, b);
        assert(opt_numbers(line_number(strip_cr(l))) + (listed_numbers(a2 + "\n"@)
            + listed_numbers(b)) =~= (opt_numbers(line_number(strip_cr(l))) + listed_numbers(
            a2 + "\n"@,
        )) + listed_numbers(b));
    } else {
        listed_numbers_first_line(a, b);
        listed_numbers_first_line(a, Seq::<char>::empty());
        assert(a + "\n"@ + Seq::<char>::empty() =~= a + "\n"@);
        listed_numbers_of_empty();
        assert(opt_numbers(line_number(strip_cr(a))) + Seq::<i32>::empty() =~= opt_numbers(
            line_number(strip_cr(a)),
        ));
    }
}

/// Law: the decimal text of a number is made of digits only, starts with a
/// digit other than `0` unless the number is 0 (whose text is `0`), and
/// denotes the number.
pub proof fn decimal_denotes(n: nat)
    ensures
        decimal(n).len() > 0,
        all_digits(decimal(n)),
        digits_value(decimal(n)) == n,
        n == 0 ==> decimal(n) == seq!['0'],
        n > 0 ==> decimal(n)[0] != '0',
    decreases n,
{
    lemma_decimal_digits(n);
    if n >= 10 {
        decimal_denotes(n / 10);
        assert(decimal(n)[0] == decimal(n / 10)[0]);
    }
}

} // verus!
