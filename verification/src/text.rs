//! Text helpers: character-wise comparison, splitting, joining and the
//! decimal notation of integers, each proved against a spec function.

use vstd::prelude::*;

verus! {

/// The decimal digit that stands for `d` (which is below ten).
pub open spec fn digit_char(d: nat) -> char {
    if d == 0 {
        '0'
    } else if d == 1 {
        '1'
    } else if d == 2 {
        '2'
    } else if d == 3 {
        '3'
    } else if d == 4 {
        '4'
    } else if d == 5 {
        '5'
    } else if d == 6 {
        '6'
    } else if d == 7 {
        '7'
    } else if d == 8 {
        '8'
    } else {
        '9'
    }
}

/// The decimal notation of `n`, most significant digit first, without
/// leading zeros (the way `{}` formats an unsigned integer).
pub open spec fn decimal(n: nat) -> Seq<char>
    decreases n,
{
    if n < 10 {
        seq![digit_char(n)]
    } else {
        decimal(n / 10).push(digit_char(n % 10))
    }
}

/// `parts` joined together, with `sep` between each two neighbours.
pub open spec fn join(parts: Seq<Seq<char>>, sep: Seq<char>) -> Seq<char>
    decreases parts.len(),
{
    if parts.len() == 0 {
        Seq::empty()
    } else if parts.len() == 1 {
        parts[0]
    } else {
        join(parts.drop_last(), sep) + sep + parts.last()
    }
}

/// The pieces of `s` between the occurrences of `c`, in order, as
/// `str::split` with a character pattern yields them: there is always one
/// piece more than there are occurrences of `c`.
pub open spec fn split_on(s: Seq<char>, c: char) -> Seq<Seq<char>>
    decreases s.len(),
{
    if s.len() == 0 {
        seq![Seq::empty()]
    } else {
        let rest = split_on(s.drop_last(), c);
        if s.last() == c {
            rest.push(Seq::empty())
        } else {
            rest.update(rest.len() - 1, rest.last().push(s.last()))
        }
    }
}

/// `split_on` never yields an empty list of pieces.
pub proof fn lemma_split_on_nonempty(s: Seq<char>, c: char)
    ensures
        split_on(s, c).len() >= 1,
    decreases s.len(),
{
    if s.len() > 0 {
        lemma_split_on_nonempty(s.drop_last(), c);
    }
}

/// Appending a character to the last piece appends it to the joined text.
pub proof fn lemma_join_extend_last(parts: Seq<Seq<char>>, sep: Seq<char>, ch: char)
    requires
        parts.len() >= 1,
    ensures
        join(parts.update(parts.len() - 1, parts.last().push(ch)), sep) == join(parts, sep).push(ch),
{
    let extended = parts.update(parts.len() - 1, parts.last().push(ch));
    if parts.len() > 1 {
        assert(extended.drop_last() =~= parts.drop_last());
        assert(join(parts.drop_last(), sep) + sep + parts.last().push(ch) =~= (join(
            parts.drop_last(),
            sep,
        ) + sep + parts.last()).push(ch));
    }
}

/// Joining with `sep` the pieces of `s` split at `c`, where `sep` is `c`
/// alone, gives `s` back.
pub proof fn lemma_join_split_on(s: Seq<char>, c: char)
    ensures
        join(split_on(s, c), seq![c]) == s,
    decreases s.len(),
{
    if s.len() == 0 {
        assert(s =~= Seq::<char>::empty());
    } else {
        let prev = s.drop_last();
        lemma_join_split_on(prev, c);
        lemma_split_on_nonempty(prev, c);
        let rest = split_on(prev, c);
        if s.last() == c {
            let parts = rest.push(Seq::<char>::empty());
            assert(parts.drop_last() =~= rest);
            assert(s =~= prev + seq![c] + Seq::<char>::empty());
        } else {
            lemma_join_extend_last(rest, seq![c], s.last());
            assert(s =~= prev.push(s.last()));
        }
    }
}

/// A tail `x` free of `c` extends the last piece of a split and adds none.
pub proof fn lemma_split_on_tail(p: Seq<char>, x: Seq<char>, c: char)
    requires
        forall|i: int| 0 <= i < x.len() ==> x[i] != c,
    ensures
        split_on(p + x, c).len() == split_on(p, c).len(),
        split_on(p + x, c).last() == split_on(p, c).last() + x,
    decreases x.len(),
{
    lemma_split_on_nonempty(p, c);
    if x.len() == 0 {
        assert(p + x =~= p);
    } else {
        let shorter = x.drop_last();
        lemma_split_on_tail(p, shorter, c);
        assert((p + x).drop_last() =~= p + shorter);
        assert((p + x).last() == x.last());
        assert(split_on(p, c).last() + shorter + seq![x.last()] =~= split_on(p, c).last() + x);
    }
}

/// The text of one digit.
fn digit_str(d: u32) -> (s: &'static str)
    requires
        d < 10,
    ensures
        s@ == seq![digit_char(d as nat)],
{
    if d == 0 {
        proof {
            reveal_strlit("0");
        }
        "0"
    } else if d == 1 {
        proof {
            reveal_strlit("1");
        }
        "1"
    } else if d == 2 {
        proof {
            reveal_strlit("2");
        }
        "2"
    } else if d == 3 {
        proof {
            reveal_strlit("3");
        }
        "3"
    } else if d == 4 {
        proof {
            reveal_strlit("4");
        }
        "4"
    } else if d == 5 {
        proof {
            reveal_strlit("5");
        }
        "5"
    } else if d == 6 {
        proof {
            reveal_strlit("6");
        }
        "6"
    } else if d == 7 {
        proof {
            reveal_strlit("7");
        }
        "7"
    } else if d == 8 {
        proof {
            reveal_strlit("8");
        }
        "8"
    } else {
        proof {
            reveal_strlit("9");
        }
        "9"
    }
}

/// Appends the decimal notation of `n` to `out`.
pub fn append_decimal(out: &mut String, n: u32)
    ensures
        final(out)@ == old(out)@ + decimal(n as nat),
    decreases n,
{
    if n >= 10 {
        append_decimal(out, n / 10);
    }
    let d = digit_str(n % 10);
    out.append(d);
    assert(final(out)@ =~= old(out)@ + decimal(n as nat)) by {
        if n >= 10 {
            assert(decimal(n as nat) == decimal((n / 10) as nat).push(digit_char((n % 10) as nat)));
        }
    }
}

/// A copy of a list of strings.
pub fn clone_strings(v: &Vec<String>) -> (r: Vec<String>)
    ensures
        r.deep_view() == v.deep_view(),
{
    let mut r: Vec<String> = Vec::new();
    let mut i: usize = 0;
    while i < v.len()
        invariant
            i <= v.len(),
            r@.len() == i,
            forall|j: int| 0 <= j < i ==> r@[j]@ == v@[j]@,
        decreases v.len() - i,
    {
        r.push(v[i].clone());
        i += 1;
    }
    assert(r.deep_view() =~= v.deep_view());
    r
}

/// Whether `c` occurs in `s`.
pub fn contains_char(s: &str, c: char) -> (r: bool)
    ensures
        r == s@.contains(c),
{
    let n = s.unicode_len();
    let mut i: usize = 0;
    while i < n
        invariant
            n == s@.len(),
            i <= n,
            forall|j: int| 0 <= j < i ==> s@[j] != c,
        decreases n - i,
    {
        if s.get_char(i) == c {
            assert(s@[i as int] == c);
            return true;
        }
        i += 1;
    }
    false
}

/// Whether `a` and `b` hold the same characters.
pub fn str_eq(a: &str, b: &str) -> (r: bool)
    ensures
        r == (a@ == b@),
{
    let n = a.unicode_len();
    if n != b.unicode_len() {
        return false;
    }
    let mut i: usize = 0;
    while i < n
        invariant
            n == a@.len(),
            n == b@.len(),
            i <= n,
            forall|j: int| 0 <= j < i ==> a@[j] == b@[j],
        decreases n - i,
    {
        if a.get_char(i) != b.get_char(i) {
            return false;
        }
        i += 1;
    }
    assert(a@ =~= b@);
    true
}

/// Splits `s` at every occurrence of `c` (as `s.split(c)` does).
pub fn split_text(s: &str, c: char) -> (parts: Vec<String>)
    ensures
        parts.deep_view() == split_on(s@, c),
        parts.len() >= 1,
{
    let n = s.unicode_len();
    let mut parts: Vec<String> = Vec::new();
    let mut start: usize = 0;
    let mut i: usize = 0;
    assert(s@.take(0) =~= Seq::<char>::empty());
    assert(parts.deep_view().push(s@.subrange(0, 0)) =~= seq![Seq::<char>::empty()]);
    while i < n
        invariant
            n == s@.len(),
            start <= i <= n,
            split_on(s@.take(i as int), c) == parts.deep_view().push(s@.subrange(start as int, i as int)),
        decreases n - i,
    {
        let ch = s.get_char(i);
        let ghost before = parts.deep_view();
        assert(s@.take(i + 1).drop_last() =~= s@.take(i as int));
        assert(s@.take(i + 1).last() == ch);
        if ch == c {
            let piece = s.substring_char(start, i).to_owned();
            let ghost piece_start = start;
            parts.push(piece);
            start = i + 1;
            assert(parts.deep_view() =~= before.push(s@.subrange(piece_start as int, i as int)));
            assert(s@.subrange(start as int, (i + 1) as int) =~= Seq::<char>::empty());
        } else {
            assert(s@.subrange(start as int, (i + 1) as int) =~= s@.subrange(start as int, i as int).push(ch));
        }
        i += 1;
    }
    let last = s.substring_char(start, n).to_owned();
    let ghost before = parts.deep_view();
    parts.push(last);
    assert(parts.deep_view() =~= before.push(s@.subrange(start as int, n as int)));
    assert(s@.take(n as int) =~= s@);
    parts
}

/// Whether `c` is a decimal digit.
pub open spec fn is_digit(c: char) -> bool {
    '0' <= c && c <= '9'
}

/// The value of the decimal digits `s`, most significant first.
pub open spec fn digits_value(s: Seq<char>) -> nat
    decreases s.len(),
{
    if s.len() == 0 {
        0
    } else {
        digits_value(s.drop_last()) * 10 + (s.last() as int - 48) as nat
    }
}

/// The decimal notation of a number reads back as that number: it is made
/// of decimal digits whose value is `n`, with no leading zero.
pub proof fn lemma_decimal_reads_back(n: nat)
    ensures
        forall|i: int| 0 <= i < decimal(n).len() ==> is_digit(#[trigger] decimal(n)[i]),
        digits_value(decimal(n)) == n,
        decimal(n).len() >= 1,
        decimal(n).len() > 1 ==> decimal(n)[0] != '0',
    decreases n,
{
    if n < 10 {
        assert(decimal(n).drop_last() =~= Seq::<char>::empty());
        assert(digits_value(Seq::<char>::empty()) == 0);
    } else {
        let m = n / 10;
        let d = (n % 10) as nat;
        lemma_decimal_reads_back(m);
        let s = decimal(m).push(digit_char(d));
        assert(s.drop_last() =~= decimal(m));
        assert(digit_char(d) as int == 48 + d);
        assert forall|i: int| 0 <= i < s.len() implies is_digit(#[trigger] s[i]) by {
            if i < s.len() - 1 {
                assert(s[i] == decimal(m)[i]);
            }
        }
        if decimal(m).len() == 1 {
            assert(decimal(m)[0] != '0') by {
                if m >= 10 {
                    lemma_decimal_reads_back(m / 10);
                    assert(decimal(m).len() == decimal(m / 10).len() + 1);
                }
                assert(1 <= m < 10);
                assert(decimal(m)[0] == digit_char(m));
            }
        }
        assert(s[0] == decimal(m)[0]);
    }
}

/// The digits of an unsigned number's text: the text without one leading
/// `+`, if it has one.
pub open spec fn unsigned_digits(s: Seq<char>) -> Seq<char> {
    if s.len() > 0 && s[0] == '+' {
        s.skip(1)
    } else {
        s
    }
}

/// The `usize` that `s` denotes, as `str::parse::<usize>` reads it: an
/// optional `+` and at least one decimal digit, nothing else, with a value
/// that fits a `usize`; none otherwise.
pub open spec fn parsed_usize(s: Seq<char>) -> Option<nat> {
    let d = unsigned_digits(s);
    if d.len() > 0 && (forall|i: int| 0 <= i < d.len() ==> is_digit(#[trigger] d[i]))
        && digits_value(d) <= usize::MAX {
        Some(digits_value(d))
    } else {
        None
    }
}

/// A prefix of a string of digits has no greater value than the string.
pub proof fn lemma_digits_value_prefix(d: Seq<char>, k: int)
    requires
        0 <= k <= d.len(),
        forall|i: int| 0 <= i < d.len() ==> is_digit(#[trigger] d[i]),
    ensures
        digits_value(d.take(k)) <= digits_value(d),
    decreases d.len() - k,
{
    if k < d.len() {
        lemma_digits_value_prefix(d, k + 1);
        assert(d.take(k + 1).drop_last() =~= d.take(k));
        assert(is_digit(d[k]));
    } else {
        assert(d.take(k) =~= d);
    }
}

/// The `usize` that `s` denotes (see [`parsed_usize`]).
pub fn parse_usize(s: &str) -> (r: Option<usize>)
    ensures
        r == match parsed_usize(s@) {
            Some(v) => Some(v as usize),
            None => None::<usize>,
        },
{
    let n = s.unicode_len();
    let mut start: usize = 0;
    if n > 0 && s.get_char(0) == '+' {
        start = 1;
    }
    let ghost d = unsigned_digits(s@);
    assert(d =~= s@.skip(start as int));
    if start == n {
        return None;
    }
    let mut value: u128 = 0;
    let mut i: usize = start;
    assert(d.take(0) =~= Seq::<char>::empty());
    while i < n
        invariant
            n == s@.len(),
            start <= i <= n,
            start < n,
            d == s@.skip(start as int),
            d == unsigned_digits(s@),
            value == digits_value(d.take(i - start)),
            value <= usize::MAX,
            forall|j: int| 0 <= j < i - start ==> is_digit(#[trigger] d[j]),
        decreases n - i,
    {
        let c = s.get_char(i);
        assert(d[i - start] == c);
        if !('0' <= c && c <= '9') {
            assert(!is_digit(d[i - start]));
            assert(!(forall|j: int| 0 <= j < d.len() ==> is_digit(#[trigger] d[j])));
            assert(parsed_usize(s@) is None);
            return None;
        }
        let digit: u128 = ((c as u32) - 48) as u128;
        assert(d.take(i - start + 1).drop_last() =~= d.take(i - start));
        value = value * 10 + digit;
        assert(value == digits_value(d.take(i - start + 1)));
        if value > (usize::MAX as u128) {
            proof {
                if forall|j: int| 0 <= j < d.len() ==> is_digit(#[trigger] d[j]) {
                    lemma_digits_value_prefix(d, i - start + 1);
                    assert(digits_value(d) > usize::MAX);
                }
                assert(parsed_usize(s@) is None);
            }
            return None;
        }
        i += 1;
    }
    assert(d.take(n - start) =~= d);
    Some(value as usize)
}

} // verus!
