//! Character-sequence building blocks: searching, splitting and trimming,
//! stated over `Seq<char>` and carried out on `Vec<char>`.

use vstd::prelude::*;

verus! {

/// Whether `c` has the Unicode `White_Space` property, which is the set of
/// characters that `char::is_whitespace` (and therefore `str::trim`) accepts.
pub open spec fn is_whitespace(c: char) -> bool {
    let u = c as u32;
    ||| 0x09 <= u <= 0x0D
    ||| u == 0x20
    ||| u == 0x85
    ||| u == 0xA0
    ||| u == 0x1680
    ||| 0x2000 <= u <= 0x200A
    ||| u == 0x2028
    ||| u == 0x2029
    ||| u == 0x202F
    ||| u == 0x205F
    ||| u == 0x3000
}

/// `s` without its leading whitespace.
pub open spec fn trim_start(s: Seq<char>) -> Seq<char>
    decreases s.len(),
{
    if s.len() > 0 && is_whitespace(s[0]) {
        trim_start(s.drop_first())
    } else {
        s
    }
}

/// `s` without its trailing whitespace.
pub open spec fn trim_end(s: Seq<char>) -> Seq<char>
    decreases s.len(),
{
    if s.len() > 0 && is_whitespace(s.last()) {
        trim_end(s.drop_last())
    } else {
        s
    }
}

/// `s` without leading and trailing whitespace (what `str::trim` returns).
pub open spec fn trim(s: Seq<char>) -> Seq<char> {
    trim_end(trim_start(s))
}

/// The part of `s` after the last occurrence of `c`, or all of `s` when `c`
/// does not occur (what `s.split(c).last()` yields).
pub open spec fn after_last(s: Seq<char>, c: char) -> Seq<char>
    decreases s.len(),
{
    if s.len() == 0 {
        s
    } else if s.last() == c {
        Seq::empty()
    } else {
        after_last(s.drop_last(), c).push(s.last())
    }
}

/// `pat` occurs in `s` starting at index `i`.
pub open spec fn matches_at(s: Seq<char>, pat: Seq<char>, i: int) -> bool {
    0 <= i && i + pat.len() <= s.len() && s.subrange(i, i + pat.len()) == pat
}

/// The first index at or after `from` where `pat` occurs in `s`.
pub open spec fn find_from(s: Seq<char>, pat: Seq<char>, from: int) -> Option<int>
    decreases s.len() + 1 - from,
{
    if from < 0 || from + pat.len() > s.len() {
        None
    } else if matches_at(s, pat, from) {
        Some(from)
    } else {
        find_from(s, pat, from + 1)
    }
}

/// The first index where `pat` occurs in `s` (what `str::find` reports,
/// counted in characters).
pub open spec fn find(s: Seq<char>, pat: Seq<char>) -> Option<int> {
    find_from(s, pat, 0)
}

/// `pat` occurs somewhere in `s` (what `str::contains` reports).
pub open spec fn contains_seq(s: Seq<char>, pat: Seq<char>) -> bool {
    find(s, pat) is Some
}

/// `c` does not occur in `s`.
pub open spec fn free_of(s: Seq<char>, c: char) -> bool {
    forall|i: int| 0 <= i < s.len() ==> s[i] != c
}

/// The first occurrence found from `from` is `p` when `pat` occurs at `p`
/// and nowhere in between.
pub proof fn lemma_find_from_first(s: Seq<char>, pat: Seq<char>, from: int, p: int)
    requires
        0 <= from <= p,
        matches_at(s, pat, p),
        forall|j: int| from <= j < p ==> !matches_at(s, pat, j),
    ensures
        find_from(s, pat, from) == Some(p),
    decreases p - from,
{
    if from < p {
        lemma_find_from_first(s, pat, from + 1, p);
    }
}

/// Nothing is found from `from` when `pat` occurs nowhere from there on.
pub proof fn lemma_find_from_none(s: Seq<char>, pat: Seq<char>, from: int)
    requires
        0 <= from,
        forall|j: int| from <= j ==> !matches_at(s, pat, j),
    ensures
        find_from(s, pat, from) is None,
    decreases s.len() + 1 - from,
{
    if from + pat.len() <= s.len() {
        lemma_find_from_none(s, pat, from + 1);
    }
}

/// From index `i` on, `c` occurs in `s` at index `p` at most.
pub open spec fn occurs_only_at(s: Seq<char>, c: char, p: int, i: int) -> bool
    decreases s.len() - i,
{
    if i < 0 || i >= s.len() {
        true
    } else {
        (s[i] == c ==> i == p) && occurs_only_at(s, c, p, i + 1)
    }
}

/// What `occurs_only_at` says, for every index from `i` on.
pub proof fn lemma_occurs_only_at(s: Seq<char>, c: char, p: int, i: int)
    requires
        0 <= i,
        occurs_only_at(s, c, p, i),
    ensures
        forall|j: int| i <= j < s.len() && s[j] == c ==> j == p,
    decreases s.len() - i,
{
    if i < s.len() {
        lemma_occurs_only_at(s, c, p, i + 1);
    }
}

/// Text free of `c` appended after `x` stays after the last `c`.
pub proof fn lemma_after_last_append_free(x: Seq<char>, y: Seq<char>, c: char)
    requires
        free_of(y, c),
    ensures
        after_last(x + y, c) == after_last(x, c) + y,
    decreases y.len(),
{
    if y.len() == 0 {
        assert(x + y =~= x);
        assert(after_last(x, c) + y =~= after_last(x, c));
    } else {
        let y0 = y.drop_last();
        assert(free_of(y0, c));
        lemma_after_last_append_free(x, y0, c);
        assert((x + y).drop_last() =~= x + y0);
        assert((x + y).last() == y.last());
        assert(after_last(x, c) + y0.push(y.last()) =~= after_last(x, c) + y);
        assert(y0.push(y.last()) =~= y);
        assert((after_last(x, c) + y0).push(y.last()) =~= after_last(x, c) + y);
    }
}

/// Whitespace test on a character, as `char::is_whitespace` decides it.
pub fn is_whitespace_char(c: char) -> (r: bool)
    ensures
        r == is_whitespace(c),
{
    let u = c as u32;
    (0x09 <= u && u <= 0x0D) || u == 0x20 || u == 0x85 || u == 0xA0 || u == 0x1680 || (0x2000
        <= u && u <= 0x200A) || u == 0x2028 || u == 0x2029 || u == 0x202F || u == 0x205F || u
        == 0x3000
}

/// The characters of `s`, in order.
pub fn chars_of(s: &str) -> (v: Vec<char>)
    ensures
        v@ == s@,
{
    let mut v: Vec<char> = Vec::new();
    for c in it: s.chars()
        invariant
            v@ == it.seq().take(it.index() as int),
    {
        v.push(c);
    }
    v
}

proof fn lemma_find_from_skip(s: Seq<char>, pat: Seq<char>, from: int)
    requires
        0 <= from,
        from + pat.len() <= s.len(),
        !matches_at(s, pat, from),
    ensures
        find_from(s, pat, from) == find_from(s, pat, from + 1),
{
}

/// Whether `pat` occurs in `s` at index `i`.
pub fn matches_at_exec(s: &Vec<char>, pat: &Vec<char>, i: usize) -> (r: bool)
    requires
        i + pat@.len() <= s@.len(),
    ensures
        r == matches_at(s@, pat@, i as int),
{
    let m = pat.len();
    let n = s.len();
    let mut k: usize = 0;
    while k < m
        invariant
            m == pat@.len(),
            n == s@.len(),
            i + m <= n,
            k <= m,
            forall|j: int| 0 <= j < k ==> s@[i + j] == pat@[j],
        decreases m - k,
    {
        if s[i + k] != pat[k] {
            assert(s@.subrange(i as int, i + m)[k as int] != pat@[k as int]);
            return false;
        }
        k = k + 1;
    }
    assert(s@.subrange(i as int, i + m) =~= pat@);
    true
}

/// The first index where `pat` occurs in `s`.
pub fn find_exec(s: &Vec<char>, pat: &Vec<char>) -> (r: Option<usize>)
    ensures
        match r {
            Some(i) => find(s@, pat@) == Some(i as int) && i + pat@.len() <= s@.len(),
            None => find(s@, pat@) is None,
        },
{
    let n = s.len();
    let m = pat.len();
    if m > n {
        return None;
    }
    if m == 0 {
        assert(s@.subrange(0, 0) =~= pat@);
        return Some(0);
    }
    let mut i: usize = 0;
    while i <= n - m
        invariant
            n == s@.len(),
            m == pat@.len(),
            0 < m <= n,
            i <= n - m + 1,
            find(s@, pat@) == find_from(s@, pat@, i as int),
        decreases n - i,
    {
        if matches_at_exec(s, pat, i) {
            return Some(i);
        }
        proof {
            lemma_find_from_skip(s@, pat@, i as int);
        }
        i = i + 1;
    }
    None
}

proof fn lemma_after_last_step(s: Seq<char>, c: char, k: int, i: int)
    requires
        0 < k <= i <= s.len(),
        s[k - 1] != c,
    ensures
        after_last(s.take(k), c) + s.subrange(k, i) == after_last(s.take(k - 1), c) + s.subrange(
            k - 1,
            i,
        ),
{
    let t = s.take(k);
    assert(t.drop_last() =~= s.take(k - 1));
    assert(t.last() == s[k - 1]);
    assert(after_last(t, c) == after_last(s.take(k - 1), c).push(s[k - 1]));
    assert(after_last(s.take(k - 1), c).push(s[k - 1]) + s.subrange(k, i) =~= after_last(
        s.take(k - 1),
        c,
    ) + s.subrange(k - 1, i));
}

/// The index where the part of `s[..i]` after its last `c` begins.
pub fn start_after_last(s: &Vec<char>, c: char, i: usize) -> (k: usize)
    requires
        i <= s@.len(),
    ensures
        k <= i,
        after_last(s@.take(i as int), c) == s@.subrange(k as int, i as int),
        free_of(s@.subrange(k as int, i as int), c),
{
    let mut k: usize = i;
    assert(after_last(s@.take(i as int), c) =~= after_last(s@.take(i as int), c) + s@.subrange(
        i as int,
        i as int,
    ));
    while k > 0
        invariant
            k <= i <= s@.len(),
            after_last(s@.take(i as int), c) == after_last(s@.take(k as int), c) + s@.subrange(
                k as int,
                i as int,
            ),
            forall|j: int| k <= j < i ==> s@[j] != c,
        decreases k,
    {
        if s[k - 1] == c {
            let ghost t = s@.take(k as int);
            assert(t.last() == c);
            assert(after_last(t, c) == Seq::<char>::empty());
            assert(after_last(s@.take(i as int), c) =~= s@.subrange(k as int, i as int));
            assert(free_of(s@.subrange(k as int, i as int), c));
            return k;
        }
        proof {
            lemma_after_last_step(s@, c, k as int, i as int);
        }
        k = k - 1;
    }
    assert(s@.take(0) =~= Seq::<char>::empty());
    assert(after_last(s@.take(i as int), c) =~= s@.subrange(0, i as int));
    assert(free_of(s@.subrange(k as int, i as int), c));
    k
}

/// The bounds of `s[a..b]` with leading and trailing whitespace removed.
pub fn trim_bounds(s: &Vec<char>, a: usize, b: usize) -> (r: (usize, usize))
    requires
        a <= b <= s@.len(),
    ensures
        a <= r.0 <= r.1 <= b,
        trim(s@.subrange(a as int, b as int)) == s@.subrange(r.0 as int, r.1 as int),
{
    let mut lo: usize = a;
    while lo < b && is_whitespace_char(s[lo])
        invariant
            a <= lo <= b <= s@.len(),
            trim_start(s@.subrange(a as int, b as int)) == trim_start(
                s@.subrange(lo as int, b as int),
            ),
        decreases b - lo,
    {
        assert(s@.subrange(lo as int, b as int).drop_first() =~= s@.subrange(lo + 1, b as int));
        lo = lo + 1;
    }
    assert(trim_start(s@.subrange(lo as int, b as int)) == s@.subrange(lo as int, b as int));
    let mut hi: usize = b;
    while hi > lo && is_whitespace_char(s[hi - 1])
        invariant
            a <= lo <= hi <= b <= s@.len(),
            trim(s@.subrange(a as int, b as int)) == trim_end(s@.subrange(lo as int, hi as int)),
        decreases hi,
    {
        assert(s@.subrange(lo as int, hi as int).drop_last() =~= s@.subrange(lo as int, hi - 1));
        hi = hi - 1;
    }
    (lo, hi)
}

/// The decimal digit `d` (for `d < 10`).
pub open spec fn digit_char(d: nat) -> char {
    seq!['0', '1', '2', '3', '4', '5', '6', '7', '8', '9'][d as int]
}

/// The decimal numeral of `n`, without leading zeros (how `Display` writes
/// an unsigned integer).
pub open spec fn decimal(n: nat) -> Seq<char>
    decreases n,
{
    if n < 10 {
        seq![digit_char(n)]
    } else {
        decimal(n / 10).push(digit_char(n % 10))
    }
}

fn digit_str(d: u32) -> (r: &'static str)
    requires
        d < 10,
    ensures
        r@ == seq![digit_char(d as nat)],
{
    if d == 0 {
        proof { reveal_strlit("0"); }
        "0"
    } else if d == 1 {
        proof { reveal_strlit("1"); }
        "1"
    } else if d == 2 {
        proof { reveal_strlit("2"); }
        "2"
    } else if d == 3 {
        proof { reveal_strlit("3"); }
        "3"
    } else if d == 4 {
        proof { reveal_strlit("4"); }
        "4"
    } else if d == 5 {
        proof { reveal_strlit("5"); }
        "5"
    } else if d == 6 {
        proof { reveal_strlit("6"); }
        "6"
    } else if d == 7 {
        proof { reveal_strlit("7"); }
        "7"
    } else if d == 8 {
        proof { reveal_strlit("8"); }
        "8"
    } else {
        proof { reveal_strlit("9"); }
        "9"
    }
}

/// The decimal numeral of `n`.
pub fn decimal_string(n: u32) -> (r: String)
    ensures
        r@ == decimal(n as nat),
    decreases n,
{
    if n < 10 {
        digit_str(n).to_owned()
    } else {
        let mut s = decimal_string(n / 10);
        s.append(digit_str(n % 10));
        s
    }
}

/// Whether `c` is an ASCII decimal digit.
pub open spec fn is_digit(c: char) -> bool {
    48 <= (c as u32) <= 57
}

/// The value of a string of decimal digits.
pub open spec fn digits_value(s: Seq<char>) -> nat
    decreases s.len(),
{
    if s.len() == 0 {
        0
    } else {
        digits_value(s.drop_last()) * 10 + ((s.last() as u32) - 48) as nat
    }
}

/// Every character of `s` is a decimal digit.
pub open spec fn all_digits(s: Seq<char>) -> bool {
    forall|i: int| 0 <= i < s.len() ==> is_digit(s[i])
}

/// What `str::parse::<u32>` accepts: an optional `+`, then one or more
/// decimal digits whose value fits in 32 bits.
pub open spec fn parse_u32_spec(s: Seq<char>) -> Option<u32> {
    let d = if s.len() > 0 && s[0] == '+' {
        s.drop_first()
    } else {
        s
    };
    if d.len() > 0 && all_digits(d) && digits_value(d) <= u32::MAX {
        Some(digits_value(d) as u32)
    } else {
        None
    }
}

proof fn lemma_digits_value_monotone(s: Seq<char>, k: int)
    requires
        0 <= k <= s.len(),
        all_digits(s),
    ensures
        digits_value(s.take(k)) <= digits_value(s),
    decreases s.len() - k,
{
    if k < s.len() {
        let t = s.take(k + 1);
        assert(t.drop_last() =~= s.take(k));
        lemma_digits_value_monotone(s, k + 1);
    } else {
        assert(s.take(k) =~= s);
    }
}

/// Reads `chars[from..to]` as a number the way `str::parse::<u32>` does.
pub fn parse_u32_range(chars: &Vec<char>, from: usize, to: usize) -> (r: Option<u32>)
    requires
        from <= to <= chars@.len(),
    ensures
        r == parse_u32_spec(chars@.subrange(from as int, to as int)),
{
    let ghost s = chars@.subrange(from as int, to as int);
    let mut start = from;
    if from < to && chars[from] == '+' {
        start = from + 1;
        assert(s.drop_first() =~= chars@.subrange(start as int, to as int));
    } else {
        assert(s =~= chars@.subrange(start as int, to as int));
    }
    let ghost d = chars@.subrange(start as int, to as int);
    if start == to {
        return None;
    }
    let mut value: u64 = 0;
    let mut i: usize = start;
    assert(d.take(0) =~= Seq::<char>::empty());
    while i < to
        invariant
            from <= start <= i <= to <= chars@.len(),
            d == chars@.subrange(start as int, to as int),
            s == chars@.subrange(from as int, to as int),
            d == (if s.len() > 0 && s[0] == '+' { s.drop_first() } else { s }),
            all_digits(d.take(i - start)),
            value == digits_value(d.take(i - start)),
            value <= u32::MAX,
        decreases to - i,
    {
        let c = chars[i];
        let k = i - start;
        assert(d[k as int] == c);
        if !((c as u32) >= 48 && (c as u32) <= 57) {
            assert(!all_digits(d));
            return None;
        }
        assert(d.take(k + 1).drop_last() =~= d.take(k as int));
        assert(d.take(k + 1).last() == c);
        let next = value * 10 + ((c as u32) - 48) as u64;
        assert(forall|j: int| 0 <= j < k + 1 ==> d.take(k + 1)[j] == d[j]);
        if next > 0xFFFF_FFFFu64 {
            proof {
                if all_digits(d) {
                    lemma_digits_value_monotone(d, k + 1);
                }
            }
            return None;
        }
        value = next;
        i = i + 1;
    }
    assert(d.take(d.len() as int) =~= d);
    Some(value as u32)
}

/// `comp` joined onto the path `base` as `PathBuf::push` does on Unix: an
/// absolute `comp` replaces `base`; otherwise a `/` goes between them unless
/// `base` is empty or already ends in one.
pub open spec fn join_path(base: Seq<char>, comp: Seq<char>) -> Seq<char> {
    if comp.len() > 0 && comp[0] == '/' {
        comp
    } else if base.len() > 0 && base.last() != '/' {
        base + seq!['/'] + comp
    } else {
        base + comp
    }
}

/// `comp` joined onto the path `base`.
pub fn join_path_exec(base: String, comp: &str) -> (r: String)
    ensures
        r@ == join_path(base@, comp@),
{
    let cn = comp.unicode_len();
    if cn > 0 && comp.get_char(0) == '/' {
        return comp.to_owned();
    }
    let bn = base.as_str().unicode_len();
    let mut r = base;
    if bn > 0 && r.as_str().get_char(bn - 1) != '/' {
        proof {
            reveal_strlit("/");
        }
        r.append("/");
    }
    r.append(comp);
    r
}

/// A decimal numeral is a non-empty run of digits whose value is the number.
pub proof fn lemma_decimal_digits(n: nat)
    ensures
        decimal(n).len() > 0,
        all_digits(decimal(n)),
        digits_value(decimal(n)) == n,
    decreases n,
{
    assert(digit_char(0) == '0');
    assert(digit_char(1) == '1');
    assert(digit_char(2) == '2');
    assert(digit_char(3) == '3');
    assert(digit_char(4) == '4');
    assert(digit_char(5) == '5');
    assert(digit_char(6) == '6');
    assert(digit_char(7) == '7');
    assert(digit_char(8) == '8');
    assert(digit_char(9) == '9');
    let d = (n % 10) as nat;
    assert(is_digit(digit_char(d)) && (digit_char(d) as u32) - 48 == d);
    assert(n == (n / 10) * 10 + n % 10) by (nonlinear_arith);
    if n < 10 {
        let s = decimal(n);
        assert(n % 10 == n);
        assert(s.drop_last() =~= Seq::<char>::empty());
        assert(s.last() == digit_char(d));
        assert(digits_value(s) == digits_value(s.drop_last()) * 10 + ((s.last() as u32) - 48) as nat);
        assert(digits_value(s.drop_last()) == 0);
        assert(digits_value(s) == n);
    } else {
        lemma_decimal_digits(n / 10);
        let s = decimal(n);
        assert(s.drop_last() =~= decimal(n / 10));
        assert(s.last() == digit_char(d));
        assert(digits_value(s) == digits_value(decimal(n / 10)) * 10 + d);
        assert(digits_value(s) == n);
        assert(all_digits(s));
    }
}

/// A decimal numeral reads back as its number.
pub proof fn lemma_parse_decimal(n: u32)
    ensures
        parse_u32_spec(decimal(n as nat)) == Some(n),
{
    lemma_decimal_digits(n as nat);
    let s = decimal(n as nat);
    assert(is_digit(s[0]));
}

} // verus!
