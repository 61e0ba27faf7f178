//! Text operations on `&str` with exact contracts over the sequence of characters.
use vstd::prelude::*;

verus! {

// ---------------------------------------------------------------- white space

/// The characters with the Unicode `White_Space` property.
pub open spec fn white_space(c: char) -> bool {
    let n = c as u32;
    ||| 0x09 <= n <= 0x0d
    ||| n == 0x20
    ||| n == 0x85
    ||| n == 0xa0
    ||| n == 0x1680
    ||| 0x2000 <= n <= 0x200a
    ||| n == 0x2028
    ||| n == 0x2029
    ||| n == 0x202f
    ||| n == 0x205f
    ||| n == 0x3000
}

/// Whether `c` is Unicode white space.
pub fn is_white_space(c: char) -> (r: bool)
    ensures
        r == white_space(c),
{
    let n: u32 = c as u32;
    (0x09 <= n && n <= 0x0d) || n == 0x20 || n == 0x85 || n == 0xa0 || n == 0x1680 || (0x2000 <= n
        && n <= 0x200a) || n == 0x2028 || n == 0x2029 || n == 0x202f || n == 0x205f || n == 0x3000
}

/// `s` without its leading white space.
pub open spec fn trimmed_start(s: Seq<char>) -> Seq<char>
    decreases s.len(),
{
    if s.len() > 0 && white_space(s[0]) {
        trimmed_start(s.subrange(1, s.len() as int))
    } else {
        s
    }
}

/// `s` without its trailing white space.
pub open spec fn trimmed_end(s: Seq<char>) -> Seq<char>
    decreases s.len(),
{
    if s.len() > 0 && white_space(s.last()) {
        trimmed_end(s.drop_last())
    } else {
        s
    }
}

/// `s` without leading and trailing white space.
pub open spec fn trimmed(s: Seq<char>) -> Seq<char> {
    trimmed_start(trimmed_end(s))
}

/// `s` without the line feeds that end it.
pub open spec fn without_final_newlines(s: Seq<char>) -> Seq<char>
    decreases s.len(),
{
    if s.len() > 0 && s.last() == '\n' {
        without_final_newlines(s.drop_last())
    } else {
        s
    }
}

/// The characters of `s`.
pub fn chars_of(s: &str) -> (v: Vec<char>)
    ensures
        v@ == s@,
{
    let n: usize = s.unicode_len();
    let mut v: Vec<char> = Vec::new();
    for c in it: s.chars()
        invariant
            it.seq() == s@,
            v@ == s@.take(it.index() as int),
    {
        v.push(c);
    }
    assert(v@ =~= s@);
    v
}

/// `s` without its trailing white space.
pub fn trim_end<'a>(s: &'a str) -> (r: &'a str)
    ensures
        r@ == trimmed_end(s@),
{
    let v = chars_of(s);
    let mut end: usize = v.len();
    assert(s@.subrange(0, end as int) =~= s@);
    while end > 0 && is_white_space(v[end - 1])
        invariant
            v@ == s@,
            end <= v.len(),
            trimmed_end(s@) == trimmed_end(s@.subrange(0, end as int)),
        decreases end,
    {
        assert(s@.subrange(0, end as int).drop_last() =~= s@.subrange(0, end - 1));
        end = end - 1;
    }
    s.substring_char(0, end)
}

/// `s` without leading and trailing white space.
pub fn trim<'a>(s: &'a str) -> (r: &'a str)
    ensures
        r@ == trimmed(s@),
{
    let t = trim_end(s);
    let v = chars_of(t);
    let mut start: usize = 0;
    assert(t@.subrange(0, t@.len() as int) =~= t@);
    while start < v.len() && is_white_space(v[start])
        invariant
            v@ == t@,
            start <= v.len(),
            trimmed_start(t@) == trimmed_start(t@.subrange(start as int, t@.len() as int)),
        decreases v.len() - start,
    {
        let ghost rest = t@.subrange(start as int, t@.len() as int);
        assert(rest.subrange(1, rest.len() as int) =~= t@.subrange(start + 1, t@.len() as int));
        start = start + 1;
    }
    t.substring_char(start, v.len())
}

/// `s` without the line feeds that end it.
pub fn trim_end_newlines<'a>(s: &'a str) -> (r: &'a str)
    ensures
        r@ == without_final_newlines(s@),
{
    let v = chars_of(s);
    let mut end: usize = v.len();
    assert(s@.subrange(0, end as int) =~= s@);
    while end > 0 && v[end - 1] == '\n'
        invariant
            v@ == s@,
            end <= v.len(),
            without_final_newlines(s@) == without_final_newlines(s@.subrange(0, end as int)),
        decreases end,
    {
        assert(s@.subrange(0, end as int).drop_last() =~= s@.subrange(0, end - 1));
        end = end - 1;
    }
    s.substring_char(0, end)
}

/// Whether `s` holds nothing but white space.
pub fn is_blank(s: &str) -> (r: bool)
    ensures
        r == (trimmed(s@).len() == 0),
{
    trim(s).is_empty()
}

// ------------------------------------------------------------------ searching

/// Whether two texts hold the same characters.
pub fn same_text(a: &str, b: &str) -> (r: bool)
    ensures
        r == (a@ == b@),
{
    a.to_owned() == b.to_owned()
}

/// Whether two optional texts agree.
pub open spec fn same_option(a: Option<String>, b: Option<String>) -> bool {
    match (a, b) {
        (Some(x), Some(y)) => x@ == y@,
        (None, None) => true,
        _ => false,
    }
}

/// Whether two optional texts agree.
pub fn same_option_text(a: &Option<String>, b: &Option<String>) -> (r: bool)
    ensures
        r == same_option(*a, *b),
{
    match (a, b) {
        (Some(x), Some(y)) => *x == *y,
        (None, None) => true,
        _ => false,
    }
}

/// Whether `p` begins `s`.
pub open spec fn has_prefix(s: Seq<char>, p: Seq<char>) -> bool {
    p.len() <= s.len() && s.subrange(0, p.len() as int) == p
}

/// Whether `s` begins with `p`.
pub fn starts_with(s: &str, p: &str) -> (r: bool)
    ensures
        r == has_prefix(s@, p@),
{
    let n: usize = s.unicode_len();
    let m: usize = p.unicode_len();
    if m <= n {
        same_text(s.substring_char(0, m), p)
    } else {
        false
    }
}

/// What follows `p` in `s`, where `s` begins with `p`.
pub fn strip_prefix<'a>(s: &'a str, p: &str) -> (r: Option<&'a str>)
    ensures
        match r {
            Some(t) => has_prefix(s@, p@) && t@ == s@.subrange(p@.len() as int, s@.len() as int),
            None => !has_prefix(s@, p@),
        },
{
    if starts_with(s, p) {
        Some(s.substring_char(p.unicode_len(), s.unicode_len()))
    } else {
        None
    }
}

/// The index of the first `c` in `s`, or the length of `s` where it holds none.
pub open spec fn position(s: Seq<char>, c: char) -> int
    decreases s.len(),
{
    if s.len() == 0 || s[0] == c {
        0
    } else {
        1 + position(s.subrange(1, s.len() as int), c)
    }
}

/// `position` finds the first occurrence.
pub proof fn lemma_position(s: Seq<char>, c: char)
    ensures
        0 <= position(s, c) <= s.len(),
        position(s, c) < s.len() ==> s[position(s, c)] == c,
        forall|i: int| 0 <= i < position(s, c) ==> s[i] != c,
        s.contains(c) <==> position(s, c) < s.len(),
    decreases s.len(),
{
    if s.len() == 0 {
    } else if s[0] == c {
    } else {
        let rest = s.subrange(1, s.len() as int);
        lemma_position(rest, c);
        assert forall|i: int| 0 <= i < position(s, c) implies s[i] != c by {
            if i > 0 {
                assert(rest[i - 1] == s[i]);
            }
        }
        if s.contains(c) {
            let j = choose|j: int| 0 <= j < s.len() && s[j] == c;
            assert(rest[j - 1] == c);
        }
    }
}

/// The first index that satisfies the description is `position`.
pub proof fn lemma_position_is(s: Seq<char>, c: char, k: int)
    requires
        0 <= k <= s.len(),
        k < s.len() ==> s[k] == c,
        forall|i: int| 0 <= i < k ==> s[i] != c,
    ensures
        position(s, c) == k,
{
    lemma_position(s, c);
    let p = position(s, c);
    if p < k {
        assert(s[p] != c);
    } else if k < p {
        assert(s[k] != c);
    }
}

/// The index of the first `c` in `s`, or the number of characters of `s`.
pub fn find_char(s: &str, c: char) -> (r: usize)
    ensures
        r == position(s@, c),
        r <= s@.len(),
{
    let v = chars_of(s);
    let mut i: usize = 0;
    while i < v.len() && v[i] != c
        invariant
            v@ == s@,
            i <= v.len(),
            forall|j: int| 0 <= j < i ==> s@[j] != c,
        decreases v.len() - i,
    {
        i = i + 1;
    }
    proof {
        lemma_position_is(s@, c, i as int);
    }
    i
}

/// Whether `s` holds the character `c`.
pub fn contains_char(s: &str, c: char) -> (r: bool)
    ensures
        r == s@.contains(c),
{
    proof {
        lemma_position(s@, c);
    }
    find_char(s, c) < s.unicode_len()
}

/// Whether `sub` occurs in `s`.
pub open spec fn has_text(s: Seq<char>, sub: Seq<char>) -> bool {
    exists|i: int| 0 <= i && #[trigger] occurs_at(s, sub, i)
}

/// Whether `sub` stands in `s` at index `i`.
pub open spec fn occurs_at(s: Seq<char>, sub: Seq<char>, i: int) -> bool {
    i + sub.len() <= s.len() && s.subrange(i, i + sub.len()) == sub
}

/// Whether `sub` occurs in `s`.
pub fn contains_text(s: &str, sub: &str) -> (r: bool)
    ensures
        r == has_text(s@, sub@),
{
    let n: usize = s.unicode_len();
    let m: usize = sub.unicode_len();
    if m > n {
        assert forall|k: int| 0 <= k implies !#[trigger] occurs_at(s@, sub@, k) by {}
        return false;
    }
    let mut i: usize = 0;
    while i <= n - m
        invariant
            n == s@.len(),
            m == sub@.len(),
            m <= n,
            i <= n - m + 1,
            forall|k: int| 0 <= k < i ==> !#[trigger] occurs_at(s@, sub@, k),
        decreases n - m + 1 - i,
    {
        if same_text(s.substring_char(i, i + m), sub) {
            assert(occurs_at(s@, sub@, i as int));
            return true;
        }
        assert(!occurs_at(s@, sub@, i as int));
        if i == n - m {
            assert forall|k: int| 0 <= k implies !#[trigger] occurs_at(s@, sub@, k) by {}
            return false;
        }
        i = i + 1;
    }
    false
}

// ------------------------------------------------------------------ splitting

/// The pieces of `s` between the occurrences of `sep`.
pub open spec fn pieces(s: Seq<char>, sep: char) -> Seq<Seq<char>>
    decreases s.len(),
    via pieces_decreases
{
    let p = position(s, sep);
    if p < s.len() {
        seq![s.subrange(0, p)] + pieces(s.subrange(p + 1, s.len() as int), sep)
    } else {
        seq![s]
    }
}

#[via_fn]
proof fn pieces_decreases(s: Seq<char>, sep: char) {
    lemma_position(s, sep);
}

/// The characters of each text of a vector.
pub open spec fn texts(v: Seq<String>) -> Seq<Seq<char>> {
    v.map_values(|t: String| t@)
}

/// The pieces of `s` between the occurrences of `sep`.
pub fn split(s: &str, sep: char) -> (r: Vec<String>)
    ensures
        texts(r@) == pieces(s@, sep),
{
    let n: usize = s.unicode_len();
    let mut out: Vec<String> = Vec::new();
    let mut from: usize = 0;
    assert(s@.subrange(0, n as int) =~= s@);
    assert(texts(out@) =~= Seq::<Seq<char>>::empty());
    assert(texts(out@) + pieces(s@, sep) =~= pieces(s@, sep));
    loop
        invariant
            n == s@.len(),
            from <= n,
            texts(out@) + pieces(s@.subrange(from as int, n as int), sep) == pieces(s@, sep),
        decreases n - from,
    {
        let rest = s.substring_char(from, n);
        let p: usize = find_char(rest, sep);
        let piece = rest.substring_char(0, p).to_owned();
        let ghost before = out@;
        out.push(piece);
        assert(texts(out@) =~= texts(before).push(piece@));
        if p == n - from {
            assert(rest@.subrange(0, p as int) =~= rest@);
            assert(pieces(rest@, sep) =~= seq![rest@]);
            assert(texts(out@) =~= pieces(s@, sep));
            return out;
        }
        proof {
            let tail = rest@.subrange(p + 1, rest@.len() as int);
            assert(tail =~= s@.subrange(from + p + 1, n as int));
            assert(pieces(rest@, sep) =~= seq![rest@.subrange(0, p as int)] + pieces(tail, sep));
            assert(texts(out@) + pieces(tail, sep) =~= texts(before) + pieces(rest@, sep));
        }
        from = from + p + 1;
    }
}

// ------------------------------------------------------------------- ordering

/// Lexicographic order by code point.
pub open spec fn text_less(a: Seq<char>, b: Seq<char>) -> bool
    decreases a.len(),
{
    if b.len() == 0 {
        false
    } else if a.len() == 0 {
        true
    } else if a[0] == b[0] {
        text_less(a.subrange(1, a.len() as int), b.subrange(1, b.len() as int))
    } else {
        a[0] < b[0]
    }
}

/// Nothing is less than itself.
pub proof fn lemma_less_irreflexive(a: Seq<char>)
    ensures
        !text_less(a, a),
    decreases a.len(),
{
    if a.len() > 0 {
        lemma_less_irreflexive(a.subrange(1, a.len() as int));
    }
}

/// Two texts neither of which is less than the other are the same.
pub proof fn lemma_less_total(a: Seq<char>, b: Seq<char>)
    ensures
        text_less(a, b) || text_less(b, a) || a == b,
    decreases a.len(),
{
    if a.len() > 0 && b.len() > 0 && a[0] == b[0] {
        let x = a.subrange(1, a.len() as int);
        let y = b.subrange(1, b.len() as int);
        lemma_less_total(x, y);
        if x == y {
            assert(a =~= seq![a[0]] + x);
            assert(b =~= seq![b[0]] + y);
        }
    } else if a.len() == 0 && b.len() == 0 {
        assert(a =~= b);
    }
}

/// The order is transitive.
pub proof fn lemma_less_transitive(a: Seq<char>, b: Seq<char>, c: Seq<char>)
    requires
        text_less(a, b),
        text_less(b, c),
    ensures
        text_less(a, c),
    decreases a.len(),
{
    if a.len() > 0 && a[0] == b[0] && b[0] == c[0] {
        lemma_less_transitive(
            a.subrange(1, a.len() as int),
            b.subrange(1, b.len() as int),
            c.subrange(1, c.len() as int),
        );
    }
}

/// Of two texts only one can be less than the other.
pub proof fn lemma_less_asymmetric(a: Seq<char>, b: Seq<char>)
    requires
        text_less(a, b),
    ensures
        !text_less(b, a),
{
    if text_less(b, a) {
        lemma_less_transitive(a, b, a);
        lemma_less_irreflexive(a);
    }
}

/// Whether `a` comes before `b`.
pub fn less(a: &str, b: &str) -> (r: bool)
    ensures
        r == text_less(a@, b@),
{
    let x = chars_of(a);
    let y = chars_of(b);
    let mut i: usize = 0;
    assert(a@.subrange(0, a@.len() as int) =~= a@);
    assert(b@.subrange(0, b@.len() as int) =~= b@);
    loop
        invariant
            x@ == a@,
            y@ == b@,
            i <= x.len(),
            i <= y.len(),
            text_less(a@, b@) == text_less(
                a@.subrange(i as int, a@.len() as int),
                b@.subrange(i as int, b@.len() as int),
            ),
        decreases x.len() - i,
    {
        if i == y.len() {
            return false;
        }
        if i == x.len() {
            return true;
        }
        let ghost ra = a@.subrange(i as int, a@.len() as int);
        let ghost rb = b@.subrange(i as int, b@.len() as int);
        if x[i] != y[i] {
            return x[i] < y[i];
        }
        assert(ra.subrange(1, ra.len() as int) =~= a@.subrange(i + 1, a@.len() as int));
        assert(rb.subrange(1, rb.len() as int) =~= b@.subrange(i + 1, b@.len() as int));
        i = i + 1;
    }
}

/// No text of `s` is less than one that stands before it.
pub open spec fn in_order(s: Seq<String>) -> bool {
    forall|i: int, j: int| 0 <= i < j < s.len() ==> !text_less((#[trigger] s[j])@, (#[trigger] s[i])@)
}

/// The same texts, in ascending order.
pub fn sort_texts(v: Vec<String>) -> (r: Vec<String>)
    ensures
        in_order(r@),
        r@.to_multiset() == v@.to_multiset(),
        r.len() == v.len(),
{
    let mut out: Vec<String> = Vec::new();
    let mut i: usize = 0;
    let ghost all = v@;
    proof {
        assert(all.take(0) =~= out@);
    }
    while i < v.len()
        invariant
            i <= v.len(),
            v@ == all,
            out.len() == i,
            in_order(out@),
            out@.to_multiset() == all.take(i as int).to_multiset(),
        decreases v.len() - i,
    {
        let item = v[i].clone();
        let mut k: usize = out.len();
        while k > 0 && less(&item, &out[k - 1])
            invariant
                k <= out.len(),
                forall|j: int| k <= j < out.len() ==> text_less(item@, (#[trigger] out@[j])@),
            decreases k,
        {
            k = k - 1;
        }
        let ghost before = out@;
        proof {
            assert forall|j: int| 0 <= j < k implies !text_less(item@, (#[trigger] before[j])@) by {
                if text_less(item@, before[j]@) && j < k - 1 {
                    assert(!text_less(before[k - 1]@, before[j]@));
                    lemma_less_total(before[j]@, before[k - 1]@);
                    if text_less(before[j]@, before[k - 1]@) {
                        lemma_less_transitive(item@, before[j]@, before[k - 1]@);
                    }
                }
            }
        }
        out.insert(k, item);
        proof {
            before.to_multiset_ensures();
            broadcast use vstd::seq_lib::group_to_multiset_ensures;
            assert(out@ =~= before.insert(k as int, item));
            assert forall|a: int, b: int| 0 <= a < b < out@.len() implies !text_less(
                (#[trigger] out@[b])@,
                (#[trigger] out@[a])@,
            ) by {
                if a < k && b == k {
                } else if a == k {
                    lemma_less_asymmetric(item@, before[b - 1]@);
                } else {
                    let x = if a < k { a } else { a - 1 };
                    let y = if b < k { b } else { b - 1 };
                    assert(!text_less(before[y]@, before[x]@));
                }
            }
            assert(all.take(i + 1) =~= all.take(i as int).push(all[i as int]));
        }
        i = i + 1;
    }
    proof {
        assert(all.take(all.len() as int) =~= all);
    }
    out
}

// -------------------------------------------------------------------- numbers

/// Whether `c` is one of the ten decimal digits.
pub open spec fn is_digit(c: char) -> bool {
    '0' <= c <= '9'
}

/// The number that decimal digits write.
pub open spec fn digits_value(s: Seq<char>) -> nat
    decreases s.len(),
{
    if s.len() == 0 {
        0
    } else {
        digits_value(s.drop_last()) * 10 + ((s.last() as u32) - ('0' as u32)) as nat
    }
}

/// What is left of a number's text after one leading plus sign.
pub open spec fn unsigned_body(s: Seq<char>) -> Seq<char> {
    if s.len() > 0 && s[0] == '+' {
        s.subrange(1, s.len() as int)
    } else {
        s
    }
}

/// The unsigned 64-bit number that `s` writes in decimal, if it does.
pub open spec fn parsed_u64(s: Seq<char>) -> Option<u64> {
    let body = unsigned_body(s);
    if body.len() > 0 && (forall|i: int| 0 <= i < body.len() ==> is_digit(#[trigger] body[i]))
        && digits_value(body) <= u64::MAX {
        Some(digits_value(body) as u64)
    } else {
        None
    }
}

proof fn lemma_digits_value_grows(s: Seq<char>, k: int)
    requires
        0 <= k <= s.len(),
        forall|i: int| 0 <= i < s.len() ==> is_digit(#[trigger] s[i]),
    ensures
        digits_value(s.take(k)) <= digits_value(s),
    decreases s.len(),
{
    if k == s.len() {
        assert(s.take(k) =~= s);
    } else {
        let t = s.drop_last();
        assert forall|i: int| 0 <= i < t.len() implies is_digit(#[trigger] t[i]) by {
            assert(t[i] == s[i]);
        }
        lemma_digits_value_grows(t, k);
        assert(t.take(k) =~= s.take(k));
        assert(is_digit(s[s.len() - 1]));
    }
}

/// The unsigned 64-bit number that `s` writes in decimal, with at most one leading plus sign.
pub fn parse_u64(s: &str) -> (r: Option<u64>)
    ensures
        r == parsed_u64(s@),
{
    let v = chars_of(s);
    let ghost body = unsigned_body(s@);
    let mut i: usize = 0;
    if v.len() > 0 && v[0] == '+' {
        i = 1;
    }
    let start: usize = i;
    if start == v.len() {
        return None;
    }
    let mut value: u64 = 0;
    assert(body.take(0) =~= Seq::<char>::empty());
    while i < v.len()
        invariant
            v@ == s@,
            start <= i <= v.len(),
            start < v.len(),
            body == s@.subrange(start as int, s@.len() as int),
            body == unsigned_body(s@),
            forall|k: int| 0 <= k < i - start ==> is_digit(#[trigger] body[k]),
            value == digits_value(body.take(i - start)),
        decreases v.len() - i,
    {
        let c = v[i];
        assert(body[i - start] == c);
        if !('0' <= c && c <= '9') {
            return None;
        }
        let digit: u64 = (c as u32 - '0' as u32) as u64;
        assert(body.take(i + 1 - start).drop_last() =~= body.take(i - start));
        assert(digits_value(body.take(i + 1 - start)) == value * 10 + digit);
        if value > (u64::MAX - digit) / 10 {
            proof {
                if forall|k: int| 0 <= k < body.len() ==> is_digit(#[trigger] body[k]) {
                    lemma_digits_value_grows(body, i + 1 - start);
                }
            }
            return None;
        }
        value = value * 10 + digit;
        i = i + 1;
    }
    assert(body.take(body.len() as int) =~= body);
    Some(value)
}

/// The decimal digit that stands for `n`.
pub open spec fn digit_char(n: nat) -> char {
    (48 + n) as char
}

/// `n` written in decimal.
pub open spec fn decimal_text(n: nat) -> Seq<char>
    decreases n,
{
    if n < 10 {
        seq![digit_char(n)]
    } else {
        decimal_text(n / 10).push(digit_char(n % 10))
    }
}

fn digit_str(n: u64) -> (r: &'static str)
    requires
        n < 10,
    ensures
        r@ == seq![digit_char(n as nat)],
{
    proof {
        reveal_strlit("0");
        reveal_strlit("1");
        reveal_strlit("2");
        reveal_strlit("3");
        reveal_strlit("4");
        reveal_strlit("5");
        reveal_strlit("6");
        reveal_strlit("7");
        reveal_strlit("8");
        reveal_strlit("9");
    }
    let r = match n {
        0 => "0",
        1 => "1",
        2 => "2",
        3 => "3",
        4 => "4",
        5 => "5",
        6 => "6",
        7 => "7",
        8 => "8",
        _ => "9",
    };
    assert(r@ =~= seq![digit_char(n as nat)]);
    r
}

/// `n` written in decimal.
pub fn decimal(n: u64) -> (r: String)
    ensures
        r@ == decimal_text(n as nat),
    decreases n,
{
    if n < 10 {
        digit_str(n).to_owned()
    } else {
        let mut head = decimal(n / 10);
        head.append(digit_str(n % 10));
        assert(head@ =~= decimal_text(n as nat / 10).push(digit_char(n as nat % 10)));
        head
    }
}

// ---------------------------------------------------------------- lower case

/// `c` with an ASCII capital made small.
pub open spec fn lower_char(c: char) -> char {
    if 'A' <= c <= 'Z' {
        (c as u32 + 32) as char
    } else {
        c
    }
}

/// `s` with its ASCII capitals made small.
pub open spec fn lowered(s: Seq<char>) -> Seq<char> {
    s.map_values(|c: char| lower_char(c))
}

/// `c` with an ASCII capital made small.
pub fn to_lower(c: char) -> (r: char)
    ensures
        r == lower_char(c),
{
    match c {
        'A' => 'a',
        'B' => 'b',
        'C' => 'c',
        'D' => 'd',
        'E' => 'e',
        'F' => 'f',
        'G' => 'g',
        'H' => 'h',
        'I' => 'i',
        'J' => 'j',
        'K' => 'k',
        'L' => 'l',
        'M' => 'm',
        'N' => 'n',
        'O' => 'o',
        'P' => 'p',
        'Q' => 'q',
        'R' => 'r',
        'S' => 's',
        'T' => 't',
        'U' => 'u',
        'V' => 'v',
        'W' => 'w',
        'X' => 'x',
        'Y' => 'y',
        'Z' => 'z',
        _ => c,
    }
}

/// Whether `s`, with its ASCII capitals made small, is `t`.
pub fn lowers_to(s: &str, t: &str) -> (r: bool)
    ensures
        r == (lowered(s@) == t@),
{
    let x = chars_of(s);
    let y = chars_of(t);
    if x.len() != y.len() {
        assert(lowered(s@).len() != t@.len());
        return false;
    }
    let mut i: usize = 0;
    while i < x.len()
        invariant
            x@ == s@,
            y@ == t@,
            x.len() == y.len(),
            i <= x.len(),
            forall|k: int| 0 <= k < i ==> lower_char(s@[k]) == #[trigger] t@[k],
        decreases x.len() - i,
    {
        if to_lower(x[i]) != y[i] {
            assert(lowered(s@)[i as int] != t@[i as int]);
            return false;
        }
        i = i + 1;
    }
    assert(lowered(s@) =~= t@);
    true
}

// -------------------------------------------------------------- concatenation

/// The two texts one after the other.
pub fn join2(a: &str, b: &str) -> (r: String)
    ensures
        r@ == a@ + b@,
{
    let mut s = a.to_owned();
    s.append(b);
    s
}

/// The three texts one after the other.
pub fn join3(a: &str, b: &str, c: &str) -> (r: String)
    ensures
        r@ == a@ + b@ + c@,
{
    let mut s = join2(a, b);
    s.append(c);
    s
}

/// The four texts one after the other.
pub fn join4(a: &str, b: &str, c: &str, d: &str) -> (r: String)
    ensures
        r@ == a@ + b@ + c@ + d@,
{
    let mut s = join3(a, b, c);
    s.append(d);
    s
}

/// The five texts one after the other.
pub fn join5(a: &str, b: &str, c: &str, d: &str, e: &str) -> (r: String)
    ensures
        r@ == a@ + b@ + c@ + d@ + e@,
{
    let mut s = join4(a, b, c, d);
    s.append(e);
    s
}

// ------------------------------------------------------------------------ laws

/// Whether a text holds nothing but white space.
pub open spec fn all_white(s: Seq<char>) -> bool {
    forall|i: int| 0 <= i < s.len() ==> white_space(#[trigger] s[i])
}

/// Blanks, tabs and line ends are white space; letters, digits and the signs of names are not.
pub proof fn what_is_white_space(c: char)
    ensures
        white_space(' ') && white_space('\t') && white_space('\n') && white_space('\r'),
        'a' <= c <= 'z' || 'A' <= c <= 'Z' || '0' <= c <= '9' || c == '-' || c == '_' || c == '.'
            || c == '/' ==> !white_space(c),
{
}

proof fn lemma_trimmed_end(s: Seq<char>)
    ensures
        trimmed_end(s).len() <= s.len(),
        s == trimmed_end(s) + s.skip(trimmed_end(s).len() as int),
        all_white(s.skip(trimmed_end(s).len() as int)),
        trimmed_end(s).len() > 0 ==> !white_space(trimmed_end(s).last()),
    decreases s.len(),
{
    if s.len() > 0 && white_space(s.last()) {
        let h = s.drop_last();
        lemma_trimmed_end(h);
        let n = trimmed_end(s).len() as int;
        assert(s.skip(n) =~= h.skip(n).push(s.last()));
        assert(s =~= h.push(s.last()));
        assert(h.push(s.last()) =~= trimmed_end(s) + h.skip(n).push(s.last()));
    } else {
        assert(s.skip(s.len() as int) =~= Seq::<char>::empty());
        assert(s =~= trimmed_end(s) + s.skip(trimmed_end(s).len() as int));
    }
}

proof fn lemma_trimmed_start(s: Seq<char>)
    ensures
        trimmed_start(s).len() <= s.len(),
        s == s.take(s.len() - trimmed_start(s).len()) + trimmed_start(s),
        all_white(s.take(s.len() - trimmed_start(s).len())),
        trimmed_start(s).len() > 0 ==> !white_space(trimmed_start(s)[0]) && trimmed_start(s).last()
            == s.last(),
    decreases s.len(),
{
    if s.len() > 0 && white_space(s[0]) {
        let t = s.subrange(1, s.len() as int);
        lemma_trimmed_start(t);
        let n = s.len() - trimmed_start(s).len();
        assert(s.take(n) =~= seq![s[0]] + t.take(n - 1));
        assert(s =~= seq![s[0]] + t);
        assert(seq![s[0]] + t =~= seq![s[0]] + t.take(n - 1) + trimmed_start(s));
    } else {
        assert(s.take(0) =~= Seq::<char>::empty());
        assert(s =~= s.take(s.len() - trimmed_start(s).len()) + trimmed_start(s));
    }
}

/// Trimming takes away white space alone, from both ends or from the end, and all of it there.
pub proof fn trimming_takes_white_space_alone(s: Seq<char>)
    ensures
        exists|before: Seq<char>, after: Seq<char>|
            s == #[trigger] (before + trimmed(s) + after) && all_white(before) && all_white(after),
        trimmed(s).len() > 0 ==> !white_space(trimmed(s)[0]) && !white_space(trimmed(s).last()),
        exists|after: Seq<char>| s == #[trigger] (trimmed_end(s) + after) && all_white(after),
        trimmed_end(s).len() > 0 ==> !white_space(trimmed_end(s).last()),
{
    lemma_trimmed_end(s);
    let e = trimmed_end(s);
    lemma_trimmed_start(e);
    let before = e.take(e.len() - trimmed(s).len());
    let after = s.skip(e.len() as int);
    assert(s =~= before + trimmed(s) + after);
    assert(s =~= e + after);
}

/// What is left without the line feeds at the end is the text itself up to them.
pub proof fn only_final_newlines_go(s: Seq<char>)
    ensures
        without_final_newlines(s).len() <= s.len(),
        without_final_newlines(s) == s.take(without_final_newlines(s).len() as int),
        forall|i: int| without_final_newlines(s).len() <= i < s.len() ==> #[trigger] s[i] == '\n',
        without_final_newlines(s).len() > 0 ==> without_final_newlines(s).last() != '\n',
    decreases s.len(),
{
    if s.len() > 0 && s.last() == '\n' {
        let h = s.drop_last();
        only_final_newlines_go(h);
        let n = without_final_newlines(s).len() as int;
        assert(h.take(n) =~= s.take(n));
        assert forall|i: int| n <= i < s.len() implies #[trigger] s[i] == '\n' by {
            if i < h.len() {
                assert(h[i] == s[i]);
            }
        }
    } else {
        assert(s.take(s.len() as int) =~= s);
    }
}

/// A prefix is what a text begins with.
pub proof fn a_prefix_begins_a_text(p: Seq<char>, rest: Seq<char>, s: Seq<char>)
    ensures
        has_prefix(p + rest, p),
        has_prefix(s, p) ==> exists|tail: Seq<char>| s == #[trigger] (p + tail),
{
    assert((p + rest).subrange(0, p.len() as int) =~= p);
    if has_prefix(s, p) {
        let tail = s.subrange(p.len() as int, s.len() as int);
        assert(s =~= p + tail);
    }
}

/// A text occurs in every text that is written around it, and in no other.
pub proof fn a_text_occurs_where_it_stands(
    before: Seq<char>,
    sub: Seq<char>,
    after: Seq<char>,
    s: Seq<char>,
)
    ensures
        has_text(before + sub + after, sub),
        has_text(s, sub) ==> exists|a: Seq<char>, b: Seq<char>| s == #[trigger] (a + sub + b),
{
    let t = before + sub + after;
    let n = before.len() as int;
    assert(t.subrange(n, n + sub.len()) =~= sub);
    assert(occurs_at(t, sub, n));
    if has_text(s, sub) {
        let i = choose|i: int| 0 <= i && #[trigger] occurs_at(s, sub, i);
        let a = s.subrange(0, i);
        let b = s.subrange(i + sub.len(), s.len() as int);
        assert(s =~= a + sub + b);
    }
}

/// Texts joined by a character.
pub open spec fn joined(parts: Seq<Seq<char>>, sep: char) -> Seq<char>
    decreases parts.len(),
{
    if parts.len() == 0 {
        Seq::empty()
    } else if parts.len() == 1 {
        parts[0]
    } else {
        parts[0] + seq![sep] + joined(parts.subrange(1, parts.len() as int), sep)
    }
}

/// The pieces of a text hold no separator, and joined by it they are the text again.
pub proof fn pieces_join_again(s: Seq<char>, sep: char)
    ensures
        pieces(s, sep).len() > 0,
        joined(pieces(s, sep), sep) == s,
        forall|i: int| 0 <= i < pieces(s, sep).len() ==> !(#[trigger] pieces(s, sep)[i]).contains(sep),
    decreases s.len(),
{
    lemma_position(s, sep);
    let p = position(s, sep);
    if p < s.len() {
        let rest = s.subrange(p + 1, s.len() as int);
        pieces_join_again(rest, sep);
        let head = s.subrange(0, p);
        let all = pieces(s, sep);
        assert(all.subrange(1, all.len() as int) =~= pieces(rest, sep));
        assert(s =~= head + seq![sep] + rest);
        assert(!head.contains(sep)) by {
            if head.contains(sep) {
                let i = choose|i: int| 0 <= i < head.len() && head[i] == sep;
                assert(s[i] == sep);
            }
        }
        assert forall|i: int| 0 <= i < all.len() implies !(#[trigger] all[i]).contains(sep) by {
            if i > 0 {
                assert(all[i] == pieces(rest, sep)[i - 1]);
            }
        }
    }
}

/// The order of texts is decided by the first character in which they differ; a text comes before
/// every longer one that it begins.
pub proof fn the_first_difference_decides(a: Seq<char>, b: Seq<char>, n: int)
    requires
        0 <= n <= a.len(),
        0 <= n <= b.len(),
        a.take(n) == b.take(n),
    ensures
        n < a.len() && n < b.len() && a[n] < b[n] ==> text_less(a, b) && !text_less(b, a),
        n == a.len() && n < b.len() ==> text_less(a, b) && !text_less(b, a),
    decreases n,
{
    if n > 0 {
        let x = a.subrange(1, a.len() as int);
        let y = b.subrange(1, b.len() as int);
        assert(a.take(n)[0] == b.take(n)[0]);
        assert(x.take(n - 1) =~= a.take(n).subrange(1, n));
        assert(y.take(n - 1) =~= b.take(n).subrange(1, n));
        the_first_difference_decides(x, y, n - 1);
        assert(a.take(n)[0] == a[0]);
        assert(b.take(n)[0] == b[0]);
        assert(n < a.len() ==> x[n - 1] == a[n]);
        assert(n < b.len() ==> y[n - 1] == b[n]);
    }
}

proof fn lemma_decimal(n: nat)
    ensures
        decimal_text(n).len() > 0,
        forall|i: int| 0 <= i < decimal_text(n).len() ==> is_digit(#[trigger] decimal_text(n)[i]),
        digits_value(decimal_text(n)) == n,
    decreases n,
{
    if n >= 10 {
        lemma_decimal(n / 10);
        assert(decimal_text(n).drop_last() =~= decimal_text(n / 10));
    } else {
        assert(decimal_text(n).drop_last() =~= Seq::<char>::empty());
        assert(digits_value(decimal_text(n).drop_last()) == 0);
    }
}

/// A number that is written is read back, with or without a plus sign before it; a text with
/// anything but digits behind that sign is no number.
pub proof fn a_number_reads_back(n: u64, s: Seq<char>, i: int)
    ensures
        parsed_u64(decimal_text(n as nat)) == Some(n),
        parsed_u64(seq!['+'] + decimal_text(n as nat)) == Some(n),
        s.len() == 0 ==> parsed_u64(s) is None,
        0 <= i < s.len() && !('0' <= s[i] <= '9') && !(i == 0 && s[0] == '+') ==> parsed_u64(s)
            is None,
{
    lemma_decimal(n as nat);
    let d = decimal_text(n as nat);
    assert(is_digit(d[0]));
    let p = seq!['+'] + d;
    assert(p.subrange(1, p.len() as int) =~= d);
    if 0 <= i < s.len() && !('0' <= s[i] <= '9') && !(i == 0 && s[0] == '+') {
        let body = unsigned_body(s);
        if s[0] == '+' {
            assert(body[i - 1] == s[i]);
        } else {
            assert(body[i] == s[i]);
        }
    }
}

/// Making capitals small changes the ASCII capitals alone, each to its small letter.
pub proof fn only_capitals_are_lowered(s: Seq<char>, i: int)
    ensures
        lowered(s).len() == s.len(),
        0 <= i < s.len() && 'A' <= s[i] <= 'Z' ==> lowered(s)[i] as u32 == s[i] as u32 + 32,
        0 <= i < s.len() && !('A' <= s[i] <= 'Z') ==> lowered(s)[i] == s[i],
{
}

/// A list of texts is seen text by text; it is in order where no text comes before an earlier one.
/// Two optional texts are the same where both are missing or both read alike.
pub proof fn texts_are_seen_whole(
    v: Seq<String>,
    i: int,
    j: int,
    a: Option<String>,
    b: Option<String>,
)
    ensures
        texts(v).len() == v.len(),
        0 <= i < v.len() ==> texts(v)[i] == v[i]@,
        in_order(v) && 0 <= i < j < v.len() ==> !text_less(v[j]@, v[i]@),
        (forall|x: int, y: int|
            0 <= x < y < v.len() ==> !text_less((#[trigger] v[y])@, (#[trigger] v[x])@)) ==> in_order(
            v,
        ),
        same_option(a, b) <==> (a is Some <==> b is Some) && (a is Some ==> a->0@ == b->0@),
{
}

} // verus!
