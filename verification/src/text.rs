//! Character-level text primitives.
//!
//! Everything the crate decides about text is decided on sequences of `char`:
//! a `&str` is unfolded into a `Vec<char>` on entry and folded back into a
//! `String` on exit, and every operation in between has a specification over
//! `Seq<char>`.

use vstd::prelude::*;

verus! {

/// `String::push` appends exactly one character to the end of the string.
pub assume_specification[ String::push ](s: &mut String, c: char)
    ensures
        final(s)@ == old(s)@.push(c),
;

/// `String::pop` takes the last character off the string and returns it, and
/// returns nothing for the empty string.
pub assume_specification[ String::pop ](s: &mut String) -> (c: Option<char>)
    ensures
        match c {
            Some(last) => old(s)@.len() > 0 && last == old(s)@.last() && final(s)@ == old(
                s,
            )@.drop_last(),
            None => old(s)@.len() == 0 && final(s)@ == old(s)@,
        },
;

/// The characters with the Unicode `White_Space` property.
pub open spec fn is_whitespace(c: char) -> bool {
    let n = c as u32;
    ||| 0x09 <= n <= 0x0D
    ||| n == 0x20
    ||| n == 0x85
    ||| n == 0xA0
    ||| n == 0x1680
    ||| 0x2000 <= n <= 0x200A
    ||| n == 0x2028
    ||| n == 0x2029
    ||| n == 0x202F
    ||| n == 0x205F
    ||| n == 0x3000
}

/// `s` without its leading whitespace.
pub open spec fn trimmed_start(s: Seq<char>) -> Seq<char>
    decreases s.len(),
{
    if s.len() > 0 && is_whitespace(s[0]) {
        trimmed_start(s.drop_first())
    } else {
        s
    }
}

/// `s` without its trailing whitespace.
pub open spec fn trimmed_end(s: Seq<char>) -> Seq<char>
    decreases s.len(),
{
    if s.len() > 0 && is_whitespace(s.last()) {
        trimmed_end(s.drop_last())
    } else {
        s
    }
}

/// `s` without leading and trailing whitespace.
pub open spec fn trimmed(s: Seq<char>) -> Seq<char> {
    trimmed_end(trimmed_start(s))
}

/// `s` without its leading occurrences of `c`.
pub open spec fn stripped_start(s: Seq<char>, c: char) -> Seq<char>
    decreases s.len(),
{
    if s.len() > 0 && s[0] == c {
        stripped_start(s.drop_first(), c)
    } else {
        s
    }
}

/// `s` without its trailing occurrences of `c`.
pub open spec fn stripped_end(s: Seq<char>, c: char) -> Seq<char>
    decreases s.len(),
{
    if s.len() > 0 && s.last() == c {
        stripped_end(s.drop_last(), c)
    } else {
        s
    }
}

/// `s` without the occurrences of `c` at either end.
pub open spec fn stripped(s: Seq<char>, c: char) -> Seq<char> {
    stripped_end(stripped_start(s, c), c)
}

/// The state of a left-to-right line split after reading `s`: the lines that
/// a line feed has closed, and the characters of the line still open.
pub open spec fn split_state(s: Seq<char>) -> (Seq<Seq<char>>, Seq<char>)
    decreases s.len(),
{
    if s.len() == 0 {
        (Seq::empty(), Seq::empty())
    } else {
        let (closed, open) = split_state(s.drop_last());
        if s.last() == '\n' {
            (closed.push(open), Seq::empty())
        } else {
            (closed, open.push(s.last()))
        }
    }
}

/// The lines of `s`: the pieces between line feeds, the line feeds themselves
/// left out. A text that ends in a line feed has no empty last line.
pub open spec fn lines_of(s: Seq<char>) -> Seq<Seq<char>> {
    let (closed, open) = split_state(s);
    if open.len() > 0 {
        closed.push(open)
    } else {
        closed
    }
}

/// The state of a left-to-right line split that also remembers where each
/// line begins: the closed lines with their first index, the first index of
/// the open line, and the open line.
pub open spec fn numbered_split(s: Seq<char>) -> (Seq<(int, Seq<char>)>, int, Seq<char>)
    decreases s.len(),
{
    if s.len() == 0 {
        (Seq::empty(), 0, Seq::empty())
    } else {
        let (closed, start, open) = numbered_split(s.drop_last());
        if s.last() == '\n' {
            (closed.push((start, open)), s.len() as int, Seq::empty())
        } else {
            (closed, start, open.push(s.last()))
        }
    }
}

/// The lines of `s`, each with the index at which it begins.
pub open spec fn numbered_lines(s: Seq<char>) -> Seq<(int, Seq<char>)> {
    let (closed, start, open) = numbered_split(s);
    if open.len() > 0 {
        closed.push((start, open))
    } else {
        closed
    }
}

/// The indices and texts that a sequence of numbered vectors holds.
pub open spec fn numbered(v: Seq<(usize, Vec<char>)>) -> Seq<(int, Seq<char>)> {
    Seq::new(v.len(), |i: int| (v[i].0 as int, v[i].1@))
}

/// `needle` stands in `hay` at index `i`.
pub open spec fn matches_at(hay: Seq<char>, needle: Seq<char>, i: int) -> bool {
    &&& 0 <= i
    &&& i + needle.len() <= hay.len()
    &&& hay.subrange(i, i + needle.len()) == needle
}

/// `hay` begins with `needle`.
pub open spec fn has_prefix(hay: Seq<char>, needle: Seq<char>) -> bool {
    matches_at(hay, needle, 0)
}

/// `needle` occurs somewhere in `hay`.
pub open spec fn has_substring(hay: Seq<char>, needle: Seq<char>) -> bool {
    exists|i: int| matches_at(hay, needle, i)
}

/// The least index at or after `from` where `needle` stands in `hay`.
pub open spec fn first_match(hay: Seq<char>, needle: Seq<char>, from: int) -> Option<int>
    decreases hay.len() - from + 1,
{
    if from < 0 || from + needle.len() > hay.len() {
        None
    } else if matches_at(hay, needle, from) {
        Some(from)
    } else {
        first_match(hay, needle, from + 1)
    }
}

/// The greatest index where `c` stands in `s`.
pub open spec fn last_index_of(s: Seq<char>, c: char) -> Option<int>
    decreases s.len(),
{
    if s.len() == 0 {
        None
    } else if s.last() == c {
        Some(s.len() - 1)
    } else {
        last_index_of(s.drop_last(), c)
    }
}

/// The parts written one after another with `sep` between neighbours.
pub open spec fn joined(parts: Seq<Seq<char>>, sep: Seq<char>) -> Seq<char>
    decreases parts.len(),
{
    if parts.len() == 0 {
        Seq::empty()
    } else if parts.len() == 1 {
        parts[0]
    } else {
        joined(parts.drop_last(), sep) + sep + parts.last()
    }
}

/// The decimal digit for `d < 10`.
pub open spec fn digit_of(d: nat) -> char {
    if d == 0 {
        '0'
    } else if d == 1 {
        '1'
    } else if d == 2 {
        '2'
    } else if d == 3 {
        '3'
    } else if d == 4 {
        '4'
    } else if d == 5 {
        '5'
    } else if d == 6 {
        '6'
    } else if d == 7 {
        '7'
    } else if d == 8 {
        '8'
    } else {
        '9'
    }
}

/// `n` in decimal, without sign or leading zeros.
pub open spec fn decimal_of(n: nat) -> Seq<char>
    decreases n,
{
    if n < 10 {
        seq![digit_of(n)]
    } else {
        decimal_of(n / 10).push(digit_of(n % 10))
    }
}

/// The texts that a sequence of character vectors holds.
pub open spec fn texts(v: Seq<Vec<char>>) -> Seq<Seq<char>> {
    Seq::new(v.len(), |i: int| v[i]@)
}

/// The texts that a sequence of strings holds.
pub open spec fn strings(v: Seq<String>) -> Seq<Seq<char>> {
    Seq::new(v.len(), |i: int| v[i]@)
}

/// `n` in decimal, with a minus sign where it is negative.
pub open spec fn signed_decimal_of(n: int) -> Seq<char> {
    if n < 0 {
        "-"@ + decimal_of((-n) as nat)
    } else {
        decimal_of(n as nat)
    }
}

/// The characters of `s`, in order.
pub fn to_chars(s: &str) -> (v: Vec<char>)
    ensures
        v@ == s@,
{
    let mut v: Vec<char> = Vec::new();
    for c in it: s.chars()
        invariant
            v@ == it.seq().take(it.index() as int),
    {
        v.push(c);
    }
    v
}

/// The string made of the characters of `v`, in order.
pub fn from_chars(v: &Vec<char>) -> (s: String)
    ensures
        s@ == v@,
{
    let mut s = String::new();
    let mut i: usize = 0;
    while i < v.len()
        invariant
            i <= v.len(),
            s@ == v@.take(i as int),
        decreases v.len() - i,
    {
        s.push(v[i]);
        i += 1;
    }
    s
}

/// Whether `c` is Unicode whitespace.
pub fn whitespace(c: char) -> (b: bool)
    ensures
        b == is_whitespace(c),
{
    let n: u32 = c as u32;
    (0x09 <= n && n <= 0x0D) || n == 0x20 || n == 0x85 || n == 0xA0 || n == 0x1680 || (0x2000 <= n
        && n <= 0x200A) || n == 0x2028 || n == 0x2029 || n == 0x202F || n == 0x205F || n == 0x3000
}

/// A copy of `v[from..to]`.
pub fn slice(v: &Vec<char>, from: usize, to: usize) -> (r: Vec<char>)
    requires
        from <= to <= v.len(),
    ensures
        r@ == v@.subrange(from as int, to as int),
{
    let mut r: Vec<char> = Vec::new();
    let mut i: usize = from;
    while i < to
        invariant
            from <= i <= to <= v.len(),
            r@ == v@.subrange(from as int, i as int),
        decreases to - i,
    {
        r.push(v[i]);
        i += 1;
    }
    r
}

/// Appends the characters of `tail` to `head`.
pub fn extend(head: &mut Vec<char>, tail: &Vec<char>)
    ensures
        final(head)@ == old(head)@ + tail@,
{
    let mut i: usize = 0;
    while i < tail.len()
        invariant
            i <= tail.len(),
            head@ == old(head)@ + tail@.take(i as int),
        decreases tail.len() - i,
    {
        head.push(tail[i]);
        i += 1;
    }
}

/// Whether two character vectors hold the same text.
pub fn same(a: &Vec<char>, b: &Vec<char>) -> (r: bool)
    ensures
        r == (a@ == b@),
{
    if a.len() != b.len() {
        return false;
    }
    let mut i: usize = 0;
    while i < a.len()
        invariant
            i <= a.len(),
            a.len() == b.len(),
            a@.take(i as int) == b@.take(i as int),
        decreases a.len() - i,
    {
        if a[i] != b[i] {
            return false;
        }
        assert(a@.take(i + 1) == a@.take(i as int).push(a@[i as int]));
        assert(b@.take(i + 1) == b@.take(i as int).push(b@[i as int]));
        i += 1;
    }
    assert(a@.take(a.len() as int) == a@);
    assert(b@.take(b.len() as int) == b@);
    true
}

/// Whether two strings hold the same text.
pub fn equal(a: &str, b: &str) -> (r: bool)
    ensures
        r == (a@ == b@),
{
    let x = to_chars(a);
    let y = to_chars(b);
    same(&x, &y)
}

/// `v` without leading and trailing whitespace.
pub fn trim(v: &Vec<char>) -> (r: Vec<char>)
    ensures
        r@ == trimmed(v@),
{
    let n = v.len();
    let mut a: usize = 0;
    assert(v@.skip(0) == v@);
    while a < n && whitespace(v[a])
        invariant
            a <= n == v.len(),
            trimmed_start(v@) == trimmed_start(v@.skip(a as int)),
        decreases n - a,
    {
        assert(v@.skip(a as int).drop_first() == v@.skip(a + 1));
        a += 1;
    }
    let mut b: usize = n;
    while b > a && whitespace(v[b - 1])
        invariant
            a <= b <= n == v.len(),
            trimmed(v@) == trimmed_end(v@.subrange(a as int, b as int)),
        decreases b,
    {
        assert(v@.subrange(a as int, b as int).drop_last() == v@.subrange(a as int, b - 1));
        b -= 1;
    }
    slice(v, a, b)
}

/// `v` without the occurrences of `c` at either end.
pub fn strip(v: &Vec<char>, c: char) -> (r: Vec<char>)
    ensures
        r@ == stripped(v@, c),
{
    let n = v.len();
    let mut a: usize = 0;
    assert(v@.skip(0) == v@);
    while a < n && v[a] == c
        invariant
            a <= n == v.len(),
            stripped_start(v@, c) == stripped_start(v@.skip(a as int), c),
        decreases n - a,
    {
        assert(v@.skip(a as int).drop_first() == v@.skip(a + 1));
        a += 1;
    }
    let mut b: usize = n;
    while b > a && v[b - 1] == c
        invariant
            a <= b <= n == v.len(),
            stripped(v@, c) == stripped_end(v@.subrange(a as int, b as int), c),
        decreases b,
    {
        assert(v@.subrange(a as int, b as int).drop_last() == v@.subrange(a as int, b - 1));
        b -= 1;
    }
    slice(v, a, b)
}

/// The lines of `v`, each as its own vector.
pub fn split_lines(v: &Vec<char>) -> (r: Vec<Vec<char>>)
    ensures
        texts(r@) == lines_of(v@),
{
    let mut closed: Vec<Vec<char>> = Vec::new();
    let mut open: Vec<char> = Vec::new();
    let mut i: usize = 0;
    assert(texts(closed@) == Seq::<Seq<char>>::empty());
    while i < v.len()
        invariant
            i <= v.len(),
            (texts(closed@), open@) == split_state(v@.take(i as int)),
        decreases v.len() - i,
    {
        assert(v@.take(i + 1).drop_last() == v@.take(i as int));
        let ghost before = closed@;
        if v[i] == '\n' {
            closed.push(open);
            assert(texts(closed@) == texts(before).push(open@));
            open = Vec::new();
        } else {
            open.push(v[i]);
        }
        i += 1;
    }
    assert(v@.take(v.len() as int) == v@);
    if open.len() > 0 {
        let ghost before = closed@;
        closed.push(open);
        assert(texts(closed@) == texts(before).push(open@));
    }
    closed
}

/// The lines of `v`, each with the index at which it begins.
pub fn split_numbered(v: &Vec<char>) -> (r: Vec<(usize, Vec<char>)>)
    ensures
        numbered(r@) == numbered_lines(v@),
{
    let mut closed: Vec<(usize, Vec<char>)> = Vec::new();
    let mut open: Vec<char> = Vec::new();
    let mut start: usize = 0;
    let mut i: usize = 0;
    assert(numbered(closed@) == Seq::<(int, Seq<char>)>::empty());
    while i < v.len()
        invariant
            i <= v.len(),
            start <= i,
            (numbered(closed@), start as int, open@) == numbered_split(v@.take(i as int)),
        decreases v.len() - i,
    {
        assert(v@.take(i + 1).drop_last() == v@.take(i as int));
        let ghost before = closed@;
        if v[i] == '\n' {
            closed.push((start, open));
            assert(numbered(closed@) == numbered(before).push((start as int, open@)));
            open = Vec::new();
            start = i + 1;
        } else {
            open.push(v[i]);
        }
        i += 1;
    }
    assert(v@.take(v.len() as int) == v@);
    if open.len() > 0 {
        let ghost before = closed@;
        closed.push((start, open));
        assert(numbered(closed@) == numbered(before).push((start as int, open@)));
    }
    closed
}

/// Whether `needle` stands in `hay` at index `i`.
pub fn match_at(hay: &Vec<char>, needle: &Vec<char>, i: usize) -> (b: bool)
    ensures
        b == matches_at(hay@, needle@, i as int),
{
    if needle.len() > hay.len() || i > hay.len() - needle.len() {
        return false;
    }
    let mut k: usize = 0;
    while k < needle.len()
        invariant
            k <= needle.len(),
            i + needle.len() <= hay.len(),
            hay@.subrange(i as int, i + k) == needle@.take(k as int),
        decreases needle.len() - k,
    {
        if hay[i + k] != needle[k] {
            assert(hay@.subrange(i as int, i + needle.len())[k as int] != needle@[k as int]);
            return false;
        }
        assert(hay@.subrange(i as int, i + k + 1) == hay@.subrange(i as int, i + k).push(
            hay@[i + k],
        ));
        assert(needle@.take(k + 1) == needle@.take(k as int).push(needle@[k as int]));
        k += 1;
    }
    assert(needle@.take(needle.len() as int) == needle@);
    true
}

/// Whether `hay` begins with `needle`.
pub fn starts_with(hay: &Vec<char>, needle: &Vec<char>) -> (b: bool)
    ensures
        b == has_prefix(hay@, needle@),
{
    match_at(hay, needle, 0)
}

/// The least index at or after `from` where `needle` stands in `hay`.
pub fn find_from(hay: &Vec<char>, needle: &Vec<char>, from: usize) -> (r: Option<usize>)
    ensures
        r matches Some(i) ==> from <= i && matches_at(hay@, needle@, i as int) && forall|j: int|
            from <= j < i ==> !matches_at(hay@, needle@, j),
        r is None ==> forall|j: int| from <= j ==> !matches_at(hay@, needle@, j),
        match r {
            Some(i) => first_match(hay@, needle@, from as int) == Some(i as int),
            None => first_match(hay@, needle@, from as int) is None,
        },
{
    if needle.len() > hay.len() || from > hay.len() - needle.len() {
        return None;
    }
    let last: usize = hay.len() - needle.len();
    let mut i: usize = from;
    loop
        invariant
            from <= i <= last,
            last == hay.len() - needle.len(),
            needle.len() <= hay.len(),
            first_match(hay@, needle@, from as int) == first_match(hay@, needle@, i as int),
            forall|j: int| from <= j < i ==> !matches_at(hay@, needle@, j),
        decreases last - i,
    {
        if match_at(hay, needle, i) {
            return Some(i);
        }
        if i == last {
            assert(first_match(hay@, needle@, i + 1) is None);
            return None;
        }
        i += 1;
    }
}

/// Whether `needle` occurs somewhere in `hay`.
pub fn contains(hay: &Vec<char>, needle: &Vec<char>) -> (b: bool)
    ensures
        b == has_substring(hay@, needle@),
{
    find_from(hay, needle, 0).is_some()
}

/// The greatest index where `c` stands in `v`.
pub fn rfind_char(v: &Vec<char>, c: char) -> (r: Option<usize>)
    ensures
        r matches Some(i) ==> i < v.len() && v@[i as int] == c && forall|j: int|
            i < j < v.len() ==> v@[j] != c,
        r is None ==> forall|j: int| 0 <= j < v.len() ==> v@[j] != c,
        match r {
            Some(i) => last_index_of(v@, c) == Some(i as int),
            None => last_index_of(v@, c) is None,
        },
{
    let mut i: usize = v.len();
    assert(v@.take(v.len() as int) == v@);
    while i > 0
        invariant
            i <= v.len(),
            last_index_of(v@, c) == last_index_of(v@.take(i as int), c),
            forall|j: int| i <= j < v.len() ==> v@[j] != c,
        decreases i,
    {
        if v[i - 1] == c {
            return Some(i - 1);
        }
        assert(v@.take(i as int).drop_last() == v@.take(i - 1));
        i -= 1;
    }
    None
}

/// The parts written one after another with `sep` between neighbours.
pub fn join(parts: &Vec<Vec<char>>, sep: &Vec<char>) -> (r: Vec<char>)
    ensures
        r@ == joined(texts(parts@), sep@),
{
    let mut r: Vec<char> = Vec::new();
    let mut i: usize = 0;
    while i < parts.len()
        invariant
            i <= parts.len(),
            r@ == joined(texts(parts@).take(i as int), sep@),
        decreases parts.len() - i,
    {
        assert(texts(parts@).take(i + 1).drop_last() == texts(parts@).take(i as int));
        assert(texts(parts@).take(i + 1).last() == parts@[i as int]@);
        if i > 0 {
            extend(&mut r, sep);
        }
        extend(&mut r, &parts[i]);
        assert(r@ == joined(texts(parts@).take(i + 1), sep@)) by {
            if i == 0 {
                assert(Seq::<char>::empty() + parts@[0]@ == parts@[0]@);
            }
        }
        i += 1;
    }
    assert(texts(parts@).take(parts.len() as int) == texts(parts@));
    r
}

/// The single decimal digit `d`.
pub fn digit(d: u8) -> (c: char)
    requires
        d < 10,
    ensures
        c == digit_of(d as nat),
{
    if d == 0 {
        '0'
    } else if d == 1 {
        '1'
    } else if d == 2 {
        '2'
    } else if d == 3 {
        '3'
    } else if d == 4 {
        '4'
    } else if d == 5 {
        '5'
    } else if d == 6 {
        '6'
    } else if d == 7 {
        '7'
    } else if d == 8 {
        '8'
    } else {
        '9'
    }
}

/// `n` in decimal.
pub fn decimal(n: u128) -> (v: Vec<char>)
    ensures
        v@ == decimal_of(n as nat),
    decreases n,
{
    if n < 10 {
        let mut v: Vec<char> = Vec::new();
        v.push(digit(n as u8));
        v
    } else {
        let mut v = decimal(n / 10);
        v.push(digit((n % 10) as u8));
        v
    }
}

/// `n` in decimal, with its sign.
pub fn signed_decimal(n: i64) -> (v: Vec<char>)
    ensures
        v@ == signed_decimal_of(n as int),
{
    if n < 0 {
        let mut v = to_chars("-");
        let digits = decimal((-(n as i128)) as u128);
        extend(&mut v, &digits);
        v
    } else {
        decimal(n as u128)
    }
}

} // verus!
