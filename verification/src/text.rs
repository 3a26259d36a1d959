//! Operations on text, stated over its sequence of characters.
use vstd::prelude::*;

verus! {

/// `String::push` appends one character.
pub assume_specification[ String::push ](s: &mut String, c: char)
    ensures
        final(s)@ == old(s)@.push(c),
;

/// `char::is_whitespace` tells the characters with the Unicode `White_Space` property.
pub assume_specification[ char::is_whitespace ](c: char) -> (r: bool)
    ensures
        r == is_white_space(c),
;

/// The characters with the Unicode `White_Space` property.
pub open spec fn is_white_space(c: char) -> bool {
    ||| 0x09 <= c as u32 <= 0x0d
    ||| c as u32 == 0x20
    ||| c as u32 == 0x85
    ||| c as u32 == 0xa0
    ||| c as u32 == 0x1680
    ||| 0x2000 <= c as u32 <= 0x200a
    ||| c as u32 == 0x2028
    ||| c as u32 == 0x2029
    ||| c as u32 == 0x202f
    ||| c as u32 == 0x205f
    ||| c as u32 == 0x3000
}

/// The characters of a text, as a vector.
pub fn chars_of(s: &str) -> (v: Vec<char>)
    ensures
        v@ == s@,
{
    let mut v: Vec<char> = Vec::new();
    for c in it: s.chars()
        invariant
            v@ == s@.take(it.index()),
            it.seq() == s@,
    {
        v.push(c);
        assert(v@ =~= s@.take(it.index() + 1));
    }
    assert(s@.take(s@.len() as int) =~= s@);
    v
}

/// The text made of the given characters.
pub fn string_of(v: &[char]) -> (s: String)
    ensures
        s@ == v@,
{
    let mut s = String::new();
    for i in 0..v.len()
        invariant
            s@ == v@.take(i as int),
    {
        s.push(v[i]);
        assert(s@ =~= v@.take(i as int + 1));
    }
    assert(v@.take(v@.len() as int) =~= v@);
    s
}

/// Whether two texts hold the same characters.
pub fn same(a: &str, b: &str) -> (r: bool)
    ensures
        r == (a@ == b@),
{
    let x = a.to_owned();
    let y = b.to_owned();
    x == y
}

/// `a` followed by `b`.
pub fn concat(a: &str, b: &str) -> (r: String)
    ensures
        r@ == a@ + b@,
{
    let mut r = a.to_owned();
    r.append(b);
    r
}

/// The text without white space at its start.
pub open spec fn trim_start_of(s: Seq<char>) -> Seq<char>
    decreases s.len(),
{
    if s.len() > 0 && is_white_space(s[0]) {
        trim_start_of(s.drop_first())
    } else {
        s
    }
}

/// The text without white space at its end.
pub open spec fn trim_end_of(s: Seq<char>) -> Seq<char>
    decreases s.len(),
{
    if s.len() > 0 && is_white_space(s.last()) {
        trim_end_of(s.drop_last())
    } else {
        s
    }
}

/// The text without white space at either end.
pub open spec fn trimmed(s: Seq<char>) -> Seq<char> {
    trim_end_of(trim_start_of(s))
}

/// Nothing is left of nothing.
pub proof fn lemma_trimmed_empty()
    ensures
        trimmed(Seq::empty()) == Seq::<char>::empty(),
{
}

/// The text without the characters `c` at its end.
pub open spec fn trim_end_char_of(s: Seq<char>, c: char) -> Seq<char>
    decreases s.len(),
{
    if s.len() > 0 && s.last() == c {
        trim_end_char_of(s.drop_last(), c)
    } else {
        s
    }
}

/// Removes white space from both ends.
pub fn trim(s: &str) -> (r: String)
    ensures
        r@ == trimmed(s@),
{
    let v = chars_of(s);
    let mut from: usize = 0;
    assert(s@.skip(0) =~= s@);
    while from < v.len() && v[from].is_whitespace()
        invariant
            v@ == s@,
            from <= v@.len(),
            trim_start_of(s@) == trim_start_of(s@.skip(from as int)),
        decreases v@.len() - from,
    {
        assert(s@.skip(from as int).drop_first() =~= s@.skip(from as int + 1));
        from = from + 1;
    }
    let ghost rest = s@.skip(from as int);
    assert(trim_start_of(s@) == rest);
    let mut to: usize = v.len();
    assert(rest.take(to - from) =~= rest);
    while to > from && v[to - 1].is_whitespace()
        invariant
            v@ == s@,
            from <= to <= v@.len(),
            rest == s@.skip(from as int),
            trim_end_of(rest) == trim_end_of(rest.take(to - from)),
        decreases to,
    {
        assert(rest.take(to - from).drop_last() =~= rest.take(to - from - 1));
        assert(rest.take(to - from).last() == v@[to - 1]);
        to = to - 1;
    }
    assert(to > from ==> rest.take(to - from).last() == v@[to - 1]);
    assert(rest.take(to - from) =~= s@.subrange(from as int, to as int));
    string_of(vstd::slice::slice_subrange(v.as_slice(), from, to))
}

/// Removes every `c` from the end.
pub fn trim_end_matches(s: &str, c: char) -> (r: String)
    ensures
        r@ == trim_end_char_of(s@, c),
{
    let v = chars_of(s);
    let mut to: usize = v.len();
    assert(s@.take(to as int) =~= s@);
    while to > 0 && v[to - 1] == c
        invariant
            v@ == s@,
            to <= v@.len(),
            trim_end_char_of(s@, c) == trim_end_char_of(s@.take(to as int), c),
        decreases to,
    {
        assert(s@.take(to as int).drop_last() =~= s@.take(to as int - 1));
        to = to - 1;
    }
    assert(s@.take(to as int) =~= s@.subrange(0, to as int));
    string_of(vstd::slice::slice_subrange(v.as_slice(), 0, to))
}

/// Whether `p` stands in `s` at position `at`.
pub open spec fn occurs_at(s: Seq<char>, p: Seq<char>, at: int) -> bool {
    0 <= at && at + p.len() <= s.len() && s.subrange(at, at + p.len()) == p
}

/// Whether `p` stands anywhere in `s`.
pub open spec fn occurs_in(s: Seq<char>, p: Seq<char>) -> bool {
    exists|at: int| #[trigger] occurs_at(s, p, at)
}

fn matches_at(s: &Vec<char>, p: &Vec<char>, at: usize) -> (r: bool)
    requires
        at <= s@.len(),
    ensures
        r == occurs_at(s@, p@, at as int),
{
    let len: usize = s.len();
    if len - at < p.len() {
        return false;
    }
    for i in 0..p.len()
        invariant
            len == s@.len(),
            at + p@.len() <= len,
            forall|k: int| 0 <= k < i ==> s@[at + k] == p@[k],
    {
        if s[at + i] != p[i] {
            assert(s@.subrange(at as int, at + p@.len())[i as int] != p@[i as int]);
            return false;
        }
    }
    assert(s@.subrange(at as int, at + p@.len()) =~= p@);
    true
}

/// Whether `s` starts with `p`.
pub fn starts_with(s: &str, p: &str) -> (r: bool)
    ensures
        r == p@.is_prefix_of(s@),
{
    let r = matches_at(&chars_of(s), &chars_of(p), 0);
    assert(r == p@.is_prefix_of(s@));
    r
}

/// What follows `p` in `s`, where `s` starts with `p`.
pub fn strip_prefix(s: &str, p: &str) -> (r: Option<String>)
    ensures
        r is Some <==> p@.is_prefix_of(s@),
        r matches Some(rest) ==> rest@ == s@.skip(p@.len() as int),
{
    let v = chars_of(s);
    let w = chars_of(p);
    if matches_at(&v, &w, 0) {
        let rest = string_of(vstd::slice::slice_subrange(v.as_slice(), w.len(), v.len()));
        assert(rest@ =~= s@.skip(p@.len() as int));
        assert(p@.is_prefix_of(s@));
        Some(rest)
    } else {
        assert(!p@.is_prefix_of(s@));
        None
    }
}

/// Whether `p` stands anywhere in `s`.
pub fn contains(s: &str, p: &str) -> (r: bool)
    ensures
        r == occurs_in(s@, p@),
{
    let v = chars_of(s);
    let w = chars_of(p);
    for i in 0..v.len()
        invariant
            v@ == s@,
            w@ == p@,
            forall|k: int| 0 <= k < i ==> !occurs_at(s@, p@, k),
    {
        if matches_at(&v, &w, i) {
            assert(occurs_at(s@, p@, i as int));
            return true;
        }
    }
    if matches_at(&v, &w, v.len()) {
        assert(occurs_at(s@, p@, v@.len() as int));
        return true;
    }
    assert forall|at: int| !occurs_at(s@, p@, at) by {}
    false
}

/// `s` with each occurrence of `p`, taken from the left without overlap, replaced by `q`.
pub open spec fn replaced(s: Seq<char>, p: Seq<char>, q: Seq<char>) -> Seq<char>
    decreases s.len(),
{
    if p.len() == 0 || s.len() < p.len() {
        s
    } else if occurs_at(s, p, 0) {
        q + replaced(s.skip(p.len() as int), p, q)
    } else {
        seq![s[0]] + replaced(s.skip(1), p, q)
    }
}

/// Replaces each occurrence of a non-empty `p` by `q`, from the left.
pub fn replace(s: &str, p: &str, q: &str) -> (r: String)
    requires
        p@.len() > 0,
    ensures
        r@ == replaced(s@, p@, q@),
{
    let v = chars_of(s);
    let w = chars_of(p);
    let mut r = String::new();
    let mut at: usize = 0;
    assert(s@.skip(0) =~= s@);
    assert(r@ + replaced(s@.skip(0), p@, q@) =~= replaced(s@, p@, q@));
    while v.len() - at >= w.len()
        invariant
            v@ == s@,
            w@ == p@,
            p@.len() > 0,
            at <= v@.len(),
            r@ + replaced(s@.skip(at as int), p@, q@) == replaced(s@, p@, q@),
        decreases v@.len() - at,
    {
        let ghost rest = s@.skip(at as int);
        let ghost before = r@;
        let hit = matches_at(&v, &w, at);
        assert(hit == occurs_at(rest, p@, 0)) by {
            assert(rest.subrange(0, p@.len() as int) =~= s@.subrange(at as int, at + p@.len()));
        }
        if hit {
            r.append(q);
            assert(rest.skip(p@.len() as int) =~= s@.skip(at + p@.len()));
            assert(r@ + replaced(s@.skip(at + p@.len()), p@, q@) =~= before + replaced(rest, p@, q@));
            at = at + w.len();
        } else {
            r.push(v[at]);
            assert(rest.skip(1) =~= s@.skip(at + 1));
            assert(r@ + replaced(s@.skip(at + 1), p@, q@) =~= before + replaced(rest, p@, q@));
            at = at + 1;
        }
    }
    let rest = string_of(vstd::slice::slice_subrange(v.as_slice(), at, v.len()));
    assert(rest@ =~= s@.skip(at as int));
    r.append(rest.as_str());
    r
}

/// Whether `s` holds a character `c`.
pub open spec fn first_index(s: Seq<char>, c: char) -> Option<int>
    decreases s.len(),
{
    if s.len() == 0 {
        None
    } else if s[0] == c {
        Some(0)
    } else {
        match first_index(s.drop_first(), c) {
            Some(i) => Some(i + 1),
            None => None,
        }
    }
}

/// The part of `s` before the first `c`, or all of `s` where it holds none.
pub open spec fn before_char(s: Seq<char>, c: char) -> Seq<char> {
    match first_index(s, c) {
        Some(i) => s.take(i),
        None => s,
    }
}

/// `first_index` gives the least position at which `c` stands.
pub proof fn lemma_first_index(s: Seq<char>, c: char)
    ensures
        match first_index(s, c) {
            Some(i) => 0 <= i < s.len() && s[i] == c && forall|k: int| 0 <= k < i ==> s[k] != c,
            None => !s.contains(c),
        },
    decreases s.len(),
{
    if s.len() > 0 && s[0] != c {
        let rest = s.drop_first();
        lemma_first_index(rest, c);
        match first_index(rest, c) {
            Some(i) => {
                assert forall|k: int| 0 <= k < i + 1 implies s[k] != c by {
                    if k > 0 {
                        assert(rest[k - 1] != c);
                    }
                }
            },
            None => {
                assert forall|k: int| 0 <= k < s.len() implies s[k] != c by {
                    if k > 0 {
                        assert(rest.contains(rest[k - 1]));
                    }
                }
            },
        }
    }
}

/// The part of `s` before the first `c`, or all of `s`.
pub fn before(s: &str, c: char) -> (r: String)
    ensures
        r@ == before_char(s@, c),
{
    let v = chars_of(s);
    proof {
        lemma_first_index(s@, c);
    }
    let mut at: usize = 0;
    while at < v.len() && v[at] != c
        invariant
            v@ == s@,
            at <= v@.len(),
            forall|k: int| 0 <= k < at ==> s@[k] != c,
        decreases v@.len() - at,
    {
        at = at + 1;
    }
    let r = string_of(vstd::slice::slice_subrange(v.as_slice(), 0, at));
    assert(r@ =~= before_char(s@, c)) by {
        if at < v@.len() {
            assert(s@.contains(s@[at as int]));
        } else {
            assert(s@.take(at as int) =~= s@);
        }
    }
    r
}

/// The lower-case form of an ASCII letter; any other character as it is.
pub open spec fn ascii_lower(c: char) -> char {
    if 'A' <= c <= 'Z' {
        ((c as u32 + 32) as u8) as char
    } else {
        c
    }
}

/// The text with its ASCII letters in lower case.
pub open spec fn ascii_lowered(s: Seq<char>) -> Seq<char> {
    s.map_values(|c: char| ascii_lower(c))
}

/// Lower-cases the ASCII letters.
pub fn to_ascii_lowercase(s: &str) -> (r: String)
    ensures
        r@ == ascii_lowered(s@),
{
    let v = chars_of(s);
    let mut r = String::new();
    for i in 0..v.len()
        invariant
            v@ == s@,
            r@ == ascii_lowered(s@.take(i as int)),
    {
        let c = v[i];
        let d = if 'A' <= c && c <= 'Z' {
            ((c as u32 + 32) as u8) as char
        } else {
            c
        };
        r.push(d);
        assert(r@ =~= ascii_lowered(s@.take(i as int + 1)));
    }
    assert(s@.take(s@.len() as int) =~= s@);
    r
}

/// The decimal digit of a number below ten.
pub open spec fn digit(d: nat) -> char {
    ((48 + d) as u8) as char
}

/// The decimal digits of a number, most significant first, without leading zeros.
pub open spec fn decimal(n: nat) -> Seq<char>
    decreases n,
{
    if n < 10 {
        seq![digit(n)]
    } else {
        decimal(n / 10).push(digit(n % 10))
    }
}

/// Writes a number in decimal.
pub fn decimal_of(n: u64) -> (s: String)
    ensures
        s@ == decimal(n as nat),
    decreases n,
{
    if n < 10 {
        let mut s = String::new();
        s.push((48 + n as u8) as char);
        assert(s@ =~= decimal(n as nat));
        s
    } else {
        let mut s = decimal_of(n / 10);
        s.push((48 + (n % 10) as u8) as char);
        s
    }
}

/// The texts, one after the other, with `sep` between each two.
pub open spec fn joined(parts: Seq<Seq<char>>, sep: Seq<char>) -> Seq<char>
    decreases parts.len(),
{
    if parts.len() == 0 {
        Seq::empty()
    } else if parts.len() == 1 {
        parts[0]
    } else {
        joined(parts.drop_last(), sep) + sep + parts.last()
    }
}

/// The views of a sequence of texts.
pub open spec fn views(parts: Seq<String>) -> Seq<Seq<char>> {
    parts.map_values(|p: String| p@)
}

/// Joins texts with `sep` between each two.
pub fn join(parts: &Vec<String>, sep: &str) -> (r: String)
    ensures
        r@ == joined(views(parts@), sep@),
{
    let mut r = String::new();
    for i in 0..parts.len()
        invariant
            r@ == joined(views(parts@).take(i as int), sep@),
    {
        let ghost now = views(parts@).take(i as int + 1);
        assert(now.drop_last() =~= views(parts@).take(i as int));
        if i > 0 {
            r.append(sep);
        }
        r.append(parts[i].as_str());
        assert(r@ =~= joined(now, sep@));
    }
    assert(views(parts@).take(parts@.len() as int) =~= views(parts@));
    r
}

/// `t` is what stands in `s` from `a` to `b`, which is everything but white space at the ends.
pub open spec fn is_trimming(s: Seq<char>, t: Seq<char>, a: int, b: int) -> bool {
    &&& 0 <= a <= b <= s.len()
    &&& t == s.subrange(a, b)
    &&& forall|k: int| 0 <= k < a || b <= k < s.len() ==> is_white_space(#[trigger] s[k])
    &&& a < b ==> !is_white_space(s[a]) && !is_white_space(s[b - 1])
}

proof fn lemma_trim_start(s: Seq<char>) -> (a: int)
    ensures
        0 <= a <= s.len(),
        trim_start_of(s) == s.skip(a),
        forall|k: int| 0 <= k < a ==> is_white_space(#[trigger] s[k]),
        a < s.len() ==> !is_white_space(s[a]),
    decreases s.len(),
{
    if s.len() > 0 && is_white_space(s[0]) {
        let b = lemma_trim_start(s.drop_first());
        assert(s.drop_first().skip(b) =~= s.skip(b + 1));
        assert forall|k: int| 0 <= k < b + 1 implies is_white_space(#[trigger] s[k]) by {
            if k > 0 {
                assert(s.drop_first()[k - 1] == s[k]);
            }
        }
        b + 1
    } else {
        assert(s.skip(0) =~= s);
        0
    }
}

proof fn lemma_trim_end(s: Seq<char>) -> (b: int)
    ensures
        0 <= b <= s.len(),
        trim_end_of(s) == s.take(b),
        forall|k: int| b <= k < s.len() ==> is_white_space(#[trigger] s[k]),
        b > 0 ==> !is_white_space(s[b - 1]),
    decreases s.len(),
{
    if s.len() > 0 && is_white_space(s.last()) {
        let b = lemma_trim_end(s.drop_last());
        assert(s.drop_last().take(b) =~= s.take(b));
        assert forall|k: int| b <= k < s.len() implies is_white_space(#[trigger] s[k]) by {
            if k < s.len() - 1 {
                assert(s.drop_last()[k] == s[k]);
            }
        }
        b
    } else {
        assert(s.take(s.len() as int) =~= s);
        s.len() as int
    }
}

/// Trimming takes away white space at both ends, all of it and nothing else.
pub proof fn law_trimming_is_exact(s: Seq<char>)
    ensures
        exists|a: int, b: int| is_trimming(s, trimmed(s), a, b),
{
    let a = lemma_trim_start(s);
    let rest = s.skip(a);
    let b = lemma_trim_end(rest);
    assert(rest.take(b) =~= s.subrange(a, a + b));
    assert forall|k: int| 0 <= k < a || a + b <= k < s.len() implies is_white_space(
        #[trigger] s[k],
    ) by {
        if k >= a + b {
            assert(rest[k - a] == s[k]);
        }
    }
    assert(b > 0 ==> rest[b - 1] == s[a + b - 1]);
    assert(is_trimming(s, trimmed(s), a, a + b));
}

/// A text that neither starts nor ends with white space is its own trimming.
pub proof fn law_trimmed_text_stays(s: Seq<char>)
    requires
        s.len() > 0 ==> !is_white_space(s[0]) && !is_white_space(s.last()),
    ensures
        trimmed(s) == s,
{
}

/// Removing a character from the end takes every one of it there and nothing else.
pub proof fn law_end_is_trimmed(s: Seq<char>, c: char)
    ensures
        trim_end_char_of(s, c).is_prefix_of(s),
        forall|k: int|
            trim_end_char_of(s, c).len() <= k < s.len() ==> #[trigger] s[k] == c,
        trim_end_char_of(s, c).len() > 0 ==> trim_end_char_of(s, c).last() != c,
    decreases s.len(),
{
    if s.len() > 0 && s.last() == c {
        let rest = s.drop_last();
        law_end_is_trimmed(rest, c);
        let t = trim_end_char_of(s, c);
        assert forall|k: int| t.len() <= k < s.len() implies #[trigger] s[k] == c by {
            if k < s.len() - 1 {
                assert(rest[k] == s[k]);
            }
        }
        assert(t =~= s.take(t.len() as int)) by {
            assert(t == rest.take(t.len() as int));
        }
    } else {
        assert(s =~= s.take(s.len() as int));
    }
}

/// The number that decimal digits denote.
pub open spec fn digits_value(s: Seq<char>) -> int
    decreases s.len(),
{
    if s.len() == 0 {
        0
    } else {
        10 * digits_value(s.drop_last()) + (s.last() as int - 48)
    }
}

/// A number in decimal denotes that number, in digits alone and without a leading zero.
pub proof fn law_decimal_denotes(n: nat)
    ensures
        digits_value(decimal(n)) == n,
        decimal(n).len() > 0,
        forall|i: int| 0 <= i < decimal(n).len() ==> '0' <= #[trigger] decimal(n)[i] <= '9',
        n > 0 ==> decimal(n)[0] != '0',
    decreases n,
{
    if n < 10 {
        assert(decimal(n).drop_last() =~= Seq::empty());
        reveal_with_fuel(digits_value, 2);
    } else {
        law_decimal_denotes(n / 10);
        let d = decimal(n / 10);
        assert(d.push(digit(n % 10)).drop_last() =~= d);
        assert forall|i: int| 0 <= i < decimal(n).len() implies '0' <= #[trigger] decimal(n)[i]
            <= '9' by {
            if i < d.len() {
                assert(d[i] == decimal(n)[i]);
            }
        }
        assert(decimal(n)[0] == d[0]);
    }
}

/// Where part `i` starts among texts joined with a separator of `gap` characters.
pub open spec fn part_start(parts: Seq<Seq<char>>, gap: nat, i: nat) -> nat
    decreases i,
{
    if i == 0 {
        0
    } else {
        part_start(parts, gap, (i - 1) as nat) + parts[i - 1].len() + gap
    }
}

/// Joining keeps every text, in order: each stands behind those before it and their separators,
/// a separator stands before each but the first, and nothing else is there.
pub proof fn law_joined_keeps_every_part(parts: Seq<Seq<char>>, sep: Seq<char>, i: int)
    requires
        0 <= i < parts.len(),
    ensures
        ({
            let at = part_start(parts, sep.len(), i as nat) as int;
            let all = joined(parts, sep);
            &&& 0 <= at && at + parts[i].len() <= all.len()
            &&& all.subrange(at, at + parts[i].len()) == parts[i]
            &&& i > 0 ==> at >= sep.len() && all.subrange(at - sep.len(), at) == sep
            &&& i == parts.len() - 1 ==> all.len() == at + parts[i].len()
        }),
    decreases parts.len(),
{
    let n = parts.len() - 1;
    if n == 0 {
        assert(parts[0].subrange(0, parts[0].len() as int) =~= parts[0]);
    } else {
        let before = parts.drop_last();
        let all = joined(parts, sep);
        let head = joined(before, sep);
        lemma_part_start(parts, before, sep.len(), i as nat);
        lemma_part_start(parts, before, sep.len(), (n - 1) as nat);
        law_joined_keeps_every_part(before, sep, n - 1);
        if i < n {
            law_joined_keeps_every_part(before, sep, i);
            let at = part_start(parts, sep.len(), i as nat) as int;
            assert(all.subrange(at, at + parts[i].len()) =~= head.subrange(
                at,
                at + parts[i].len(),
            ));
            if i > 0 {
                assert(all.subrange(at - sep.len(), at) =~= head.subrange(at - sep.len(), at));
            }
        } else {
            let at = part_start(parts, sep.len(), i as nat) as int;
            assert(at == head.len() + sep.len());
            assert(all.subrange(at, at + parts[i].len()) =~= parts[i]);
            assert(all.subrange(at - sep.len(), at) =~= sep);
        }
    }
}

proof fn lemma_part_start(parts: Seq<Seq<char>>, before: Seq<Seq<char>>, gap: nat, i: nat)
    requires
        parts.len() > 0,
        before == parts.drop_last(),
        i <= before.len(),
    ensures
        part_start(parts, gap, i) == part_start(before, gap, i),
    decreases i,
{
    if i > 0 {
        lemma_part_start(parts, before, gap, (i - 1) as nat);
    }
}

/// Replacing changes the first occurrence and goes on behind it; what holds no occurrence stays as
/// it is.
pub proof fn law_replacing_goes_on(s: Seq<char>, p: Seq<char>, q: Seq<char>, i: int)
    requires
        p.len() > 0,
        0 <= i <= s.len(),
        forall|k: int| 0 <= k < i ==> !occurs_at(s, p, k),
    ensures
        occurs_at(s, p, i) ==> replaced(s, p, q) == s.take(i) + q + replaced(
            s.skip(i + p.len()),
            p,
            q,
        ),
        i == s.len() ==> replaced(s, p, q) == s,
    decreases i,
{
    if i == 0 {
        assert(s.take(0) + q =~= q);
    } else {
        assert(!occurs_at(s, p, 0));
        let rest = s.skip(1);
        assert forall|k: int| 0 <= k < i - 1 implies !occurs_at(rest, p, k) by {
            if occurs_at(rest, p, k) {
                assert(s.subrange(k + 1, k + 1 + p.len()) =~= rest.subrange(k, k + p.len()));
                assert(occurs_at(s, p, k + 1));
            }
        }
        law_replacing_goes_on(rest, p, q, i - 1);
        if occurs_at(s, p, i) {
            assert(rest.subrange(i - 1, i - 1 + p.len()) =~= s.subrange(i, i + p.len()));
            assert(occurs_at(rest, p, i - 1));
            assert(rest.skip(i - 1 + p.len()) =~= s.skip(i + p.len()));
            assert(seq![s[0]] + (rest.take(i - 1) + q + replaced(s.skip(i + p.len()), p, q))
                =~= s.take(i) + q + replaced(s.skip(i + p.len()), p, q));
        }
        if i == s.len() {
            assert(seq![s[0]] + rest =~= s);
        }
    }
}

/// What stands before a character holds none of it, and the character follows, or nothing does.
pub proof fn law_before_the_first(s: Seq<char>, c: char)
    ensures
        before_char(s, c).is_prefix_of(s),
        !before_char(s, c).contains(c),
        before_char(s, c).len() < s.len() ==> s[before_char(s, c).len() as int] == c,
{
    lemma_first_index(s, c);
    assert(s.take(s.len() as int) =~= s);
}

/// Lower-casing moves the letters `A` to `Z` to `a` to `z`, in order, and nothing else.
pub proof fn law_lower_case_letters(s: Seq<char>, i: int)
    requires
        0 <= i < s.len(),
    ensures
        ascii_lowered(s).len() == s.len(),
        'A' <= s[i] <= 'Z' ==> 'a' <= ascii_lowered(s)[i] <= 'z' && ascii_lowered(s)[i] as int
            - 'a' as int == s[i] as int - 'A' as int,
        !('A' <= s[i] <= 'Z') ==> ascii_lowered(s)[i] == s[i],
{
}

} // verus!
