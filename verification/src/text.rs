//! Text as sequences of characters: the handful of string operations that the
//! rest of the library is built from, each with its exact meaning.
use vstd::prelude::*;
use vstd::string::*;

verus! {

/// `String::push` appends one character to the end of the string.
pub assume_specification[ String::push ](s: &mut String, c: char)
    ensures
        final(s)@ == old(s)@.push(c),
;

// ---------------------------------------------------------------------------
// Meanings
// ---------------------------------------------------------------------------

/// The characters with the Unicode `White_Space` property.
pub open spec fn is_space(c: char) -> bool {
    ||| '\u{9}' <= c <= '\u{d}'
    ||| c == '\u{20}'
    ||| c == '\u{85}'
    ||| c == '\u{a0}'
    ||| c == '\u{1680}'
    ||| '\u{2000}' <= c <= '\u{200a}'
    ||| c == '\u{2028}'
    ||| c == '\u{2029}'
    ||| c == '\u{202f}'
    ||| c == '\u{205f}'
    ||| c == '\u{3000}'
}

/// `s` without its leading white space.
pub open spec fn trim_start(s: Seq<char>) -> Seq<char>
    decreases s.len(),
{
    if s.len() > 0 && is_space(s[0]) {
        trim_start(s.skip(1))
    } else {
        s
    }
}

/// `s` without its trailing white space.
pub open spec fn trim_end(s: Seq<char>) -> Seq<char>
    decreases s.len(),
{
    if s.len() > 0 && is_space(s.last()) {
        trim_end(s.drop_last())
    } else {
        s
    }
}

/// `s` without white space at either end.
pub open spec fn trimmed(s: Seq<char>) -> Seq<char> {
    trim_end(trim_start(s))
}

/// `s` with every `c` replaced by `with`.
pub open spec fn replaced(s: Seq<char>, c: char, with: Seq<char>) -> Seq<char>
    decreases s.len(),
{
    if s.len() == 0 {
        Seq::empty()
    } else {
        replaced(s.drop_last(), c, with) + (if s.last() == c { with } else { seq![s.last()] })
    }
}

/// `pat` stands in `s` at position `i`.
pub open spec fn occurs_at(s: Seq<char>, pat: Seq<char>, i: int) -> bool {
    0 <= i && i + pat.len() <= s.len() && s.subrange(i, i + pat.len()) == pat
}

/// The first position at or after `from` at which `pat` stands in `s`.
pub open spec fn first_occurrence(s: Seq<char>, pat: Seq<char>, from: int) -> Option<int>
    decreases s.len() - from + 1,
{
    if from < 0 || from + pat.len() > s.len() {
        None
    } else if occurs_at(s, pat, from) {
        Some(from)
    } else {
        first_occurrence(s, pat, from + 1)
    }
}

/// The first occurrence of a text is an occurrence, and there is none before it. Where there is
/// no first one there is none at all.
pub proof fn law_the_first_occurrence_comes_first(s: Seq<char>, pat: Seq<char>, from: int)
    requires
        0 <= from,
    ensures
        match first_occurrence(s, pat, from) {
            Some(i) => {
                &&& from <= i
                &&& i + pat.len() <= s.len()
                &&& s.subrange(i, i + pat.len()) == pat
                &&& forall|j: int|
                    from <= j < i ==> #[trigger] s.subrange(j, j + pat.len()) != pat
            },
            None => forall|j: int|
                from <= j && j + pat.len() <= s.len() ==> #[trigger] s.subrange(j, j + pat.len())
                    != pat,
        },
    decreases s.len() - from + 1,
{
    if from + pat.len() <= s.len() && !occurs_at(s, pat, from) {
        law_the_first_occurrence_comes_first(s, pat, from + 1);
        assert(s.subrange(from, from + pat.len()) != pat);
    }
}

/// What follows `prefix` in `s`, if `s` starts with it.
pub open spec fn without_prefix<T>(s: Seq<T>, prefix: Seq<T>) -> Option<Seq<T>> {
    if prefix.is_prefix_of(s) {
        Some(s.skip(prefix.len() as int))
    } else {
        None
    }
}

/// The number of leading characters of `s` that are no white space.
pub open spec fn word_len(s: Seq<char>) -> nat
    decreases s.len(),
{
    if s.len() > 0 && !is_space(s[0]) {
        1 + word_len(s.skip(1))
    } else {
        0
    }
}

/// The second word of `s`, words being separated by white space.
pub open spec fn second_word(s: Seq<char>) -> Option<Seq<char>> {
    let first = trim_start(s);
    let rest = trim_start(first.skip(word_len(first) as int));
    if rest.len() == 0 {
        None
    } else {
        Some(rest.take(word_len(rest) as int))
    }
}

/// A line up to its line feed, without the carriage return before it.
pub open spec fn chomped(line: Seq<char>) -> Seq<char> {
    if line.len() > 0 && line.last() == '\r' {
        line.drop_last()
    } else {
        line
    }
}

/// The lines of `s`. A line ends with a line feed, or with a carriage return and
/// a line feed; the last one may also end with the text.
pub open spec fn lines_of(s: Seq<char>) -> Seq<Seq<char>>
    decreases s.len(),
    via lines_of_decreases
{
    if s.len() == 0 {
        Seq::empty()
    } else {
        match s.index_of_first('\n') {
            Some(i) => seq![chomped(s.take(i))] + lines_of(s.skip(i + 1)),
            None => seq![s],
        }
    }
}

#[via_fn]
proof fn lines_of_decreases(s: Seq<char>) {
    s.index_of_first_ensures('\n');
}

/// `parts` one after the other, with `sep` between them.
pub open spec fn joined(parts: Seq<Seq<char>>, sep: Seq<char>) -> Seq<char>
    decreases parts.len(),
{
    if parts.len() == 0 {
        Seq::empty()
    } else if parts.len() == 1 {
        parts[0]
    } else {
        joined(parts.drop_last(), sep) + sep + parts.last()
    }
}

/// The views of a sequence of strings.
pub open spec fn views(v: Seq<String>) -> Seq<Seq<char>> {
    v.map_values(|s: String| s@)
}

/// The digit that stands for `d`.
pub open spec fn digit_char(d: nat) -> char {
    (48 + d) as char
}

/// `n` in decimal, without leading zeros.
pub open spec fn decimal(n: nat) -> Seq<char>
    decreases n,
{
    if n < 10 {
        seq![digit_char(n)]
    } else {
        decimal(n / 10).push(digit_char(n % 10))
    }
}

/// `i` in decimal, with a minus sign in front of a negative number.
pub open spec fn signed_decimal(i: int) -> Seq<char> {
    if i < 0 {
        seq!['-'] + decimal((-i) as nat)
    } else {
        decimal(i as nat)
    }
}

/// `c` is a decimal digit.
pub open spec fn is_digit(c: char) -> bool {
    '0' <= c <= '9'
}

/// Every character of `s` is a decimal digit.
pub open spec fn all_digits(s: Seq<char>) -> bool {
    forall|i: int| 0 <= i < s.len() ==> is_digit(#[trigger] s[i])
}

/// The number that a sequence of decimal digits stands for.
pub open spec fn digits_value(s: Seq<char>) -> nat
    decreases s.len(),
{
    if s.len() == 0 {
        0
    } else {
        digits_value(s.drop_last()) * 10 + (s.last() as nat - 48) as nat
    }
}

/// The number written in `s`: one or more decimal digits, after at most one plus
/// sign, that stand for no more than `max`.
pub open spec fn parsed_number(s: Seq<char>, max: nat) -> Option<nat> {
    let digits = if s.len() > 0 && s[0] == '+' { s.skip(1) } else { s };
    if digits.len() > 0 && all_digits(digits) && digits_value(digits) <= max {
        Some(digits_value(digits))
    } else {
        None
    }
}

// ---------------------------------------------------------------------------
// Characters
// ---------------------------------------------------------------------------

/// The characters of a text.
pub fn chars_of(s: &str) -> (r: Vec<char>)
    ensures
        r@ == s@,
{
    let mut cs: Vec<char> = Vec::new();
    for ch in it: s.chars()
        invariant
            cs@ == s@.take(it.index() as int),
            it.seq() == s@,
    {
        cs.push(ch);
        assert(s@.take(it.index() as int).push(ch) =~= s@.take(it.index() as int + 1));
    }
    assert(s@.take(s@.len() as int) =~= s@);
    cs
}

/// The text made of the characters `from..to`.
pub fn text_of(cs: &Vec<char>, from: usize, to: usize) -> (r: String)
    requires
        from <= to <= cs@.len(),
    ensures
        r@ == cs@.subrange(from as int, to as int),
{
    let mut s: String = String::new();
    let mut i: usize = from;
    assert(s@ =~= cs@.subrange(from as int, from as int));
    while i < to
        invariant
            from <= i <= to <= cs@.len(),
            s@ == cs@.subrange(from as int, i as int),
        decreases to - i,
    {
        s.push(cs[i]);
        i = i + 1;
        assert(s@ =~= cs@.subrange(from as int, i as int));
    }
    s
}

/// Whether two texts are the same.
pub fn same(a: &str, b: &str) -> (r: bool)
    ensures
        r == (a@ == b@),
{
    let x: String = a.to_owned();
    let y: String = b.to_owned();
    x == y
}

/// The first position of `c`, at or after `from`.
pub fn find_char(cs: &Vec<char>, c: char, from: usize) -> (r: Option<usize>)
    requires
        from <= cs@.len(),
    ensures
        match r {
            Some(i) => cs@.skip(from as int).index_of_first(c) == Some((i - from) as int)
                && from <= i < cs@.len() && cs@[i as int] == c,
            None => cs@.skip(from as int).index_of_first(c) is None,
        },
{
    let ghost tail = cs@.skip(from as int);
    proof {
        tail.index_of_first_ensures(c);
    }
    let mut i: usize = from;
    while i < cs.len()
        invariant
            from <= i <= cs@.len(),
            tail == cs@.skip(from as int),
            forall|j: int| 0 <= j < i - from ==> tail[j] != c,
        decreases cs.len() - i,
    {
        if cs[i] == c {
            proof {
                tail.index_of_first_ensures(c);
                assert(tail[i - from] == c);
                assert(tail.contains(c));
                let k = tail.index_of_first(c)->0;
                if k < i - from {
                    assert(tail[k] != c);
                }
            }
            return Some(i);
        }
        assert(tail[i - from] == cs@[i as int]);
        i = i + 1;
    }
    proof {
        tail.index_of_first_ensures(c);
    }
    None
}

/// The last position of `c`, at or after `from`.
pub fn find_char_from_end(cs: &Vec<char>, c: char, from: usize) -> (r: Option<usize>)
    requires
        from <= cs@.len(),
    ensures
        match r {
            Some(i) => cs@.skip(from as int).index_of_last(c) == Some((i - from) as int)
                && from <= i < cs@.len() && cs@[i as int] == c,
            None => cs@.skip(from as int).index_of_last(c) is None,
        },
{
    let ghost tail = cs@.skip(from as int);
    let mut i: usize = cs.len();
    while i > from
        invariant
            from <= i <= cs@.len(),
            tail == cs@.skip(from as int),
            forall|j: int| i - from <= j < tail.len() ==> tail[j] != c,
        decreases i,
    {
        i = i - 1;
        if cs[i] == c {
            proof {
                tail.index_of_last_ensures(c);
                assert(tail[i - from] == c);
                assert(tail.contains(c));
                let k = tail.index_of_last(c)->0;
                if k > i - from {
                    assert(tail[k] != c);
                }
            }
            return Some(i);
        }
        assert(tail[i - from] == cs@[i as int]);
    }
    proof {
        tail.index_of_last_ensures(c);
    }
    None
}

/// Whether `c` stands among the characters `from..to`.
pub fn has_char(cs: &Vec<char>, c: char, from: usize, to: usize) -> (r: bool)
    requires
        from <= to <= cs@.len(),
    ensures
        r == cs@.subrange(from as int, to as int).contains(c),
{
    let ghost part = cs@.subrange(from as int, to as int);
    let mut i: usize = from;
    while i < to
        invariant
            from <= i <= to <= cs@.len(),
            part == cs@.subrange(from as int, to as int),
            forall|j: int| 0 <= j < i - from ==> part[j] != c,
        decreases to - i,
    {
        assert(part[i - from] == cs@[i as int]);
        if cs[i] == c {
            return true;
        }
        i = i + 1;
    }
    false
}

/// Whether a character is white space.
pub fn is_white_space(c: char) -> (r: bool)
    ensures
        r == is_space(c),
{
    ('\u{9}' <= c && c <= '\u{d}') || c == '\u{20}' || c == '\u{85}' || c == '\u{a0}' || c
        == '\u{1680}' || ('\u{2000}' <= c && c <= '\u{200a}') || c == '\u{2028}' || c == '\u{2029}'
        || c == '\u{202f}' || c == '\u{205f}' || c == '\u{3000}'
}

/// The first position at or after `from` that holds no white space.
fn skip_space(cs: &Vec<char>, from: usize) -> (r: usize)
    requires
        from <= cs@.len(),
    ensures
        from <= r <= cs@.len(),
        trim_start(cs@.skip(from as int)) == cs@.skip(r as int),
        r < cs@.len() ==> !is_space(cs@[r as int]),
{
    let mut i: usize = from;
    while i < cs.len() && is_white_space(cs[i])
        invariant
            from <= i <= cs@.len(),
            trim_start(cs@.skip(from as int)) == trim_start(cs@.skip(i as int)),
        decreases cs.len() - i,
    {
        assert(cs@.skip(i as int).skip(1) =~= cs@.skip(i + 1));
        i = i + 1;
    }
    i
}

/// The position at which the word that starts at `from` ends.
fn word_end(cs: &Vec<char>, from: usize) -> (r: usize)
    requires
        from <= cs@.len(),
    ensures
        from <= r <= cs@.len(),
        r - from == word_len(cs@.skip(from as int)),
{
    let mut i: usize = from;
    while i < cs.len() && !is_white_space(cs[i])
        invariant
            from <= i <= cs@.len(),
            word_len(cs@.skip(from as int)) == (i - from) + word_len(cs@.skip(i as int)),
        decreases cs.len() - i,
    {
        assert(cs@.skip(i as int).skip(1) =~= cs@.skip(i + 1));
        i = i + 1;
    }
    i
}

// ---------------------------------------------------------------------------
// Texts
// ---------------------------------------------------------------------------

/// A text without white space at either end.
pub fn trim(s: &str) -> (r: String)
    ensures
        r@ == trimmed(s@),
{
    let cs = chars_of(s);
    assert(cs@.skip(0) =~= cs@);
    let start: usize = skip_space(&cs, 0);
    let mut end: usize = cs.len();
    assert(cs@.subrange(start as int, end as int) =~= cs@.skip(start as int));
    while end > start && is_white_space(cs[end - 1])
        invariant
            start <= end <= cs@.len(),
            trimmed(s@) == trim_end(cs@.subrange(start as int, end as int)),
        decreases end,
    {
        assert(cs@.subrange(start as int, end as int).drop_last() =~= cs@.subrange(
            start as int,
            end - 1,
        ));
        end = end - 1;
    }
    text_of(&cs, start, end)
}

/// A text with every `c` replaced by `with`.
pub fn replace(s: &str, c: char, with: &str) -> (r: String)
    ensures
        r@ == replaced(s@, c, with@),
{
    let cs = chars_of(s);
    let mut out: String = String::new();
    let mut i: usize = 0;
    while i < cs.len()
        invariant
            i <= cs@.len(),
            out@ == replaced(cs@.take(i as int), c, with@),
        decreases cs.len() - i,
    {
        assert(cs@.take(i + 1).drop_last() =~= cs@.take(i as int));
        if cs[i] == c {
            out.append(with);
        } else {
            out.push(cs[i]);
            assert(out@ =~= replaced(cs@.take(i as int), c, with@) + seq![cs@[i as int]]);
        }
        i = i + 1;
    }
    assert(cs@.take(cs@.len() as int) =~= cs@);
    out
}

/// Whether `pat` stands in `cs` at position `i`.
fn matches_at(cs: &Vec<char>, pat: &Vec<char>, i: usize) -> (r: bool)
    requires
        i + pat@.len() <= cs@.len(),
    ensures
        r == occurs_at(cs@, pat@, i as int),
{
    let ghost part = cs@.subrange(i as int, i + pat@.len());
    let total: usize = cs.len();
    let mut k: usize = 0;
    while k < pat.len()
        invariant
            k <= pat@.len(),
            i + pat@.len() <= cs@.len(),
            total == cs@.len(),
            part == cs@.subrange(i as int, i + pat@.len()),
            forall|j: int| 0 <= j < k ==> part[j] == pat@[j],
        decreases pat.len() - k,
    {
        assert(part[k as int] == cs@[i + k]);
        if cs[i + k] != pat[k] {
            return false;
        }
        k = k + 1;
    }
    assert(part =~= pat@);
    true
}

/// The first position at or after `from` at which `pat` stands in `cs`.
pub fn find_text(cs: &Vec<char>, pat: &Vec<char>, from: usize) -> (r: Option<usize>)
    requires
        from <= cs@.len(),
    ensures
        match r {
            Some(i) => first_occurrence(cs@, pat@, from as int) == Some(i as int) && from <= i && i
                + pat@.len() <= cs@.len(),
            None => first_occurrence(cs@, pat@, from as int) is None,
        },
{
    let mut i: usize = from;
    while i < cs.len() && pat.len() <= cs.len() - i
        invariant
            from <= i <= cs@.len(),
            first_occurrence(cs@, pat@, from as int) == first_occurrence(cs@, pat@, i as int),
        decreases cs@.len() - i,
    {
        if matches_at(cs, pat, i) {
            return Some(i);
        }
        i = i + 1;
    }
    if i == cs.len() && pat.len() == 0 {
        assert(cs@.subrange(i as int, i as int) =~= pat@);
        return Some(i);
    }
    None
}

/// Whether `s` starts with `prefix`.
pub fn starts_with(s: &str, prefix: &str) -> (r: bool)
    ensures
        r == prefix@.is_prefix_of(s@),
{
    let cs = chars_of(s);
    let pat = chars_of(prefix);
    pat.len() <= cs.len() && matches_at(&cs, &pat, 0)
}

/// The second word of a text.
pub fn word_after_first(s: &str) -> (r: Option<String>)
    ensures
        match r {
            Some(w) => second_word(s@) == Some(w@),
            None => second_word(s@) is None,
        },
{
    let cs = chars_of(s);
    assert(cs@.skip(0) =~= cs@);
    let first: usize = skip_space(&cs, 0);
    let first_end: usize = word_end(&cs, first);
    assert(cs@.skip(first as int).skip(first_end - first) =~= cs@.skip(first_end as int));
    let second: usize = skip_space(&cs, first_end);
    if second == cs.len() {
        None
    } else {
        let end: usize = word_end(&cs, second);
        assert(cs@.skip(second as int).take(end - second) =~= cs@.subrange(
            second as int,
            end as int,
        ));
        Some(text_of(&cs, second, end))
    }
}

/// The lines of a text.
pub fn lines(s: &str) -> (r: Vec<String>)
    ensures
        views(r@) == lines_of(s@),
{
    let cs = chars_of(s);
    let mut out: Vec<String> = Vec::new();
    let mut i: usize = 0;
    assert(cs@.skip(0) =~= cs@);
    assert(views(out@) + lines_of(cs@) =~= lines_of(cs@));
    while i < cs.len()
        invariant
            i <= cs@.len(),
            cs@ == s@,
            views(out@) + lines_of(cs@.skip(i as int)) == lines_of(s@),
        decreases cs.len() - i,
    {
        let ghost before = out@;
        let ghost tail = cs@.skip(i as int);
        match find_char(&cs, '\n', i) {
            Some(nl) => {
                let end: usize = if nl > i && cs[nl - 1] == '\r' { nl - 1 } else { nl };
                out.push(text_of(&cs, i, end));
                proof {
                    assert(tail.take(nl - i) =~= cs@.subrange(i as int, nl as int));
                    assert(chomped(tail.take(nl - i)) =~= cs@.subrange(i as int, end as int));
                    assert(tail.skip(nl - i + 1) =~= cs@.skip(nl + 1));
                    assert(views(out@) =~= views(before).push(chomped(tail.take(nl - i))));
                    assert(views(out@) + lines_of(cs@.skip(nl + 1)) =~= views(before) + (seq![
                        chomped(tail.take(nl - i)),
                    ] + lines_of(tail.skip(nl - i + 1))));
                }
                i = nl + 1;
            },
            None => {
                out.push(text_of(&cs, i, cs.len()));
                proof {
                    assert(cs@.subrange(i as int, cs@.len() as int) =~= tail);
                    assert(cs@.skip(cs@.len() as int) =~= Seq::<char>::empty());
                    assert(views(out@) + lines_of(cs@.skip(cs@.len() as int)) =~= views(before)
                        + seq![tail]);
                }
                i = cs.len();
            },
        }
    }
    assert(cs@.skip(i as int) =~= Seq::<char>::empty());
    assert(views(out@) + lines_of(cs@.skip(i as int)) =~= views(out@));
    out
}

/// The strings of `parts` one after the other, with `sep` between them.
pub fn join(parts: &Vec<String>, sep: &str) -> (r: String)
    ensures
        r@ == joined(views(parts@), sep@),
{
    let mut out: String = String::new();
    let mut i: usize = 0;
    assert(views(parts@).take(0) =~= Seq::<Seq<char>>::empty());
    while i < parts.len()
        invariant
            i <= parts@.len(),
            out@ == joined(views(parts@).take(i as int), sep@),
        decreases parts.len() - i,
    {
        let ghost before = views(parts@).take(i as int);
        let ghost after = views(parts@).take(i + 1);
        assert(after.drop_last() =~= before);
        assert(after.last() == parts@[i as int]@);
        if i > 0 {
            out.append(sep);
        }
        out.append(parts[i].as_str());
        assert(out@ =~= joined(after, sep@));
        i = i + 1;
    }
    assert(views(parts@).take(parts@.len() as int) =~= views(parts@));
    out
}

/// Two texts one after the other.
pub fn cat2(a: &str, b: &str) -> (r: String)
    ensures
        r@ == a@ + b@,
{
    let mut s: String = a.to_owned();
    s.append(b);
    s
}

/// Three texts one after the other.
pub fn cat3(a: &str, b: &str, c: &str) -> (r: String)
    ensures
        r@ == a@ + b@ + c@,
{
    let mut s: String = cat2(a, b);
    s.append(c);
    s
}

/// Four texts one after the other.
pub fn cat4(a: &str, b: &str, c: &str, d: &str) -> (r: String)
    ensures
        r@ == a@ + b@ + c@ + d@,
{
    let mut s: String = cat3(a, b, c);
    s.append(d);
    s
}

/// Five texts one after the other.
pub fn cat5(a: &str, b: &str, c: &str, d: &str, e: &str) -> (r: String)
    ensures
        r@ == a@ + b@ + c@ + d@ + e@,
{
    let mut s: String = cat4(a, b, c, d);
    s.append(e);
    s
}

// ---------------------------------------------------------------------------
// Numbers
// ---------------------------------------------------------------------------

/// A number in decimal.
pub fn show(n: u64) -> (r: String)
    ensures
        r@ == decimal(n as nat),
    decreases n,
{
    let digit: char = (48 + (n % 10) as u8) as char;
    if n < 10 {
        let mut s: String = String::new();
        s.push(digit);
        assert(s@ =~= decimal(n as nat));
        s
    } else {
        let mut s: String = show(n / 10);
        s.push(digit);
        s
    }
}

/// A signed number in decimal.
pub fn show_signed(i: i32) -> (r: String)
    ensures
        r@ == signed_decimal(i as int),
{
    if i < 0 {
        let magnitude: i64 = -(i as i64);
        let digits = show(magnitude as u64);
        let r = cat2("-", digits.as_str());
        proof {
            reveal_strlit("-");
            assert("-"@ =~= seq!['-']);
        }
        r
    } else {
        show(i as u64)
    }
}

proof fn lemma_digits_value_monotonic(s: Seq<char>, i: int)
    requires
        0 <= i <= s.len(),
    ensures
        digits_value(s.take(i)) <= digits_value(s),
    decreases s.len() - i,
{
    if i < s.len() {
        assert(s.take(i + 1).drop_last() =~= s.take(i));
        lemma_digits_value_monotonic(s, i + 1);
    } else {
        assert(s.take(i) =~= s);
    }
}

/// The number written in a text, if there is one and it is at most `max`.
pub fn parse_number(s: &str, max: u64) -> (r: Option<u64>)
    ensures
        match r {
            Some(n) => parsed_number(s@, max as nat) == Some(n as nat),
            None => parsed_number(s@, max as nat) is None,
        },
{
    let cs = chars_of(s);
    let start: usize = if cs.len() > 0 && cs[0] == '+' { 1 } else { 0 };
    let ghost digits = cs@.skip(start as int);
    assert(s@.len() > 0 && s@[0] == '+' ==> digits == s@.skip(1));
    assert(!(s@.len() > 0 && s@[0] == '+') ==> digits =~= s@);
    if start == cs.len() {
        return None;
    }
    let mut value: u64 = 0;
    let mut i: usize = start;
    assert(digits.take(0) =~= Seq::<char>::empty());
    while i < cs.len()
        invariant
            start <= i <= cs@.len(),
            digits == cs@.skip(start as int),
            value == digits_value(digits.take(i - start)),
            value <= max,
            forall|j: int| 0 <= j < i - start ==> is_digit(#[trigger] digits[j]),
            parsed_number(s@, max as nat) == (if digits.len() > 0 && all_digits(digits)
                && digits_value(digits) <= max {
                Some(digits_value(digits))
            } else {
                None
            }),
        decreases cs.len() - i,
    {
        let c: char = cs[i];
        assert(digits[i - start] == c);
        if c < '0' || '9' < c {
            assert(!is_digit(digits[i - start]));
            return None;
        }
        let d: u64 = (c as u32 - 48) as u64;
        proof {
            assert(digits.take(i - start + 1).drop_last() =~= digits.take(i - start));
            assert(digits_value(digits.take(i - start + 1)) == value * 10 + d);
            lemma_digits_value_monotonic(digits, i - start + 1);
        }
        if d > max || value > (max - d) / 10 {
            return None;
        }
        value = value * 10 + d;
        i = i + 1;
    }
    assert(digits.take(i - start) =~= digits);
    Some(value)
}

// ---------------------------------------------------------------------------

proof fn lemma_digits_of_decimal(n: nat)
    ensures
        decimal(n).len() > 0,
        all_digits(decimal(n)),
        digits_value(decimal(n)) == n,
    decreases n,
{
    if n < 10 {
        assert(decimal(n).drop_last() =~= Seq::<char>::empty());
        assert(digits_value(decimal(n).drop_last()) == 0);
    } else {
        lemma_digits_of_decimal(n / 10);
        assert(decimal(n).drop_last() =~= decimal(n / 10));
        assert(decimal(n).last() == digit_char(n % 10));
    }
}

/// Reading a number gives back the number that was written.
pub proof fn law_written_numbers_can_be_read(n: nat, max: nat)
    requires
        n <= max,
    ensures
        parsed_number(decimal(n), max) == Some(n),
{
    lemma_digits_of_decimal(n);
    assert(is_digit(decimal(n)[0]));
}

/// A character that is replaced is gone, and others that were not there do not come in, if
/// they are not in what takes its place.
pub proof fn law_replaced_characters_are_gone(s: Seq<char>, c: char, with: Seq<char>, d: char)
    requires
        !with.contains(d),
        d == c || !s.contains(d),
    ensures
        !replaced(s, c, with).contains(d),
    decreases s.len(),
{
    if s.len() > 0 {
        let front = s.drop_last();
        assert forall|i: int| 0 <= i < front.len() implies front[i] == s[i] by {}
        if !s.contains(d) {
            assert(!front.contains(d)) by {
                if front.contains(d) {
                    let i = choose|i: int| 0 <= i < front.len() && front[i] == d;
                    assert(s[i] == d);
                }
            }
            assert(s[s.len() - 1] != d);
        }
        law_replaced_characters_are_gone(front, c, with, d);
        let a = replaced(front, c, with);
        let b = if s.last() == c {
            with
        } else {
            seq![s.last()]
        };
        assert(!b.contains(d));
        if (a + b).contains(d) {
            let i = choose|i: int| 0 <= i < (a + b).len() && (a + b)[i] == d;
            if i < a.len() {
                assert(a[i] == d);
            } else {
                assert(b[i - a.len()] == d);
            }
        }
    }
}

/// Replacing goes character by character: each `c` gives `with`, any other character stays, and
/// what stands one after the other is replaced one after the other.
pub proof fn law_replacing_goes_character_by_character(
    a: Seq<char>,
    b: Seq<char>,
    c: char,
    with: Seq<char>,
    d: char,
)
    requires
        d != c,
    ensures
        replaced(Seq::empty(), c, with) == Seq::<char>::empty(),
        replaced(seq![c], c, with) == with,
        replaced(seq![d], c, with) == seq![d],
        replaced(a + b, c, with) == replaced(a, c, with) + replaced(b, c, with),
    decreases b.len(),
{
    assert(seq![c].drop_last() =~= Seq::<char>::empty());
    assert(seq![d].drop_last() =~= Seq::<char>::empty());
    assert(replaced(seq![c].drop_last(), c, with) + with =~= with);
    assert(replaced(seq![d].drop_last(), c, with) + seq![d] =~= seq![d]);
    if b.len() == 0 {
        assert(a + b =~= a);
        assert(replaced(a, c, with) + Seq::<char>::empty() =~= replaced(a, c, with));
    } else {
        let rest = b.drop_last();
        law_replacing_goes_character_by_character(a, rest, c, with, d);
        assert((a + b).drop_last() =~= a + rest);
        assert((a + b).last() == b.last());
        let last = if b.last() == c {
            with
        } else {
            seq![b.last()]
        };
        assert(replaced(a, c, with) + replaced(rest, c, with) + last =~= replaced(a, c, with) + (
        replaced(rest, c, with) + last));
    }
}

/// Joined texts stand one after the other with the separator between them, and nothing before the
/// first or behind the last.
pub proof fn law_joined_texts_are_separated(parts: Seq<Seq<char>>, part: Seq<char>, sep: Seq<char>)
    ensures
        joined(Seq::empty(), sep) == Seq::<char>::empty(),
        joined(seq![part], sep) == part,
        parts.len() > 0 ==> joined(parts.push(part), sep) == joined(parts, sep) + sep + part,
{
    assert(parts.push(part).drop_last() =~= parts);
}

/// A text is its first line, up to the line feed and without a carriage return before it, and the
/// lines of what is left. A text without a line feed is one line, and nothing has no lines.
pub proof fn law_lines_end_with_line_feeds(line: Seq<char>, rest: Seq<char>)
    requires
        !line.contains('\n'),
    ensures
        lines_of(Seq::empty()) == Seq::<Seq<char>>::empty(),
        line.len() > 0 ==> lines_of(line) == seq![line],
        lines_of(line.push('\n') + rest) == seq![
            if line.len() > 0 && line.last() == '\r' {
                line.drop_last()
            } else {
                line
            },
        ] + lines_of(rest),
{
    line.index_of_first_ensures('\n');
    let s = line.push('\n') + rest;
    s.index_of_first_ensures('\n');
    assert(s[line.len() as int] == '\n');
    assert(s.contains('\n'));
    let i = s.index_of_first('\n')->0;
    if i < line.len() {
        assert(line[i] == '\n');
    }
    assert(s.take(line.len() as int) =~= line);
    assert(s.skip(line.len() as int + 1) =~= rest);
}

/// All characters of the text are white space.
pub open spec fn is_blank(s: Seq<char>) -> bool {
    forall|i: int| 0 <= i < s.len() ==> is_space(#[trigger] s[i])
}

proof fn lemma_trim_start(front: Seq<char>, s: Seq<char>)
    requires
        is_blank(front),
        s.len() == 0 || !is_space(s[0]),
    ensures
        trim_start(front + s) == s,
    decreases front.len(),
{
    if front.len() == 0 {
        assert(front + s =~= s);
    } else {
        assert((front + s)[0] == front[0]);
        assert((front + s).skip(1) =~= front.skip(1) + s);
        lemma_trim_start(front.skip(1), s);
    }
}

proof fn lemma_trim_end(s: Seq<char>, back: Seq<char>)
    requires
        is_blank(back),
        s.len() == 0 || !is_space(s.last()),
    ensures
        trim_end(s + back) == s,
    decreases back.len(),
{
    if back.len() == 0 {
        assert(s + back =~= s);
    } else {
        assert((s + back).last() == back.last());
        assert(is_space(back[back.len() - 1]));
        assert((s + back).drop_last() =~= s + back.drop_last());
        assert forall|i: int| 0 <= i < back.drop_last().len() implies is_space(
            #[trigger] back.drop_last()[i],
        ) by {
            assert(is_space(back[i]));
        }
        lemma_trim_end(s, back.drop_last());
    }
}

/// Trimming takes away the white space at both ends, and nothing else.
pub proof fn law_trimming_takes_white_space_away(front: Seq<char>, s: Seq<char>, back: Seq<char>)
    requires
        is_blank(front),
        is_blank(back),
        s.len() > 0,
        !is_space(s[0]),
        !is_space(s.last()),
    ensures
        trimmed(front + s + back) == s,
{
    assert(front + s + back =~= front + (s + back));
    lemma_trim_start(front, s + back);
    lemma_trim_end(s, back);
}

/// White space is what separates words: blanks, tabs and the ends of lines among it, and no
/// printable ASCII character.
pub proof fn law_white_space_is_not_printed(c: char)
    ensures
        is_space(' '),
        is_space('\t'),
        is_space('\n'),
        is_space('\r'),
        '!' <= c <= '~' ==> !is_space(c),
{
}

proof fn lemma_word_len(word: Seq<char>, rest: Seq<char>)
    requires
        forall|i: int| 0 <= i < word.len() ==> !is_space(#[trigger] word[i]),
        rest.len() == 0 || is_space(rest[0]),
    ensures
        word_len(word + rest) == word.len(),
    decreases word.len(),
{
    if word.len() == 0 {
        assert(word + rest =~= rest);
    } else {
        assert((word + rest)[0] == word[0]);
        assert((word + rest).skip(1) =~= word.skip(1) + rest);
        lemma_word_len(word.skip(1), rest);
    }
}

/// The second word of a text stands behind the first, with white space between the two, and ends
/// where white space or the end of the text comes.
pub proof fn law_words_are_separated_by_white_space(
    first: Seq<char>,
    gap: Seq<char>,
    second: Seq<char>,
    rest: Seq<char>,
)
    requires
        first.len() > 0,
        second.len() > 0,
        gap.len() > 0,
        forall|i: int| 0 <= i < first.len() ==> !is_space(#[trigger] first[i]),
        forall|i: int| 0 <= i < second.len() ==> !is_space(#[trigger] second[i]),
        is_blank(gap),
        rest.len() == 0 || is_space(rest[0]),
    ensures
        second_word(first + gap + second + rest) == Some(second),
{
    let s = first + gap + second + rest;
    let tail = second + rest;
    assert(s =~= first + (gap + tail));
    assert(!is_space(s[0])) by {
        assert(s[0] == first[0]);
    }
    assert(trim_start(s) == s);
    assert((gap + tail)[0] == gap[0]);
    lemma_word_len(first, gap + tail);
    assert(s.skip(first.len() as int) =~= gap + tail);
    assert(tail[0] == second[0]);
    lemma_trim_start(gap, tail);
    lemma_word_len(second, rest);
    assert(tail.take(second.len() as int) =~= second);
}

/// A number is written with its digits, the last of which is the remainder by ten, and the others
/// write the rest.
pub proof fn law_numbers_are_written_in_decimal(n: nat, d: nat)
    requires
        d < 10,
    ensures
        decimal(d).len() == 1,
        decimal(d)[0] as nat == '0' as nat + d,
        n > 0 ==> decimal(10 * n + d) == decimal(n) + decimal(d),
        signed_decimal(n as int) == decimal(n),
        n > 0 ==> signed_decimal(-(n as int)) == seq!['-'] + decimal(n),
{
    if n > 0 {
        let all = 10 * n + d;
        assert(all / 10 == n && all % 10 == d);
        assert(decimal(n).push(digit_char(d)) =~= decimal(n) + decimal(d));
    }
}

/// A text that is no number is not read as one: one without digits, one with anything but digits
/// behind a plus sign at most, and one that writes a number that is too large.
pub proof fn law_only_numbers_are_read(s: Seq<char>, max: nat, i: int, n: nat)
    ensures
        parsed_number(Seq::empty(), max) is None,
        parsed_number(seq!['+'], max) is None,
        0 < i < s.len() && !('0' <= s[i] <= '9') ==> parsed_number(s, max) is None,
        s.len() > 0 && s[0] != '+' && !('0' <= s[0] <= '9') ==> parsed_number(s, max) is None,
        n > max ==> parsed_number(decimal(n), max) is None,
        n <= max ==> parsed_number(seq!['+'] + decimal(n), max) == Some(n),
{
    lemma_digits_of_decimal(n);
    assert(is_digit(decimal(n)[0]));
    assert(seq!['+'].skip(1) =~= Seq::<char>::empty());
    assert((seq!['+'] + decimal(n)).skip(1) =~= decimal(n));
    if 0 < i < s.len() && !('0' <= s[i] <= '9') {
        if s[0] == '+' {
            assert(s.skip(1)[i - 1] == s[i]);
            assert(!is_digit(s.skip(1)[i - 1]));
        } else {
            assert(!is_digit(s[i]));
        }
    }
    if s.len() > 0 && s[0] != '+' && !('0' <= s[0] <= '9') {
        assert(!is_digit(s[0]));
    }
}

/// What follows a prefix is the rest of the text, and only a text that starts with the prefix has
/// one.
pub proof fn law_prefixes_are_taken_away<T>(prefix: Seq<T>, rest: Seq<T>, s: Seq<T>)
    ensures
        without_prefix(prefix + rest, prefix) == Some(rest),
        without_prefix(s, prefix) matches Some(r) ==> s == prefix + r,
{
    assert((prefix + rest).subrange(0, prefix.len() as int) =~= prefix);
    assert((prefix + rest).skip(prefix.len() as int) =~= rest);
    if prefix.is_prefix_of(s) {
        assert(s =~= prefix + s.skip(prefix.len() as int));
    }
}

/// The views of strings are the strings, in their order.
pub proof fn law_views_are_those_of_the_strings(v: Seq<String>, i: int)
    ensures
        views(v).len() == v.len(),
        0 <= i < v.len() ==> views(v)[i] == v[i]@,
{
}

/// Replacing a character by another keeps the length and every other character.
pub proof fn law_replacing_one_character_keeps_the_others(s: Seq<char>, c: char, d: char)
    ensures
        replaced(s, c, seq![d]).len() == s.len(),
        forall|i: int|
            0 <= i < s.len() ==> (#[trigger] replaced(s, c, seq![d])[i]) == (if s[i] == c {
                d
            } else {
                s[i]
            }),
    decreases s.len(),
{
    if s.len() > 0 {
        law_replacing_one_character_keeps_the_others(s.drop_last(), c, d);
    }
}

/// Each further digit of a number counts ten times less: a text of digits stands for ten times what
/// it stands for without the last, and that digit. Zeros in front mean nothing.
pub proof fn law_digits_count_by_tens(s: Seq<char>, c: char, max: nat, v: nat)
    requires
        '0' <= c <= '9',
    ensures
        (c as nat - '0' as nat) <= max ==> parsed_number(seq![c], max) == Some(
            (c as nat - '0' as nat) as nat,
        ),
        parsed_number(s, max) == Some(v) && 10 * v + (c as nat - '0' as nat) <= max
            ==> parsed_number(s.push(c), max) == Some((10 * v + (c as nat - '0' as nat)) as nat),
        parsed_number(s, max) == Some(v) && 10 * v + (c as nat - '0' as nat) > max
            ==> parsed_number(s.push(c), max) is None,
{
    assert(seq![c].drop_last() =~= Seq::<char>::empty());
    assert(digits_value(seq![c].drop_last()) == 0);
    assert(all_digits(seq![c]));
    if parsed_number(s, max) == Some(v) {
        let digits = if s[0] == '+' {
            s.skip(1)
        } else {
            s
        };
        let longer = digits.push(c);
        assert(s.push(c)[0] == s[0]);
        assert(s.push(c).skip(1) =~= s.skip(1).push(c));
        assert(longer.drop_last() =~= digits);
        assert forall|i: int| 0 <= i < longer.len() implies is_digit(#[trigger] longer[i]) by {
            if i < digits.len() {
                assert(is_digit(digits[i]));
            }
        }
    }
}

} // verus!
