//! Text building: decimal numerals, concatenation, splitting and trimming.
//!
//! Every label, caption and title of the library is assembled from the pieces
//! here, so a contract can say exactly which characters a label holds.

use vstd::prelude::*;
use vstd::string::*;

verus! {

/// The numeral of one decimal digit.
pub open spec fn digit_text(d: nat) -> Seq<char> {
    if d == 0 {
        "0"@
    } else if d == 1 {
        "1"@
    } else if d == 2 {
        "2"@
    } else if d == 3 {
        "3"@
    } else if d == 4 {
        "4"@
    } else if d == 5 {
        "5"@
    } else if d == 6 {
        "6"@
    } else if d == 7 {
        "7"@
    } else if d == 8 {
        "8"@
    } else {
        "9"@
    }
}

/// The decimal numeral of `n`, without leading zeros.
pub open spec fn decimal(n: nat) -> Seq<char>
    decreases n,
{
    if n < 10 {
        digit_text(n)
    } else {
        decimal(n / 10) + digit_text(n % 10)
    }
}

fn digit(d: u64) -> (r: &'static str)
    requires
        d < 10,
    ensures
        r@ == digit_text(d as nat),
{
    if d == 0 {
        "0"
    } else if d == 1 {
        "1"
    } else if d == 2 {
        "2"
    } else if d == 3 {
        "3"
    } else if d == 4 {
        "4"
    } else if d == 5 {
        "5"
    } else if d == 6 {
        "6"
    } else if d == 7 {
        "7"
    } else if d == 8 {
        "8"
    } else {
        "9"
    }
}

/// Writes `n` in decimal.
pub fn decimal_text(n: u64) -> (r: String)
    ensures
        r@ == decimal(n as nat),
    decreases n,
{
    if n < 10 {
        digit(n).to_string()
    } else {
        let mut out: String = decimal_text(n / 10);
        out.append(digit(n % 10));
        out
    }
}

/// A decimal numeral is never empty.
pub proof fn decimal_is_not_empty(n: nat)
    ensures
        decimal(n).len() >= 1,
    decreases n,
{
    reveal_strlit("0");
    reveal_strlit("1");
    reveal_strlit("2");
    reveal_strlit("3");
    reveal_strlit("4");
    reveal_strlit("5");
    reveal_strlit("6");
    reveal_strlit("7");
    reveal_strlit("8");
    reveal_strlit("9");
    if n >= 10 {
        decimal_is_not_empty(n / 10);
    }
}

proof fn digit_text_is_one_digit(d: nat)
    requires
        d < 10,
    ensures
        digit_text(d).len() == 1,
        digit_text(d)[0] as nat == '0' as nat + d,
{
    reveal_strlit("0");
    reveal_strlit("1");
    reveal_strlit("2");
    reveal_strlit("3");
    reveal_strlit("4");
    reveal_strlit("5");
    reveal_strlit("6");
    reveal_strlit("7");
    reveal_strlit("8");
    reveal_strlit("9");
}

/// A character of a decimal numeral.
pub open spec fn is_digit(c: char) -> bool {
    '0' as nat <= c as nat <= '9' as nat
}

/// Every character of a decimal numeral is a digit.
pub proof fn decimal_holds_digits(n: nat)
    ensures
        forall|i: int| 0 <= i < decimal(n).len() ==> is_digit(#[trigger] decimal(n)[i]),
    decreases n,
{
    if n < 10 {
        digit_text_is_one_digit(n);
    } else {
        decimal_holds_digits(n / 10);
        digit_text_is_one_digit(n % 10);
        let head = decimal(n / 10);
        assert forall|i: int| 0 <= i < decimal(n).len() implies is_digit(
            #[trigger] decimal(n)[i],
        ) by {
            if i < head.len() {
                assert(decimal(n)[i] == head[i]);
            } else {
                assert(decimal(n)[i] == digit_text(n % 10)[i - head.len()]);
            }
        }
    }
}

/// Two numbers with the same decimal numeral are the same number.
pub proof fn decimal_is_injective(a: nat, b: nat)
    requires
        decimal(a) == decimal(b),
    ensures
        a == b,
    decreases a,
{
    digit_text_is_one_digit(a % 10);
    digit_text_is_one_digit(b % 10);
    decimal_is_not_empty(a / 10);
    decimal_is_not_empty(b / 10);
    let x = decimal(a);
    let y = decimal(b);
    assert(x.last() == y.last());
    assert(a % 10 == b % 10);
    if a < 10 {
        if b >= 10 {
            assert(y.len() >= 2);
        }
    } else {
        if b < 10 {
            assert(x.len() >= 2);
        }
        assert(x.drop_last() =~= decimal(a / 10));
        assert(y.drop_last() =~= decimal(b / 10));
        decimal_is_injective(a / 10, b / 10);
    }
}

/// Whether two texts hold the same characters.
pub fn same_text(a: &str, b: &str) -> (r: bool)
    ensures
        r == (a@ == b@),
{
    let left: String = a.to_string();
    let right: String = b.to_string();
    left == right
}

/// The first place at or after `from` that holds `c`, or the length of `s`.
pub open spec fn segment_end(s: Seq<char>, c: char, from: int) -> int
    decreases s.len() - from,
{
    if from >= s.len() {
        s.len() as int
    } else if s[from] == c {
        from
    } else {
        segment_end(s, c, from + 1)
    }
}

/// What [`segment_end`] finds: nothing before it is `c`, and it is `c` itself
/// or the end.
pub proof fn segment_end_is_first(s: Seq<char>, c: char, from: int)
    requires
        0 <= from <= s.len(),
    ensures
        from <= segment_end(s, c, from) <= s.len(),
        segment_end(s, c, from) < s.len() ==> s[segment_end(s, c, from)] == c,
        forall|i: int| from <= i < segment_end(s, c, from) ==> s[i] != c,
    decreases s.len() - from,
{
    if from < s.len() && s[from] != c {
        segment_end_is_first(s, c, from + 1);
    }
}

/// A place that holds `c` with no `c` before it is where the segment ends.
pub proof fn segment_end_is_unique(s: Seq<char>, c: char, from: int, at: int)
    requires
        0 <= from <= at <= s.len(),
        at < s.len() ==> s[at] == c,
        forall|i: int| from <= i < at ==> s[i] != c,
    ensures
        segment_end(s, c, from) == at,
    decreases s.len() - from,
{
    if from < at {
        segment_end_is_unique(s, c, from + 1, at);
    }
}

/// Finds [`segment_end`].
pub fn find_segment_end(s: &str, c: char, from: usize) -> (r: usize)
    requires
        from <= s@.len(),
    ensures
        r == segment_end(s@, c, from as int),
        from <= r <= s@.len(),
        r < s@.len() ==> s@[r as int] == c,
{
    let len: usize = s.unicode_len();
    let mut at: usize = from;
    while at < len
        invariant
            len == s@.len(),
            from <= at <= len,
            segment_end(s@, c, from as int) == segment_end(s@, c, at as int),
        decreases len - at,
    {
        if s.get_char(at) == c {
            return at;
        }
        at += 1;
    }
    at
}

/// `prefix` stands at the start of `s`.
pub open spec fn has_prefix(s: Seq<char>, prefix: Seq<char>) -> bool {
    prefix.len() <= s.len() && s.take(prefix.len() as int) == prefix
}

/// `suffix` stands at the end of `s`.
pub open spec fn has_suffix(s: Seq<char>, suffix: Seq<char>) -> bool {
    suffix.len() <= s.len() && s.skip(s.len() - suffix.len()) == suffix
}

/// Whether `prefix` stands at the start of `s`.
pub fn starts_with(s: &str, prefix: &str) -> (r: bool)
    ensures
        r == has_prefix(s@, prefix@),
{
    let n: usize = prefix.unicode_len();
    if s.unicode_len() < n {
        return false;
    }
    proof {
        assert(s@.take(n as int) == s@.subrange(0, n as int));
    }
    same_text(s.substring_char(0, n), prefix)
}

/// Whether `suffix` stands at the end of `s`.
pub fn ends_with(s: &str, suffix: &str) -> (r: bool)
    ensures
        r == has_suffix(s@, suffix@),
{
    let n: usize = suffix.unicode_len();
    let len: usize = s.unicode_len();
    if len < n {
        return false;
    }
    proof {
        assert(s@.skip(len - n) == s@.subrange(len - n, len as int));
    }
    same_text(s.substring_char(len - n, len), suffix)
}

/// The parts in order, with `separator` between neighbours.
pub open spec fn joined(parts: Seq<Seq<char>>, separator: Seq<char>) -> Seq<char>
    decreases parts.len(),
{
    if parts.len() == 0 {
        Seq::empty()
    } else if parts.len() == 1 {
        parts[0]
    } else {
        joined(parts.drop_last(), separator) + separator + parts.last()
    }
}

/// The texts of a list of strings.
pub open spec fn texts(parts: Seq<String>) -> Seq<Seq<char>> {
    Seq::new(parts.len(), |i: int| parts[i]@)
}

/// Puts the parts together with `separator` between neighbours.
pub fn join(parts: &Vec<String>, separator: &str) -> (r: String)
    ensures
        r@ == joined(texts(parts@), separator@),
{
    let mut out: String = String::new();
    let mut at: usize = 0;
    while at < parts.len()
        invariant
            at <= parts.len(),
            out@ == joined(texts(parts@).take(at as int), separator@),
        decreases parts.len() - at,
    {
        proof {
            let next = texts(parts@).take(at + 1);
            assert(next.drop_last() =~= texts(parts@).take(at as int));
            assert(next.last() == parts@[at as int]@);
        }
        if at > 0 {
            out.append(separator);
            out.append(parts[at].as_str());
        } else {
            out = parts[at].clone();
        }
        at += 1;
    }
    proof {
        assert(texts(parts@).take(at as int) =~= texts(parts@));
    }
    out
}

/// The characters Unicode counts as white space.
pub open spec fn is_white_space(c: char) -> bool {
    ||| 0x9 <= c as nat <= 0xd
    ||| c as nat == 0x20
    ||| c as nat == 0x85
    ||| c as nat == 0xa0
    ||| c as nat == 0x1680
    ||| 0x2000 <= c as nat <= 0x200a
    ||| c as nat == 0x2028
    ||| c as nat == 0x2029
    ||| c as nat == 0x202f
    ||| c as nat == 0x205f
    ||| c as nat == 0x3000
}

/// Whether `c` is white space.
pub fn white_space(c: char) -> (r: bool)
    ensures
        r == is_white_space(c),
{
    let code: u32 = c as u32;
    (0x9 <= code && code <= 0xd) || code == 0x20 || code == 0x85 || code == 0xa0 || code == 0x1680
        || (0x2000 <= code && code <= 0x200a) || code == 0x2028 || code == 0x2029 || code == 0x202f
        || code == 0x205f || code == 0x3000
}

/// `s` without the white space it starts with.
pub open spec fn trimmed_start(s: Seq<char>) -> Seq<char>
    decreases s.len(),
{
    if s.len() > 0 && is_white_space(s[0]) {
        trimmed_start(s.skip(1))
    } else {
        s
    }
}

/// `s` without the white space it ends with.
pub open spec fn trimmed_end(s: Seq<char>) -> Seq<char>
    decreases s.len(),
{
    if s.len() > 0 && is_white_space(s.last()) {
        trimmed_end(s.drop_last())
    } else {
        s
    }
}

/// `s` without the white space around it.
pub open spec fn trimmed(s: Seq<char>) -> Seq<char> {
    trimmed_end(trimmed_start(s))
}

/// Takes the white space around `s` off.
pub fn trim(s: &str) -> (r: String)
    ensures
        r@ == trimmed(s@),
{
    let len: usize = s.unicode_len();
    let mut from: usize = 0;
    proof {
        assert(s@.skip(0) =~= s@);
    }
    while from < len && white_space(s.get_char(from))
        invariant
            len == s@.len(),
            from <= len,
            trimmed_start(s@.skip(from as int)) == trimmed_start(s@),
        decreases len - from,
    {
        proof {
            assert(s@.skip(from as int).skip(1) =~= s@.skip(from + 1));
        }
        from += 1;
    }
    let mut to: usize = len;
    proof {
        assert(trimmed_start(s@) == s@.skip(from as int));
        assert(s@.subrange(from as int, to as int) =~= s@.skip(from as int));
    }
    while to > from && white_space(s.get_char(to - 1))
        invariant
            len == s@.len(),
            from <= to <= len,
            trimmed_end(s@.subrange(from as int, to as int)) == trimmed(s@),
        decreases to,
    {
        proof {
            assert(s@.subrange(from as int, to as int).drop_last() =~= s@.subrange(
                from as int,
                to - 1,
            ));
        }
        to -= 1;
    }
    s.substring_char(from, to).to_string()
}

proof fn trimming_the_end_keeps_a_prefix(s: Seq<char>)
    ensures
        has_prefix(s, trimmed_end(s)),
        trimmed_end(s).len() > 0 ==> !is_white_space(trimmed_end(s).last()),
        forall|i: int| trimmed_end(s).len() <= i < s.len() ==> is_white_space(#[trigger] s[i]),
    decreases s.len(),
{
    if s.len() > 0 && is_white_space(s.last()) {
        let shorter = s.drop_last();
        trimming_the_end_keeps_a_prefix(shorter);
        let n = trimmed_end(s).len() as int;
        assert(s.take(n) =~= shorter.take(n));
        assert forall|i: int| n <= i < s.len() implies is_white_space(#[trigger] s[i]) by {
            if i < shorter.len() {
                assert(s[i] == shorter[i]);
            }
        }
    } else {
        assert(s.take(s.len() as int) =~= s);
    }
}

proof fn trimming_the_start_keeps_a_suffix(s: Seq<char>)
    ensures
        has_suffix(s, trimmed_start(s)),
        trimmed_start(s).len() > 0 ==> !is_white_space(trimmed_start(s)[0]),
        forall|i: int|
            0 <= i < s.len() - trimmed_start(s).len() ==> is_white_space(#[trigger] s[i]),
    decreases s.len(),
{
    if s.len() > 0 && is_white_space(s[0]) {
        let shorter = s.skip(1);
        trimming_the_start_keeps_a_suffix(shorter);
        let n = trimmed_start(s).len() as int;
        assert(s.skip(s.len() - n) =~= shorter.skip(shorter.len() - n));
        assert forall|i: int| 0 <= i < s.len() - n implies is_white_space(#[trigger] s[i]) by {
            if i > 0 {
                assert(s[i] == shorter[i - 1]);
            }
        }
    } else {
        assert(s.skip(0) =~= s);
    }
}

/// Trimming takes white space off both ends and nothing else: `s` is white
/// space, the trimmed text, and white space again, and the trimmed text neither
/// starts nor ends with any.
pub proof fn trimming_takes_only_white_space(s: Seq<char>)
    ensures
        exists|from: int|
            {
                &&& 0 <= from
                &&& from + trimmed(s).len() <= s.len()
                &&& #[trigger] s.subrange(from, from + trimmed(s).len()) == trimmed(s)
                &&& forall|i: int| 0 <= i < from ==> is_white_space(#[trigger] s[i])
                &&& forall|i: int|
                    from + trimmed(s).len() <= i < s.len() ==> is_white_space(#[trigger] s[i])
            },
        trimmed(s).len() > 0 ==> !is_white_space(trimmed(s)[0]) && !is_white_space(
            trimmed(s).last(),
        ),
{
    let tail = trimmed_start(s);
    let middle = trimmed(s);
    trimming_the_start_keeps_a_suffix(s);
    trimming_the_end_keeps_a_prefix(tail);
    let from = s.len() - tail.len();
    assert(s.skip(from) == tail);
    assert(tail.take(middle.len() as int) == middle);
    assert forall|i: int| from + middle.len() <= i < s.len() implies is_white_space(
        #[trigger] s[i],
    ) by {
        assert(s[i] == tail[i - from]);
    }
    assert(s.subrange(from, from + middle.len()) =~= middle);
    if middle.len() > 0 {
        assert(middle[0] == tail[0]);
    }
}

/// `s` with every `suffix` at its end taken off.
pub open spec fn without_suffixes(s: Seq<char>, suffix: Seq<char>) -> Seq<char>
    decreases s.len(),
{
    if suffix.len() > 0 && has_suffix(s, suffix) {
        without_suffixes(s.take(s.len() - suffix.len()), suffix)
    } else {
        s
    }
}

/// Takes every `suffix` at the end of `s` off.
pub fn strip_suffixes(s: &str, suffix: &str) -> (r: String)
    requires
        suffix@.len() > 0,
    ensures
        r@ == without_suffixes(s@, suffix@),
{
    let mut rest: String = s.to_string();
    let n: usize = suffix.unicode_len();
    while ends_with(rest.as_str(), suffix)
        invariant
            n == suffix@.len(),
            n > 0,
            without_suffixes(rest@, suffix@) == without_suffixes(s@, suffix@),
        decreases rest@.len(),
    {
        let keep: usize = rest.as_str().unicode_len() - n;
        proof {
            assert(rest@.take(keep as int) =~= rest@.subrange(0, keep as int));
        }
        rest = rest.as_str().substring_char(0, keep).to_string();
    }
    rest
}

/// What stands after the last `c` of `s`, or all of it where there is none.
pub open spec fn last_segment(s: Seq<char>, c: char) -> Seq<char>
    decreases s.len(),
{
    if segment_end(s, c, 0) < s.len() && segment_end(s, c, 0) >= 0 {
        last_segment(s.skip(segment_end(s, c, 0) + 1), c)
    } else {
        s
    }
}

/// Finds what stands after the last `c` of `s`.
pub fn find_last_segment(s: &str, c: char) -> (r: String)
    ensures
        r@ == last_segment(s@, c),
{
    let len: usize = s.unicode_len();
    let mut from: usize = 0;
    proof {
        assert(s@.skip(0) =~= s@);
    }
    loop
        invariant
            len == s@.len(),
            from <= len,
            last_segment(s@.skip(from as int), c) == last_segment(s@, c),
        decreases len - from,
    {
        let tail: &str = s.substring_char(from, len);
        proof {
            assert(tail@ =~= s@.skip(from as int));
        }
        let at: usize = find_segment_end(tail, c, 0);
        if at == len - from {
            return tail.to_string();
        }
        proof {
            assert(tail@.skip(at + 1) =~= s@.skip(from + at + 1));
        }
        from = from + at + 1;
    }
}

/// The last segment is the end of the text after the last separator: it holds
/// none, and what stands before it ends with one.
pub proof fn the_last_segment_follows_the_last_separator(s: Seq<char>, c: char)
    ensures
        has_suffix(s, last_segment(s, c)),
        !last_segment(s, c).contains(c),
        last_segment(s, c).len() < s.len() ==> s[s.len() - last_segment(s, c).len() - 1] == c,
    decreases s.len(),
{
    segment_end_is_first(s, c, 0);
    let at = segment_end(s, c, 0);
    if at < s.len() {
        let tail = s.skip(at + 1);
        the_last_segment_follows_the_last_separator(tail, c);
        let last = last_segment(s, c);
        assert(s.skip(s.len() - last.len()) =~= tail.skip(tail.len() - last.len()));
        if last.len() < tail.len() {
            assert(s[s.len() - last.len() - 1] == tail[tail.len() - last.len() - 1]);
        }
    } else {
        assert(s.skip(0) =~= s);
    }
}

/// `s` with a space in place of each `c`.
pub open spec fn spaced(s: Seq<char>, c: char) -> Seq<char> {
    Seq::new(
        s.len(),
        |i: int|
            if s[i] == c {
                ' '
            } else {
                s[i]
            },
    )
}

/// Puts a space in place of each `c`.
pub fn space_out(s: &str, c: char) -> (r: String)
    ensures
        r@ == spaced(s@, c),
{
    let len: usize = s.unicode_len();
    let mut out: String = String::new();
    let mut from: usize = 0;
    proof {
        reveal_strlit(" ");
    }
    while from < len
        invariant
            len == s@.len(),
            from <= len,
            out@ =~= spaced(s@, c).take(from as int),
            " "@ == seq![' '],
        decreases len - from,
    {
        let end: usize = find_segment_end(s, c, from);
        proof {
            segment_end_is_first(s@, c, from as int);
            assert(spaced(s@, c).take(end as int) =~= spaced(s@, c).take(from as int)
                + s@.subrange(from as int, end as int));
        }
        out.append(s.substring_char(from, end));
        if end < len {
            proof {
                assert(spaced(s@, c).take(end + 1) =~= spaced(s@, c).take(end as int) + seq![' ']);
            }
            out.append(" ");
            from = end + 1;
        } else {
            from = end;
        }
    }
    out
}

} // verus!
