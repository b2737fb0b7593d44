//! What the pieces of text are, said of the calls that make them.

use vstd::prelude::*;
use vstd::string::*;

use crate::slot::ProjectSlotAddress;
use crate::text::{
    decimal, decimal_holds_digits, decimal_is_not_empty, decimal_text, ends_with,
    find_last_segment, find_segment_end, has_suffix, is_digit, is_white_space, join,
    segment_end_is_first, space_out, starts_with, strip_suffixes, texts,
    the_last_segment_follows_the_last_separator, trim, trimming_takes_only_white_space,
    without_suffixes,
};

verus! {

/// One more digit of a numeral that is read from the left.
pub open spec fn read_digit(value: int, digit: char) -> int {
    10 * value + (digit as int - '0' as int)
}

/// The number that a row of digits reads as.
pub open spec fn number_read(digits: Seq<char>) -> int {
    digits.fold_left(0int, |value: int, digit: char| read_digit(value, digit))
}

proof fn a_digit_more(digits: Seq<char>, digit: char)
    ensures
        number_read(digits.push(digit)) == read_digit(number_read(digits), digit),
{
    let all = digits.push(digit);
    assert(all.drop_last() =~= digits);
    assert(all.last() == digit);
    reveal(Seq::fold_left);
}

proof fn one_digit(n: nat)
    requires
        n < 10,
    ensures
        decimal(n).len() == 1,
        decimal(n)[0] as int == '0' as int + n,
{
    reveal_strlit("0");
    reveal_strlit("1");
    reveal_strlit("2");
    reveal_strlit("3");
    reveal_strlit("4");
    reveal_strlit("5");
    reveal_strlit("6");
    reveal_strlit("7");
    reveal_strlit("8");
    reveal_strlit("9");
}

proof fn decimal_reads_back(n: nat)
    ensures
        number_read(decimal(n)) == n,
        n > 0 ==> decimal(n)[0] != '0',
        decimal(n).len() > 0,
    decreases n,
{
    decimal_is_not_empty(n);
    one_digit(n % 10);
    if n < 10 {
        let none = Seq::<char>::empty();
        reveal(Seq::fold_left);
        assert(number_read(none) == 0);
        assert(decimal(n) =~= none.push(decimal(n)[0]));
        a_digit_more(none, decimal(n)[0]);
    } else {
        decimal_reads_back(n / 10);
        let last = decimal(n % 10)[0];
        assert(decimal(n) =~= decimal(n / 10).push(last));
        a_digit_more(decimal(n / 10), last);
        assert(decimal(n)[0] == decimal(n / 10)[0]);
    }
}

/// A numeral holds digits alone, reads as the number it was written from, and
/// starts with no zero but in zero itself, which is one digit.
pub proof fn a_numeral_reads_as_its_number(n: u64, r: String)
    requires
        call_ensures(decimal_text, (n,), r),
    ensures
        number_read(r@) == n,
        forall|i: int| 0 <= i < r@.len() ==> '0' as nat <= (#[trigger] r@[i]) as nat <= '9' as nat,
        n > 0 ==> r@[0] != '0',
        n == 0 ==> r@ =~= seq!['0'],
{
    decimal_reads_back(n as nat);
    decimal_holds_digits(n as nat);
    one_digit(0);
    assert forall|i: int| 0 <= i < r@.len() implies '0' as nat <= (#[trigger] r@[i]) as nat
        <= '9' as nat by {
        assert(is_digit(decimal(n as nat)[i]));
    }
}

/// A text starts with another where it is that one and something more.
pub proof fn a_start_is_what_comes_first(s: &str, prefix: &str, r: bool)
    requires
        call_ensures(starts_with, (s, prefix), r),
    ensures
        r <==> exists|rest: Seq<char>| s@ == #[trigger] (prefix@ + rest),
{
    let n = prefix@.len() as int;
    if r {
        assert(s@ =~= prefix@ + s@.skip(n));
    }
    if exists|rest: Seq<char>| s@ == #[trigger] (prefix@ + rest) {
        let rest = choose|rest: Seq<char>| s@ == #[trigger] (prefix@ + rest);
        assert(s@.take(n) =~= prefix@);
    }
}

/// A text ends with another where it is something and that one.
pub proof fn an_end_is_what_comes_last(s: &str, suffix: &str, r: bool)
    requires
        call_ensures(ends_with, (s, suffix), r),
    ensures
        r <==> exists|start: Seq<char>| s@ == #[trigger] (start + suffix@),
{
    let n = s@.len() - suffix@.len();
    if r {
        assert(s@ =~= s@.take(n) + suffix@);
    }
    if exists|start: Seq<char>| s@ == #[trigger] (start + suffix@) {
        let start = choose|start: Seq<char>| s@ == #[trigger] (start + suffix@);
        assert(s@.skip(n) =~= suffix@);
    }
}

/// The end of a segment is the first separator from where it starts, or the end of
/// the text.
pub proof fn a_segment_ends_at_its_first_separator(s: &str, c: char, from: usize, r: usize)
    requires
        from <= s@.len(),
        call_ensures(find_segment_end, (s, c, from), r),
    ensures
        from <= r <= s@.len(),
        forall|i: int| from <= i < r ==> s@[i] != c,
        r < s@.len() ==> s@[r as int] == c,
{
    segment_end_is_first(s@, c, from as int);
}

/// Joining nothing gives nothing, joining one part gives it, and one part more
/// comes behind a separator.
pub proof fn joining_one_part_more(
    parts: &Vec<String>,
    longer: &Vec<String>,
    separator: &str,
    r: String,
    more: String,
)
    requires
        call_ensures(join, (parts, separator), r),
        call_ensures(join, (longer, separator), more),
        longer@.len() == parts@.len() + 1,
        forall|i: int| 0 <= i < parts@.len() ==> (#[trigger] longer@[i])@ == parts@[i]@,
    ensures
        parts@.len() == 0 ==> r@ == Seq::<char>::empty(),
        parts@.len() == 0 ==> more@ == longer@[0]@,
        parts@.len() > 0 ==> more@ == r@ + separator@ + longer@.last()@,
{
    assert(texts(longer@).drop_last() =~= texts(parts@));
}

/// Spacing out puts a space in place of each separator and leaves the rest alone.
pub proof fn spacing_out_goes_by_character(s: &str, c: char, r: String)
    requires
        call_ensures(space_out, (s, c), r),
    ensures
        r@.len() == s@.len(),
        forall|i: int| 0 <= i < s@.len() && s@[i] == c ==> #[trigger] r@[i] == ' ',
        forall|i: int| 0 <= i < s@.len() && s@[i] != c ==> #[trigger] r@[i] == s@[i],
{
}

/// The last segment is what is left of the text behind its last separator, or all
/// of it where there is none.
pub proof fn the_last_segment_is_what_is_left(s: &str, c: char, r: String)
    requires
        call_ensures(find_last_segment, (s, c), r),
    ensures
        !r@.contains(c),
        !s@.contains(c) ==> r@ == s@,
        s@.contains(c) ==> exists|start: Seq<char>| s@ == #[trigger] (start.push(c) + r@),
{
    the_last_segment_follows_the_last_separator(s@, c);
    let n = s@.len() - r@.len();
    assert(s@.skip(n) == r@);
    if n > 0 {
        assert(s@ =~= s@.take(n - 1).push(c) + r@);
        assert(s@[n - 1] == c);
    } else {
        assert(s@ =~= r@);
    }
}

/// So many copies of a text, one behind the other.
pub open spec fn copies(text: Seq<char>, times: nat) -> Seq<char>
    decreases times,
{
    if times == 0 {
        Seq::empty()
    } else {
        copies(text, (times - 1) as nat) + text
    }
}

proof fn without_suffixes_takes_copies(s: Seq<char>, suffix: Seq<char>) -> (times: nat)
    requires
        suffix.len() > 0,
    ensures
        s == without_suffixes(s, suffix) + copies(suffix, times),
        !has_suffix(without_suffixes(s, suffix), suffix),
    decreases s.len(),
{
    if has_suffix(s, suffix) {
        let shorter = s.take(s.len() - suffix.len());
        let less = without_suffixes_takes_copies(shorter, suffix);
        assert(s =~= shorter + suffix);
        let rest = without_suffixes(s, suffix);
        assert(rest + copies(suffix, less) + suffix =~= rest + (copies(suffix, less) + suffix));
        less + 1
    } else {
        assert(s =~= s + copies(suffix, 0));
        0
    }
}

/// Stripping takes copies of the suffix off the end, and as many as there are.
pub proof fn stripping_takes_every_suffix(s: &str, suffix: &str, r: String)
    requires
        suffix@.len() > 0,
        call_ensures(strip_suffixes, (s, suffix), r),
    ensures
        exists|times: nat| s@ == r@ + #[trigger] copies(suffix@, times),
        !exists|start: Seq<char>| r@ == #[trigger] (start + suffix@),
{
    let times = without_suffixes_takes_copies(s@, suffix@);
    if exists|start: Seq<char>| r@ == #[trigger] (start + suffix@) {
        let start = choose|start: Seq<char>| r@ == #[trigger] (start + suffix@);
        assert(r@.skip(r@.len() - suffix@.len()) =~= suffix@);
    }
}

/// White space, by its code points.
pub open spec fn is_blank(c: char) -> bool {
    seq![
        0x9nat,
        0xa,
        0xb,
        0xc,
        0xd,
        0x20,
        0x85,
        0xa0,
        0x1680,
        0x2000,
        0x2001,
        0x2002,
        0x2003,
        0x2004,
        0x2005,
        0x2006,
        0x2007,
        0x2008,
        0x2009,
        0x200a,
        0x2028,
        0x2029,
        0x202f,
        0x205f,
        0x3000,
    ].contains(c as nat)
}

/// The blanks of the table are the white space that trimming goes by.
pub proof fn blank_is_white_space(c: char)
    ensures
        is_blank(c) == is_white_space(c),
{
    let list = seq![
        0x9nat,
        0xa,
        0xb,
        0xc,
        0xd,
        0x20,
        0x85,
        0xa0,
        0x1680,
        0x2000,
        0x2001,
        0x2002,
        0x2003,
        0x2004,
        0x2005,
        0x2006,
        0x2007,
        0x2008,
        0x2009,
        0x200a,
        0x2028,
        0x2029,
        0x202f,
        0x205f,
        0x3000,
    ];
    let n = c as nat;
    if is_white_space(c) {
        let i: int = if n <= 0xd {
            n - 9
        } else if n == 0x20 {
            5
        } else if n == 0x85 {
            6
        } else if n == 0xa0 {
            7
        } else if n == 0x1680 {
            8
        } else if n <= 0x200a {
            9 + (n - 0x2000)
        } else if n == 0x2028 {
            20
        } else if n == 0x2029 {
            21
        } else if n == 0x202f {
            22
        } else if n == 0x205f {
            23
        } else {
            24
        };
        assert(list[i] == n);
    }
}

/// Trimming leaves the text between its first and its last character that is no
/// white space, and nothing of a text that is white space throughout.
pub proof fn trimming_leaves_the_middle(s: &str, r: String)
    requires
        call_ensures(trim, (s,), r),
    ensures
        exists|start: Seq<char>, end: Seq<char>|
            {
                &&& s@ == #[trigger] (start + r@ + end)
                &&& forall|i: int| 0 <= i < start.len() ==> is_blank(#[trigger] start[i])
                &&& forall|i: int| 0 <= i < end.len() ==> is_blank(#[trigger] end[i])
            },
        r@.len() > 0 ==> !is_blank(r@[0]) && !is_blank(r@.last()),
        r@.len() == 0 <==> forall|i: int| 0 <= i < s@.len() ==> is_blank(#[trigger] s@[i]),
{
    trimming_takes_only_white_space(s@);
    let n = r@.len() as int;
    let from = choose|from: int|
        {
            &&& 0 <= from
            &&& from + n <= s@.len()
            &&& #[trigger] s@.subrange(from, from + n) == r@
            &&& forall|i: int| 0 <= i < from ==> is_white_space(#[trigger] s@[i])
            &&& forall|i: int| from + n <= i < s@.len() ==> is_white_space(#[trigger] s@[i])
        };
    let start = s@.take(from);
    let end = s@.skip(from + n);
    assert(s@ =~= start + r@ + end);
    assert forall|i: int| 0 <= i < start.len() implies is_blank(#[trigger] start[i]) by {
        blank_is_white_space(s@[i]);
    }
    assert forall|i: int| 0 <= i < end.len() implies is_blank(#[trigger] end[i]) by {
        assert(is_white_space(s@[from + n + i]));
        blank_is_white_space(s@[from + n + i]);
    }
    if n > 0 {
        blank_is_white_space(r@[0]);
        blank_is_white_space(r@.last());
        assert(s@[from] == r@[0]);
    } else {
        assert forall|i: int| 0 <= i < s@.len() implies is_blank(#[trigger] s@[i]) by {
            blank_is_white_space(s@[i]);
            if i < from {
                assert(is_white_space(s@[i]));
            } else {
                assert(is_white_space(s@[i]));
            }
        }
    }
}

/// The slot under a key of a map has the key in brackets behind the map's path.
pub proof fn a_map_entry_is_named_by_its_key(
    map: &ProjectSlotAddress,
    key: u32,
    digits: String,
    r: ProjectSlotAddress,
)
    requires
        call_ensures(ProjectSlotAddress::child_map_entry, (map, key), r),
        call_ensures(decimal_text, (key as u64,), digits),
    ensures
        r.node@ == map.node@,
        r.root@ == map.root@,
        r.path@ == map.path@ + seq!['['] + digits@ + seq![']'],
{
    reveal_strlit("[");
    reveal_strlit("]");
    assert("["@ =~= seq!['[']);
    assert("]"@ =~= seq![']']);
    assert(r@.path == map.path@ + "["@ + decimal(key as nat) + "]"@);
}

/// The field of a record slot has its name behind a dot; a name with a dot or a
/// bracket in it, or none, is no field's.
pub proof fn a_field_is_named_behind_a_dot(
    record: &ProjectSlotAddress,
    name: &str,
    r: Option<ProjectSlotAddress>,
)
    requires
        call_ensures(ProjectSlotAddress::child_field, (record, name), r),
    ensures
        r matches Some(field) ==> field.node@ == record.node@ && field.root@ == record.root@
            && field.path@ == record.path@ + seq!['.'] + name@,
        r is Some <==> name@.len() > 0 && !name@.contains('.') && !name@.contains('[')
            && !name@.contains(']'),
{
    reveal_strlit(".");
    assert("."@ =~= seq!['.']);
    if let Some(field) = r {
        assert(field@.path == record.path@ + "."@ + name@);
    } else if name@.len() > 0 {
        let i = choose|i: int|
            0 <= i < name@.len() && !((#[trigger] name@[i]) != '.' && name@[i] != '[' && name@[i]
                != ']');
        assert(name@.contains(name@[i]));
    }
}

} // verus!
