//! Text helpers: character-level searching, trimming and formatting.

use vstd::prelude::*;

verus! {

/// A text.
pub type Text = Seq<char>;

/// A list of texts.
pub type Texts = Seq<Seq<char>>;

/// The texts of a list.
pub open spec fn texts(list: Seq<String>) -> Texts {
    Seq::new(list.len(), |i: int| list[i]@)
}

/// The text in an option.
pub open spec fn optional(text: Option<String>) -> Option<Text> {
    match text {
        Some(t) => Some(t@),
        None => None,
    }
}

/// Whether Unicode gives `c` the White_Space property.
pub open spec fn white_space(c: char) -> bool {
    ||| '\u{9}' <= c <= '\u{d}'
    ||| c == '\u{20}' || c == '\u{85}' || c == '\u{a0}' || c == '\u{1680}'
    ||| '\u{2000}' <= c <= '\u{200a}'
    ||| c == '\u{2028}' || c == '\u{2029}' || c == '\u{202f}' || c == '\u{205f}'
    ||| c == '\u{3000}'
}

/// Calls `char::is_whitespace`, which tells the characters with the White_Space property from
/// the others.
#[verifier::external_body]
fn is_white_space(c: char) -> (answer: bool)
    ensures
        answer == white_space(c),
{
    c.is_whitespace()
}

/// `s` without the white space at its front.
pub open spec fn trimmed_front(s: Seq<char>) -> Seq<char>
    decreases s.len(),
{
    if s.len() > 0 && white_space(s.first()) {
        trimmed_front(s.drop_first())
    } else {
        s
    }
}

/// `s` without the white space at its back.
pub open spec fn trimmed_back(s: Seq<char>) -> Seq<char>
    decreases s.len(),
{
    if s.len() > 0 && white_space(s.last()) {
        trimmed_back(s.drop_last())
    } else {
        s
    }
}

/// `s` without leading and trailing white space.
pub open spec fn trimmed(s: Seq<char>) -> Seq<char> {
    trimmed_back(trimmed_front(s))
}

/// `s` without the run of `c` at its end.
pub open spec fn without_trailing(s: Seq<char>, c: char) -> Seq<char>
    decreases s.len(),
{
    if s.len() > 0 && s.last() == c {
        without_trailing(s.drop_last(), c)
    } else {
        s
    }
}

/// Whether `s` begins with `prefix`.
pub open spec fn begins_with(s: Seq<char>, prefix: Seq<char>) -> bool {
    prefix.is_prefix_of(s)
}

/// The decimal digit of `d`.
pub open spec fn digit(d: nat) -> char {
    if d == 0 {
        '0'
    } else if d == 1 {
        '1'
    } else if d == 2 {
        '2'
    } else if d == 3 {
        '3'
    } else if d == 4 {
        '4'
    } else if d == 5 {
        '5'
    } else if d == 6 {
        '6'
    } else if d == 7 {
        '7'
    } else if d == 8 {
        '8'
    } else {
        '9'
    }
}

/// `n` in decimal, without leading zeros.
pub open spec fn decimal(n: nat) -> Seq<char>
    decreases n,
{
    if n < 10 {
        seq![digit(n)]
    } else {
        decimal(n / 10).push(digit(n % 10))
    }
}

/// The pieces of `s` between occurrences of `c`: one more than there are occurrences.
pub open spec fn pieces(s: Seq<char>, c: char) -> Seq<Seq<char>>
    decreases s.len(),
{
    if s.len() == 0 {
        seq![Seq::empty()]
    } else {
        let before = pieces(s.drop_last(), c);
        if s.last() == c {
            before.push(Seq::empty())
        } else {
            before.drop_last().push(before.last().push(s.last()))
        }
    }
}

/// Compares two texts.
pub fn same_text(a: &str, b: &str) -> (same: bool)
    ensures
        same == (a@ == b@),
{
    a.to_owned() == b.to_owned()
}

/// The characters of a text.
pub fn characters(s: &str) -> (chars: Vec<char>)
    ensures
        chars@ == s@,
{
    let mut chars: Vec<char> = Vec::new();
    for c in it: s.chars()
        invariant
            chars@ == it.seq().take(it.index() as int),
            it.seq() == s@,
    {
        chars.push(c);
    }
    chars
}

/// Removes white space from both ends, as `str::trim` does.
pub fn trim(s: &str) -> (res: &str)
    ensures
        res@ == trimmed(s@),
{
    let chars = characters(s);
    let mut from: usize = 0;
    assert(s@.skip(0) == s@);
    while from < chars.len() && is_white_space(chars[from])
        invariant
            from <= chars.len(),
            chars@ == s@,
            trimmed_front(s@) == trimmed_front(s@.skip(from as int)),
        decreases chars.len() - from,
    {
        assert(s@.skip(from as int).drop_first() == s@.skip(from + 1));
        from = from + 1;
    }
    let ghost front = s@.skip(from as int);
    assert(trimmed_front(s@) == front);
    let mut to: usize = chars.len();
    while to > from && is_white_space(chars[to - 1])
        invariant
            from <= to <= chars.len(),
            chars@ == s@,
            trimmed_back(front) == trimmed_back(s@.subrange(from as int, to as int)),
        decreases to - from,
    {
        assert(s@.subrange(from as int, to as int).drop_last() == s@.subrange(
            from as int,
            to - 1,
        ));
        to = to - 1;
    }
    s.substring_char(from, to)
}

/// Removes the run of `c` at the end, as `str::trim_end_matches` does.
pub fn strip_trailing(s: &str, c: char) -> (res: &str)
    ensures
        res@ == without_trailing(s@, c),
{
    let chars = characters(s);
    let mut to: usize = chars.len();
    assert(s@.subrange(0, to as int) == s@);
    while to > 0 && chars[to - 1] == c
        invariant
            to <= chars.len(),
            chars@ == s@,
            without_trailing(s@, c) == without_trailing(s@.subrange(0, to as int), c),
        decreases to,
    {
        assert(s@.subrange(0, to as int).drop_last() == s@.subrange(0, to - 1));
        to = to - 1;
    }
    s.substring_char(0, to)
}

/// Whether `s` begins with `prefix`.
pub fn starts_with(s: &str, prefix: &str) -> (res: bool)
    ensures
        res == begins_with(s@, prefix@),
{
    let n: usize = prefix.unicode_len();
    if s.unicode_len() < n {
        false
    } else {
        let head = s.substring_char(0, n);
        same_text(head, prefix)
    }
}

/// Splits a text at every occurrence of `c`, as `str::split` does.
pub fn split<'a>(s: &'a str, c: char) -> (res: Vec<&'a str>)
    ensures
        res@.len() == pieces(s@, c).len(),
        forall|i: int| 0 <= i < res@.len() ==> (#[trigger] res@[i])@ == pieces(s@, c)[i],
        res@.len() >= 1,
{
    let chars = characters(s);
    let mut res: Vec<&'a str> = Vec::new();
    let mut start: usize = 0;
    let mut i: usize = 0;
    assert(s@.take(0) =~= Seq::empty());
    assert(s@.subrange(0, 0) =~= Seq::empty());
    while i < chars.len()
        invariant
            start <= i <= chars.len(),
            chars@ == s@,
            pieces(s@.take(i as int), c).len() == res@.len() + 1,
            pieces(s@.take(i as int), c).last() == s@.subrange(start as int, i as int),
            forall|j: int|
                0 <= j < res@.len() ==> (#[trigger] res@[j])@ == pieces(s@.take(i as int), c)[j],
        decreases chars.len() - i,
    {
        proof {
            assert(s@.take(i + 1).drop_last() =~= s@.take(i as int));
            assert(s@.take(i + 1).last() == s@[i as int]);
            assert(s@.subrange(start as int, i as int).push(s@[i as int]) =~= s@.subrange(
                start as int,
                i + 1,
            ));
            assert(s@.subrange(i + 1, i + 1) =~= Seq::empty());
        }
        if chars[i] == c {
            res.push(s.substring_char(start, i));
            start = i + 1;
        }
        i = i + 1;
    }
    assert(s@.take(i as int) =~= s@);
    res.push(s.substring_char(start, i));
    res
}

/// The texts of a list with `c` between them.
pub open spec fn joined(list: Seq<Seq<char>>, c: char) -> Seq<char>
    decreases list.len(),
{
    if list.len() == 0 {
        Seq::empty()
    } else if list.len() == 1 {
        list[0]
    } else {
        joined(list.drop_last(), c).push(c) + list.last()
    }
}

/// The pieces of a text, put together again with `c` between them, are the text; and none of
/// them holds `c`.
pub proof fn law_pieces_rejoin(s: Seq<char>, c: char)
    ensures
        pieces(s, c).len() >= 1,
        joined(pieces(s, c), c) == s,
        forall|i: int| 0 <= i < pieces(s, c).len() ==> !(#[trigger] pieces(s, c)[i]).contains(c),
    decreases s.len(),
{
    if s.len() > 0 {
        let rest = s.drop_last();
        law_pieces_rejoin(rest, c);
        let before = pieces(rest, c);
        let all = pieces(s, c);
        assert(rest.push(s.last()) =~= s);
        if s.last() == c {
            assert(all.drop_last() =~= before);
            assert(joined(all, c) =~= s);
        } else {
            assert(all.drop_last() =~= before.drop_last());
            assert(all.last() =~= before.last().push(s.last()));
            assert(joined(all, c) =~= joined(before, c).push(s.last()));
            assert forall|i: int| 0 <= i < all.len() implies !(#[trigger] all[i]).contains(c) by {
                if i < all.len() - 1 {
                    assert(all[i] == before[i]);
                } else if all[i].contains(c) {
                    let j = choose|j: int| 0 <= j < all[i].len() && all[i][j] == c;
                    assert(before.last()[j] == c);
                    assert(before[before.len() - 1].contains(c));
                }
            }
        }
    }
}

/// A trimmed text begins and ends with something other than white space, and trimming it again
/// changes nothing.
pub proof fn law_trim_leaves_no_white_space(s: Seq<char>)
    ensures
        trimmed(s).len() > 0 ==> !white_space(trimmed(s).first()) && !white_space(
            trimmed(s).last(),
        ),
        trimmed(trimmed(s)) == trimmed(s),
{
    lemma_trimmed_front(s);
    lemma_trimmed_back(trimmed_front(s));
}

proof fn lemma_trimmed_front(s: Seq<char>)
    ensures
        trimmed_front(s).len() > 0 ==> !white_space(trimmed_front(s).first()),
    decreases s.len(),
{
    if s.len() > 0 {
        lemma_trimmed_front(s.drop_first());
    }
}

proof fn lemma_trimmed_back(s: Seq<char>)
    ensures
        trimmed_back(s).len() > 0 ==> !white_space(trimmed_back(s).last()) && trimmed_back(
            s,
        ).first() == s.first(),
    decreases s.len(),
{
    if s.len() > 0 {
        lemma_trimmed_back(s.drop_last());
    }
}

/// Puts the three parts into one text.
pub fn concat3(a: &str, b: &str, c: &str) -> (res: String)
    ensures
        res@ == a@ + b@ + c@,
{
    let mut res = a.to_owned();
    res.append(b);
    res.append(c);
    res
}

/// Puts the two parts into one text.
pub fn concat2(a: &str, b: &str) -> (res: String)
    ensures
        res@ == a@ + b@,
{
    let mut res = a.to_owned();
    res.append(b);
    res
}

fn digit_text(d: u64) -> (res: &'static str)
    requires
        d < 10,
    ensures
        res@ == seq![digit(d as nat)],
{
    proof {
        reveal_strlit("0");
        reveal_strlit("1");
        reveal_strlit("2");
        reveal_strlit("3");
        reveal_strlit("4");
        reveal_strlit("5");
        reveal_strlit("6");
        reveal_strlit("7");
        reveal_strlit("8");
        reveal_strlit("9");
    }
    if d == 0 {
        "0"
    } else if d == 1 {
        "1"
    } else if d == 2 {
        "2"
    } else if d == 3 {
        "3"
    } else if d == 4 {
        "4"
    } else if d == 5 {
        "5"
    } else if d == 6 {
        "6"
    } else if d == 7 {
        "7"
    } else if d == 8 {
        "8"
    } else {
        "9"
    }
}

/// Writes `n` in decimal.
pub fn decimal_text(n: u64) -> (res: String)
    ensures
        res@ == decimal(n as nat),
    decreases n,
{
    if n < 10 {
        digit_text(n).to_owned()
    } else {
        let mut res = decimal_text(n / 10);
        res.append(digit_text(n % 10));
        res
    }
}

/// Trimming takes nothing but white space away, and that from the ends alone.
pub proof fn law_trim_removes_white_space_only(s: Seq<char>)
    ensures
        exists|from: int, to: int|
            0 <= from <= to <= s.len() && trimmed(s) == #[trigger] s.subrange(from, to) && (
            forall|i: int| 0 <= i < from || to <= i < s.len() ==> white_space(#[trigger] s[i])),
{
    let from = lemma_trimmed_front_is_suffix(s);
    let front = trimmed_front(s);
    let kept = lemma_trimmed_back_is_prefix(front);
    let to = from + kept;
    assert(trimmed(s) =~= s.subrange(from, to));
    assert forall|i: int| 0 <= i < from || to <= i < s.len() implies white_space(
        #[trigger] s[i],
    ) by {
        if to <= i {
            assert(front[i - from] == s[i]);
        }
    }
}

proof fn lemma_trimmed_front_is_suffix(s: Seq<char>) -> (from: int)
    ensures
        0 <= from <= s.len(),
        trimmed_front(s) == s.skip(from),
        forall|i: int| 0 <= i < from ==> white_space(#[trigger] s[i]),
    decreases s.len(),
{
    if s.len() > 0 && white_space(s.first()) {
        let rest = s.drop_first();
        let from = lemma_trimmed_front_is_suffix(rest);
        assert(rest.skip(from) =~= s.skip(from + 1));
        assert forall|i: int| 0 <= i < from + 1 implies white_space(#[trigger] s[i]) by {
            if i > 0 {
                assert(rest[i - 1] == s[i]);
            }
        }
        from + 1
    } else {
        assert(s.skip(0) =~= s);
        0
    }
}

proof fn lemma_trimmed_back_is_prefix(s: Seq<char>) -> (kept: int)
    ensures
        0 <= kept <= s.len(),
        trimmed_back(s) == s.take(kept),
        forall|i: int| kept <= i < s.len() ==> white_space(#[trigger] s[i]),
    decreases s.len(),
{
    if s.len() > 0 && white_space(s.last()) {
        let rest = s.drop_last();
        let kept = lemma_trimmed_back_is_prefix(rest);
        assert(rest.take(kept) =~= s.take(kept));
        assert forall|i: int| kept <= i < s.len() implies white_space(#[trigger] s[i]) by {
            if i < s.len() - 1 {
                assert(rest[i] == s[i]);
            }
        }
        kept
    } else {
        assert(s.take(s.len() as int) =~= s);
        s.len() as int
    }
}

/// Stripping takes the whole run of `c` at the end away, and nothing else.
pub proof fn law_strip_removes_run_only(s: Seq<char>, c: char)
    ensures
        exists|kept: int|
            0 <= kept <= s.len() && without_trailing(s, c) == #[trigger] s.take(kept) && (
            forall|i: int| kept <= i < s.len() ==> #[trigger] s[i] == c) && (kept > 0 ==> s[kept - 1]
                != c),
    decreases s.len(),
{
    if s.len() > 0 && s.last() == c {
        let rest = s.drop_last();
        law_strip_removes_run_only(rest, c);
        let kept = choose|kept: int|
            0 <= kept <= rest.len() && without_trailing(rest, c) == #[trigger] rest.take(kept) && (
            forall|i: int| kept <= i < rest.len() ==> #[trigger] rest[i] == c) && (kept > 0
                ==> rest[kept - 1] != c);
        assert(rest.take(kept) =~= s.take(kept));
        assert forall|i: int| kept <= i < s.len() implies #[trigger] s[i] == c by {
            if i < s.len() - 1 {
                assert(rest[i] == s[i]);
            }
        }
    } else {
        assert(s.take(s.len() as int) =~= s);
    }
}

/// A text begins with another exactly if that is as long at most, and agrees with it character by
/// character.
pub proof fn law_prefix_agrees(s: Seq<char>, prefix: Seq<char>)
    ensures
        begins_with(s, prefix) <==> prefix.len() <= s.len() && forall|i: int|
            0 <= i < prefix.len() ==> s[i] == #[trigger] prefix[i],
{
    if begins_with(s, prefix) {
        assert forall|i: int| 0 <= i < prefix.len() implies s[i] == #[trigger] prefix[i] by {
            assert(s.subrange(0, prefix.len() as int)[i] == prefix[i]);
        }
    } else if prefix.len() <= s.len() && (forall|i: int|
        0 <= i < prefix.len() ==> s[i] == #[trigger] prefix[i]) {
        assert(s.subrange(0, prefix.len() as int) =~= prefix);
    }
}

/// The number that a text of decimal digits stands for.
pub open spec fn number(text: Seq<char>) -> int
    decreases text.len(),
{
    if text.len() == 0 {
        0
    } else {
        number(text.drop_last()) * 10 + (text.last() as int - '0' as int)
    }
}

/// What is written in decimal is read back as the same number; it has digits alone, and no
/// leading zero.
pub proof fn law_decimal_is_read_back(n: nat)
    ensures
        number(decimal(n)) == n,
        decimal(n).len() > 0,
        forall|i: int| 0 <= i < decimal(n).len() ==> '0' <= #[trigger] decimal(n)[i] <= '9',
        decimal(n)[0] == '0' ==> n == 0,
    decreases n,
{
    if n < 10 {
        assert(decimal(n).drop_last() =~= Seq::empty());
        assert(number(Seq::empty()) == 0);
    } else {
        law_decimal_is_read_back(n / 10);
        let head = decimal(n / 10);
        assert(decimal(n).drop_last() =~= head);
        assert(decimal(n)[0] == head[0]);
        assert forall|i: int| 0 <= i < decimal(n).len() implies '0' <= #[trigger] decimal(n)[i]
            <= '9' by {
            if i < head.len() {
                assert(decimal(n)[i] == head[i]);
            }
        }
    }
}


} // verus!
