//! Text as a sequence of characters: comparing, searching, splitting, joining
//! and printing numbers.

use vstd::prelude::*;

verus! {

/// The characters of each string of a list.
pub open spec fn texts(list: Seq<String>) -> Seq<Seq<char>> {
    list.map_values(|t: String| t@)
}

/// Whether `pat` stands in `s` at position `i`.
pub open spec fn occurs_at(s: Seq<char>, pat: Seq<char>, i: int) -> bool {
    0 <= i && i + pat.len() <= s.len() && s.subrange(i, i + pat.len()) == pat
}

/// The least position at or after `from` where `pat` stands in `s`.
pub open spec fn find_from(s: Seq<char>, pat: Seq<char>, from: int) -> Option<int>
    decreases s.len() + 1 - from,
{
    if from < 0 || from + pat.len() > s.len() {
        None
    } else if occurs_at(s, pat, from) {
        Some(from)
    } else {
        find_from(s, pat, from + 1)
    }
}

/// The pieces of `s` between the occurrences of `sep`, which are taken from
/// left to right and do not overlap. There is always at least one piece.
pub open spec fn split(s: Seq<char>, sep: Seq<char>) -> Seq<Seq<char>>
    recommends
        sep.len() > 0,
    decreases s.len(),
{
    match find_from(s, sep, 0) {
        Some(i) => {
            proof {
                lemma_find_from(s, sep, 0);
            }
            if sep.len() > 0 {
                seq![s.take(i)] + split(s.skip(i + sep.len()), sep)
            } else {
                seq![s]
            }
        },
        None => seq![s],
    }
}

/// The pieces one after the other, with `sep` between each two.
pub open spec fn join(parts: Seq<Seq<char>>, sep: Seq<char>) -> Seq<char>
    decreases parts.len(),
{
    if parts.len() == 0 {
        Seq::empty()
    } else if parts.len() == 1 {
        parts[0]
    } else {
        parts[0] + sep + join(parts.skip(1), sep)
    }
}

/// The digit for a number below ten.
pub open spec fn digit(d: nat) -> char {
    ('0' as nat + d) as char
}

/// A number in base ten, without leading zeros.
pub open spec fn decimal(n: nat) -> Seq<char>
    decreases n,
{
    if n < 10 {
        seq![digit(n)]
    } else {
        decimal(n / 10).push(digit(n % 10))
    }
}

/// `find_from` gives a position where the pattern stands, and it stands
/// nowhere before; it gives none only where there is no such position.
pub proof fn lemma_find_from(s: Seq<char>, pat: Seq<char>, from: int)
    requires
        0 <= from,
    ensures
        match find_from(s, pat, from) {
            Some(i) => {
                &&& from <= i
                &&& occurs_at(s, pat, i)
                &&& forall|j: int| from <= j < i ==> !#[trigger] occurs_at(s, pat, j)
            },
            None => forall|j: int| from <= j ==> !#[trigger] occurs_at(s, pat, j),
        },
    decreases s.len() + 1 - from,
{
    if from + pat.len() <= s.len() && !occurs_at(s, pat, from) {
        lemma_find_from(s, pat, from + 1);
    }
}

/// Joining the pieces of a text with the separator that it was split at gives
/// the text back.
pub proof fn law_join_undoes_split(s: Seq<char>, sep: Seq<char>)
    requires
        sep.len() > 0,
    ensures
        split(s, sep).len() >= 1,
        join(split(s, sep), sep) == s,
    decreases s.len(),
{
    lemma_find_from(s, sep, 0);
    match find_from(s, sep, 0) {
        Some(i) => {
            let rest = s.skip(i + sep.len());
            law_join_undoes_split(rest, sep);
            let parts = split(s, sep);
            assert(parts.skip(1) =~= split(rest, sep));
            assert(s =~= s.take(i) + s.subrange(i, i + sep.len()) + rest);
        },
        None => {},
    }
}

/// No piece that splitting gives holds the separator.
pub proof fn law_pieces_hold_no_separator(s: Seq<char>, sep: Seq<char>, k: int, i: int)
    requires
        sep.len() > 0,
        0 <= k < split(s, sep).len(),
    ensures
        !occurs_at(split(s, sep)[k], sep, i),
    decreases s.len(),
{
    lemma_find_from(s, sep, 0);
    match find_from(s, sep, 0) {
        Some(at) => {
            let rest = s.skip(at + sep.len());
            let head = s.take(at);
            if k == 0 {
                if occurs_at(head, sep, i) {
                    assert(s.subrange(i, i + sep.len()) =~= head.subrange(i, i + sep.len()));
                    assert(occurs_at(s, sep, i));
                }
            } else {
                law_pieces_hold_no_separator(rest, sep, k - 1, i);
            }
        },
        None => {
            if occurs_at(s, sep, i) {
                assert(0 <= i);
            }
        },
    }
}

/// Where the text before a separator of one character does not hold that
/// character, it is the first piece, and the others are those of what follows.
pub proof fn lemma_split_first(head: Seq<char>, c: char, rest: Seq<char>)
    requires
        !head.contains(c),
    ensures
        split(head + seq![c] + rest, seq![c]) == seq![head] + split(rest, seq![c]),
{
    let s = head + seq![c] + rest;
    let sep = seq![c];
    lemma_find_from(s, sep, 0);
    let at = head.len() as int;
    assert(s.subrange(at, at + 1) =~= sep);
    assert(occurs_at(s, sep, at));
    match find_from(s, sep, 0) {
        Some(i) => {
            assert(s.subrange(i, i + 1)[0] == c);
            if i < at {
                assert(head[i] == c);
            }
            assert(i == at);
            assert(s.take(i) =~= head);
            assert(s.skip(i + 1) =~= rest);
        },
        None => {},
    }
}

/// A text without the separator character is its own and only piece.
pub proof fn lemma_split_whole(s: Seq<char>, c: char)
    requires
        !s.contains(c),
    ensures
        split(s, seq![c]) == seq![s],
{
    lemma_find_from(s, seq![c], 0);
    match find_from(s, seq![c], 0) {
        Some(i) => {
            assert(s.subrange(i, i + 1)[0] == c);
            assert(s[i] == c);
        },
        None => {},
    }
}

/// `texts` gives the characters of every string of the list, in its order.
pub proof fn law_texts_are_those_of_the_list(list: Seq<String>)
    ensures
        texts(list).len() == list.len(),
        forall|i: int| 0 <= i < list.len() ==> #[trigger] texts(list)[i] == list[i]@,
{
}

/// A pattern stands in a text at the length of what comes before it, and
/// nowhere else: wherever it stands, the text is what comes before, the pattern
/// and what comes after.
pub proof fn law_pattern_stands_between(
    before: Seq<char>,
    pat: Seq<char>,
    after: Seq<char>,
    s: Seq<char>,
    i: int,
)
    ensures
        occurs_at(before + pat + after, pat, before.len() as int),
        occurs_at(s, pat, i) ==> 0 <= i <= s.len() - pat.len() && s == s.take(i) + pat + s.skip(
            i + pat.len(),
        ),
{
    let whole = before + pat + after;
    let at = before.len() as int;
    assert(whole.subrange(at, at + pat.len()) =~= pat);
    if occurs_at(s, pat, i) {
        assert(s =~= s.take(i) + s.subrange(i, i + pat.len()) + s.skip(i + pat.len()));
    }
}

/// A text in which the separator stands nowhere has one piece, the text itself.
pub proof fn law_text_without_separator_is_one_piece(s: Seq<char>, sep: Seq<char>)
    requires
        sep.len() > 0,
        forall|i: int|
            0 <= i <= s.len() - sep.len() ==> #[trigger] s.subrange(i, i + sep.len()) != sep,
    ensures
        split(s, sep) == seq![s],
{
    lemma_find_from(s, sep, 0);
    match find_from(s, sep, 0) {
        Some(i) => {
            assert(s.subrange(i, i + sep.len()) == sep);
        },
        None => {},
    }
}

/// What comes before the first separator of a text is its first piece, and the
/// other pieces are those of what comes after.
pub proof fn law_first_piece_ends_at_first_separator(
    head: Seq<char>,
    sep: Seq<char>,
    rest: Seq<char>,
)
    requires
        sep.len() > 0,
        forall|i: int|
            0 <= i < head.len() ==> #[trigger] (head + sep + rest).subrange(i, i + sep.len())
                != sep,
    ensures
        split(head + sep + rest, sep) == seq![head] + split(rest, sep),
{
    let s = head + sep + rest;
    let at = head.len() as int;
    lemma_find_from(s, sep, 0);
    law_pattern_stands_between(head, sep, rest, s, at);
    match find_from(s, sep, 0) {
        Some(i) => {
            assert(s.subrange(i, i + sep.len()) == sep);
            assert(i == at);
            assert(s.take(i) =~= head);
            assert(s.skip(i + sep.len()) =~= rest);
        },
        None => {},
    }
}

/// Nothing joined is nothing, and one piece joined is that piece. Two lists of
/// pieces joined one after the other have one separator between them.
pub proof fn law_join_puts_separators_between(
    piece: Seq<char>,
    a: Seq<Seq<char>>,
    b: Seq<Seq<char>>,
    sep: Seq<char>,
)
    ensures
        join(Seq::empty(), sep) == Seq::<char>::empty(),
        join(seq![piece], sep) == piece,
        a.len() > 0 && b.len() > 0 ==> join(a + b, sep) == join(a, sep) + sep + join(b, sep),
    decreases a.len(),
{
    if a.len() > 0 && b.len() > 0 {
        if a.len() == 1 {
            assert((a + b).skip(1) =~= b);
        } else {
            assert((a + b).skip(1) =~= a.skip(1) + b);
            law_join_puts_separators_between(piece, a.skip(1), b, sep);
            assert(join(a + b, sep) =~= join(a, sep) + sep + join(b, sep));
        }
    }
}

/// Splitting at a character gives back the pieces that were joined with it,
/// where none of them holds it.
pub proof fn law_split_undoes_join(parts: Seq<Seq<char>>, c: char)
    requires
        parts.len() > 0,
        forall|i: int| 0 <= i < parts.len() ==> !(#[trigger] parts[i]).contains(c),
    ensures
        split(join(parts, seq![c]), seq![c]) == parts,
    decreases parts.len(),
{
    if parts.len() == 1 {
        lemma_split_whole(parts[0], c);
        assert(parts =~= seq![parts[0]]);
    } else {
        law_split_undoes_join(parts.skip(1), c);
        lemma_split_first(parts[0], c, join(parts.skip(1), seq![c]));
        assert(parts =~= seq![parts[0]] + parts.skip(1));
    }
}

/// The number that a text of digits stands for.
pub open spec fn value_of(digits: Seq<char>) -> int
    decreases digits.len(),
{
    if digits.len() == 0 {
        0
    } else {
        value_of(digits.drop_last()) * 10 + (digits.last() as int - 48)
    }
}

/// A number in base ten consists of digits, stands for that number, and has no
/// leading zero.
pub proof fn law_decimal_stands_for_its_number(n: nat)
    ensures
        decimal(n).len() > 0,
        forall|i: int| 0 <= i < decimal(n).len() ==> '0' <= #[trigger] decimal(n)[i] <= '9',
        value_of(decimal(n)) == n,
        decimal(n)[0] == '0' ==> n == 0,
    decreases n,
{
    if n < 10 {
        assert(decimal(n).drop_last() =~= Seq::empty());
        assert(value_of(decimal(n).drop_last()) == 0);
    } else {
        law_decimal_stands_for_its_number(n / 10);
        assert(decimal(n).drop_last() =~= decimal(n / 10));
    }
}

/// A separator stands in a text after `start` where it stands in what follows
/// `start`.
proof fn lemma_occurs_after(s: Seq<char>, pat: Seq<char>, start: int, i: int)
    requires
        0 <= start <= s.len(),
        0 <= i,
    ensures
        occurs_at(s.skip(start), pat, i) == occurs_at(s, pat, start + i),
{
    if i + pat.len() <= s.len() - start {
        assert(s.skip(start).subrange(i, i + pat.len()) =~= s.subrange(
            start + i,
            start + i + pat.len(),
        ));
    }
}

/// Whether two texts are equal.
pub fn same_text(a: &str, b: &str) -> (same: bool)
    ensures
        same == (a@ == b@),
{
    let mut rest_a = a.chars();
    let mut rest_b = b.chars();
    let ghost mut n: int = 0;
    loop
        invariant
            0 <= n <= a@.len(),
            n <= b@.len(),
            vstd::std_specs::iter::IteratorSpec::remaining(&rest_a) == a@.skip(n),
            vstd::std_specs::iter::IteratorSpec::remaining(&rest_b) == b@.skip(n),
            a@.take(n) == b@.take(n),
        decreases a@.len() - n,
    {
        match (rest_a.next(), rest_b.next()) {
            (Some(c), Some(d)) => {
                if c != d {
                    assert(a@[n] == c && b@[n] == d);
                    return false;
                }
                proof {
                    assert(a@.take(n + 1) =~= a@.take(n).push(c));
                    assert(b@.take(n + 1) =~= b@.take(n).push(c));
                    assert(a@.skip(n).drop_first() =~= a@.skip(n + 1));
                    assert(b@.skip(n).drop_first() =~= b@.skip(n + 1));
                    n = n + 1;
                }
            },
            (None, None) => {
                assert(a@.take(n) =~= a@);
                assert(b@.take(n) =~= b@);
                return true;
            },
            _ => {
                return false;
            },
        }
    }
}

/// The characters of a text.
pub fn chars_of(s: &str) -> (chars: Vec<char>)
    ensures
        chars@ == s@,
{
    let mut chars: Vec<char> = Vec::new();
    let mut rest = s.chars();
    loop
        invariant
            chars@.len() <= s@.len(),
            chars@ == s@.take(chars@.len() as int),
            vstd::std_specs::iter::IteratorSpec::remaining(&rest) == s@.skip(chars@.len() as int),
        decreases s@.len() - chars@.len(),
    {
        let ghost n = chars@.len() as int;
        match rest.next() {
            Some(c) => {
                chars.push(c);
                assert(s@.take(n + 1) =~= s@.take(n).push(c));
                assert(s@.skip(n).drop_first() =~= s@.skip(n + 1));
            },
            None => {
                assert(s@.take(n) =~= s@);
                return chars;
            },
        }
    }
}

/// Whether `pat` stands in `s` at position `i`.
fn stands_at(s: &Vec<char>, pat: &Vec<char>, i: usize) -> (found: bool)
    requires
        i + pat@.len() <= s@.len(),
    ensures
        found == occurs_at(s@, pat@, i as int),
{
    let length: usize = s.len();
    let mut k: usize = 0;
    while k < pat.len()
        invariant
            length == s@.len(),
            i + pat@.len() <= length,
            k <= pat@.len(),
            forall|j: int| 0 <= j < k ==> s@[i + j] == pat@[j],
        decreases pat@.len() - k,
    {
        if s[i + k] != pat[k] {
            assert(s@.subrange(i as int, i + pat@.len())[k as int] != pat@[k as int]);
            return false;
        }
        k = k + 1;
    }
    assert(s@.subrange(i as int, i + pat@.len()) =~= pat@);
    true
}

/// The first position of `pat` in `s`, counted in characters.
pub fn find(s: &str, pat: &str) -> (at: Option<usize>)
    ensures
        match at {
            Some(i) => find_from(s@, pat@, 0) == Some(i as int),
            None => find_from(s@, pat@, 0) is None,
        },
{
    let chars = chars_of(s);
    let wanted = chars_of(pat);
    let mut i: usize = 0;
    while wanted.len() <= chars.len() - i
        invariant
            chars@ == s@,
            wanted@ == pat@,
            i <= chars@.len(),
            find_from(s@, pat@, i as int) == find_from(s@, pat@, 0),
        decreases chars@.len() - i,
    {
        if stands_at(&chars, &wanted, i) {
            return Some(i);
        }
        assert(i == chars@.len() ==> chars@.subrange(i as int, i as int) =~= wanted@);
        i = i + 1;
    }
    None
}

/// The pieces of `s` between the occurrences of `sep`.
pub fn split_text(s: &str, sep: &str) -> (parts: Vec<String>)
    requires
        sep@.len() > 0,
    ensures
        texts(parts@) == split(s@, sep@),
{
    let chars = chars_of(s);
    let wanted = chars_of(sep);
    let mut parts: Vec<String> = Vec::new();
    let mut start: usize = 0;
    let mut i: usize = 0;
    proof {
        assert(s@.skip(0) =~= s@);
        assert(texts(parts@) + split(s@, sep@) =~= split(s@, sep@));
    }
    while wanted.len() <= chars.len() - i
        invariant
            chars@ == s@,
            wanted@ == sep@,
            sep@.len() > 0,
            start <= i <= chars@.len(),
            find_from(s@.skip(start as int), sep@, i - start) == find_from(
                s@.skip(start as int),
                sep@,
                0,
            ),
            texts(parts@) + split(s@.skip(start as int), sep@) == split(s@, sep@),
        decreases chars@.len() - i,
    {
        proof {
            lemma_occurs_after(s@, sep@, start as int, i - start);
        }
        if stands_at(&chars, &wanted, i) {
            let ghost before = parts@;
            let ghost tail = s@.skip(start as int);
            let piece = s.substring_char(start, i).to_owned();
            parts.push(piece);
            let next: usize = i + wanted.len();
            proof {
                assert(piece@ =~= tail.take(i - start));
                assert(tail.skip(i - start + sep@.len()) =~= s@.skip(next as int));
                assert(texts(parts@) =~= texts(before).push(piece@));
                assert(texts(parts@) + split(s@.skip(next as int), sep@) =~= texts(before) + (seq![
                    piece@,
                ] + split(s@.skip(next as int), sep@)));
            }
            start = next;
            i = next;
        } else {
            i = i + 1;
        }
    }
    let ghost before = parts@;
    let last = s.substring_char(start, chars.len()).to_owned();
    parts.push(last);
    proof {
        assert(last@ =~= s@.skip(start as int));
        assert(texts(parts@) =~= texts(before) + seq![last@]);
    }
    parts
}

/// The pieces one after the other, with `sep` between each two.
pub fn join_text(parts: &Vec<String>, sep: &str) -> (joined: String)
    ensures
        joined@ == join(texts(parts@), sep@),
{
    if parts.len() == 0 {
        return String::new();
    }
    let ghost all = texts(parts@);
    let mut joined = parts[0].clone();
    let mut i: usize = 1;
    while i < parts.len()
        invariant
            all == texts(parts@),
            1 <= i <= parts@.len(),
            join(all, sep@) == joined@ + (if i < all.len() {
                sep@ + join(all.skip(i as int), sep@)
            } else {
                Seq::empty()
            }),
        decreases parts@.len() - i,
    {
        let ghost before = joined@;
        joined.append(sep);
        joined.append(parts[i].as_str());
        proof {
            let rest = all.skip(i as int);
            assert(rest[0] == parts@[i as int]@);
            if i + 1 < all.len() {
                assert(rest.skip(1) =~= all.skip(i + 1));
                assert(before + (sep@ + (rest[0] + sep@ + join(all.skip(i + 1), sep@))) =~= before
                    + sep@ + rest[0] + (sep@ + join(all.skip(i + 1), sep@)));
            } else {
                assert(before + (sep@ + rest[0]) =~= before + sep@ + rest[0] + Seq::empty());
            }
        }
        i = i + 1;
    }
    joined
}

/// A number in base ten.
pub fn decimal_text(n: u16) -> (text: String)
    ensures
        text@ == decimal(n as nat),
    decreases n,
{
    let d: usize = (n % 10) as usize;
    proof {
        reveal_strlit("0123456789");
    }
    let last = "0123456789".substring_char(d, d + 1);
    proof {
        assert(last@ =~= seq![digit((n % 10) as nat)]);
    }
    if n < 10 {
        last.to_owned()
    } else {
        let mut text = decimal_text(n / 10);
        text.append(last);
        assert(text@ =~= decimal((n / 10) as nat).push(digit((n % 10) as nat)));
        text
    }
}

} // verus!
