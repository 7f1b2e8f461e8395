//! Character-level helpers shared by the builders: cutting a text at a
//! separator or after a prefix, splitting a field into tokens, joining parts
//! and writing numbers, all stated over `Seq<char>` models.

use vstd::prelude::*;
use vstd::std_specs::iter::IteratorSpec;

verus! {

/// Position of the first `c` in `s`, or `s.len()` when `s` holds none.
pub open spec fn first_index_of(s: Seq<char>, c: char) -> int
    decreases s.len(),
{
    if s.len() == 0 || s[0] == c {
        0
    } else {
        1 + first_index_of(s.drop_first(), c)
    }
}

/// The text before the first `sep` and the text after it, if `s` holds one.
pub open spec fn cut_at(s: Seq<char>, sep: char) -> Option<(Seq<char>, Seq<char>)> {
    let i = first_index_of(s, sep);
    if 0 <= i < s.len() {
        Some((s.take(i), s.skip(i + 1)))
    } else {
        None
    }
}

/// Whether `s` begins with `prefix`.
pub open spec fn has_prefix(s: Seq<char>, prefix: Seq<char>) -> bool {
    prefix.len() <= s.len() && s.take(prefix.len() as int) == prefix
}

/// Whether `s` ends with `suffix`.
pub open spec fn has_suffix(s: Seq<char>, suffix: Seq<char>) -> bool {
    suffix.len() <= s.len() && s.skip(s.len() - suffix.len()) == suffix
}

/// What follows `prefix` in `s`, if `s` begins with it.
pub open spec fn cut_prefix(s: Seq<char>, prefix: Seq<char>) -> Option<Seq<char>> {
    if has_prefix(s, prefix) {
        Some(s.skip(prefix.len() as int))
    } else {
        None
    }
}

/// The pieces of `s` between occurrences of `sep`, in order. There is always
/// one piece more than there are separators, and pieces may be empty.
pub open spec fn split_on(s: Seq<char>, sep: char) -> Seq<Seq<char>>
    decreases s.len(),
{
    let i = first_index_of(s, sep);
    if 0 <= i < s.len() {
        seq![s.take(i)] + split_on(s.skip(i + 1), sep)
    } else {
        seq![s]
    }
}

/// The predicate that keeps the pieces that hold at least one character.
pub open spec fn non_empty() -> spec_fn(Seq<char>) -> bool {
    |piece: Seq<char>| piece.len() > 0
}

/// What a piece adds to a list of tokens: itself, unless it is empty.
pub open spec fn kept(piece: Seq<char>) -> Seq<Seq<char>> {
    if piece.len() > 0 {
        seq![piece]
    } else {
        Seq::empty()
    }
}

/// The tokens of a space-separated field: its pieces between single spaces,
/// without the empty ones.
pub open spec fn tokens(s: Seq<char>) -> Seq<Seq<char>> {
    split_on(s, ' ').filter(non_empty())
}

/// The parts written one after another with `sep` between neighbours.
pub open spec fn join_with(parts: Seq<Seq<char>>, sep: char) -> Seq<char>
    decreases parts.len(),
{
    if parts.len() == 0 {
        Seq::empty()
    } else if parts.len() == 1 {
        parts[0]
    } else {
        parts[0] + seq![sep] + join_with(parts.drop_first(), sep)
    }
}

/// Whether every part is a token: non-empty and free of spaces.
pub open spec fn all_tokens(parts: Seq<Seq<char>>) -> bool {
    forall|i: int|
        0 <= i < parts.len() ==> (#[trigger] parts[i]).len() > 0 && !parts[i].contains(' ')
}

/// The character of a decimal digit.
pub open spec fn digit_char(d: nat) -> char {
    if d == 0 {
        '0'
    } else if d == 1 {
        '1'
    } else if d == 2 {
        '2'
    } else if d == 3 {
        '3'
    } else if d == 4 {
        '4'
    } else if d == 5 {
        '5'
    } else if d == 6 {
        '6'
    } else if d == 7 {
        '7'
    } else if d == 8 {
        '8'
    } else {
        '9'
    }
}

/// A number in decimal notation, without leading zeros.
pub open spec fn decimal_text(n: nat) -> Seq<char>
    decreases n,
{
    if n < 10 {
        seq![digit_char(n)]
    } else {
        decimal_text(n / 10).push(digit_char(n % 10))
    }
}

/// A position that holds the first `c`, or the end of an `s` without `c`,
/// is what `first_index_of` gives.
pub proof fn lemma_first_index_of_is(s: Seq<char>, c: char, i: int)
    requires
        0 <= i <= s.len(),
        forall|k: int| 0 <= k < i ==> s[k] != c,
        i < s.len() ==> s[i] == c,
    ensures
        first_index_of(s, c) == i,
    decreases s.len(),
{
    if s.len() == 0 || s[0] == c {
    } else {
        lemma_first_index_of_is(s.drop_first(), c, i - 1);
    }
}

/// Cutting `head + [sep] + tail` at `sep` gives `head` and `tail` back when
/// `head` holds no `sep`.
pub proof fn lemma_cut_at_joined(head: Seq<char>, sep: char, tail: Seq<char>)
    requires
        !head.contains(sep),
    ensures
        cut_at(head + seq![sep] + tail, sep) == Some((head, tail)),
{
    lemma_first_index_of_is(head + seq![sep] + tail, sep, head.len() as int);
}

/// Cutting a text without `sep` finds nothing.
pub proof fn lemma_cut_at_absent(s: Seq<char>, sep: char)
    requires
        !s.contains(sep),
    ensures
        cut_at(s, sep) == None::<(Seq<char>, Seq<char>)>,
{
    lemma_first_index_of_is(s, sep, s.len() as int);
}

proof fn lemma_filter_single(piece: Seq<char>)
    ensures
        seq![piece].filter(non_empty()) == kept(piece),
{
    reveal_with_fuel(Seq::filter, 2);
}

/// The tokens of a field, by its first space: with a space, the piece before
/// it, if that is not empty, and then the tokens of what follows the space;
/// without one, the field itself, if it is not empty.
pub proof fn lemma_tokens_by_cut(s: Seq<char>)
    ensures
        tokens(s) == match cut_at(s, ' ') {
            Some((piece, rest)) => kept(piece) + tokens(rest),
            None => kept(s),
        },
{
    match cut_at(s, ' ') {
        Some((piece, rest)) => {
            lemma_filter_single(piece);
            Seq::filter_distributes_over_add(seq![piece], split_on(rest, ' '), non_empty());
        },
        None => {
            lemma_filter_single(s);
        },
    }
}

/// Joining one part more: the separator comes between the parts so far and
/// the new part, and is left out before the first part.
pub proof fn lemma_join_push(parts: Seq<Seq<char>>, part: Seq<char>, sep: char)
    ensures
        join_with(parts.push(part), sep) == if parts.len() == 0 {
            part
        } else {
            join_with(parts, sep) + seq![sep] + part
        },
    decreases parts.len(),
{
    let longer = parts.push(part);
    if parts.len() == 0 {
    } else if parts.len() == 1 {
        assert(longer.drop_first() =~= seq![part]);
        assert(join_with(seq![part], sep) == part);
    } else {
        let rest = parts.drop_first();
        lemma_join_push(rest, part, sep);
        assert(longer.drop_first() =~= rest.push(part));
    }
}

/// Splitting what was joined gives the parts back: the tokens of a field
/// that was written as `n` tokens with single spaces between them are these
/// `n` tokens, each as it was written.
pub proof fn lemma_tokens_of_joined(parts: Seq<Seq<char>>)
    requires
        all_tokens(parts),
    ensures
        tokens(join_with(parts, ' ')) == parts,
    decreases parts.len(),
{
    let field = join_with(parts, ' ');
    lemma_tokens_by_cut(field);
    if parts.len() == 1 {
        lemma_cut_at_absent(field, ' ');
    } else if parts.len() > 1 {
        let rest = parts.drop_first();
        lemma_tokens_of_joined(rest);
        lemma_cut_at_joined(parts[0], ' ', join_with(rest, ' '));
    }
}

/// Compares two texts character by character.
pub fn same_text(a: &str, b: &str) -> (same: bool)
    ensures
        same == (a@ == b@),
{
    broadcast use vstd::string::group_string_axioms;

    let mut xs = a.chars();
    let mut ys = b.chars();
    let ghost mut k: int = 0;
    loop
        invariant
            0 <= k <= a@.len(),
            k <= b@.len(),
            xs.remaining() == a@.skip(k),
            ys.remaining() == b@.skip(k),
            a@.take(k) == b@.take(k),
        decreases a@.len() - k,
    {
        match (xs.next(), ys.next()) {
            (Some(x), Some(y)) => {
                if x != y {
                    return false;
                }
                proof {
                    k = k + 1;
                }
            },
            (None, None) => {
                assert(a@.take(k) =~= a@);
                assert(b@.take(k) =~= b@);
                return true;
            },
            _ => {
                return false;
            },
        }
    }
}

/// Scans a text of `n` characters for its first `c`.
fn scan_for(s: &str, c: char, n: usize) -> (i: usize)
    requires
        n == s@.len(),
    ensures
        i == first_index_of(s@, c),
        i <= n,
        i < n ==> s@[i as int] == c,
        forall|k: int| 0 <= k < i ==> s@[k] != c,
{
    broadcast use vstd::string::group_string_axioms;

    let mut cs = s.chars();
    let mut i: usize = 0;
    loop
        invariant
            n == s@.len(),
            i <= n,
            cs.remaining() == s@.skip(i as int),
            forall|k: int| 0 <= k < i ==> s@[k] != c,
        decreases n - i,
    {
        match cs.next() {
            Some(x) => {
                if x == c {
                    proof {
                        lemma_first_index_of_is(s@, c, i as int);
                    }
                    return i;
                }
                i = i + 1;
            },
            None => {
                proof {
                    lemma_first_index_of_is(s@, c, i as int);
                }
                return i;
            },
        }
    }
}

/// Finds the first `c` in `s`, counted in characters; gives the length of
/// `s` when there is none.
pub fn index_of_char(s: &str, c: char) -> (i: usize)
    ensures
        i == first_index_of(s@, c),
        i <= s@.len(),
        i < s@.len() ==> s@[i as int] == c,
        forall|k: int| 0 <= k < i ==> s@[k] != c,
{
    scan_for(s, c, s.unicode_len())
}

/// Takes `prefix` off the front of `s`; `None` when `s` does not begin
/// with it.
pub fn strip_prefix<'a>(s: &'a str, prefix: &str) -> (rest: Option<&'a str>)
    ensures
        rest.deep_view() == cut_prefix(s@, prefix@),
{
    let n = s.unicode_len();
    let m = prefix.unicode_len();
    if m > n {
        return None;
    }
    if same_text(s.substring_char(0, m), prefix) {
        Some(s.substring_char(m, n))
    } else {
        None
    }
}

/// Cuts `s` at its first `sep` into what stands before and after it; `None`
/// when `s` holds no `sep`.
pub fn split_once<'a>(s: &'a str, sep: char) -> (parts: Option<(&'a str, &'a str)>)
    ensures
        parts.deep_view() == cut_at(s@, sep),
{
    let n = s.unicode_len();
    let i = scan_for(s, sep, n);
    if i < n {
        Some((s.substring_char(0, i), s.substring_char(i + 1, n)))
    } else {
        None
    }
}

/// Appends `piece` to the tokens unless it is empty.
fn push_token(out: &mut Vec<String>, piece: &str)
    ensures
        final(out).deep_view() == old(out).deep_view() + kept(piece@),
{
    if !piece.is_empty() {
        out.push(String::from_str(piece));
    }
}

/// Splits a space-separated field into its tokens, dropping empty ones.
pub fn split_tokens(s: &str) -> (out: Vec<String>)
    ensures
        out.deep_view() == tokens(s@),
{
    let mut out: Vec<String> = Vec::new();
    let mut rest = s;
    loop
        invariant
            tokens(s@) == out.deep_view() + tokens(rest@),
        decreases rest@.len(),
    {
        proof {
            lemma_tokens_by_cut(rest@);
        }
        match split_once(rest, ' ') {
            Some((piece, tail)) => {
                push_token(&mut out, piece);
                rest = tail;
            },
            None => {
                push_token(&mut out, rest);
                return out;
            },
        }
    }
}

fn digit_str(d: u32) -> (text: &'static str)
    requires
        d < 10,
    ensures
        text@ == seq![digit_char(d as nat)],
{
    let text = match d {
        0 => "0",
        1 => "1",
        2 => "2",
        3 => "3",
        4 => "4",
        5 => "5",
        6 => "6",
        7 => "7",
        8 => "8",
        _ => "9",
    };
    proof {
        reveal_strlit("0");
        reveal_strlit("1");
        reveal_strlit("2");
        reveal_strlit("3");
        reveal_strlit("4");
        reveal_strlit("5");
        reveal_strlit("6");
        reveal_strlit("7");
        reveal_strlit("8");
        reveal_strlit("9");
    }
    text
}

/// Appends a number in decimal notation.
pub fn push_decimal(out: &mut String, n: u32)
    ensures
        final(out)@ == old(out)@ + decimal_text(n as nat),
    decreases n,
{
    if n >= 10 {
        push_decimal(out, n / 10);
    }
    out.append(digit_str(n % 10));
}

} // verus!
