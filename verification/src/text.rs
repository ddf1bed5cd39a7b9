//! Text as sequences of characters: comparison, prefixes, splitting at a
//! separator, and reading numbers and flags.

use vstd::prelude::*;
#[allow(unused_imports)]
use vstd::utf8::{decode_utf8, encode_utf8, encode_utf8_decode_utf8};

verus! {

broadcast use vstd::string::group_string_axioms;

/// The pieces of `text` between the occurrences of `sep`, in order. There is
/// always one piece more than there are separators.
pub open spec fn pieces(text: Seq<char>, sep: char) -> Seq<Seq<char>>
    decreases text.len(),
{
    if text.len() == 0 {
        seq![Seq::<char>::empty()]
    } else {
        let before = pieces(text.drop_last(), sep);
        if text.last() == sep {
            before.push(Seq::<char>::empty())
        } else {
            before.drop_last().push(before.last().push(text.last()))
        }
    }
}

/// The pieces written one after the other, with `sep` between them.
pub open spec fn joined(parts: Seq<Seq<char>>, sep: char) -> Seq<char>
    decreases parts.len(),
{
    if parts.len() == 0 {
        Seq::<char>::empty()
    } else if parts.len() == 1 {
        parts[0]
    } else {
        joined(parts.drop_last(), sep).push(sep) + parts.last()
    }
}

/// A vector of character vectors, as a sequence of texts.
pub open spec fn rows(v: Seq<Vec<char>>) -> Seq<Seq<char>> {
    v.map_values(|row: Vec<char>| row@)
}

/// The value that decimal digits denote, most significant digit first.
pub open spec fn decimal_value(digits: Seq<char>) -> nat
    decreases digits.len(),
{
    if digits.len() == 0 {
        0
    } else {
        decimal_value(digits.drop_last()) * 10 + (digits.last() as nat - '0' as nat) as nat
    }
}

/// Whether `text` is made of decimal digits alone, at least one.
pub open spec fn is_decimal(text: Seq<char>) -> bool {
    text.len() > 0 && forall|i: int| 0 <= i < text.len() ==> '0' <= #[trigger] text[i] <= '9'
}

/// The digits of a number: what follows the optional plus sign.
pub open spec fn unsigned_digits(text: Seq<char>) -> Seq<char> {
    if text.len() > 0 && text[0] == '+' {
        text.drop_first()
    } else {
        text
    }
}

/// The 64-bit number that `text` denotes: an optional plus sign and decimal
/// digits, within range.
pub open spec fn number_in(text: Seq<char>) -> Option<u64> {
    let digits = unsigned_digits(text);
    if is_decimal(digits) && decimal_value(digits) <= u64::MAX {
        Some(decimal_value(digits) as u64)
    } else {
        None
    }
}

/// The flag that `text` denotes: `true` or `false`, spelled so.
pub open spec fn flag_in(text: Seq<char>) -> Option<bool> {
    if text == "true"@ {
        Some(true)
    } else if text == "false"@ {
        Some(false)
    } else {
        None
    }
}

/// The characters of a text.
pub fn chars_of(text: &str) -> (chars: Vec<char>)
    ensures
        chars@ == text@,
{
    let mut chars: Vec<char> = Vec::new();
    for c in it: text.chars()
        invariant
            chars@ == it.seq().take(it.index() as int),
            it.seq() == text@,
    {
        chars.push(c);
    }
    chars
}

/// Whether two texts are equal.
pub fn same_text(a: &str, b: &str) -> (same: bool)
    ensures
        same == (a@ == b@),
{
    let x: &[u8] = a.as_bytes();
    let y: &[u8] = b.as_bytes();
    proof {
        encode_utf8_decode_utf8(a@);
        encode_utf8_decode_utf8(b@);
    }
    if x.len() != y.len() {
        return false;
    }
    let n: usize = x.len();
    for i in 0..n
        invariant
            n == x@.len(),
            n == y@.len(),
            x@ == encode_utf8(a@),
            y@ == encode_utf8(b@),
            forall|j: int| 0 <= j < i ==> x@[j] == y@[j],
    {
        if x[i] != y[i] {
            return false;
        }
    }
    proof {
        assert(x@ =~= y@);
    }
    true
}

/// Whether two character vectors are equal.
pub fn same_chars(a: &Vec<char>, b: &Vec<char>) -> (same: bool)
    ensures
        same == (a@ == b@),
{
    if a.len() != b.len() {
        return false;
    }
    let n: usize = a.len();
    for i in 0..n
        invariant
            n == a@.len(),
            n == b@.len(),
            forall|j: int| 0 <= j < i ==> a@[j] == b@[j],
    {
        if a[i] != b[i] {
            return false;
        }
    }
    proof {
        assert(a@ =~= b@);
    }
    true
}

/// Whether `text` begins with `prefix`.
pub fn starts_with(text: &str, prefix: &str) -> (r: bool)
    ensures
        r == prefix@.is_prefix_of(text@),
{
    let t: Vec<char> = chars_of(text);
    let p: Vec<char> = chars_of(prefix);
    if p.len() > t.len() {
        return false;
    }
    let n: usize = p.len();
    for i in 0..n
        invariant
            n == p@.len(),
            n <= t@.len(),
            t@ == text@,
            p@ == prefix@,
            forall|j: int| 0 <= j < i ==> t@[j] == p@[j],
    {
        if t[i] != p[i] {
            proof {
                assert(text@.subrange(0, prefix@.len() as int)[i as int] != prefix@[i as int]);
            }
            return false;
        }
    }
    proof {
        assert(prefix@ =~= text@.subrange(0, prefix@.len() as int));
    }
    true
}

/// The pieces of `text` between the occurrences of `sep`.
pub fn split(text: &Vec<char>, sep: char) -> (parts: Vec<Vec<char>>)
    ensures
        rows(parts@) == pieces(text@, sep),
{
    let mut parts: Vec<Vec<char>> = Vec::new();
    let mut current: Vec<char> = Vec::new();
    proof {
        assert(text@.take(0) =~= Seq::<char>::empty());
        assert(rows(parts@).push(current@) =~= pieces(text@.take(0), sep));
    }
    let n: usize = text.len();
    for i in 0..n
        invariant
            n == text@.len(),
            rows(parts@).push(current@) == pieces(text@.take(i as int), sep),
    {
        let ghost before = rows(parts@).push(current@);
        proof {
            assert(text@.take(i + 1).drop_last() =~= text@.take(i as int));
            assert(text@.take(i + 1).last() == text@[i as int]);
            assert(before.drop_last() =~= rows(parts@));
        }
        let c: char = text[i];
        if c == sep {
            let ghost old_parts = parts@;
            parts.push(current);
            current = Vec::new();
            proof {
                assert(rows(parts@) =~= rows(old_parts).push(before.last()));
                assert(rows(parts@) =~= before);
                assert(current@ =~= Seq::<char>::empty());
            }
        } else {
            current.push(c);
        }
    }
    proof {
        assert(text@.take(n as int) =~= text@);
    }
    let ghost old_parts = parts@;
    let ghost last = current@;
    parts.push(current);
    proof {
        assert(rows(parts@) =~= rows(old_parts).push(last));
    }
    parts
}

/// Reads a number: see `number_in`.
pub fn parse_number(text: &str) -> (number: Option<u64>)
    ensures
        number == number_in(text@),
{
    let t: Vec<char> = chars_of(text);
    let n: usize = t.len();
    let start: usize = if n > 0 && t[0] == '+' { 1 } else { 0 };
    let ghost digits = unsigned_digits(text@);
    proof {
        assert(digits =~= t@.skip(start as int));
    }
    if start == n {
        return None;
    }
    let mut value: u64 = 0;
    let mut fits: bool = true;
    for i in start..n
        invariant
            n == t@.len(),
            start <= n,
            digits == t@.skip(start as int),
            forall|j: int| 0 <= j < i - start ==> '0' <= #[trigger] digits[j] <= '9',
            fits ==> value == decimal_value(digits.take(i - start)),
            !fits ==> decimal_value(digits.take(i - start)) > u64::MAX,
            digits == unsigned_digits(text@),
    {
        let c: char = t[i];
        proof {
            assert(digits[i - start] == c);
        }
        if c < '0' || c > '9' {
            return None;
        }
        let digit: u64 = (c as u32 - '0' as u32) as u64;
        proof {
            assert(digits.take(i + 1 - start).drop_last() =~= digits.take(i - start));
        }
        if fits {
            match value.checked_mul(10) {
                Some(tens) => {
                    match tens.checked_add(digit) {
                        Some(sum) => {
                            value = sum;
                        },
                        None => {
                            fits = false;
                        },
                    }
                },
                None => {
                    fits = false;
                },
            }
        }
    }
    proof {
        assert(digits.take(n - start) =~= digits);
    }
    if fits {
        Some(value)
    } else {
        None
    }
}

/// Reads a flag: see `flag_in`.
pub fn parse_flag(text: &str) -> (flag: Option<bool>)
    ensures
        flag == flag_in(text@),
{
    if same_text(text, "true") {
        Some(true)
    } else if same_text(text, "false") {
        Some(false)
    } else {
        None
    }
}

/// A type whose values can be written as text.
pub trait FromText: View + Sized {
    /// The value that a text denotes, if it denotes one.
    spec fn denoted(text: Seq<char>) -> Option<Self::V>;

    /// Reads a value.
    fn from_text(text: &str) -> (read: Option<Self>)
        ensures
            match read {
                Some(value) => Self::denoted(text@) == Some(value@),
                None => Self::denoted(text@) is None,
            },
    ;
}

impl FromText for bool {
    open spec fn denoted(text: Seq<char>) -> Option<bool> {
        flag_in(text)
    }

    fn from_text(text: &str) -> (read: Option<bool>) {
        parse_flag(text)
    }
}

impl FromText for u64 {
    open spec fn denoted(text: Seq<char>) -> Option<u64> {
        number_in(text)
    }

    fn from_text(text: &str) -> (read: Option<u64>) {
        parse_number(text)
    }
}

impl FromText for String {
    open spec fn denoted(text: Seq<char>) -> Option<Seq<char>> {
        Some(text)
    }

    fn from_text(text: &str) -> (read: Option<String>) {
        Some(text.to_owned())
    }
}

/// There is at least one piece, and no piece holds the separator.
pub proof fn lemma_pieces_are_separator_free(text: Seq<char>, sep: char)
    ensures
        pieces(text, sep).len() > 0,
        forall|i: int| 0 <= i < pieces(text, sep).len() ==> !(#[trigger] pieces(text, sep)[i]).contains(sep),
    decreases text.len(),
{
    if text.len() > 0 {
        let before = pieces(text.drop_last(), sep);
        lemma_pieces_are_separator_free(text.drop_last(), sep);
        assert forall|i: int| 0 <= i < pieces(text, sep).len() implies !(#[trigger] pieces(text, sep)[i]).contains(sep) by {
            let piece = pieces(text, sep)[i];
            if text.last() == sep {
                if i < before.len() {
                    assert(piece == before[i]);
                }
            } else if i < before.len() - 1 {
                assert(piece == before[i]);
            } else {
                assert(!before.last().contains(sep));
                assert forall|j: int| 0 <= j < piece.len() implies piece[j] != sep by {
                    if j < before.last().len() {
                        assert(piece[j] == before.last()[j]);
                    }
                }
            }
        }
    }
}

/// Writing the pieces of a text one after the other, with the separator
/// between them, gives the text back.
pub proof fn law_joining_undoes_splitting(text: Seq<char>, sep: char)
    ensures
        joined(pieces(text, sep), sep) == text,
    decreases text.len(),
{
    if text.len() > 0 {
        let before = pieces(text.drop_last(), sep);
        let after = pieces(text, sep);
        law_joining_undoes_splitting(text.drop_last(), sep);
        lemma_pieces_are_separator_free(text.drop_last(), sep);
        if text.last() == sep {
            assert(after.drop_last() =~= before);
            assert(joined(after, sep) =~= text.drop_last().push(sep));
        } else {
            assert(after.drop_last() =~= before.drop_last());
            assert(after.last() == before.last().push(text.last()));
            assert(joined(after, sep) =~= joined(before, sep).push(text.last()));
        }
        assert(text =~= text.drop_last().push(text.last()));
    } else {
        assert(pieces(text, sep)[0] =~= text);
    }
}

/// Splitting what was joined gives the pieces back, when there is at least one
/// and none of them holds the separator.
pub proof fn law_splitting_undoes_joining(parts: Seq<Seq<char>>, sep: char)
    requires
        parts.len() > 0,
        forall|i: int| 0 <= i < parts.len() ==> !(#[trigger] parts[i]).contains(sep),
    ensures
        pieces(joined(parts, sep), sep) == parts,
    decreases parts.len(), parts.last().len(),
{
    let text = joined(parts, sep);
    let last = parts.last();
    assert(!parts[parts.len() - 1].contains(sep));
    if last.len() > 0 {
        // Take the last character off the last part.
        let shorter = parts.drop_last().push(last.drop_last());
        assert(shorter.drop_last() =~= parts.drop_last());
        assert forall|i: int| 0 <= i < shorter.len() implies !(#[trigger] shorter[i]).contains(sep) by {
            if i < parts.len() - 1 {
                assert(shorter[i] == parts[i]);
            } else {
                assert forall|j: int| 0 <= j < shorter[i].len() implies shorter[i][j] != sep by {
                    assert(shorter[i][j] == last[j]);
                    assert(last.contains(last[j]));
                }
            }
        }
        law_splitting_undoes_joining(shorter, sep);
        assert(last.contains(last.last()));
        assert(text.drop_last() =~= joined(shorter, sep));
        assert(text.last() == last.last());
        assert(pieces(text, sep) =~= shorter.drop_last().push(shorter.last().push(last.last())));
        assert(shorter.last().push(last.last()) =~= last);
        assert(pieces(text, sep) =~= parts);
    } else if parts.len() == 1 {
        assert(text =~= Seq::<char>::empty());
        assert(parts =~= seq![Seq::<char>::empty()]);
    } else {
        // The last part is empty: the text ends in the separator.
        let fewer = parts.drop_last();
        assert forall|i: int| 0 <= i < fewer.len() implies !(#[trigger] fewer[i]).contains(sep) by {
            assert(fewer[i] == parts[i]);
        }
        law_splitting_undoes_joining(fewer, sep);
        assert(text =~= joined(fewer, sep).push(sep));
        assert(text.drop_last() =~= joined(fewer, sep));
        assert(last =~= Seq::<char>::empty());
        assert(pieces(text, sep) =~= parts);
    }
}

/// The pieces of two texts with the separator between them are the pieces of the
/// one followed by the pieces of the other.
pub proof fn lemma_pieces_of_concatenation(a: Seq<char>, b: Seq<char>, sep: char)
    ensures
        pieces(a.push(sep) + b, sep) == pieces(a, sep) + pieces(b, sep),
    decreases b.len(),
{
    let whole = a.push(sep) + b;
    lemma_pieces_are_separator_free(a, sep);
    if b.len() == 0 {
        assert(whole =~= a.push(sep));
        assert(whole.drop_last() =~= a);
        assert(pieces(whole, sep) =~= pieces(a, sep) + pieces(b, sep));
    } else {
        lemma_pieces_of_concatenation(a, b.drop_last(), sep);
        lemma_pieces_are_separator_free(b.drop_last(), sep);
        assert(whole.drop_last() =~= a.push(sep) + b.drop_last());
        assert(whole.last() == b.last());
        assert(pieces(whole, sep) =~= pieces(a, sep) + pieces(b, sep));
    }
}

/// Two texts with the same pieces are the same text.
pub proof fn law_pieces_determine_the_text(a: Seq<char>, b: Seq<char>, sep: char)
    ensures
        pieces(a, sep) == pieces(b, sep) <==> a == b,
{
    law_joining_undoes_splitting(a, sep);
    law_joining_undoes_splitting(b, sep);
}

/// A text without the separator is its own only piece.
pub proof fn law_text_without_separator_is_one_piece(text: Seq<char>, sep: char)
    requires
        !text.contains(sep),
    ensures
        pieces(text, sep) == seq![text],
    decreases text.len(),
{
    if text.len() > 0 {
        assert(text.contains(text.last()));
        assert forall|i: int| 0 <= i < text.drop_last().len() implies text.drop_last()[i] != sep by {
            assert(text.contains(text[i]));
        }
        law_text_without_separator_is_one_piece(text.drop_last(), sep);
        let before = pieces(text.drop_last(), sep);
        assert(before.drop_last() =~= Seq::<Seq<char>>::empty());
        assert(before.last().push(text.last()) =~= text);
        assert(pieces(text, sep) =~= seq![text]);
    } else {
        assert(text =~= Seq::<char>::empty());
    }
}

/// A separator between two texts separates their pieces: no other character does,
/// and none is lost.
pub proof fn law_a_separator_separates(a: Seq<char>, b: Seq<char>, sep: char)
    ensures
        pieces(a + seq![sep] + b, sep) == pieces(a, sep) + pieces(b, sep),
{
    lemma_pieces_of_concatenation(a, b, sep);
    assert(a + seq![sep] + b =~= a.push(sep) + b);
}

/// Rows are the vectors' contents, one for one.
pub proof fn law_rows_are_the_contents(v: Seq<Vec<char>>)
    ensures
        rows(v).len() == v.len(),
        forall|i: int| 0 <= i < v.len() ==> #[trigger] rows(v)[i] == v[i]@,
{
}

/// A flag is denoted by the words `true` and `false`, and by nothing else.
pub proof fn law_flags_are_two_words(text: Seq<char>)
    ensures
        flag_in(text) == Some(true) <==> text == seq!['t', 'r', 'u', 'e'],
        flag_in(text) == Some(false) <==> text == seq!['f', 'a', 'l', 's', 'e'],
        bool::denoted(text) == Some(true) <==> text == seq!['t', 'r', 'u', 'e'],
        bool::denoted(text) == Some(false) <==> text == seq!['f', 'a', 'l', 's', 'e'],
{
    reveal_strlit("true");
    reveal_strlit("false");
    assert("true"@ =~= seq!['t', 'r', 'u', 'e']);
    assert("false"@ =~= seq!['f', 'a', 'l', 's', 'e']);
    assert("true"@.len() != "false"@.len());
}

/// A text denotes itself.
pub proof fn law_texts_denote_themselves(text: Seq<char>)
    ensures
        String::denoted(text) == Some(text),
{
}

/// One decimal digit denotes its own value, with a plus sign or without. No text and
/// a plus sign alone denote no number.
pub proof fn law_one_digit_numbers(c: char)
    ensures
        number_in(Seq::<char>::empty()) is None,
        number_in(seq!['+']) is None,
        '0' <= c <= '9' ==> number_in(seq![c]) == Some((c as int - 48) as u64),
        '0' <= c <= '9' ==> number_in(seq!['+', c]) == Some((c as int - 48) as u64),
{
    reveal_with_fuel(decimal_value, 3);
    assert(seq!['+'].drop_first() =~= Seq::<char>::empty());
    assert(seq!['+', c].drop_first() =~= seq![c]);
    assert(seq![c].drop_last() =~= Seq::<char>::empty());
    if '0' <= c <= '9' {
        assert(unsigned_digits(seq![c]) == seq![c]);
        assert(is_decimal(seq![c]));
        assert(decimal_value(seq![c]) == c as int - 48);
    }
}

/// A digit behind a number makes it ten times as large, and adds its own value; the
/// result is a number as long as it fits. What is not a number, other than nothing
/// and a plus sign, does not become one by what follows, and nothing that ends in
/// anything but a digit is a number.
pub proof fn law_one_more_digit(text: Seq<char>, c: char)
    ensures
        match number_in(text) {
            Some(n) => '0' <= c <= '9' ==> {
                let longer = n * 10 + (c as int - 48);
                number_in(text.push(c)) == (if longer <= 18446744073709551615 {
                    Some(longer as u64)
                } else {
                    None
                })
            },
            None => text.len() > 0 && text != seq!['+'] ==> number_in(text.push(c)) is None,
        },
        !('0' <= c <= '9') ==> number_in(text.push(c)) is None,
{
    let longer = text.push(c);
    if text.len() == 0 {
        assert(longer =~= seq![c]);
        law_one_digit_numbers(c);
        if !('0' <= c <= '9') {
            if c == '+' {
                assert(longer =~= seq!['+']);
            } else {
                assert(unsigned_digits(longer) == longer);
                assert(!('0' <= longer[0] <= '9'));
            }
        }
    } else {
        let digits = unsigned_digits(text);
        assert(unsigned_digits(longer) =~= digits.push(c));
        assert(digits.push(c).drop_last() =~= digits);
        assert(digits.push(c)[digits.len() as int] == c);
        if is_decimal(digits) && '0' <= c <= '9' {
            assert(is_decimal(digits.push(c)));
        } else if digits.len() > 0 && !is_decimal(digits) {
            let i = choose|i: int| 0 <= i < digits.len() && !('0' <= #[trigger] digits[i] <= '9');
            assert(digits.push(c)[i] == digits[i]);
        } else if digits.len() == 0 {
            assert(text =~= seq!['+']);
        }
    }
}

/// A type whose values are written as decimal numbers reads the very number.
pub proof fn law_numbers_are_denoted_by_their_digits(text: Seq<char>)
    ensures
        u64::denoted(text) == number_in(text),
{
}

} // verus!
