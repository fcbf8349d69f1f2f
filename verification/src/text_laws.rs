//! Laws of text: how splitting, joining and trimming relate to each other.
use vstd::prelude::*;

use crate::text;

verus! {

/// `sep` does not occur in a text.
pub open spec fn free_of(s: Seq<char>, sep: char) -> bool {
    forall|i: int| 0 <= i < s.len() ==> #[trigger] s[i] != sep
}

/// No piece of a split text holds the separator.
pub proof fn pieces_hold_no_separator(s: Seq<char>, sep: char)
    ensures
        forall|i: int| 0 <= i < text::split(s, sep).len() ==> free_of(#[trigger] text::split(s, sep)[i], sep),
    decreases s.len(),
{
    if s.len() > 0 {
        pieces_hold_no_separator(s.drop_last(), sep);
        text::lemma_split_nonempty(s.drop_last(), sep);
        let before = text::split(s.drop_last(), sep);
        assert forall|i: int| 0 <= i < text::split(s, sep).len() implies free_of(
            #[trigger] text::split(s, sep)[i],
            sep,
        ) by {
            if i < before.len() - 1 {
                assert(text::split(s, sep)[i] == before[i]);
            } else {
                assert(free_of(before[before.len() - 1], sep));
            }
        }
    }
}

/// No pieces join to no text, and one piece to itself.
pub proof fn few_pieces_join_to_themselves(piece: Seq<char>, sep: Seq<char>)
    ensures
        text::join(Seq::empty(), sep) == Seq::<char>::empty(),
        text::join(seq![piece], sep) == piece,
{
}

/// One more piece joins on behind a separator.
pub proof fn one_more_piece_joins_on(pieces: Seq<Seq<char>>, piece: Seq<char>, sep: Seq<char>)
    requires
        pieces.len() > 0,
    ensures
        text::join(pieces.push(piece), sep) == text::join(pieces, sep) + sep + piece,
{
    assert(pieces.push(piece).drop_last() =~= pieces);
}

/// Joining the pieces of a split text with the separator gives the text back.
pub proof fn join_undoes_split(s: Seq<char>, sep: char)
    ensures
        text::join(text::split(s, sep), seq![sep]) == s,
    decreases s.len(),
{
    if s.len() == 0 {
        assert(text::split(s, sep)[0] =~= s);
    } else {
        let head = s.drop_last();
        let before = text::split(head, sep);
        join_undoes_split(head, sep);
        text::lemma_split_nonempty(head, sep);
        if s.last() == sep {
            one_more_piece_joins_on(before, Seq::empty(), seq![sep]);
            assert(head + seq![sep] + Seq::<char>::empty() =~= s);
        } else {
            let rest = before.drop_last();
            let grown = before.last().push(s.last());
            assert(rest.push(before.last()) =~= before);
            assert(s =~= head.push(s.last()));
            if rest.len() == 0 {
                assert(rest.push(grown)[0] == grown);
                assert(grown =~= s);
            } else {
                one_more_piece_joins_on(rest, before.last(), seq![sep]);
                one_more_piece_joins_on(rest, grown, seq![sep]);
                let front = text::join(rest, seq![sep]) + seq![sep];
                assert(head == front + before.last());
                assert(front + grown =~= (front + before.last()).push(s.last()));
            }
        }
    }
}

/// A text without the separator is one piece.
pub proof fn text_without_separator_is_one_piece(s: Seq<char>, sep: char)
    requires
        free_of(s, sep),
    ensures
        text::split(s, sep) == seq![s],
    decreases s.len(),
{
    if s.len() > 0 {
        let head = s.drop_last();
        assert(free_of(head, sep)) by {
            assert forall|i: int| 0 <= i < head.len() implies #[trigger] head[i] != sep by {
                assert(s[i] != sep);
            }
        }
        text_without_separator_is_one_piece(head, sep);
        assert(s[s.len() - 1] != sep);
        assert(head.push(s.last()) =~= s);
        assert(seq![head].drop_last().push(head.push(s.last())) =~= seq![s]);
    } else {
        assert(s =~= Seq::<char>::empty());
        assert(text::split(s, sep) =~= seq![s]);
    }
}

/// The pieces of two texts with a separator between them are those of the
/// one and those of the other.
pub proof fn split_at_a_separator(a: Seq<char>, b: Seq<char>, sep: char)
    ensures
        text::split(a + seq![sep] + b, sep) == text::split(a, sep) + text::split(b, sep),
    decreases b.len(),
{
    let whole = a + seq![sep] + b;
    text::lemma_split_nonempty(a, sep);
    if b.len() == 0 {
        assert(whole.drop_last() =~= a);
        assert(whole.last() == sep);
        assert(text::split(a, sep).push(Seq::<char>::empty()) =~= text::split(a, sep) + text::split(
            b,
            sep,
        ));
    } else {
        let head = b.drop_last();
        split_at_a_separator(a, head, sep);
        text::lemma_split_nonempty(head, sep);
        assert(whole.drop_last() =~= a + seq![sep] + head);
        assert(whole.last() == b.last());
        let x = text::split(a, sep);
        let y = text::split(head, sep);
        assert((x + y).last() == y.last());
        if b.last() == sep {
            assert((x + y).push(Seq::<char>::empty()) =~= x + y.push(Seq::<char>::empty()));
        } else {
            assert((x + y).drop_last().push(y.last().push(b.last())) =~= x + y.drop_last().push(
                y.last().push(b.last()),
            ));
        }
    }
}

/// A text that neither begins nor ends with white space is left as it is by
/// trimming, and so is one with a blank in front but for that blank.
pub proof fn trimming_a_tight_text(s: Seq<char>)
    requires
        s.len() > 0,
        !text::is_white_space(s[0]),
        !text::is_white_space(s.last()),
    ensures
        text::trimmed(s) == s,
        text::trimmed(" "@ + s) == s,
{
    reveal_strlit(" ");
    let padded = " "@ + s;
    assert(padded.drop_first() =~= s);
    assert(text::strip_front(padded, text::white_space()) == text::strip_front(
        s,
        text::white_space(),
    ));
}

/// A number in decimal notation is made of digits, at least one.
pub proof fn decimals_are_digits(n: nat)
    ensures
        text::decimal(n).len() > 0,
        forall|i: int|
            0 <= i < text::decimal(n).len() ==> text::is_digit(#[trigger] text::decimal(n)[i]),
    decreases n,
{
    if n >= 10 {
        decimals_are_digits(n / 10);
    }
}

// ---------------------------------------------------------------------
// Stripping and trimming
// ---------------------------------------------------------------------

/// Every character of a text satisfies a test.
pub open spec fn made_of(s: Seq<char>, test: spec_fn(char) -> bool) -> bool {
    forall|i: int| 0 <= i < s.len() ==> test(#[trigger] s[i])
}

/// Every character of a text is white space.
pub open spec fn is_blank_text(s: Seq<char>) -> bool {
    forall|i: int| 0 <= i < s.len() ==> text::is_white_space(#[trigger] s[i])
}

/// Every character of a text is `c`.
pub open spec fn repeats(s: Seq<char>, c: char) -> bool {
    forall|i: int| 0 <= i < s.len() ==> #[trigger] s[i] == c
}

/// A text neither begins nor ends with white space.
pub open spec fn is_tight(s: Seq<char>) -> bool {
    s.len() > 0 ==> !text::is_white_space(s[0]) && !text::is_white_space(s.last())
}

/// Digits are the ten characters from 0 to 9, and white space is what Unicode
/// says: tab to carriage return, the blank, and the blanks beyond ASCII.
pub proof fn which_characters_count(c: char)
    ensures
        text::is_digit(c) <==> 0x30 <= c as int <= 0x39,
        text::is_white_space(c) <==> {
            let u = c as int;
            ||| u == 0x9 || u == 0xA || u == 0xB || u == 0xC || u == 0xD || u == 0x20
            ||| u == 0x85 || u == 0xA0 || u == 0x1680 || u == 0x2028 || u == 0x2029
            ||| u == 0x202F || u == 0x205F || u == 0x3000 || (0x2000 <= u && u <= 0x200A)
        },
{
}

/// What is stripped off the front is exactly what satisfies the test there.
pub proof fn stripping_the_front(front: Seq<char>, s: Seq<char>, test: spec_fn(char) -> bool)
    requires
        made_of(front, test),
        s.len() > 0 ==> !test(s[0]),
    ensures
        text::strip_front(front + s, test) == s,
    decreases front.len(),
{
    if front.len() > 0 {
        assert(test(front[0]));
        assert((front + s).drop_first() =~= front.drop_first() + s);
        assert forall|i: int| 0 <= i < front.drop_first().len() implies test(
            #[trigger] front.drop_first()[i],
        ) by {
            assert(test(front[i + 1]));
        }
        stripping_the_front(front.drop_first(), s, test);
    } else {
        assert(front + s =~= s);
    }
}

/// What is stripped off the back is exactly what satisfies the test there.
pub proof fn stripping_the_back(s: Seq<char>, back: Seq<char>, test: spec_fn(char) -> bool)
    requires
        made_of(back, test),
        s.len() > 0 ==> !test(s.last()),
    ensures
        text::strip_back(s + back, test) == s,
    decreases back.len(),
{
    if back.len() > 0 {
        assert(test(back[back.len() - 1]));
        assert((s + back).drop_last() =~= s + back.drop_last());
        assert forall|i: int| 0 <= i < back.drop_last().len() implies test(
            #[trigger] back.drop_last()[i],
        ) by {
            assert(test(back[i]));
        }
        stripping_the_back(s, back.drop_last(), test);
    } else {
        assert(s + back =~= s);
    }
}

/// Trimming takes the white space off both ends, and nothing else.
pub proof fn trimming_takes_white_space_off(front: Seq<char>, s: Seq<char>, back: Seq<char>)
    requires
        is_blank_text(front),
        is_blank_text(back),
        is_tight(s),
    ensures
        text::trimmed(front + s + back) == s,
        text::trimmed_end(front + s + back) == (if s.len() > 0 {
            front + s
        } else {
            Seq::empty()
        }),
{
    let w = text::white_space();
    if s.len() > 0 {
        assert(front + s + back =~= front + (s + back));
        stripping_the_front(front, s + back, w);
        stripping_the_back(s, back, w);
        stripping_the_back(front + s, back, w);
    } else {
        let all = front + s + back;
        assert forall|i: int| 0 <= i < all.len() implies w(#[trigger] all[i]) by {
            if i < front.len() {
                assert(text::is_white_space(front[i]));
            } else {
                assert(text::is_white_space(back[i - front.len()]));
            }
        }
        let none = Seq::<char>::empty();
        assert(all + none =~= all);
        assert(none + all =~= all);
        stripping_the_front(all, none, w);
        stripping_the_back(none, all, w);
        assert(s =~= none);
        assert(text::trimmed(all) =~= none);
    }
}

/// What stands behind the last separator, and a text without one.
pub proof fn what_stands_behind_the_last_separator(a: Seq<char>, b: Seq<char>, sep: char)
    requires
        free_of(b, sep),
    ensures
        text::after_last(a + seq![sep] + b, sep) == b,
        text::after_last(b, sep) == b,
{
    split_at_a_separator(a, b, sep);
    text_without_separator_is_one_piece(b, sep);
}

// ---------------------------------------------------------------------
// Searching
// ---------------------------------------------------------------------

/// A text holds a pattern exactly if it reads: something, the pattern,
/// something.
pub proof fn holding_a_pattern(s: Seq<char>, pattern: Seq<char>)
    ensures
        text::contains_text(s, pattern) <==> exists|a: Seq<char>, b: Seq<char>|
            #[trigger] (a + pattern + b) == s,
{
    if text::contains_text(s, pattern) {
        let i = choose|i: int| text::occurs_at(s, pattern, i);
        let a = s.take(i);
        let b = s.skip(i + pattern.len());
        assert(a + pattern + b =~= s) by {
            assert(s =~= s.take(i) + s.subrange(i, i + pattern.len()) + s.skip(i + pattern.len()));
        }
    }
    if exists|a: Seq<char>, b: Seq<char>| #[trigger] (a + pattern + b) == s {
        let (a, b) = choose|a: Seq<char>, b: Seq<char>| #[trigger] (a + pattern + b) == s;
        assert(s.subrange(a.len() as int, a.len() as int + pattern.len()) =~= pattern);
        assert(text::occurs_at(s, pattern, a.len() as int));
    }
}

/// What stands before the first occurrence of a pattern: there is something
/// exactly if the pattern occurs, the pattern follows it, and the pattern
/// does not occur earlier.
pub proof fn what_stands_before_a_pattern(s: Seq<char>, pattern: Seq<char>)
    ensures
        match text::before_first(s, pattern) {
            Some(front) => {
                &&& (front + pattern).is_prefix_of(s)
                &&& forall|a: Seq<char>, b: Seq<char>|
                    #[trigger] (a + pattern + b) == s ==> front.len() <= a.len()
            },
            None => forall|a: Seq<char>, b: Seq<char>| #[trigger] (a + pattern + b) != s,
        },
{
    holding_a_pattern(s, pattern);
    if text::contains_text(s, pattern) {
        let k = choose|i: int| text::occurs_at(s, pattern, i);
        lemma_first_occurrence(s, pattern, k);
        let i = choose|i: int| text::first_occurrence(s, pattern, i);
        assert(text::first_occurrence(s, pattern, i));
        let front = s.take(i);
        assert(front + pattern =~= s.subrange(0, i + pattern.len())) by {
            assert(s.subrange(0, i + pattern.len()) =~= s.take(i) + s.subrange(
                i,
                i + pattern.len(),
            ));
        }
        assert forall|a: Seq<char>, b: Seq<char>| #[trigger] (a + pattern + b) == s implies i
            <= a.len() by {
            assert(s.subrange(a.len() as int, a.len() as int + pattern.len()) =~= pattern);
            assert(text::occurs_at(s, pattern, a.len() as int));
        }
    }
}

/// A pattern that occurs has a first occurrence.
proof fn lemma_first_occurrence(s: Seq<char>, pattern: Seq<char>, k: int)
    requires
        text::occurs_at(s, pattern, k),
    ensures
        exists|i: int| text::first_occurrence(s, pattern, i),
    decreases k,
{
    if exists|j: int| 0 <= j < k && text::occurs_at(s, pattern, j) {
        let j = choose|j: int| 0 <= j < k && text::occurs_at(s, pattern, j);
        lemma_first_occurrence(s, pattern, j);
    } else {
        assert(text::first_occurrence(s, pattern, k));
    }
}

// ---------------------------------------------------------------------
// Numbers
// ---------------------------------------------------------------------

/// The number that a row of digits stands for.
pub open spec fn number(digits: Seq<char>) -> int
    decreases digits.len(),
{
    if digits.len() == 0 {
        0
    } else {
        10 * number(digits.drop_last()) + (digits.last() as int - '0' as int)
    }
}

/// A number in decimal notation stands for that number, and begins with a
/// zero only if it is zero.
pub proof fn decimals_stand_for_their_number(n: nat)
    ensures
        number(text::decimal(n)) == n,
        text::decimal(n).len() > 0,
        text::decimal(n)[0] == '0' ==> n == 0 && text::decimal(n).len() == 1,
    decreases n,
{
    reveal_with_fuel(number, 2);
    if n >= 10 {
        decimals_stand_for_their_number(n / 10);
        assert(text::decimal(n).drop_last() =~= text::decimal(n / 10));
        assert(text::digit(n % 10) as int == '0' as int + n % 10);
    } else {
        assert(text::decimal(n).drop_last() =~= Seq::<char>::empty());
        assert(text::digit(n) as int == '0' as int + n);
    }
}

/// Different numbers have different notations.
pub proof fn decimals_are_distinct(a: nat, b: nat)
    ensures
        text::decimal(a) == text::decimal(b) ==> a == b,
{
    decimals_stand_for_their_number(a);
    decimals_stand_for_their_number(b);
}

/// A negative number is a minus sign and its size, any other number has no
/// sign.
pub proof fn signs_of_numbers(n: nat)
    ensures
        text::signed_decimal(n as int) == text::decimal(n),
        n > 0 ==> text::signed_decimal(-n) == "-"@ + text::decimal(n),
{
}

// ---------------------------------------------------------------------
// Padding
// ---------------------------------------------------------------------

/// A padded text begins with the text, has at least the width asked for and
/// no more than it takes, and is filled up with blanks.
pub proof fn padding_fills_up_with_blanks(s: Seq<char>, width: nat)
    ensures
        s.is_prefix_of(text::padded(s, width)),
        text::padded(s, width).len() == (if s.len() < width {
            width
        } else {
            s.len()
        }),
        forall|i: int|
            s.len() <= i < text::padded(s, width).len() ==> #[trigger] text::padded(s, width)[i]
                == ' ',
{
}

} // verus!
