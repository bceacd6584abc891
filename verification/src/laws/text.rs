//! What texts, numbers in texts and model names are.
use crate::models::{hex_padded, known_model, lookup_key};
use crate::text::{
    control_char, decimal, hex_digit, hex_digit_lower, hex_number, hex_value, joined, lower_char,
    split_at_mark, text_before, trimmed, upper_char, white_space,
};
use vstd::prelude::*;
use vstd::string::*;

verus! {

/// The white-space characters, one by one, and the control characters.
pub proof fn characters_of_no_shape(c: char)
    ensures
        white_space(c) <==> set![
            0x09u32, 0x0a, 0x0b, 0x0c, 0x0d, 0x20, 0x85, 0xa0, 0x1680, 0x2000, 0x2001, 0x2002,
            0x2003, 0x2004, 0x2005, 0x2006, 0x2007, 0x2008, 0x2009, 0x200a, 0x2028, 0x2029, 0x202f,
            0x205f, 0x3000,
        ].contains(c as u32),
        control_char(c) <==> c as u32 <= 31 || 127 <= c as u32 <= 159,
{
}

/// Letters change case and nothing else does; a character in one case has the
/// other one back.
pub proof fn letters_change_case(c: char)
    ensures
        lower_char(c) != c <==> 0x41 <= c as u32 <= 0x5a,
        lower_char(c) != c ==> lower_char(c) as u32 == c as u32 + 32,
        upper_char(c) != c <==> 0x61 <= c as u32 <= 0x7a,
        upper_char(c) != c ==> upper_char(c) as u32 + 32 == c as u32,
{
}

// ---------------------------------------------------------------------------
// Numbers
// ---------------------------------------------------------------------------

/// A decimal digit.
pub open spec fn digit(c: char) -> bool {
    0x30 <= c as u32 <= 0x39
}

/// What decimal digits count.
pub open spec fn counted_by(digits: Seq<char>) -> int
    decreases digits.len(),
{
    if digits.len() == 0 {
        0
    } else {
        10 * counted_by(digits.drop_last()) + (digits.last() as u32 - 0x30)
    }
}

/// A number is written in decimal digits that count it, the first of which is
/// a zero only where it stands alone.
pub proof fn a_number_is_written_in_digits(n: nat)
    ensures
        decimal(n).len() > 0,
        forall|i: int| 0 <= i < decimal(n).len() ==> digit(#[trigger] decimal(n)[i]),
        counted_by(decimal(n)) == n,
        decimal(n)[0] as u32 == 0x30 ==> decimal(n).len() == 1,
        n >= 10 ==> decimal(n)[0] as u32 != 0x30,
    decreases n,
{
    reveal_with_fuel(counted_by, 2);
    if n < 10 {
        assert(decimal(n).drop_last() =~= Seq::empty());
    } else {
        a_number_is_written_in_digits(n / 10);
        let head = decimal(n / 10);
        assert(decimal(n).drop_last() =~= head);
        assert(decimal(n)[0] == head[0]);
        assert forall|i: int| 0 <= i < decimal(n).len() implies digit(
            #[trigger] decimal(n)[i],
        ) by {
            if i < head.len() {
                assert(decimal(n)[i] == head[i]);
            }
        }
        if n / 10 < 10 {
            assert(head[0] as u32 == 0x30 + n / 10);
        }
    }
}

/// The sixteen digits, in either case.
pub proof fn hexadecimal_digits(n: int, c: char)
    requires
        0 <= n < 16,
    ensures
        hex_digit(n) as u32 == (if n < 10 {
            48 + n
        } else {
            55 + n
        }),
        hex_digit_lower(n) as u32 == (if n < 10 {
            48 + n
        } else {
            87 + n
        }),
        hex_value(c) == Some(n) <==> c == hex_digit(n) || c == hex_digit_lower(n),
        hex_value(c) is Some ==> 0 <= hex_value(c)->0 < 16,
{
}

/// One more digit makes sixteen times the number and the digit more.
pub proof fn a_hexadecimal_number_grows_by_digits(digits: Seq<char>, c: char)
    ensures
        hex_number(Seq::empty()) == Some(0int),
        hex_number(digits.push(c)) is Some <==> hex_number(digits) is Some && hex_value(c) is Some,
        hex_number(digits.push(c)) is Some ==> hex_number(digits.push(c))->0 == 16 * hex_number(
            digits,
        )->0 + hex_value(c)->0,
{
    assert(digits.push(c).drop_last() =~= digits);
}

/// A padded number has as many digits as asked for, and more only where it
/// needs them; all are digits of upper case.
pub proof fn a_padded_number_is_as_short_as_can_be(n: nat, width: nat)
    ensures
        hex_padded(n, width).len() >= width,
        hex_padded(n, width).len() > width && hex_padded(n, width).len() > 0 ==> hex_padded(
            n,
            width,
        )[0] != '0',
        forall|i: int|
            0 <= i < hex_padded(n, width).len() ==> exists|d: int|
                0 <= d < 16 && #[trigger] hex_padded(n, width)[i] == hex_digit(d),
    decreases n, width,
{
    let all = hex_padded(n, width);
    if n == 0 && width == 0 {
    } else if n == 0 {
        let head = hex_padded(0, (width - 1) as nat);
        a_padded_number_is_as_short_as_can_be(0, (width - 1) as nat);
        assert('0' == hex_digit(0));
        assert forall|i: int| 0 <= i < all.len() implies exists|d: int|
            0 <= d < 16 && #[trigger] all[i] == hex_digit(d) by {
            if i < head.len() {
                assert(all[i] == head[i]);
            } else {
                assert(all[i] == hex_digit(0));
            }
        }
        if head.len() > 0 {
            assert(all[0] == head[0]);
        }
        lemma_zero_padding((width - 1) as nat);
    } else {
        let rest = if width > 0 {
            (width - 1) as nat
        } else {
            0
        };
        let head = hex_padded(n / 16, rest);
        a_padded_number_is_as_short_as_can_be(n / 16, rest);
        assert forall|i: int| 0 <= i < all.len() implies exists|d: int|
            0 <= d < 16 && #[trigger] all[i] == hex_digit(d) by {
            if i < head.len() {
                assert(all[i] == head[i]);
            } else {
                assert(all[i] == hex_digit((n % 16) as int));
            }
        }
        if head.len() > 0 {
            assert(all[0] == head[0]);
        } else {
            assert(n / 16 == 0) by {
                if n / 16 > 0 {
                    assert(head.len() > 0);
                }
            }
            assert(n % 16 == n);
            assert(all[0] == hex_digit(n as int));
        }
    }
}

proof fn lemma_zero_padding(width: nat)
    ensures
        hex_padded(0, width).len() == width,
    decreases width,
{
    if width > 0 {
        lemma_zero_padding((width - 1) as nat);
    }
}

// ---------------------------------------------------------------------------
// Order and joining
// ---------------------------------------------------------------------------

/// One text is before another when, after a common beginning, it ends first or
/// has the smaller character.
pub proof fn texts_are_ordered_by_their_first_difference(a: Seq<char>, b: Seq<char>, k: int)
    requires
        0 <= k <= a.len(),
        k <= b.len(),
        a.take(k) == b.take(k),
        k < a.len() && k < b.len() ==> a[k] != b[k],
    ensures
        k < a.len() && k < b.len() ==> text_before(a, b) == (a[k] < b[k]),
        k == a.len() ==> text_before(a, b) == (k < b.len()),
        k == b.len() ==> !text_before(a, b),
    decreases k,
{
    if k > 0 {
        assert(a.take(k)[0] == a[0]);
        assert(b.take(k)[0] == b[0]);
        let x = a.skip(1);
        let y = b.skip(1);
        assert(x.take(k - 1) =~= a.take(k).skip(1));
        assert(y.take(k - 1) =~= b.take(k).skip(1));
        if k < a.len() {
            assert(x[k - 1] == a[k]);
        }
        if k < b.len() {
            assert(y[k - 1] == b[k]);
        }
        texts_are_ordered_by_their_first_difference(x, y, k - 1);
    }
}

/// Joined lines are the lines, with a comma and a space before each but the
/// first.
pub proof fn joined_lines_are_the_lines(lines: Seq<Seq<char>>, line: Seq<char>)
    ensures
        joined(Seq::empty()).len() == 0,
        joined(seq![line]) == line,
        lines.len() > 0 ==> joined(lines.push(line)) == joined(lines) + seq![',', ' '] + line,
{
    reveal_strlit(", ");
    assert(", "@ =~= seq![',', ' ']);
    assert(lines.push(line).drop_last() =~= lines);
}

/// The parts of a text hold no mark, and with the mark between them make the
/// text again.
pub proof fn parts_make_the_text(text: Seq<char>, mark: char)
    ensures
        split_at_mark(text, mark).len() > 0,
        forall|i: int|
            0 <= i < split_at_mark(text, mark).len() ==> !(#[trigger] split_at_mark(
                text,
                mark,
            )[i]).contains(mark),
        rejoined(split_at_mark(text, mark), mark) == text,
    decreases text.len(),
{
    let parts = split_at_mark(text, mark);
    if text.len() == 0 {
        assert(rejoined(parts, mark) =~= text);
    } else {
        let head = split_at_mark(text.drop_last(), mark);
        parts_make_the_text(text.drop_last(), mark);
        assert(text =~= text.drop_last().push(text.last()));
        if text.last() == mark {
            assert(parts.drop_last() =~= head);
            assert(rejoined(parts, mark) =~= text);
            assert forall|i: int| 0 <= i < parts.len() implies !(
            #[trigger] parts[i]).contains(mark) by {
                if i < head.len() {
                    assert(parts[i] == head[i]);
                }
            }
        } else {
            let last = head.last().push(text.last());
            assert(parts.drop_last() =~= head.drop_last());
            assert(parts.last() == last);
            assert(rejoined(parts, mark) =~= rejoined(head, mark).push(text.last())) by {
                if head.len() > 1 {
                    assert(rejoined(head.drop_last(), mark).push(mark) + last =~= (rejoined(
                        head.drop_last(),
                        mark,
                    ).push(mark) + head.last()).push(text.last()));
                }
            }
            assert(head[head.len() - 1] == head.last());
            assert forall|i: int| 0 <= i < parts.len() implies !(
            #[trigger] parts[i]).contains(mark) by {
                if i < head.len() - 1 {
                    assert(parts[i] == head[i]);
                } else {
                    if last.contains(mark) {
                        let k = last.index_of(mark);
                        if k < head.last().len() {
                            assert(head.last()[k] == mark);
                        }
                    }
                }
            }
        }
    }
}

/// Parts with a mark between them.
pub open spec fn rejoined(parts: Seq<Seq<char>>, mark: char) -> Seq<char>
    decreases parts.len(),
{
    if parts.len() == 0 {
        Seq::empty()
    } else if parts.len() == 1 {
        parts[0]
    } else {
        rejoined(parts.drop_last(), mark).push(mark) + parts.last()
    }
}

// ---------------------------------------------------------------------------
// Models
// ---------------------------------------------------------------------------

/// An id is looked up without white space around it, and in upper case.
pub proof fn an_id_is_looked_up_by_its_letters(id: Seq<char>)
    ensures
        lookup_key(id).len() == trimmed(id).len(),
        forall|i: int|
            0 <= i < trimmed(id).len() ==> #[trigger] lookup_key(id)[i] == (if 0x61 <= trimmed(
                id,
            )[i] as u32 <= 0x7a {
                (trimmed(id)[i] as u32 - 32) as char
            } else {
                trimmed(id)[i]
            }),
{
}

/// The models with a name, and no others.
pub proof fn models_have_their_names(id: Seq<char>)
    ensures
        known_model("2002"@) == Some("AirPods"@),
        known_model("200F"@) == Some("AirPods 2"@),
        known_model("2013"@) == Some("AirPods 3"@),
        known_model("2019"@) == Some("AirPods 4"@),
        known_model("201B"@) == Some("AirPods 4 (ANC)"@),
        known_model("200E"@) == Some("AirPods Pro"@),
        known_model("2014"@) == Some("AirPods Pro 2"@),
        known_model("2024"@) == Some("AirPods Pro 2 (USB-C)"@),
        known_model("200A"@) == Some("AirPods Max"@),
        known_model("201F"@) == Some("AirPods Max (USB-C)"@),
        known_model(id) is Some <==> {
            ||| id == "2002"@
            ||| id == "200F"@
            ||| id == "2013"@
            ||| id == "2019"@
            ||| id == "201B"@
            ||| id == "200E"@
            ||| id == "2014"@
            ||| id == "2024"@
            ||| id == "200A"@
            ||| id == "201F"@
        },
{
    reveal_strlit("2002");
    reveal_strlit("200F");
    reveal_strlit("2013");
    reveal_strlit("2019");
    reveal_strlit("201B");
    reveal_strlit("200E");
    reveal_strlit("2014");
    reveal_strlit("2024");
    reveal_strlit("200A");
    reveal_strlit("201F");
    assert("2002"@[2] == '0' && "2002"@[3] == '2');
    assert("200F"@[2] == '0' && "200F"@[3] == 'F');
    assert("2013"@[2] == '1' && "2013"@[3] == '3');
    assert("2019"@[2] == '1' && "2019"@[3] == '9');
    assert("201B"@[2] == '1' && "201B"@[3] == 'B');
    assert("200E"@[2] == '0' && "200E"@[3] == 'E');
    assert("2014"@[2] == '1' && "2014"@[3] == '4');
    assert("2024"@[2] == '2' && "2024"@[3] == '4');
    assert("200A"@[2] == '0' && "200A"@[3] == 'A');
    assert("201F"@[2] == '1' && "201F"@[3] == 'F');
}

} // verus!
