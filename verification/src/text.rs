//! Characters, strings and numerals: the small text operations that the rest
//! of the crate builds its messages and lookups from.
use vstd::prelude::*;
use vstd::string::*;

verus! {

/// `String::push`: the character is appended.
pub assume_specification[ String::push ](s: &mut String, c: char)
    ensures
        final(s)@ == old(s)@.push(c),
;

/// The characters of a string, in order.
pub fn chars_of(s: &str) -> (r: Vec<char>)
    ensures
        r@ == s@,
{
    let mut out: Vec<char> = Vec::new();
    for c in it: s.chars()
        invariant
            out@ == s@.take(it.index() as int),
            it.seq() == s@,
    {
        proof {
            assert(s@.take(it.index() as int + 1) =~= s@.take(it.index() as int).push(c));
        }
        out.push(c);
    }
    proof {
        assert(s@.take(s@.len() as int) =~= s@);
    }
    out
}

/// The string made of these characters.
pub fn string_of(chars: &[char]) -> (r: String)
    ensures
        r@ == chars@,
{
    let mut out: String = String::new();
    let mut i: usize = 0;
    while i < chars.len()
        invariant
            i <= chars.len(),
            out@ == chars@.take(i as int),
        decreases chars.len() - i,
    {
        proof {
            assert(chars@.take(i as int + 1) =~= chars@.take(i as int).push(chars@[i as int]));
        }
        out.push(chars[i]);
        i = i + 1;
    }
    proof {
        assert(chars@.take(chars@.len() as int) =~= chars@);
    }
    out
}

/// Whether two strings hold the same characters.
pub fn same_text(a: &str, b: &str) -> (r: bool)
    ensures
        r == (a@ == b@),
{
    let x: Vec<char> = chars_of(a);
    let y: Vec<char> = chars_of(b);
    if x.len() != y.len() {
        return false;
    }
    let mut i: usize = 0;
    while i < x.len()
        invariant
            i <= x.len(),
            x.len() == y.len(),
            x@ == a@,
            y@ == b@,
            forall|k: int| 0 <= k < i ==> x@[k] == y@[k],
        decreases x.len() - i,
    {
        if x[i] != y[i] {
            assert(a@[i as int] != b@[i as int]);
            return false;
        }
        i = i + 1;
    }
    proof {
        assert(a@ =~= b@);
    }
    true
}

/// What an optional string says.
pub open spec fn text_view(s: Option<String>) -> Option<Seq<char>> {
    match s {
        Some(t) => Some(t@),
        None => None,
    }
}

/// Whether two optional strings say the same.
pub fn same_optional(a: &Option<String>, b: &Option<String>) -> (r: bool)
    ensures
        r == (text_view(*a) == text_view(*b)),
{
    match (a, b) {
        (Some(x), Some(y)) => same_text(x.as_str(), y.as_str()),
        (None, None) => true,
        _ => false,
    }
}

/// Unicode's `White_Space` property.
pub open spec fn white_space(c: char) -> bool {
    let n = c as u32;
    ||| 0x09 <= n <= 0x0D
    ||| n == 0x20
    ||| n == 0x85
    ||| n == 0xA0
    ||| n == 0x1680
    ||| 0x2000 <= n <= 0x200A
    ||| n == 0x2028
    ||| n == 0x2029
    ||| n == 0x202F
    ||| n == 0x205F
    ||| n == 0x3000
}

/// Whether the character is white space.
pub fn is_white_space(c: char) -> (r: bool)
    ensures
        r == white_space(c),
{
    let n: u32 = c as u32;
    (0x09 <= n && n <= 0x0D) || n == 0x20 || n == 0x85 || n == 0xA0 || n == 0x1680 || (0x2000 <= n
        && n <= 0x200A) || n == 0x2028 || n == 0x2029 || n == 0x202F || n == 0x205F || n == 0x3000
}

/// Unicode's general category `Cc`.
pub open spec fn control_char(c: char) -> bool {
    (c as u32) < 0x20 || 0x7F <= (c as u32) <= 0x9F
}

/// Whether the character is a control character.
pub fn is_control_char(c: char) -> (r: bool)
    ensures
        r == control_char(c),
{
    let n: u32 = c as u32;
    n < 0x20 || (0x7F <= n && n <= 0x9F)
}

/// Where the text starts once leading white space is gone.
pub open spec fn trim_start_at(s: Seq<char>, from: int) -> int
    decreases s.len() - from,
{
    if 0 <= from < s.len() && white_space(s[from]) {
        trim_start_at(s, from + 1)
    } else {
        from
    }
}

/// Where the text ends once trailing white space is gone, not before `low`.
pub open spec fn trim_end_at(s: Seq<char>, low: int, to: int) -> int
    decreases to - low,
{
    if low < to <= s.len() && white_space(s[to - 1]) {
        trim_end_at(s, low, to - 1)
    } else {
        to
    }
}

/// The text without leading and trailing white space.
pub open spec fn trimmed(s: Seq<char>) -> Seq<char> {
    let low = trim_start_at(s, 0);
    s.subrange(low, trim_end_at(s, low, s.len() as int))
}

proof fn lemma_trim_bounds(s: Seq<char>, from: int)
    requires
        0 <= from <= s.len(),
    ensures
        from <= trim_start_at(s, from) <= s.len(),
        forall|k: int| from <= k < trim_start_at(s, from) ==> white_space(s[k]),
        trim_start_at(s, from) < s.len() ==> !white_space(s[trim_start_at(s, from)]),
    decreases s.len() - from,
{
    if from < s.len() && white_space(s[from]) {
        lemma_trim_bounds(s, from + 1);
    }
}

proof fn lemma_trim_end_bounds(s: Seq<char>, low: int, to: int)
    requires
        0 <= low <= to <= s.len(),
    ensures
        low <= trim_end_at(s, low, to) <= to,
        forall|k: int| trim_end_at(s, low, to) <= k < to ==> white_space(s[k]),
        trim_end_at(s, low, to) > low ==> !white_space(s[trim_end_at(s, low, to) - 1]),
    decreases to - low,
{
    if low < to && white_space(s[to - 1]) {
        lemma_trim_end_bounds(s, low, to - 1);
    }
}

/// Trimming takes white space and nothing else off both ends, and leaves no
/// white space there.
pub proof fn trimmed_is_exact(s: Seq<char>)
    ensures
        trimmed(s).len() > 0 ==> !white_space(trimmed(s)[0]) && !white_space(trimmed(s).last()),
        exists|a: int, b: int|
            0 <= a <= b <= s.len() && trimmed(s) == #[trigger] s.subrange(a, b) && (forall|k: int|
                0 <= k < a ==> white_space(s[k])) && (forall|k: int|
                b <= k < s.len() ==> white_space(s[k])),
        trimmed(s).len() == 0 <==> (forall|k: int| 0 <= k < s.len() ==> white_space(s[k])),
{
    lemma_trim_bounds(s, 0);
    let a = trim_start_at(s, 0);
    lemma_trim_end_bounds(s, a, s.len() as int);
    let b = trim_end_at(s, a, s.len() as int);
    assert(trimmed(s) == s.subrange(a, b));
    if trimmed(s).len() > 0 {
        assert(trimmed(s)[0] == s[a]);
        assert(trimmed(s).last() == s[b - 1]);
    }
}

/// The characters without leading and trailing white space.
pub fn trim(chars: &Vec<char>) -> (r: Vec<char>)
    ensures
        r@ == trimmed(chars@),
{
    let mut low: usize = 0;
    while low < chars.len() && is_white_space(chars[low])
        invariant
            low <= chars.len(),
            trim_start_at(chars@, low as int) == trim_start_at(chars@, 0),
        decreases chars.len() - low,
    {
        low = low + 1;
    }
    let mut high: usize = chars.len();
    while high > low && is_white_space(chars[high - 1])
        invariant
            low <= high <= chars.len(),
            trim_end_at(chars@, low as int, high as int) == trim_end_at(
                chars@,
                low as int,
                chars@.len() as int,
            ),
        decreases high - low,
    {
        high = high - 1;
    }
    let mut out: Vec<char> = Vec::new();
    let mut i: usize = low;
    while i < high
        invariant
            low <= i <= high <= chars.len(),
            out@ == chars@.subrange(low as int, i as int),
        decreases high - i,
    {
        proof {
            assert(chars@.subrange(low as int, i as int + 1) =~= chars@.subrange(
                low as int,
                i as int,
            ).push(chars@[i as int]));
        }
        out.push(chars[i]);
        i = i + 1;
    }
    out
}

/// An ASCII letter's upper case; any other character is itself.
pub open spec fn upper_char(c: char) -> char {
    if 'a' <= c <= 'z' {
        ((c as u32 - 32) as u32) as char
    } else {
        c
    }
}

/// ASCII upper case of one character.
pub fn ascii_upper(c: char) -> (r: char)
    ensures
        r == upper_char(c),
{
    if 'a' <= c && c <= 'z' {
        ((c as u8) - 32) as char
    } else {
        c
    }
}

/// The digit of a value below sixteen, in upper-case hexadecimal.
pub open spec fn hex_digit(n: int) -> char {
    if n < 10 {
        (0x30 + n) as char
    } else {
        (0x41 + n - 10) as char
    }
}

/// The digit of a value below sixteen, in lower-case hexadecimal.
pub open spec fn hex_digit_lower(n: int) -> char {
    if n < 10 {
        (0x30 + n) as char
    } else {
        (0x61 + n - 10) as char
    }
}

/// Appends one hexadecimal digit.
pub fn push_hex_digit(out: &mut String, n: u8, upper: bool)
    requires
        n < 16,
    ensures
        final(out)@ == old(out)@.push(
            if upper {
                hex_digit(n as int)
            } else {
                hex_digit_lower(n as int)
            },
        ),
{
    let c: char = if n < 10 {
        (0x30 + n) as char
    } else if upper {
        (0x41 + (n - 10)) as char
    } else {
        (0x61 + (n - 10)) as char
    };
    out.push(c);
}

/// A number written in base ten without leading zeros.
pub open spec fn decimal(n: nat) -> Seq<char>
    decreases n,
{
    if n < 10 {
        seq![(0x30 + n) as char]
    } else {
        decimal(n / 10).push((0x30 + n % 10) as char)
    }
}

/// Appends a number in base ten.
pub fn push_decimal(out: &mut String, n: u64)
    ensures
        final(out)@ == old(out)@ + decimal(n as nat),
    decreases n,
{
    if n < 10 {
        proof {
            assert(old(out)@.push((0x30 + n) as char) =~= old(out)@ + decimal(n as nat));
        }
        out.push((0x30 + n as u8) as char);
    } else {
        push_decimal(out, n / 10);
        proof {
            assert((old(out)@ + decimal((n / 10) as nat)).push((0x30 + n % 10) as char) =~= old(
                out,
            )@ + decimal(n as nat));
        }
        out.push((0x30 + (n % 10) as u8) as char);
    }
}

/// Whether `part` occurs in `whole` at `at`.
pub open spec fn occurs_at<T>(whole: Seq<T>, part: Seq<T>, at: int) -> bool {
    0 <= at && at + part.len() <= whole.len() && whole.subrange(at, at + part.len()) == part
}

/// Whether `part` occurs in `whole` as an unbroken run.
pub open spec fn occurs_in<T>(whole: Seq<T>, part: Seq<T>) -> bool {
    exists|at: int| occurs_at(whole, part, at)
}

/// Whether the text begins with `prefix`.
pub fn starts_with(chars: &Vec<char>, prefix: &str) -> (r: bool)
    ensures
        r == prefix@.is_prefix_of(chars@),
{
    let p: Vec<char> = chars_of(prefix);
    if p.len() > chars.len() {
        return false;
    }
    let mut i: usize = 0;
    while i < p.len()
        invariant
            i <= p.len() <= chars.len(),
            p@ == prefix@,
            forall|k: int| 0 <= k < i ==> p@[k] == chars@[k],
        decreases p.len() - i,
    {
        if p[i] != chars[i] {
            proof {
                assert(prefix@ != chars@.subrange(0, prefix@.len() as int)) by {
                    assert(chars@.subrange(0, prefix@.len() as int)[i as int] == chars@[i as int]);
                }
            }
            return false;
        }
        i = i + 1;
    }
    proof {
        assert(prefix@ =~= chars@.subrange(0, prefix@.len() as int));
    }
    true
}

/// An ASCII letter's lower case; any other character is itself.
pub open spec fn lower_char(c: char) -> char {
    if 'A' <= c <= 'Z' {
        ((c as u32 + 32) as u32) as char
    } else {
        c
    }
}

/// The text with ASCII letters in lower case.
pub open spec fn lowered(text: Seq<char>) -> Seq<char> {
    text.map_values(|c: char| lower_char(c))
}

/// The text with ASCII letters in lower case.
pub fn ascii_lowercase(text: &str) -> (r: String)
    ensures
        r@ == lowered(text@),
{
    let chars: Vec<char> = chars_of(text);
    let mut out: Vec<char> = Vec::new();
    let mut i: usize = 0;
    while i < chars.len()
        invariant
            i <= chars.len(),
            chars@ == text@,
            out@.len() == i,
            forall|k: int| 0 <= k < i ==> out@[k] == lower_char(chars@[k]),
        decreases chars.len() - i,
    {
        let c: char = chars[i];
        let low: char = if 'A' <= c && c <= 'Z' {
            ((c as u8) + 32) as char
        } else {
            c
        };
        out.push(low);
        i = i + 1;
    }
    proof {
        assert(out@ =~= lowered(text@));
    }
    string_of(out.as_slice())
}

/// The value of a hexadecimal digit.
pub open spec fn hex_value(c: char) -> Option<int> {
    if '0' <= c <= '9' {
        Some(c as int - 0x30)
    } else if 'a' <= c <= 'f' {
        Some(c as int - 0x61 + 10)
    } else if 'A' <= c <= 'F' {
        Some(c as int - 0x41 + 10)
    } else {
        None
    }
}

/// The number a run of hexadecimal digits writes.
pub open spec fn hex_number(digits: Seq<char>) -> Option<int>
    decreases digits.len(),
{
    if digits.len() == 0 {
        Some(0)
    } else {
        match (hex_number(digits.drop_last()), hex_value(digits.last())) {
            (Some(head), Some(d)) => Some(head * 16 + d),
            _ => None,
        }
    }
}

/// What a hexadecimal text below `limit` stands for: at least one digit, with
/// one plus sign allowed in front.
pub open spec fn hex_below(text: Seq<char>, limit: int) -> Option<int> {
    let digits = if text.len() > 0 && text[0] == '+' {
        text.skip(1)
    } else {
        text
    };
    match hex_number(digits) {
        Some(n) => if digits.len() > 0 && n < limit {
            Some(n)
        } else {
            None
        },
        None => None,
    }
}

proof fn lemma_hex_number_prefix(digits: Seq<char>, k: int)
    requires
        0 <= k <= digits.len(),
    ensures
        hex_number(digits.take(k)) is None ==> hex_number(digits) is None,
        hex_number(digits) matches Some(n) ==> n >= 0 && (hex_number(digits.take(k)) matches Some(
            h,
        ) && 0 <= h <= n),
    decreases digits.len(),
{
    if k == digits.len() {
        assert(digits.take(k) =~= digits);
        if digits.len() > 0 {
            lemma_hex_number_prefix(digits.drop_last(), digits.len() - 1);
            assert(digits.drop_last().take(digits.len() - 1) =~= digits.drop_last());
        }
    } else {
        lemma_hex_number_prefix(digits.drop_last(), k);
        assert(digits.drop_last().take(k) =~= digits.take(k));
    }
}

fn digit_value(c: char) -> (r: Option<u32>)
    ensures
        match r {
            Some(d) => hex_value(c) == Some(d as int) && d < 16,
            None => hex_value(c) is None,
        },
{
    if '0' <= c && c <= '9' {
        Some(c as u32 - 0x30)
    } else if 'a' <= c && c <= 'f' {
        Some(c as u32 - 0x61 + 10)
    } else if 'A' <= c && c <= 'F' {
        Some(c as u32 - 0x41 + 10)
    } else {
        None
    }
}

/// Reads a hexadecimal number below `limit`.
pub fn parse_hex(chars: &Vec<char>, limit: u32) -> (r: Option<u32>)
    requires
        0 < limit <= 0x10000,
    ensures
        match r {
            Some(n) => hex_below(chars@, limit as int) == Some(n as int),
            None => hex_below(chars@, limit as int) is None,
        },
{
    let from: usize = if chars.len() > 0 && chars[0] == '+' {
        1
    } else {
        0
    };
    let ghost digits = chars@.skip(from as int);
    proof {
        assert(chars@.skip(0) =~= chars@);
    }
    if from >= chars.len() {
        return None;
    }
    let mut n: u32 = 0;
    let mut i: usize = from;
    proof {
        assert(digits.take(0) =~= Seq::empty());
    }
    while i < chars.len()
        invariant
            from <= i <= chars.len(),
            from == 0 || from == 1,
            from == (if chars@.len() > 0 && chars@[0] == '+' { 1int } else { 0int }),
            from == 0 ==> digits == chars@,
            digits == chars@.skip(from as int),
            digits.len() > 0,
            0 < limit <= 0x10000,
            n < limit,
            hex_number(digits.take(i - from)) == Some(n as int),
        decreases chars.len() - i,
    {
        proof {
            let next = digits.take(i - from + 1);
            assert(next.drop_last() =~= digits.take(i - from));
            assert(next.last() == chars@[i as int]);
            lemma_hex_number_prefix(digits, i - from + 1);
        }
        let d: u32 = match digit_value(chars[i]) {
            Some(d) => d,
            None => {
                return None;
            },
        };
        let next_n: u32 = n * 16 + d;
        if next_n >= limit {
            return None;
        }
        n = next_n;
        i = i + 1;
    }
    proof {
        assert(digits.take(digits.len() as int) =~= digits);
    }
    Some(n)
}

/// A hexadecimal digit is told apart from white space, a sign and a mark, and
/// its case does not change its value.
proof fn a_hex_digit(c: char)
    ensures
        hex_value(c) == hex_value(lower_char(c)),
        hex_value(c) is Some ==> !white_space(c) && c != '+' && c != ':' && 0 <= hex_value(c)->0
            < 16,
{
}

/// A written digit reads back as its value.
pub proof fn a_hex_digit_reads_back(n: int)
    requires
        0 <= n < 16,
    ensures
        hex_value(hex_digit(n)) == Some(n),
        hex_digit(n) != ':',
        hex_digit(n) != '+',
{
}

/// The case of its digits does not change a hexadecimal number.
pub proof fn hex_number_keeps_case(a: Seq<char>, b: Seq<char>)
    requires
        lowered(a) == lowered(b),
    ensures
        a.len() == b.len(),
        hex_number(a) == hex_number(b),
    decreases a.len(),
{
    assert(lowered(a).len() == a.len());
    assert(lowered(b).len() == b.len());
    if a.len() > 0 {
        assert(lowered(a).drop_last() =~= lowered(a.drop_last()));
        assert(lowered(b).drop_last() =~= lowered(b.drop_last()));
        hex_number_keeps_case(a.drop_last(), b.drop_last());
        assert(lowered(a).last() == lower_char(a.last()));
        assert(lowered(b).last() == lower_char(b.last()));
        a_hex_digit(a.last());
        a_hex_digit(b.last());
    }
}

/// Every character of a hexadecimal number is one of its digits.
proof fn lemma_hex_digits(digits: Seq<char>, i: int)
    requires
        hex_number(digits) is Some,
        0 <= i < digits.len(),
    ensures
        hex_value(digits[i]) is Some,
    decreases digits.len(),
{
    if i < digits.len() - 1 {
        lemma_hex_digits(digits.drop_last(), i);
        assert(digits.drop_last()[i] == digits[i]);
    }
}

/// A hexadecimal number with white space around it trims to itself.
pub proof fn a_trimmed_core(before: Seq<char>, digits: Seq<char>, after: Seq<char>)
    requires
        digits.len() > 0,
        hex_number(digits) is Some,
        forall|i: int| 0 <= i < before.len() ==> white_space(#[trigger] before[i]),
        forall|i: int| 0 <= i < after.len() ==> white_space(#[trigger] after[i]),
    ensures
        trimmed(before + digits + after) == digits,
        digits[0] != '+',
{
    let s = before + digits + after;
    let first = before.len() as int;
    let end = first + digits.len();
    lemma_hex_digits(digits, 0);
    lemma_hex_digits(digits, digits.len() - 1);
    a_hex_digit(digits[0]);
    a_hex_digit(digits.last());
    assert(s[first] == digits[0]);
    assert(s[end - 1] == digits.last());
    lemma_trim_bounds(s, 0);
    let low = trim_start_at(s, 0);
    if low < first {
        assert(s[low] == before[low]);
    }
    lemma_trim_end_bounds(s, low, s.len() as int);
    let high = trim_end_at(s, low, s.len() as int);
    if high > end {
        assert(s[high - 1] == after[high - 1 - end]);
    }
    assert(trimmed(s) =~= digits);
}

/// The parts of a text between the occurrences of `mark`, in order and with
/// the empty ones: one more than there are marks.
pub open spec fn split_at_mark(text: Seq<char>, mark: char) -> Seq<Seq<char>>
    decreases text.len(),
{
    if text.len() == 0 {
        seq![Seq::empty()]
    } else {
        let head = split_at_mark(text.drop_last(), mark);
        if text.last() == mark {
            head.push(Seq::empty())
        } else {
            head.drop_last().push(head.last().push(text.last()))
        }
    }
}

/// Whether `part` occurs in the text as an unbroken run of characters.
pub fn contains_text(text: &str, part: &str) -> (r: bool)
    ensures
        r == occurs_in(text@, part@),
{
    let whole: Vec<char> = chars_of(text);
    let piece: Vec<char> = chars_of(part);
    if piece.len() > whole.len() {
        return false;
    }
    let last: usize = whole.len() - piece.len();
    let mut at: usize = 0;
    while at <= last
        invariant
            whole@ == text@,
            piece@ == part@,
            piece.len() <= whole.len(),
            last == whole.len() - piece.len(),
            at <= last + 1,
            forall|k: int| 0 <= k < at ==> !occurs_at(text@, part@, k),
        decreases last + 1 - at,
    {
        let mut i: usize = 0;
        while i < piece.len() && whole[at + i] == piece[i]
            invariant
                whole@ == text@,
                piece@ == part@,
                i <= piece.len(),
                at + piece.len() <= whole.len(),
                forall|k: int| 0 <= k < i ==> whole@[at + k] == piece@[k],
            decreases piece.len() - i,
        {
            i = i + 1;
        }
        if i == piece.len() {
            proof {
                assert(text@.subrange(at as int, at + part@.len()) =~= part@);
                assert(occurs_at(text@, part@, at as int));
            }
            return true;
        }
        proof {
            assert(text@.subrange(at as int, at + part@.len())[i as int] == text@[at + i]);
        }
        if at == last {
            return false;
        }
        at = at + 1;
    }
    false
}

/// Whether `a` comes before `b`, character by character.
pub open spec fn text_before(a: Seq<char>, b: Seq<char>) -> bool
    decreases a.len(),
{
    if b.len() == 0 {
        false
    } else if a.len() == 0 {
        true
    } else if a[0] != b[0] {
        a[0] < b[0]
    } else {
        text_before(a.skip(1), b.skip(1))
    }
}

/// Whether `a` comes before `b`, character by character.
pub fn comes_before(a: &str, b: &str) -> (r: bool)
    ensures
        r == text_before(a@, b@),
{
    let x: Vec<char> = chars_of(a);
    let y: Vec<char> = chars_of(b);
    let mut i: usize = 0;
    proof {
        assert(a@.skip(0) =~= a@);
        assert(b@.skip(0) =~= b@);
    }
    while i < x.len() && i < y.len()
        invariant
            x@ == a@,
            y@ == b@,
            i <= x.len(),
            i <= y.len(),
            text_before(a@, b@) == text_before(a@.skip(i as int), b@.skip(i as int)),
        decreases x.len() - i,
    {
        proof {
            assert(a@.skip(i as int)[0] == a@[i as int]);
            assert(b@.skip(i as int)[0] == b@[i as int]);
            assert(a@.skip(i as int).skip(1) =~= a@.skip(i + 1));
            assert(b@.skip(i as int).skip(1) =~= b@.skip(i + 1));
        }
        if x[i] != y[i] {
            return x[i] < y[i];
        }
        i = i + 1;
    }
    i < y.len()
}

/// A line put into a sorted list at its place.
pub open spec fn line_inserted(lines: Seq<Seq<char>>, line: Seq<char>) -> Seq<Seq<char>>
    decreases lines.len(),
{
    if lines.len() == 0 || !text_before(line, lines.last()) {
        lines.push(line)
    } else {
        line_inserted(lines.drop_last(), line).push(lines.last())
    }
}

/// The lines in order.
pub open spec fn lines_sorted(lines: Seq<Seq<char>>) -> Seq<Seq<char>>
    decreases lines.len(),
{
    if lines.len() == 0 {
        Seq::empty()
    } else {
        line_inserted(lines_sorted(lines.drop_last()), lines.last())
    }
}

/// Each line of a list comes no later than the ones after it.
pub open spec fn in_order(lines: Seq<Seq<char>>) -> bool {
    forall|i: int, j: int|
        0 <= i < j < lines.len() ==> !text_before(#[trigger] lines[j], #[trigger] lines[i])
}

proof fn before_is_asymmetric(a: Seq<char>, b: Seq<char>)
    ensures
        text_before(a, b) ==> !text_before(b, a),
    decreases a.len(),
{
    if a.len() > 0 && b.len() > 0 && a[0] == b[0] {
        before_is_asymmetric(a.skip(1), b.skip(1));
    }
}

proof fn not_before_is_transitive(a: Seq<char>, b: Seq<char>, c: Seq<char>)
    requires
        !text_before(b, a),
        !text_before(c, b),
    ensures
        !text_before(c, a),
    decreases c.len(),
{
    if a.len() > 0 && b.len() > 0 && c.len() > 0 && a[0] == b[0] && b[0] == c[0] {
        not_before_is_transitive(a.skip(1), b.skip(1), c.skip(1));
    }
}

proof fn insertion_keeps_order(lines: Seq<Seq<char>>, line: Seq<char>)
    requires
        in_order(lines),
    ensures
        in_order(line_inserted(lines, line)),
        line_inserted(lines, line).to_multiset() == lines.to_multiset().insert(line),
        line_inserted(lines, line).len() == lines.len() + 1,
    decreases lines.len(),
{
    broadcast use vstd::seq_lib::group_to_multiset_ensures;

    let r = line_inserted(lines, line);
    if lines.len() == 0 || !text_before(line, lines.last()) {
        assert forall|i: int, j: int| 0 <= i < j < r.len() implies !text_before(
            #[trigger] r[j],
            #[trigger] r[i],
        ) by {
            if j == lines.len() {
                if i < lines.len() - 1 {
                    assert(!text_before(lines.last(), lines[i]));
                    not_before_is_transitive(lines[i], lines.last(), line);
                }
            }
        }
    } else {
        let head = lines.drop_last();
        let last = lines.last();
        assert(in_order(head));
        insertion_keeps_order(head, line);
        let h = line_inserted(head, line);
        assert(lines =~= head.push(last));
        assert(lines.to_multiset() == head.to_multiset().insert(last));
        assert(h.push(last).to_multiset() == h.to_multiset().insert(last));
        assert(head.to_multiset().insert(line).insert(last) =~= head.to_multiset().insert(
            last,
        ).insert(line));
        before_is_asymmetric(line, last);
        assert forall|i: int, j: int| 0 <= i < j < r.len() implies !text_before(
            #[trigger] r[j],
            #[trigger] r[i],
        ) by {
            if j == h.len() {
                let x = h[i];
                assert(h.to_multiset().count(x) > 0) by {
                    assert(h.contains(x));
                }
                if x != line {
                    assert(head.to_multiset().count(x) > 0);
                    assert(head.contains(x));
                    let k = head.index_of(x);
                    assert(lines[k] == x);
                    assert(!text_before(lines[lines.len() - 1], lines[k]));
                }
            }
        }
    }
}

/// Sorting puts the lines in order, and keeps every one as often as it was
/// there.
pub proof fn sorting_is_exact(lines: Seq<Seq<char>>)
    ensures
        in_order(lines_sorted(lines)),
        lines_sorted(lines).to_multiset() == lines.to_multiset(),
    decreases lines.len(),
{
    broadcast use vstd::seq_lib::group_to_multiset_ensures;

    if lines.len() == 0 {
        assert(lines =~= Seq::empty());
    } else {
        sorting_is_exact(lines.drop_last());
        insertion_keeps_order(lines_sorted(lines.drop_last()), lines.last());
        assert(lines =~= lines.drop_last().push(lines.last()));
    }
}

/// Texts as sequences.
pub open spec fn text_views(lines: Seq<String>) -> Seq<Seq<char>> {
    lines.map_values(|s: String| s@)
}

/// Puts a line into a sorted list at its place.
pub fn insert_line(lines: &mut Vec<String>, line: String)
    ensures
        text_views(final(lines)@) == line_inserted(text_views(old(lines)@), line@),
{
    let ghost before = text_views(lines@);
    let mut at: usize = lines.len();
    proof {
        assert(before.take(at as int) =~= before);
        assert(before.skip(at as int) =~= Seq::empty());
        assert(line_inserted(before, line@) + before.skip(at as int) =~= line_inserted(
            before,
            line@,
        ));
    }
    while at > 0 && comes_before(line.as_str(), lines[at - 1].as_str())
        invariant
            at <= lines.len(),
            before == text_views(lines@),
            line_inserted(before, line@) == line_inserted(before.take(at as int), line@)
                + before.skip(at as int),
        decreases at,
    {
        proof {
            let head = before.take(at as int);
            assert(head.last() == lines@[at - 1]@);
            assert(head.drop_last() =~= before.take(at - 1));
            assert(line_inserted(head, line@) == line_inserted(head.drop_last(), line@).push(
                head.last(),
            ));
            assert(line_inserted(head.drop_last(), line@).push(head.last()) + before.skip(
                at as int,
            ) =~= line_inserted(before.take(at - 1), line@) + before.skip(at - 1));
        }
        at = at - 1;
    }
    proof {
        let head = before.take(at as int);
        if at > 0 {
            assert(head.last() == lines@[at - 1]@);
        }
        assert(line_inserted(head, line@) == head.push(line@));
    }
    let ghost text = line@;
    lines.insert(at, line);
    proof {
        assert(text_views(lines@) =~= before.take(at as int).push(text) + before.skip(at as int));
    }
}

/// The lines with a comma and a space between them.
pub open spec fn joined(lines: Seq<Seq<char>>) -> Seq<char>
    decreases lines.len(),
{
    if lines.len() == 0 {
        Seq::empty()
    } else if lines.len() == 1 {
        lines[0]
    } else {
        joined(lines.drop_last()) + ", "@ + lines.last()
    }
}

/// The lines with a comma and a space between them.
pub fn join(lines: &Vec<String>) -> (r: String)
    ensures
        r@ == joined(text_views(lines@)),
{
    let ghost all = text_views(lines@);
    let mut out: String = String::new();
    let mut i: usize = 0;
    while i < lines.len()
        invariant
            i <= lines.len(),
            all == text_views(lines@),
            out@ == joined(all.take(i as int)),
        decreases lines.len() - i,
    {
        proof {
            let next = all.take(i + 1);
            assert(next.drop_last() =~= all.take(i as int));
            assert(next.last() == lines@[i as int]@);
            if i == 0 {
                assert(next[0] == next.last());
                assert(Seq::<char>::empty() + next[0] =~= next[0]);
            }
        }
        if i > 0 {
            out.append(", ");
        }
        out.append(lines[i].as_str());
        i = i + 1;
    }
    proof {
        assert(all.take(i as int) =~= all);
    }
    out
}

} // verus!
