//! Text: decimal numbers, searching and trimming.
use vstd::prelude::*;

verus! {

/// The character of the decimal digit `d`.
pub open spec fn digit(d: nat) -> char {
    (48 + d) as char
}

/// `n` in decimal, without leading zeros.
pub open spec fn decimal(n: nat) -> Seq<char>
    decreases n,
{
    if n < 10 {
        seq![digit(n)]
    } else {
        decimal(n / 10).push(digit(n % 10))
    }
}

/// `n` in decimal, with a leading zero where it would be a single digit.
pub open spec fn two_digits(n: nat) -> Seq<char> {
    if n < 10 {
        seq!['0'] + decimal(n)
    } else {
        decimal(n)
    }
}

/// The number that a sequence of decimal digits stands for.
pub open spec fn decimal_value(s: Seq<char>) -> int
    decreases s.len(),
{
    if s.len() == 0 {
        0
    } else {
        10 * decimal_value(s.drop_last()) + (s.last() as int - 48)
    }
}

/// `decimal` loses nothing: its digits stand for the number they were made of.
pub proof fn decimal_reads_back(n: nat)
    ensures
        decimal_value(decimal(n)) == n,
        decimal(n).len() > 0,
        forall|i: int| 0 <= i < decimal(n).len() ==> '0' <= #[trigger] decimal(n)[i] <= '9',
    decreases n,
{
    reveal_with_fuel(decimal_value, 2);
    if n < 10 {
        assert(decimal(n).drop_last() =~= Seq::<char>::empty());
    } else {
        decimal_reads_back(n / 10);
        assert(decimal(n).drop_last() =~= decimal(n / 10));
    }
}

/// A number is written without a zero in front, and nought as a single zero.
pub proof fn decimal_has_no_leading_zero(n: nat)
    ensures
        n > 0 ==> decimal(n)[0] != '0',
        n == 0 ==> decimal(n) == seq!['0'],
    decreases n,
{
    if n >= 10 {
        decimal_has_no_leading_zero(n / 10);
        decimal_reads_back(n / 10);
    }
}

fn digit_text(d: u64) -> (s: &'static str)
    requires
        d < 10,
    ensures
        s@ == seq![digit(d as nat)],
{
    proof {
        reveal_strlit("0");
        reveal_strlit("1");
        reveal_strlit("2");
        reveal_strlit("3");
        reveal_strlit("4");
        reveal_strlit("5");
        reveal_strlit("6");
        reveal_strlit("7");
        reveal_strlit("8");
        reveal_strlit("9");
    }
    if d == 0 {
        "0"
    } else if d == 1 {
        "1"
    } else if d == 2 {
        "2"
    } else if d == 3 {
        "3"
    } else if d == 4 {
        "4"
    } else if d == 5 {
        "5"
    } else if d == 6 {
        "6"
    } else if d == 7 {
        "7"
    } else if d == 8 {
        "8"
    } else {
        "9"
    }
}

/// `n` in decimal.
pub fn decimal_text(n: u64) -> (s: String)
    ensures
        s@ == decimal(n as nat),
    decreases n,
{
    if n < 10 {
        digit_text(n).to_owned()
    } else {
        let mut s = decimal_text(n / 10);
        let ghost front = s@;
        s.append(digit_text(n % 10));
        assert(s@ =~= front.push(digit((n % 10) as nat)));
        s
    }
}

/// `n` in decimal, at least two digits wide.
pub fn two_digits_text(n: u64) -> (s: String)
    ensures
        s@ == two_digits(n as nat),
{
    if n < 10 {
        proof {
            reveal_strlit("0");
        }
        let mut s = "0".to_owned();
        s.append(digit_text(n));
        assert(s@ =~= two_digits(n as nat));
        s
    } else {
        decimal_text(n)
    }
}

/// The views of a sequence of values.
pub open spec fn views<T: View>(s: Seq<T>) -> Seq<T::V> {
    s.map_values(|t: T| t@)
}

/// The view of an optional text.
pub open spec fn option_view(o: Option<String>) -> Option<Seq<char>> {
    match o {
        Some(s) => Some(s@),
        None => None,
    }
}

/// The characters of `s`, one by one.
fn chars_of(s: &str) -> (v: Vec<char>)
    ensures
        v@ == s@,
{
    let mut v: Vec<char> = Vec::new();
    for c in it: s.chars()
        invariant
            v@ == s@.take(it.index() as int),
            it.seq() == s@,
    {
        v.push(c);
        assert(s@.take(it.index() + 1) =~= s@.take(it.index() as int).push(c));
    }
    assert(s@.take(s@.len() as int) =~= s@);
    v
}

/// `pattern` stands in `text` from position `i` on.
pub open spec fn occurs_at(text: Seq<char>, pattern: Seq<char>, i: int) -> bool {
    &&& 0 <= i
    &&& i + pattern.len() <= text.len()
    &&& text.subrange(i, i + pattern.len()) == pattern
}

/// A pattern stands where the text falls into what is before it, the pattern, and
/// what is behind it, and nowhere else.
pub proof fn a_pattern_stands_between(
    text: Seq<char>,
    pattern: Seq<char>,
    i: int,
    before: Seq<char>,
    behind: Seq<char>,
)
    ensures
        occurs_at(before + pattern + behind, pattern, before.len() as int),
        occurs_at(text, pattern, i) ==> 0 <= i <= text.len() - pattern.len() && text == text.take(i)
            + pattern + text.skip(i + pattern.len()),
{
    let whole = before + pattern + behind;
    let at = before.len() as int;
    assert(whole.subrange(at, at + pattern.len()) =~= pattern);
    if occurs_at(text, pattern, i) {
        let piece = text.subrange(i, i + pattern.len());
        assert(text =~= text.take(i) + piece + text.skip(i + pattern.len()));
    }
}

/// The last position up to `i` at which `pattern` stands in `text`.
pub open spec fn last_occurrence_to(text: Seq<char>, pattern: Seq<char>, i: int) -> Option<int>
    decreases i + 1,
{
    if i < 0 {
        None
    } else if occurs_at(text, pattern, i) {
        Some(i)
    } else {
        last_occurrence_to(text, pattern, i - 1)
    }
}

/// The last position at which `pattern` stands in `text`.
pub open spec fn last_occurrence(text: Seq<char>, pattern: Seq<char>) -> Option<int> {
    last_occurrence_to(text, pattern, text.len() - pattern.len())
}

proof fn last_occurrence_to_is_last(text: Seq<char>, pattern: Seq<char>, i: int)
    ensures
        match last_occurrence_to(text, pattern, i) {
            Some(k) => k <= i && occurs_at(text, pattern, k) && forall|j: int|
                k < j <= i ==> !#[trigger] occurs_at(text, pattern, j),
            None => forall|j: int| j <= i ==> !#[trigger] occurs_at(text, pattern, j),
        },
    decreases i + 1,
{
    if 0 <= i && !occurs_at(text, pattern, i) {
        last_occurrence_to_is_last(text, pattern, i - 1);
    }
}

/// `last_occurrence` is the greatest position at which the pattern stands, and
/// is missing only where the pattern stands nowhere.
pub proof fn last_occurrence_is_last(text: Seq<char>, pattern: Seq<char>)
    ensures
        match last_occurrence(text, pattern) {
            Some(k) => occurs_at(text, pattern, k) && forall|j: int|
                k < j ==> !#[trigger] occurs_at(text, pattern, j),
            None => forall|j: int| !#[trigger] occurs_at(text, pattern, j),
        },
{
    last_occurrence_to_is_last(text, pattern, text.len() - pattern.len());
}

fn occurs_at_exec(text: &Vec<char>, pattern: &Vec<char>, i: usize) -> (b: bool)
    requires
        i + pattern@.len() <= text@.len(),
    ensures
        b == occurs_at(text@, pattern@, i as int),
{
    let len: usize = text.len();
    let mut k: usize = 0;
    while k < pattern.len()
        invariant
            len == text@.len(),
            k <= pattern@.len(),
            i + pattern@.len() <= text@.len(),
            forall|j: int| 0 <= j < k ==> text@[i + j] == #[trigger] pattern@[j],
        decreases pattern@.len() - k,
    {
        if text[i + k] != pattern[k] {
            assert(text@.subrange(i as int, i + pattern@.len())[k as int] != pattern@[k as int]);
            return false;
        }
        k = k + 1;
    }
    assert(text@.subrange(i as int, i + pattern@.len()) =~= pattern@);
    true
}

fn find_last(text: &Vec<char>, pattern: &Vec<char>) -> (r: Option<usize>)
    ensures
        match r {
            Some(i) => last_occurrence(text@, pattern@) == Some(i as int),
            None => last_occurrence(text@, pattern@) is None,
        },
{
    if pattern.len() > text.len() {
        return None;
    }
    let mut i: usize = text.len() - pattern.len();
    loop
        invariant
            i + pattern@.len() <= text@.len(),
            last_occurrence(text@, pattern@) == last_occurrence_to(text@, pattern@, i as int),
        decreases i,
    {
        if occurs_at_exec(text, pattern, i) {
            return Some(i);
        }
        if i == 0 {
            assert(last_occurrence_to(text@, pattern@, -1) is None);
            return None;
        }
        i = i - 1;
    }
}

/// What stands in `s` before the first `c`, or the whole of `s` where there is
/// no `c`.
pub open spec fn before_first(s: Seq<char>, c: char) -> Seq<char>
    decreases s.len(),
{
    if s.len() == 0 || s[0] == c {
        Seq::empty()
    } else {
        seq![s[0]] + before_first(s.drop_first(), c)
    }
}

/// `before_first` ends where the first `c` stands, or at the end.
pub proof fn before_first_at(s: Seq<char>, c: char, n: int)
    requires
        0 <= n <= s.len(),
        forall|j: int| 0 <= j < n ==> s[j] != c,
        n < s.len() ==> s[n] == c,
    ensures
        before_first(s, c) == s.take(n),
    decreases n,
{
    if n == 0 {
        assert(s.take(0) =~= Seq::<char>::empty());
    } else {
        let rest = s.drop_first();
        assert forall|j: int| 0 <= j < n - 1 implies rest[j] != c by {
            assert(rest[j] == s[j + 1]);
        }
        before_first_at(rest, c, n - 1);
        assert(seq![s[0]] + rest.take(n - 1) =~= s.take(n));
    }
}

/// What follows the last `marker` in `text`, up to the first `stop`.
pub open spec fn field_after_last(text: Seq<char>, marker: Seq<char>, stop: char) -> Option<
    Seq<char>,
> {
    match last_occurrence(text, marker) {
        Some(i) => Some(before_first(text.skip(i + marker.len()), stop)),
        None => None,
    }
}

proof fn first_stop(s: Seq<char>, c: char) -> (n: int)
    ensures
        0 <= n <= s.len(),
        forall|j: int| 0 <= j < n ==> s[j] != c,
        n < s.len() ==> s[n] == c,
    decreases s.len(),
{
    if s.len() == 0 || s[0] == c {
        0
    } else {
        let rest = s.drop_first();
        let n = first_stop(rest, c);
        assert forall|j: int| 0 <= j < n + 1 implies s[j] != c by {
            if j > 0 {
                assert(rest[j - 1] == s[j]);
            }
        }
        n + 1
    }
}

/// There is a field where there is a marker. It begins right after the last marker
/// and ends before the first stop behind that, or at the end of the text.
pub proof fn a_field_follows_the_last_marker(
    text: Seq<char>,
    marker: Seq<char>,
    stop: char,
) -> (bounds: (int, int))
    ensures
        ({
            let (from, to) = bounds;
            match field_after_last(text, marker, stop) {
                None => forall|j: int| !#[trigger] occurs_at(text, marker, j),
                Some(field) => {
                    &&& from <= to <= text.len()
                    &&& field == text.subrange(from, to)
                    &&& occurs_at(text, marker, from - marker.len())
                    &&& forall|j: int|
                        j > from - marker.len() ==> !#[trigger] occurs_at(text, marker, j)
                    &&& forall|j: int| from <= j < to ==> text[j] != stop
                    &&& to < text.len() ==> text[to] == stop
                },
            }
        }),
{
    last_occurrence_is_last(text, marker);
    match last_occurrence(text, marker) {
        None => (0, 0),
        Some(i) => {
            let from = i + marker.len();
            let rest = text.skip(from);
            let n = first_stop(rest, stop);
            before_first_at(rest, stop, n);
            assert(rest.take(n) =~= text.subrange(from, from + n));
            assert forall|j: int| from <= j < from + n implies text[j] != stop by {
                assert(rest[j - from] == text[j]);
            }
            (from, from + n)
        },
    }
}

/// Takes the field that follows the last `marker` out of `text`.
pub fn field_after_last_text(text: &str, marker: &str, stop: char) -> (r: Option<String>)
    ensures
        option_view(r) == field_after_last(text@, marker@, stop),
{
    let chars = chars_of(text);
    let pattern = chars_of(marker);
    match find_last(&chars, &pattern) {
        None => None,
        Some(i) => {
            proof {
                last_occurrence_is_last(text@, marker@);
            }
            let len: usize = chars.len();
            let from: usize = i + pattern.len();
            let ghost rest = text@.skip(from as int);
            let mut to: usize = from;
            while to < len && chars[to] != stop
                invariant
                    chars@ == text@,
                    len == text@.len(),
                    from <= to <= text@.len(),
                    forall|j: int| from <= j < to ==> text@[j] != stop,
                decreases text@.len() - to,
            {
                to = to + 1;
            }
            assert(before_first(rest, stop) == rest.take(to - from)) by {
                assert forall|j: int| 0 <= j < to - from implies rest[j] != stop by {
                    assert(rest[j] == text@[from + j]);
                }
                before_first_at(rest, stop, to - from);
            }
            assert(before_first(rest, stop) =~= text@.subrange(from as int, to as int));
            Some(text.substring_char(from, to).to_owned())
        },
    }
}

/// How many marks stand at the beginning of a list.
pub open spec fn leading(marks: Seq<bool>) -> nat
    decreases marks.len(),
{
    if marks.len() > 0 && marks[0] {
        1 + leading(marks.drop_first())
    } else {
        0
    }
}

/// How many marks stand at the end of a list.
pub open spec fn trailing(marks: Seq<bool>) -> nat
    decreases marks.len(),
{
    if marks.len() > 0 && marks.last() {
        1 + trailing(marks.drop_last())
    } else {
        0
    }
}

/// `s` without the characters that are marked at its beginning and at its end.
pub open spec fn stripped(s: Seq<char>, marks: Seq<bool>) -> Seq<char> {
    if leading(marks) == marks.len() {
        Seq::empty()
    } else {
        s.subrange(leading(marks) as int, s.len() - trailing(marks))
    }
}

proof fn leading_is(marks: Seq<bool>, a: int)
    requires
        0 <= a <= marks.len(),
        forall|i: int| 0 <= i < a ==> #[trigger] marks[i],
        a < marks.len() ==> !marks[a],
    ensures
        leading(marks) == a,
    decreases a,
{
    if a > 0 {
        let rest = marks.drop_first();
        assert forall|i: int| 0 <= i < a - 1 implies #[trigger] rest[i] by {
            assert(rest[i] == marks[i + 1]);
        }
        leading_is(rest, a - 1);
    }
}

proof fn trailing_is(marks: Seq<bool>, b: int)
    requires
        0 <= b <= marks.len(),
        forall|i: int| b <= i < marks.len() ==> #[trigger] marks[i],
        b > 0 ==> !marks[b - 1],
    ensures
        trailing(marks) == marks.len() - b,
    decreases marks.len() - b,
{
    if b < marks.len() {
        let front = marks.drop_last();
        assert forall|i: int| b <= i < front.len() implies #[trigger] front[i] by {
            assert(front[i] == marks[i]);
        }
        trailing_is(front, b);
    }
}

/// Takes the characters that are marked off the beginning and the end of `text`.
pub fn strip(text: &str, marks: &Vec<bool>) -> (r: String)
    requires
        marks@.len() == text@.len(),
    ensures
        r@ == stripped(text@, marks@),
{
    let len: usize = marks.len();
    let mut from: usize = 0;
    while from < len && marks[from]
        invariant
            len == marks@.len(),
            from <= len,
            forall|i: int| 0 <= i < from ==> #[trigger] marks@[i],
        decreases len - from,
    {
        from = from + 1;
    }
    proof {
        leading_is(marks@, from as int);
    }
    let mut to: usize = len;
    while to > from && marks[to - 1]
        invariant
            len == marks@.len(),
            from <= to <= len,
            forall|i: int| to <= i < len ==> #[trigger] marks@[i],
        decreases to,
    {
        to = to - 1;
    }
    proof {
        if from < len {
            assert(to > from);
            trailing_is(marks@, to as int);
        }
    }
    let r = text.substring_char(from, to).to_owned();
    assert(r@ =~= stripped(text@, marks@));
    r
}

/// The characters with Unicode's property White_Space.
pub open spec fn white_space(c: char) -> bool {
    let code = c as u32;
    ||| 0x9 <= code <= 0xd
    ||| code == 0x20
    ||| code == 0x85
    ||| code == 0xa0
    ||| code == 0x1680
    ||| 0x2000 <= code <= 0x200a
    ||| code == 0x2028
    ||| code == 0x2029
    ||| code == 0x202f
    ||| code == 0x205f
    ||| code == 0x3000
}

/// `char::is_whitespace`: whether `c` has Unicode's property White_Space. The
/// contract lists the characters that have it.
#[verifier::external_body]
fn is_white_space(c: char) -> (b: bool)
    ensures
        b == white_space(c),
{
    c.is_whitespace()
}

/// Where in `s` there is white space.
pub open spec fn blanks(s: Seq<char>) -> Seq<bool> {
    Seq::new(s.len(), |i: int| white_space(s[i]))
}

/// `s` without the white space around it.
pub open spec fn trimmed(s: Seq<char>) -> Seq<char> {
    stripped(s, blanks(s))
}

/// Takes the white space around `text` off.
pub fn trim(text: &str) -> (r: String)
    ensures
        r@ == trimmed(text@),
{
    let chars = chars_of(text);
    let mut marks: Vec<bool> = Vec::new();
    let mut i: usize = 0;
    while i < chars.len()
        invariant
            i <= chars@.len(),
            chars@ == text@,
            marks@ == blanks(text@).take(i as int),
        decreases chars@.len() - i,
    {
        marks.push(is_white_space(chars[i]));
        assert(marks@ =~= blanks(text@).take(i + 1));
        i = i + 1;
    }
    assert(blanks(text@).take(text@.len() as int) =~= blanks(text@));
    strip(text, &marks)
}

proof fn leading_is_tight(marks: Seq<bool>)
    ensures
        leading(marks) <= marks.len(),
        forall|i: int| 0 <= i < leading(marks) ==> #[trigger] marks[i],
        leading(marks) < marks.len() ==> !marks[leading(marks) as int],
    decreases marks.len(),
{
    if marks.len() > 0 && marks[0] {
        let rest = marks.drop_first();
        leading_is_tight(rest);
        assert forall|i: int| 0 <= i < leading(marks) implies #[trigger] marks[i] by {
            if i > 0 {
                assert(rest[i - 1] == marks[i]);
            }
        }
    }
}

proof fn trailing_is_tight(marks: Seq<bool>)
    ensures
        trailing(marks) <= marks.len(),
        forall|i: int| marks.len() - trailing(marks) <= i < marks.len() ==> #[trigger] marks[i],
        trailing(marks) < marks.len() ==> !marks[marks.len() - trailing(marks) - 1],
    decreases marks.len(),
{
    if marks.len() > 0 && marks.last() {
        let front = marks.drop_last();
        trailing_is_tight(front);
        assert forall|i: int|
            marks.len() - trailing(marks) <= i < marks.len() implies #[trigger] marks[i] by {
            if i < front.len() {
                assert(front[i] == marks[i]);
            }
        }
    }
}

/// `stripped` is a piece of the text: all around it is marked, and neither its first
/// nor its last character is.
pub proof fn stripped_is_tight(s: Seq<char>, marks: Seq<bool>) -> (bounds: (int, int))
    requires
        marks.len() == s.len(),
    ensures
        ({
            let (a, b) = bounds;
            &&& 0 <= a <= b <= s.len()
            &&& stripped(s, marks) == s.subrange(a, b)
            &&& forall|i: int| 0 <= i < a || b <= i < s.len() ==> #[trigger] marks[i]
            &&& a < b ==> !marks[a] && !marks[b - 1]
        }),
{
    leading_is_tight(marks);
    trailing_is_tight(marks);
    let a = leading(marks) as int;
    let b = if a == s.len() {
        a
    } else {
        s.len() - trailing(marks)
    };
    if a < s.len() {
        assert(b > a) by {
            assert(!marks[a]);
        }
    }
    assert(stripped(s, marks) =~= s.subrange(a, b));
    (a, b)
}

/// `trimmed` is a piece of the text: all around it is white space, and neither
/// its first nor its last character is.
pub proof fn trimmed_is_tight(s: Seq<char>)
    ensures
        exists|a: int, b: int|
            0 <= a <= b <= s.len() && trimmed(s) == #[trigger] s.subrange(a, b) && (forall|i: int|
                0 <= i < a || b <= i < s.len() ==> white_space(#[trigger] s[i])),
        trimmed(s).len() > 0 ==> !white_space(trimmed(s).first()) && !white_space(
            trimmed(s).last(),
        ),
{
    let marks = blanks(s);
    let (a, b) = stripped_is_tight(s, marks);
    assert(trimmed(s) == s.subrange(a, b));
    assert forall|i: int| 0 <= i < a || b <= i < s.len() implies white_space(#[trigger] s[i]) by {
        assert(marks[i] == white_space(s[i]));
    }
}

/// A text that neither begins nor ends with white space is left as it is.
pub proof fn trimmed_leaves_solid_text(s: Seq<char>)
    requires
        s.len() > 0 ==> !white_space(s.first()) && !white_space(s.last()),
    ensures
        trimmed(s) == s,
{
    let marks = blanks(s);
    if s.len() > 0 {
        leading_is(marks, 0);
        trailing_is(marks, s.len() as int);
    }
    assert(trimmed(s) =~= s);
}

} // verus!
