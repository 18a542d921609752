use vstd::prelude::*;

verus! {

/// `String::push` appends one character to the end of the string.
pub assume_specification[ String::push ](s: &mut String, c: char)
    ensures
        final(s)@ == old(s)@.push(c),
;

/// The character that writes a single decimal digit.
pub open spec fn digit_char(d: nat) -> char {
    if d == 0 {
        '0'
    } else if d == 1 {
        '1'
    } else if d == 2 {
        '2'
    } else if d == 3 {
        '3'
    } else if d == 4 {
        '4'
    } else if d == 5 {
        '5'
    } else if d == 6 {
        '6'
    } else if d == 7 {
        '7'
    } else if d == 8 {
        '8'
    } else {
        '9'
    }
}

/// A natural number written in decimal, without sign or leading zeros.
pub open spec fn decimal(n: nat) -> Seq<char>
    decreases n,
{
    if n < 10 {
        seq![digit_char(n)]
    } else {
        decimal(n / 10).push(digit_char(n % 10))
    }
}

fn digit(d: u64) -> (c: char)
    requires
        d < 10,
    ensures
        c == digit_char(d as nat),
{
    if d == 0 {
        '0'
    } else if d == 1 {
        '1'
    } else if d == 2 {
        '2'
    } else if d == 3 {
        '3'
    } else if d == 4 {
        '4'
    } else if d == 5 {
        '5'
    } else if d == 6 {
        '6'
    } else if d == 7 {
        '7'
    } else if d == 8 {
        '8'
    } else {
        '9'
    }
}

/// Appends the decimal form of `n` to `out`.
pub fn push_decimal(out: &mut String, n: u64)
    ensures
        final(out)@ == old(out)@ + decimal(n as nat),
    decreases n,
{
    if n >= 10 {
        push_decimal(out, n / 10);
    }
    out.push(digit(n % 10));
}

/// The decimal form of `n` as a string.
pub fn decimal_string(n: u64) -> (text: String)
    ensures
        text@ == decimal(n as nat),
{
    let mut text = String::new();
    push_decimal(&mut text, n);
    text
}

/// The characters of a string, in order.
pub fn chars_of(s: &str) -> (chars: Vec<char>)
    ensures
        chars@ == s@,
{
    broadcast use vstd::string::group_string_axioms;

    let mut chars: Vec<char> = Vec::new();
    for c in it: s.chars()
        invariant
            it.seq() == s@,
            chars@ == s@.take(it.index()),
    {
        chars.push(c);
    }
    assert(s@.take(s@.len() as int) == s@);
    chars
}

/// The string made of the given characters.
pub fn string_of(chars: &Vec<char>) -> (text: String)
    ensures
        text@ == chars@,
{
    let mut text = String::new();
    let mut i: usize = 0;
    while i < chars.len()
        invariant
            i <= chars.len(),
            text@ == chars@.take(i as int),
        decreases chars.len() - i,
    {
        text.push(chars[i]);
        i += 1;
    }
    text
}

/// Whether a character is white space: one of the code points that Unicode
/// gives the property White_Space.
pub open spec fn is_space(c: char) -> bool {
    let code = c as u32;
    ||| 0x09 <= code <= 0x0D
    ||| code == 0x20
    ||| code == 0x85
    ||| code == 0xA0
    ||| code == 0x1680
    ||| 0x2000 <= code <= 0x200A
    ||| code == 0x2028
    ||| code == 0x2029
    ||| code == 0x202F
    ||| code == 0x205F
    ||| code == 0x3000
}

/// Whether `c` is white space.
pub fn char_is_space(c: char) -> (space: bool)
    ensures
        space == is_space(c),
{
    let code: u32 = c as u32;
    (0x09 <= code && code <= 0x0D) || code == 0x20 || code == 0x85 || code == 0xA0 || code
        == 0x1680 || (0x2000 <= code && code <= 0x200A) || code == 0x2028 || code == 0x2029
        || code == 0x202F || code == 0x205F || code == 0x3000
}

/// Whether a text holds nothing but white space.
pub open spec fn is_blank(s: Seq<char>) -> bool {
    forall|i: int| 0 <= i < s.len() ==> is_space(#[trigger] s[i])
}

/// Whether `chars` holds nothing but white space.
pub fn chars_are_blank(chars: &Vec<char>) -> (blank: bool)
    ensures
        blank == is_blank(chars@),
{
    let mut i: usize = 0;
    while i < chars.len()
        invariant
            i <= chars.len(),
            forall|j: int| 0 <= j < i ==> is_space(#[trigger] chars@[j]),
        decreases chars.len() - i,
    {
        if !char_is_space(chars[i]) {
            return false;
        }
        i += 1;
    }
    true
}

/// What `{:?}` writes for a string: the string in double quotes, with the
/// characters that cannot stand there as they are written as escapes.
pub uninterp spec fn debug_quoted(s: Seq<char>) -> Seq<char>;

/// Formats `s` with `{:?}`, the `Debug` form of `str`. The result depends on
/// the characters of `s` alone; the contract gives it a name and claims
/// nothing more of it.
#[verifier::external_body]
pub(crate) fn quote_debug(s: &str) -> (quoted: String)
    ensures
        quoted@ == debug_quoted(s@),
{
    format!("{:?}", s)
}

/// The characters of `chars` from place `from` up to, not including, place
/// `to`.
pub fn slice(chars: &Vec<char>, from: usize, to: usize) -> (part: Vec<char>)
    requires
        from <= to <= chars.len(),
    ensures
        part@ == chars@.subrange(from as int, to as int),
{
    let mut part: Vec<char> = Vec::new();
    let mut i: usize = from;
    while i < to
        invariant
            from <= i <= to,
            to <= chars.len(),
            part@ == chars@.subrange(from as int, i as int),
        decreases to - i,
    {
        part.push(chars[i]);
        assert(chars@.subrange(from as int, i + 1) =~= chars@.subrange(from as int, i as int).push(
            chars@[i as int],
        ));
        i += 1;
    }
    part
}

/// Whether `s` begins with `prefix`.
pub open spec fn starts_with(s: Seq<char>, prefix: Seq<char>) -> bool {
    prefix.len() <= s.len() && s.subrange(0, prefix.len() as int) == prefix
}

/// Whether `s` ends with `suffix`.
pub open spec fn ends_with(s: Seq<char>, suffix: Seq<char>) -> bool {
    suffix.len() <= s.len() && s.subrange(s.len() - suffix.len(), s.len() as int) == suffix
}

/// Whether `pattern` stands in `s` at place `at`.
pub open spec fn matches_at(s: Seq<char>, pattern: Seq<char>, at: int) -> bool {
    0 <= at && at + pattern.len() <= s.len() && s.subrange(at, at + pattern.len()) == pattern
}

/// Whether `pattern` stands in `chars` at place `at`.
pub fn has_at(chars: &Vec<char>, pattern: &Vec<char>, at: usize) -> (found: bool)
    ensures
        found == matches_at(chars@, pattern@, at as int),
{
    if at > chars.len() || pattern.len() > chars.len() - at {
        return false;
    }
    let mut i: usize = 0;
    while i < pattern.len()
        invariant
            i <= pattern.len(),
            at + pattern.len() <= chars.len(),
            forall|j: int| 0 <= j < i ==> chars@[at + j] == pattern@[j],
        decreases pattern.len() - i,
    {
        if chars[at + i] != pattern[i] {
            assert(chars@.subrange(at as int, at + pattern@.len())[i as int] != pattern@[i as int]);
            return false;
        }
        i += 1;
    }
    assert(chars@.subrange(at as int, at + pattern@.len()) =~= pattern@);
    true
}

/// Whether `chars` begins with `prefix`.
pub fn begins_with(chars: &Vec<char>, prefix: &Vec<char>) -> (found: bool)
    ensures
        found == starts_with(chars@, prefix@),
{
    has_at(chars, prefix, 0)
}

/// Whether `chars` ends with `suffix`.
pub fn finishes_with(chars: &Vec<char>, suffix: &Vec<char>) -> (found: bool)
    ensures
        found == ends_with(chars@, suffix@),
{
    if suffix.len() > chars.len() {
        false
    } else {
        has_at(chars, suffix, chars.len() - suffix.len())
    }
}

/// `s` without the white space at its start.
pub open spec fn trim_start(s: Seq<char>) -> Seq<char>
    decreases s.len(),
{
    if s.len() > 0 && is_space(s[0]) {
        trim_start(s.drop_first())
    } else {
        s
    }
}

/// `s` without the white space at its end.
pub open spec fn trim_end(s: Seq<char>) -> Seq<char>
    decreases s.len(),
{
    if s.len() > 0 && is_space(s.last()) {
        trim_end(s.drop_last())
    } else {
        s
    }
}

/// `s` without the white space at its start and at its end.
pub open spec fn trim(s: Seq<char>) -> Seq<char> {
    trim_end(trim_start(s))
}

/// `s` without the copies of `pattern` that it begins with, one after the
/// other. An empty pattern takes nothing away.
pub open spec fn strip_start(s: Seq<char>, pattern: Seq<char>) -> Seq<char>
    decreases s.len(),
{
    if pattern.len() > 0 && starts_with(s, pattern) {
        strip_start(s.subrange(pattern.len() as int, s.len() as int), pattern)
    } else {
        s
    }
}

/// `s` without the copies of `pattern` that it ends with, one before the
/// other. An empty pattern takes nothing away.
pub open spec fn strip_end(s: Seq<char>, pattern: Seq<char>) -> Seq<char>
    decreases s.len(),
{
    if pattern.len() > 0 && ends_with(s, pattern) {
        strip_end(s.subrange(0, s.len() - pattern.len()), pattern)
    } else {
        s
    }
}

/// The place where the white space at the start of `chars[from..to]` ends.
fn skip_spaces(chars: &Vec<char>, from: usize, to: usize) -> (at: usize)
    requires
        from <= to <= chars.len(),
    ensures
        from <= at <= to,
        trim_start(chars@.subrange(from as int, to as int)) == chars@.subrange(
            at as int,
            to as int,
        ),
{
    let mut at: usize = from;
    while at < to && char_is_space(chars[at])
        invariant
            from <= at <= to,
            to <= chars.len(),
            trim_start(chars@.subrange(from as int, to as int)) == trim_start(
                chars@.subrange(at as int, to as int),
            ),
        decreases to - at,
    {
        assert(chars@.subrange(at as int, to as int).drop_first() =~= chars@.subrange(
            at + 1,
            to as int,
        ));
        at += 1;
    }
    at
}

/// The place where the white space at the end of `chars[from..to]` begins.
fn drop_spaces(chars: &Vec<char>, from: usize, to: usize) -> (at: usize)
    requires
        from <= to <= chars.len(),
    ensures
        from <= at <= to,
        trim_end(chars@.subrange(from as int, to as int)) == chars@.subrange(
            from as int,
            at as int,
        ),
{
    let mut at: usize = to;
    while at > from && char_is_space(chars[at - 1])
        invariant
            from <= at <= to,
            to <= chars.len(),
            trim_end(chars@.subrange(from as int, to as int)) == trim_end(
                chars@.subrange(from as int, at as int),
            ),
        decreases at - from,
    {
        assert(chars@.subrange(from as int, at as int).drop_last() =~= chars@.subrange(
            from as int,
            at - 1,
        ));
        at -= 1;
    }
    at
}

/// `chars` without the white space at its start.
pub fn trimmed_start(chars: &Vec<char>) -> (rest: Vec<char>)
    ensures
        rest@ == trim_start(chars@),
{
    assert(chars@.subrange(0, chars@.len() as int) =~= chars@);
    let at = skip_spaces(chars, 0, chars.len());
    slice(chars, at, chars.len())
}

/// `chars` without the white space at its end.
pub fn trimmed_end(chars: &Vec<char>) -> (rest: Vec<char>)
    ensures
        rest@ == trim_end(chars@),
{
    assert(chars@.subrange(0, chars@.len() as int) =~= chars@);
    let at = drop_spaces(chars, 0, chars.len());
    slice(chars, 0, at)
}

/// `chars` without the white space at its start and at its end.
pub fn trimmed(chars: &Vec<char>) -> (rest: Vec<char>)
    ensures
        rest@ == trim(chars@),
{
    assert(chars@.subrange(0, chars@.len() as int) =~= chars@);
    let from = skip_spaces(chars, 0, chars.len());
    let to = drop_spaces(chars, from, chars.len());
    slice(chars, from, to)
}

/// `chars` without the copies of `pattern` that it begins with.
pub fn stripped_start(chars: &Vec<char>, pattern: &Vec<char>) -> (rest: Vec<char>)
    ensures
        rest@ == strip_start(chars@, pattern@),
{
    let mut at: usize = 0;
    assert(chars@.subrange(0, chars@.len() as int) =~= chars@);
    if pattern.len() > 0 {
        while has_at(chars, pattern, at)
            invariant
                at <= chars.len(),
                pattern.len() > 0,
                strip_start(chars@, pattern@) == strip_start(
                    chars@.subrange(at as int, chars@.len() as int),
                    pattern@,
                ),
            decreases chars.len() - at,
        {
            let ghost rest = chars@.subrange(at as int, chars@.len() as int);
            assert(rest.subrange(0, pattern@.len() as int) =~= chars@.subrange(
                at as int,
                at + pattern@.len(),
            ));
            assert(rest.subrange(pattern@.len() as int, rest.len() as int) =~= chars@.subrange(
                at + pattern@.len(),
                chars@.len() as int,
            ));
            at += pattern.len();
        }
        let ghost rest = chars@.subrange(at as int, chars@.len() as int);
        assert(rest.len() >= pattern@.len() ==> rest.subrange(0, pattern@.len() as int)
            =~= chars@.subrange(at as int, at + pattern@.len()));
    }
    slice(chars, at, chars.len())
}

/// `chars` without the copies of `pattern` that it ends with.
pub fn stripped_end(chars: &Vec<char>, pattern: &Vec<char>) -> (rest: Vec<char>)
    ensures
        rest@ == strip_end(chars@, pattern@),
{
    let mut to: usize = chars.len();
    assert(chars@.subrange(0, chars@.len() as int) =~= chars@);
    if pattern.len() > 0 {
        while to >= pattern.len() && has_at(chars, pattern, to - pattern.len())
            invariant
                to <= chars.len(),
                pattern.len() > 0,
                strip_end(chars@, pattern@) == strip_end(chars@.subrange(0, to as int), pattern@),
            decreases to,
        {
            let ghost rest = chars@.subrange(0, to as int);
            assert(rest.subrange(rest.len() - pattern@.len(), rest.len() as int)
                =~= chars@.subrange(to - pattern@.len(), to as int));
            assert(rest.subrange(0, rest.len() - pattern@.len()) =~= chars@.subrange(
                0,
                to - pattern@.len(),
            ));
            to -= pattern.len();
        }
        let ghost rest = chars@.subrange(0, to as int);
        assert(rest.len() >= pattern@.len() ==> rest.subrange(
            rest.len() - pattern@.len(),
            rest.len() as int,
        ) =~= chars@.subrange(to - pattern@.len(), to as int));
    }
    slice(chars, 0, to)
}

/// Whether the first line of `s` ends at place `i`: there stands the first
/// line feed, or `s` ends there without one.
pub open spec fn is_line_end(s: Seq<char>, i: int) -> bool {
    &&& 0 <= i <= s.len()
    &&& (i == s.len() || s[i] == '\n')
    &&& forall|j: int| 0 <= j < i ==> s[j] != '\n'
}

/// The place where the first line of `s` ends.
pub open spec fn first_line_end(s: Seq<char>) -> int {
    choose|i: int| is_line_end(s, i)
}

/// A line without the carriage return that it ends with, if it ends with
/// one.
pub open spec fn without_cr(line: Seq<char>) -> Seq<char> {
    if line.len() > 0 && line.last() == '\r' {
        line.drop_last()
    } else {
        line
    }
}

/// The lines of a text. A line ends with a line feed, or with a carriage
/// return and a line feed, neither of which belongs to the line; the last
/// line may do without, and then keeps a carriage return that it ends with.
/// An empty text has no line, and no empty line follows the last line end.
pub open spec fn lines_of(s: Seq<char>) -> Seq<Seq<char>>
    decreases s.len(),
{
    if s.len() == 0 {
        Seq::empty()
    } else {
        let end = first_line_end(s);
        if 0 <= end < s.len() {
            seq![without_cr(s.subrange(0, end))] + lines_of(s.subrange(end + 1, s.len() as int))
        } else {
            seq![s]
        }
    }
}

/// The first line of a text ends at one place only.
pub proof fn line_end_is_unique(s: Seq<char>, i: int)
    requires
        is_line_end(s, i),
    ensures
        first_line_end(s) == i,
{
    let j = first_line_end(s);
    assert(is_line_end(s, j));
    if i < j {
        assert(s[i] != '\n');
    } else if j < i {
        assert(s[j] != '\n');
    }
}

/// The character sequences of a list of texts.
pub open spec fn char_views(texts: Seq<Vec<char>>) -> Seq<Seq<char>> {
    Seq::new(texts.len(), |i: int| texts[i]@)
}

/// The lines of `chars`.
pub fn split_lines(chars: &Vec<char>) -> (lines: Vec<Vec<char>>)
    ensures
        char_views(lines@) == lines_of(chars@),
{
    let mut lines: Vec<Vec<char>> = Vec::new();
    let mut from: usize = 0;
    assert(chars@.subrange(0, chars@.len() as int) =~= chars@);
    assert(char_views(lines@) =~= Seq::<Seq<char>>::empty());
    while from < chars.len()
        invariant
            from <= chars.len(),
            lines_of(chars@) == char_views(lines@) + lines_of(
                chars@.subrange(from as int, chars@.len() as int),
            ),
        decreases chars.len() - from,
    {
        let ghost rest = chars@.subrange(from as int, chars@.len() as int);
        let mut end: usize = from;
        while end < chars.len() && chars[end] != '\n'
            invariant
                from <= end <= chars.len(),
                forall|j: int| from <= j < end ==> chars@[j] != '\n',
            decreases chars.len() - end,
        {
            end += 1;
        }
        proof {
            assert(is_line_end(rest, end - from));
            line_end_is_unique(rest, end - from);
            assert(rest.subrange(0, end - from) =~= chars@.subrange(from as int, end as int));
        }
        let ghost before = char_views(lines@);
        if end < chars.len() {
            let stop: usize = if end > from && chars[end - 1] == '\r' {
                end - 1
            } else {
                end
            };
            let line = slice(chars, from, stop);
            proof {
                let whole = chars@.subrange(from as int, end as int);
                if end > from && chars@[end - 1] == '\r' {
                    assert(whole.drop_last() =~= chars@.subrange(from as int, stop as int));
                }
                assert(line@ == without_cr(whole));
                assert(rest.subrange(end - from + 1, rest.len() as int) =~= chars@.subrange(
                    end + 1,
                    chars@.len() as int,
                ));
            }
            lines.push(line);
            proof {
                assert(char_views(lines@) =~= before.push(line@));
                assert(before + (seq![line@] + lines_of(
                    chars@.subrange(end + 1, chars@.len() as int),
                )) =~= before.push(line@) + lines_of(
                    chars@.subrange(end + 1, chars@.len() as int),
                ));
            }
            from = end + 1;
        } else {
            let line = slice(chars, from, end);
            lines.push(line);
            proof {
                assert(line@ == rest);
                assert(char_views(lines@) =~= before.push(line@));
                assert(chars@.subrange(end as int, chars@.len() as int) =~= Seq::<char>::empty());
                assert(before + seq![rest] =~= before.push(line@) + Seq::<Seq<char>>::empty());
            }
            from = end;
        }
    }
    assert(chars@.subrange(from as int, chars@.len() as int) =~= Seq::<char>::empty());
    assert(char_views(lines@) + Seq::<Seq<char>>::empty() =~= char_views(lines@));
    lines
}

/// Whether `pattern` stands somewhere in `s`.
pub open spec fn contains_text(s: Seq<char>, pattern: Seq<char>) -> bool {
    exists|i: int| matches_at(s, pattern, i)
}

/// Whether place `i` is the first at or after `from` where `pattern` stands
/// in `s`.
pub open spec fn is_first_match(s: Seq<char>, pattern: Seq<char>, from: int, i: int) -> bool {
    &&& from <= i
    &&& matches_at(s, pattern, i)
    &&& forall|j: int| from <= j < i ==> !matches_at(s, pattern, j)
}

/// Whether `pattern` stands in `s` at or after place `from`.
pub open spec fn has_match_from(s: Seq<char>, pattern: Seq<char>, from: int) -> bool {
    exists|i: int| from <= i && matches_at(s, pattern, i)
}

/// The first place at or after `from` where `pattern` stands in `s`, if
/// there is one.
pub open spec fn first_match_from(s: Seq<char>, pattern: Seq<char>, from: int) -> Option<int> {
    if has_match_from(s, pattern, from) {
        Some(choose|i: int| is_first_match(s, pattern, from, i))
    } else {
        None
    }
}

/// The first place where `pattern` stands in `s`, if there is one.
pub open spec fn first_match(s: Seq<char>, pattern: Seq<char>) -> Option<int> {
    first_match_from(s, pattern, 0)
}

/// A pattern stands first at one place only.
pub proof fn first_match_is_unique(s: Seq<char>, pattern: Seq<char>, from: int, i: int)
    requires
        is_first_match(s, pattern, from, i),
    ensures
        first_match_from(s, pattern, from) == Some(i),
{
    assert(has_match_from(s, pattern, from));
    let j = choose|j: int| is_first_match(s, pattern, from, j);
    assert(is_first_match(s, pattern, from, j));
    if i < j {
        assert(!matches_at(s, pattern, i));
    } else if j < i {
        assert(!matches_at(s, pattern, j));
    }
}

/// The first place at or after `from` where `pattern` stands in `chars`.
pub fn find_from(chars: &Vec<char>, pattern: &Vec<char>, from: usize) -> (place: Option<usize>)
    ensures
        first_match_from(chars@, pattern@, from as int) == match place {
            Some(i) => Some(i as int),
            None => None,
        },
        match place {
            Some(i) => is_first_match(chars@, pattern@, from as int, i as int),
            None => !has_match_from(chars@, pattern@, from as int),
        },
{
    let mut i: usize = from;
    while i < chars.len()
        invariant
            from <= i,
            forall|j: int| from <= j < i ==> !matches_at(chars@, pattern@, j),
        decreases chars.len() - i,
    {
        if has_at(chars, pattern, i) {
            proof {
                first_match_is_unique(chars@, pattern@, from as int, i as int);
            }
            return Some(i);
        }
        i += 1;
    }
    if i == chars.len() && has_at(chars, pattern, i) {
        proof {
            first_match_is_unique(chars@, pattern@, from as int, i as int);
        }
        return Some(i);
    }
    assert(!has_match_from(chars@, pattern@, from as int));
    None
}

/// The first place where `pattern` stands in `chars`.
pub fn find(chars: &Vec<char>, pattern: &Vec<char>) -> (place: Option<usize>)
    ensures
        first_match(chars@, pattern@) == match place {
            Some(i) => Some(i as int),
            None => None,
        },
        match place {
            Some(i) => is_first_match(chars@, pattern@, 0, i as int),
            None => !contains_text(chars@, pattern@),
        },
{
    let place = find_from(chars, pattern, 0);
    proof {
        if place is None && contains_text(chars@, pattern@) {
            let j = choose|j: int| matches_at(chars@, pattern@, j);
            assert(0 <= j && matches_at(chars@, pattern@, j));
        }
    }
    place
}

/// Whether `pattern` stands somewhere in `chars`.
pub fn holds_text(chars: &Vec<char>, pattern: &Vec<char>) -> (found: bool)
    ensures
        found == contains_text(chars@, pattern@),
{
    match find(chars, pattern) {
        Some(_) => true,
        None => false,
    }
}

/// The value of a decimal digit, if the character is one.
pub open spec fn digit_value(c: char) -> Option<nat> {
    if '0' <= c <= '9' {
        Some((c as u32 - '0' as u32) as nat)
    } else {
        None
    }
}

/// Whether a text is made of decimal digits only.
pub open spec fn all_digits(s: Seq<char>) -> bool {
    forall|i: int| 0 <= i < s.len() ==> digit_value(#[trigger] s[i]) is Some
}

/// The number that decimal digits write.
pub open spec fn digits_value(s: Seq<char>) -> nat
    decreases s.len(),
{
    if s.len() == 0 {
        0
    } else {
        digits_value(s.drop_last()) * 10 + digit_value(s.last()).unwrap_or(0)
    }
}

/// The digits of a number that is written with or without a plus sign
/// before it.
pub open spec fn unsigned_digits(s: Seq<char>) -> Seq<char> {
    if s.len() > 0 && s[0] == '+' {
        s.drop_first()
    } else {
        s
    }
}

/// The number that a text writes, if it writes one that fits 32 bits: one
/// or more decimal digits, with or without a plus sign before them, and
/// nothing else.
pub open spec fn parsed_u32(s: Seq<char>) -> Option<u32> {
    let digits = unsigned_digits(s);
    if digits.len() > 0 && all_digits(digits) && digits_value(digits) <= u32::MAX {
        Some(digits_value(digits) as u32)
    } else {
        None
    }
}

/// More digits never write a smaller number.
proof fn digits_value_grows(s: Seq<char>, n: int)
    requires
        0 <= n <= s.len(),
    ensures
        digits_value(s.take(n)) <= digits_value(s),
    decreases s.len() - n,
{
    if n < s.len() {
        digits_value_grows(s, n + 1);
        assert(s.take(n + 1).drop_last() =~= s.take(n));
    } else {
        assert(s.take(n) =~= s);
    }
}

/// Reads the number that `chars` writes.
pub fn parse_u32(chars: &Vec<char>) -> (number: Option<u32>)
    ensures
        number == parsed_u32(chars@),
{
    let start: usize = if chars.len() > 0 && chars[0] == '+' {
        1
    } else {
        0
    };
    let ghost digits = unsigned_digits(chars@);
    assert(digits =~= chars@.subrange(start as int, chars@.len() as int));
    if start == chars.len() {
        return None;
    }
    let mut value: u64 = 0;
    let mut i: usize = start;
    assert(digits.take(0) =~= Seq::<char>::empty());
    while i < chars.len()
        invariant
            start <= i <= chars.len(),
            digits == unsigned_digits(chars@),
            digits == chars@.subrange(start as int, chars@.len() as int),
            all_digits(digits.take(i - start)),
            value == digits_value(digits.take(i - start)),
            value <= u32::MAX,
        decreases chars.len() - i,
    {
        let c = chars[i];
        let ghost before = digits.take(i - start);
        let ghost after = digits.take(i - start + 1);
        assert(after.drop_last() =~= before);
        assert(after.last() == c);
        if c < '0' || c > '9' {
            assert(digit_value(digits[i - start]) is None);
            assert(!all_digits(digits));
            return None;
        }
        let d: u64 = (c as u32 - '0' as u32) as u64;
        assert forall|j: int| 0 <= j < after.len() implies digit_value(#[trigger] after[j])
            is Some by {
            if j < before.len() {
                assert(after[j] == before[j]);
            }
        }
        value = value * 10 + d;
        if value > u32::MAX as u64 {
            proof {
                digits_value_grows(digits, i - start + 1);
            }
            return None;
        }
        i += 1;
    }
    assert(digits.take(digits.len() as int) =~= digits);
    Some(value as u32)
}

/// A text with every space replaced by a hyphen.
pub open spec fn hyphenated(s: Seq<char>) -> Seq<char> {
    Seq::new(s.len(), |i: int| if s[i] == ' ' { '-' } else { s[i] })
}

/// Replaces every space of `chars` by a hyphen.
pub fn hyphenate(chars: &Vec<char>) -> (replaced: Vec<char>)
    ensures
        replaced@ == hyphenated(chars@),
{
    let mut replaced: Vec<char> = Vec::new();
    let mut i: usize = 0;
    while i < chars.len()
        invariant
            i <= chars.len(),
            replaced@.len() == i,
            forall|j: int| 0 <= j < i ==> replaced@[j] == hyphenated(chars@)[j],
        decreases chars.len() - i,
    {
        replaced.push(if chars[i] == ' ' { '-' } else { chars[i] });
        i += 1;
    }
    assert(replaced@ =~= hyphenated(chars@));
    replaced
}

/// The place of the first `c` in `s`, if `c` stands in `s`.
pub open spec fn first_char(s: Seq<char>, c: char) -> Option<int> {
    first_match(s, seq![c])
}

/// The place of the first `c` in `chars`.
pub fn find_char(chars: &Vec<char>, c: char) -> (place: Option<usize>)
    ensures
        first_char(chars@, c) == match place {
            Some(i) => Some(i as int),
            None => None,
        },
        place matches Some(i) ==> i < chars@.len() && chars@[i as int] == c,
{
    let mut pattern: Vec<char> = Vec::new();
    pattern.push(c);
    assert(pattern@ =~= seq![c]);
    let place = find(chars, &pattern);
    proof {
        match place {
            Some(i) => {
                assert(matches_at(chars@, pattern@, i as int));
                assert(chars@.subrange(i as int, i + 1)[0] == c);
            },
            None => {},
        }
    }
    place
}

/// What `str::to_lowercase` makes of a text: its lower-case form by the
/// rules of Unicode.
pub uninterp spec fn lowercase(s: Seq<char>) -> Seq<char>;

/// The lower-case form of `s`, by `str::to_lowercase`. The result depends on
/// the characters of `s` alone; the contract gives it a name and claims
/// nothing more of it.
#[verifier::external_body]
pub(crate) fn to_lowercase(s: &str) -> (lower: String)
    ensures
        lower@ == lowercase(s@),
{
    s.to_lowercase()
}

} // verus!
