//! Text helpers shared by the rest of the library.

use vstd::prelude::*;
use vstd::string::*;

verus! {

/// The decimal digit character for `d` (`0 <= d < 10`).
pub open spec fn digit_char(d: nat) -> char {
    if d == 0 { '0' }
    else if d == 1 { '1' }
    else if d == 2 { '2' }
    else if d == 3 { '3' }
    else if d == 4 { '4' }
    else if d == 5 { '5' }
    else if d == 6 { '6' }
    else if d == 7 { '7' }
    else if d == 8 { '8' }
    else { '9' }
}

/// The decimal representation of `n`, without sign or leading zeros.
pub open spec fn decimal(n: nat) -> Seq<char>
    decreases n,
{
    if n < 10 {
        seq![digit_char(n)]
    } else {
        decimal(n / 10).push(digit_char(n % 10))
    }
}

/// The value of a decimal digit character.
pub open spec fn digit_value(c: char) -> nat {
    if c == '1' { 1 }
    else if c == '2' { 2 }
    else if c == '3' { 3 }
    else if c == '4' { 4 }
    else if c == '5' { 5 }
    else if c == '6' { 6 }
    else if c == '7' { 7 }
    else if c == '8' { 8 }
    else if c == '9' { 9 }
    else { 0 }
}

/// Whether `c` is one of `0` to `9`.
pub open spec fn is_digit(c: char) -> bool {
    '0' <= c <= '9'
}

/// The number that a string of decimal digits stands for.
pub open spec fn decimal_value(s: Seq<char>) -> nat
    decreases s.len(),
{
    if s.len() == 0 {
        0
    } else {
        decimal_value(s.drop_last()) * 10 + digit_value(s.last())
    }
}

proof fn digit_round_trip(d: nat)
    requires
        d < 10,
    ensures
        digit_value(digit_char(d)) == d,
        is_digit(digit_char(d)),
        d > 0 ==> digit_char(d) != '0',
{
}

/// The decimal text of a number is made of digits, has no leading zero, and
/// reads back as the number.
pub proof fn decimal_reads_back(n: nat)
    ensures
        decimal(n).len() > 0,
        decimal(n).len() == 1 <==> n < 10,
        forall|i: int| 0 <= i < decimal(n).len() ==> is_digit(#[trigger] decimal(n)[i]),
        decimal(n).len() > 1 ==> decimal(n)[0] != '0',
        decimal_value(decimal(n)) == n,
    decreases n,
{
    if n < 10 {
        digit_round_trip(n);
        assert(decimal(n).drop_last() =~= Seq::<char>::empty());
        assert(decimal_value(Seq::<char>::empty()) == 0);
        assert(decimal_value(decimal(n)) == decimal_value(decimal(n).drop_last()) * 10 + digit_value(decimal(n).last()));
    } else {
        let m = n / 10;
        decimal_reads_back(m);
        digit_round_trip(n % 10);
        let d = decimal(n);
        assert(d.drop_last() =~= decimal(m));
        assert(forall|i: int| 0 <= i < decimal(m).len() ==> d[i] == decimal(m)[i]);
        assert(m * 10 + n % 10 == n);
        assert(decimal_value(d) == decimal_value(decimal(m)) * 10 + digit_value(d.last()));
        if decimal(m).len() == 1 {
            digit_round_trip(m);
        }
    }
}

fn digit_str(d: u64) -> (s: &'static str)
    requires
        d < 10,
    ensures
        s@ == seq![digit_char(d as nat)],
{
    if d == 0 {
        proof { reveal_strlit("0"); }
        "0"
    } else if d == 1 {
        proof { reveal_strlit("1"); }
        "1"
    } else if d == 2 {
        proof { reveal_strlit("2"); }
        "2"
    } else if d == 3 {
        proof { reveal_strlit("3"); }
        "3"
    } else if d == 4 {
        proof { reveal_strlit("4"); }
        "4"
    } else if d == 5 {
        proof { reveal_strlit("5"); }
        "5"
    } else if d == 6 {
        proof { reveal_strlit("6"); }
        "6"
    } else if d == 7 {
        proof { reveal_strlit("7"); }
        "7"
    } else if d == 8 {
        proof { reveal_strlit("8"); }
        "8"
    } else {
        proof { reveal_strlit("9"); }
        "9"
    }
}

/// Writes `n` in decimal, as `{}` formatting of an unsigned integer does.
pub fn decimal_text(n: u64) -> (s: String)
    ensures
        s@ == decimal(n as nat),
    decreases n,
{
    if n < 10 {
        digit_str(n).to_owned()
    } else {
        let mut s = decimal_text(n / 10);
        s.append(digit_str(n % 10));
        s
    }
}


/// Whether two string slices hold the same characters.
pub fn text_eq(a: &str, b: &str) -> (r: bool)
    ensures
        r == (a@ == b@),
{
    let x = a.to_owned();
    let y = b.to_owned();
    x == y
}

/// The views of a sequence of strings.
pub open spec fn views(s: Seq<String>) -> Seq<Seq<char>> {
    s.map_values(|e: String| e@)
}

/// The pieces of `parts` joined with `sep` between consecutive pieces, as
/// `[String]::join` does.
pub open spec fn joined(parts: Seq<Seq<char>>, sep: Seq<char>) -> Seq<char>
    decreases parts.len(),
{
    if parts.len() == 0 {
        Seq::empty()
    } else if parts.len() == 1 {
        parts[0]
    } else {
        joined(parts.drop_last(), sep) + sep + parts.last()
    }
}

/// The text of `errors`, one per line, followed by a blank line and `text`;
/// just `text` when there are no errors.
pub open spec fn errors_then_text(errors: Seq<Seq<char>>, text: Seq<char>) -> Seq<char> {
    if errors.len() == 0 {
        text
    } else {
        joined(errors, seq!['\n']) + seq!['\n', '\n'] + text
    }
}

/// Joins `parts` with newlines.
pub fn join_lines(parts: &[String]) -> (r: String)
    ensures
        r@ == joined(views(parts@), seq!['\n']),
{
    let mut out = String::new();
    let ghost all = views(parts@);
    let mut i: usize = 0;
    while i < parts.len()
        invariant
            0 <= i <= parts@.len(),
            all == views(parts@),
            out@ == joined(all.take(i as int), seq!['\n']),
        decreases parts@.len() - i,
    {
        assert(all.take(i + 1).drop_last() =~= all.take(i as int));
        if i == 0 {
            out.append(parts[i].as_str());
            assert(out@ =~= joined(all.take(1), seq!['\n']));
        } else {
            proof { reveal_strlit("\n"); }
            out.append("\n");
            out.append(parts[i].as_str());
        }
        i = i + 1;
    }
    assert(all.take(parts@.len() as int) =~= all);
    out
}

/// Puts the error lines in front of a reply: one error per line, a blank line,
/// then the text. With no errors the text is returned unchanged.
pub fn prepend_errors(errors: &[String], text: &str) -> (r: String)
    ensures
        r@ == errors_then_text(views(errors@), text@),
{
    if errors.len() == 0 {
        text.to_owned()
    } else {
        let mut out = join_lines(errors);
        proof { reveal_strlit("\n\n"); }
        out.append("\n\n");
        out.append(text);
        out
    }
}

/// The first `max` characters of `s`, or all of `s` when it is not longer.
pub open spec fn first_chars(s: Seq<char>, max: nat) -> Seq<char> {
    if s.len() <= max {
        s
    } else {
        s.subrange(0, max as int)
    }
}

/// Cuts `s` after its first `max` characters (not bytes), so that a multi-byte
/// character is never split.
pub fn truncate_to_chars(s: &str, max: usize) -> (r: &str)
    ensures
        r@ == first_chars(s@, max as nat),
{
    let n = s.unicode_len();
    if n > max {
        s.substring_char(0, max)
    } else {
        s
    }
}

/// The value that follows the first occurrence of `flag` in `args`: `None`
/// when the flag is absent or is the last argument.
pub open spec fn flag_value(args: Seq<Seq<char>>, flag: Seq<char>) -> Option<Seq<char>>
    decreases args.len(),
{
    if args.len() == 0 {
        None
    } else if args[0] == flag {
        if args.len() >= 2 {
            Some(args[1])
        } else {
            None
        }
    } else {
        flag_value(args.drop_first(), flag)
    }
}

/// Cutting twice is cutting once, at the smaller length; a cut text is a
/// prefix of the text and is `max` characters long unless the text is shorter.
pub proof fn truncation_laws(s: Seq<char>, a: nat, b: nat)
    ensures
        first_chars(first_chars(s, a), b) == first_chars(s, if a < b { a } else { b }),
        first_chars(s, a).len() == if s.len() < a { s.len() } else { a },
        first_chars(s, a) == s.subrange(0, first_chars(s, a).len() as int),
        s.len() <= a ==> first_chars(s, a) == s,
{
    assert(s.subrange(0, s.len() as int) =~= s);
    if s.len() > a && a > b {
        assert(s.subrange(0, a as int).subrange(0, b as int) =~= s.subrange(0, b as int));
    }
}

/// The value of a flag is the argument right after its first occurrence;
/// arguments before it are passed over, and a flag given last has no value.
pub proof fn flag_value_is_next_argument(rest: Seq<Seq<char>>, flag: Seq<char>, arg: Seq<char>, value: Seq<char>)
    ensures
        flag_value(Seq::empty(), flag) is None,
        flag_value(seq![flag], flag) is None,
        flag_value(seq![flag, value] + rest, flag) == Some(value),
        arg != flag ==> flag_value(seq![arg] + rest, flag) == flag_value(rest, flag),
{
    assert((seq![flag, value] + rest)[0] == flag);
    assert((seq![flag, value] + rest)[1] == value);
    assert((seq![arg] + rest)[0] == arg);
    assert((seq![arg] + rest).drop_first() =~= rest);
}

/// Joining puts the separator between consecutive pieces and nowhere else.
pub proof fn joined_puts_separator_between(parts: Seq<Seq<char>>, part: Seq<char>, sep: Seq<char>)
    ensures
        joined(Seq::empty(), sep) == Seq::<char>::empty(),
        joined(seq![part], sep) == part,
        parts.len() > 0 ==> joined(parts.push(part), sep) == joined(parts, sep) + sep + part,
{
    assert(seq![part].len() == 1);
    assert(parts.push(part).drop_last() =~= parts);
}

/// With no errors the reply is the text unchanged; otherwise the errors come
/// first, one per line, then a blank line, then the text.
pub proof fn errors_come_first(errors: Seq<Seq<char>>, text: Seq<char>)
    ensures
        errors.len() == 0 ==> errors_then_text(errors, text) == text,
        errors.len() > 0 ==> errors_then_text(errors, text) == joined(errors, seq!['\n']) + seq!['\n', '\n']
            + text,
{
}

/// Looks up the value given after `flag` on a command line.
pub fn parse_flag(args: &[String], flag: &str) -> (r: Option<String>)
    ensures
        match r {
            Some(v) => flag_value(views(args@), flag@) == Some(v@),
            None => flag_value(views(args@), flag@) is None,
        },
{
    let ghost all = views(args@);
    assert(all.skip(0) =~= all);
    let mut i: usize = 0;
    while i < args.len()
        invariant
            0 <= i <= args@.len(),
            all == views(args@),
            flag_value(all, flag@) == flag_value(all.skip(i as int), flag@),
        decreases args@.len() - i,
    {
        assert(all.skip(i as int)[0] == args@[i as int]@);
        if text_eq(args[i].as_str(), flag) {
            if i + 1 < args.len() {
                assert(all.skip(i as int)[1] == args@[i + 1]@);
                return Some(args[i + 1].clone());
            } else {
                return None;
            }
        }
        assert(all.skip(i as int).drop_first() =~= all.skip(i + 1));
        i = i + 1;
    }
    None
}


/// Whether `c` has the Unicode `White_Space` property, the property that
/// `char::is_whitespace` and `str::trim` go by.
pub open spec fn is_white_space(c: char) -> bool {
    let u = c as int;
    ||| 0x09 <= u <= 0x0D
    ||| u == 0x20
    ||| u == 0x85
    ||| u == 0xA0
    ||| u == 0x1680
    ||| 0x2000 <= u <= 0x200A
    ||| u == 0x2028
    ||| u == 0x2029
    ||| u == 0x202F
    ||| u == 0x205F
    ||| u == 0x3000
}

/// `s` without its leading white space.
pub open spec fn trim_start(s: Seq<char>) -> Seq<char>
    decreases s.len(),
{
    if s.len() > 0 && is_white_space(s[0]) {
        trim_start(s.drop_first())
    } else {
        s
    }
}

/// `s` without its trailing white space.
pub open spec fn trim_end(s: Seq<char>) -> Seq<char>
    decreases s.len(),
{
    if s.len() > 0 && is_white_space(s.last()) {
        trim_end(s.drop_last())
    } else {
        s
    }
}

/// `s` without leading and trailing white space.
pub open spec fn trimmed(s: Seq<char>) -> Seq<char> {
    trim_end(trim_start(s))
}

/// Whether every character of `s` is white space.
pub open spec fn all_white_space(s: Seq<char>) -> bool {
    forall|i: int| 0 <= i < s.len() ==> is_white_space(#[trigger] s[i])
}

proof fn trim_start_skips_white_space(a: Seq<char>, t: Seq<char>)
    requires
        all_white_space(a),
    ensures
        trim_start(a + t) == trim_start(t),
    decreases a.len(),
{
    if a.len() > 0 {
        assert((a + t)[0] == a[0]);
        assert((a + t).drop_first() =~= a.drop_first() + t);
        trim_start_skips_white_space(a.drop_first(), t);
    } else {
        assert(a + t =~= t);
    }
}

proof fn trim_end_skips_white_space(t: Seq<char>, b: Seq<char>)
    requires
        all_white_space(b),
    ensures
        trim_end(t + b) == trim_end(t),
    decreases b.len(),
{
    if b.len() > 0 {
        assert((t + b).last() == b.last());
        assert((t + b).drop_last() =~= t + b.drop_last());
        trim_end_skips_white_space(t, b.drop_last());
    } else {
        assert(t + b =~= t);
    }
}

proof fn trim_start_of_append(s: Seq<char>, b: Seq<char>)
    ensures
        trim_start(s).len() > 0 ==> trim_start(s + b) == trim_start(s) + b,
        trim_start(s).len() == 0 ==> trim_start(s + b) == trim_start(b),
    decreases s.len(),
{
    if s.len() == 0 {
        assert(s + b =~= b);
    } else {
        assert((s + b)[0] == s[0]);
        if is_white_space(s[0]) {
            assert((s + b).drop_first() =~= s.drop_first() + b);
            trim_start_of_append(s.drop_first(), b);
        }
    }
}

proof fn trim_start_is_empty_on_white_space(b: Seq<char>)
    requires
        all_white_space(b),
    ensures
        trim_start(b).len() == 0,
    decreases b.len(),
{
    if b.len() > 0 {
        trim_start_is_empty_on_white_space(b.drop_first());
    }
}

/// White space added around a text does not change the trimmed text.
pub proof fn surrounding_white_space_is_ignored(a: Seq<char>, s: Seq<char>, b: Seq<char>)
    requires
        all_white_space(a),
        all_white_space(b),
    ensures
        trimmed(a + s + b) == trimmed(s),
{
    trim_start_skips_white_space(a, s + b);
    assert(a + s + b =~= a + (s + b));
    trim_start_of_append(s, b);
    if trim_start(s).len() > 0 {
        trim_end_skips_white_space(trim_start(s), b);
    } else {
        trim_start_is_empty_on_white_space(b);
        assert(trim_start(b) =~= Seq::<char>::empty());
        assert(trim_start(s) =~= Seq::<char>::empty());
    }
}

/// Whether `c` has the Unicode `White_Space` property.
pub fn is_white_space_char(c: char) -> (r: bool)
    ensures
        r == is_white_space(c),
{
    let u = c as u32;
    (0x09 <= u && u <= 0x0D) || u == 0x20 || u == 0x85 || u == 0xA0 || u == 0x1680 || (0x2000 <= u
        && u <= 0x200A) || u == 0x2028 || u == 0x2029 || u == 0x202F || u == 0x205F || u == 0x3000
}

/// The slice of `s` without leading and trailing white space, white space
/// being the characters with the Unicode `White_Space` property (what
/// `str::trim` gives).
pub fn trim_white_space(s: &str) -> (r: &str)
    ensures
        r@ == trimmed(s@),
{
    let n = s.unicode_len();
    let mut start: usize = 0;
    assert(s@.skip(0) =~= s@);
    while start < n && is_white_space_char(s.get_char(start))
        invariant
            0 <= start <= n,
            n == s@.len(),
            trim_start(s@) == trim_start(s@.skip(start as int)),
        decreases n - start,
    {
        assert(s@.skip(start as int)[0] == s@[start as int]);
        assert(s@.skip(start as int).drop_first() =~= s@.skip(start + 1));
        start = start + 1;
    }
    if start < n {
        assert(s@.skip(start as int)[0] == s@[start as int]);
    } else {
        assert(s@.skip(start as int) =~= Seq::<char>::empty());
    }
    assert(trim_start(s@) == s@.subrange(start as int, n as int));
    let mut end: usize = n;
    assert(s@.subrange(start as int, n as int) =~= s@.subrange(start as int, end as int));
    while end > start && is_white_space_char(s.get_char(end - 1))
        invariant
            0 <= start <= end <= n,
            n == s@.len(),
            trim_end(s@.subrange(start as int, n as int)) == trim_end(s@.subrange(start as int, end as int)),
        decreases end - start,
    {
        assert(s@.subrange(start as int, end as int).last() == s@[end - 1]);
        assert(s@.subrange(start as int, end as int).drop_last() =~= s@.subrange(start as int, end - 1));
        end = end - 1;
    }
    if end > start {
        assert(s@.subrange(start as int, end as int).last() == s@[end - 1]);
    } else {
        assert(s@.subrange(start as int, end as int) =~= Seq::<char>::empty());
    }
    s.substring_char(start, end)
}

} // verus!
