//! Building blocks for emitted text: separated lists and literals.

use vstd::prelude::*;

verus! {

/// `str`'s `==`: two string slices are equal exactly when they hold the same
/// characters.
pub assume_specification[ <str as PartialEq>::eq ](a: &str, b: &str) -> (equal: bool)
    ensures
        equal == (a@ == b@),
;

/// Every part in order, each followed by `end`.
pub open spec fn terminated(parts: Seq<Seq<char>>, end: Seq<char>) -> Seq<char>
    decreases parts.len(),
{
    if parts.len() == 0 {
        Seq::empty()
    } else {
        terminated(parts.drop_last(), end) + parts.last() + end
    }
}

/// Every part in order, with `sep` between neighbours and nowhere else.
pub open spec fn joined(parts: Seq<Seq<char>>, sep: Seq<char>) -> Seq<char> {
    if parts.len() == 0 {
        Seq::empty()
    } else {
        terminated(parts.drop_last(), sep) + parts.last()
    }
}

/// The views of a list of strings.
pub open spec fn views(parts: Seq<String>) -> Seq<Seq<char>> {
    Seq::new(parts.len(), |i: int| parts[i]@)
}

/// Joining one more part puts the separator before it, unless it is the first.
pub proof fn lemma_joined_push(parts: Seq<Seq<char>>, part: Seq<char>, sep: Seq<char>)
    ensures
        joined(parts.push(part), sep) == if parts.len() == 0 {
            part
        } else {
            joined(parts, sep) + sep + part
        },
{
    let more = parts.push(part);
    assert(more.drop_last() =~= parts);
    assert(more.last() == part);
    if parts.len() == 0 {
        assert(terminated(parts, sep) =~= Seq::<char>::empty());
        assert(joined(more, sep) =~= part);
    } else {
        assert(terminated(parts, sep) == terminated(parts.drop_last(), sep) + parts.last() + sep);
    }
}

/// Joins `parts` with `sep` between neighbours.
pub fn join(parts: &Vec<String>, sep: &str) -> (text: String)
    ensures
        text@ == joined(views(parts@), sep@),
{
    let mut text = String::new();
    let mut i: usize = 0;
    while i < parts.len()
        invariant
            i <= parts.len(),
            text@ == joined(views(parts@.take(i as int)), sep@),
        decreases parts.len() - i,
    {
        proof {
            let before = views(parts@.take(i as int));
            assert(views(parts@.take(i + 1)) =~= before.push(parts@[i as int]@));
            lemma_joined_push(before, parts@[i as int]@, sep@);
        }
        if i > 0 {
            text.append(sep);
        }
        text.append(parts[i].as_str());
        assert(text@ =~= joined(views(parts@.take(i + 1)), sep@));
        i += 1;
    }
    assert(parts@.take(i as int) =~= parts@);
    text
}

/// The strings of `first`, followed by those of `second`.
pub fn chain(first: &Vec<String>, second: &Vec<String>) -> (all: Vec<String>)
    ensures
        views(all@) == views(first@) + views(second@),
{
    let mut all: Vec<String> = Vec::new();
    let mut i: usize = 0;
    while i < first.len()
        invariant
            i <= first.len(),
            all@.len() == i,
            forall|j: int| 0 <= j < i ==> (#[trigger] all@[j])@ == first@[j]@,
        decreases first.len() - i,
    {
        all.push(first[i].clone());
        i += 1;
    }
    let mut k: usize = 0;
    while k < second.len()
        invariant
            k <= second.len(),
            all@.len() == first@.len() + k,
            forall|j: int| 0 <= j < first@.len() ==> (#[trigger] all@[j])@ == first@[j]@,
            forall|j: int|
                first@.len() <= j < first@.len() + k ==> (#[trigger] all@[j])@ == second@[j
                    - first@.len()]@,
        decreases second.len() - k,
    {
        all.push(second[k].clone());
        k += 1;
    }
    assert(views(all@) =~= views(first@) + views(second@));
    all
}

/// Concatenates `parts`, each followed by `end`.
pub fn terminate(parts: &Vec<String>, end: &str) -> (text: String)
    ensures
        text@ == terminated(views(parts@), end@),
{
    let mut text = String::new();
    let mut i: usize = 0;
    while i < parts.len()
        invariant
            i <= parts.len(),
            text@ == terminated(views(parts@.take(i as int)), end@),
        decreases parts.len() - i,
    {
        proof {
            let before = views(parts@.take(i as int));
            let after = views(parts@.take(i + 1));
            assert(after.drop_last() =~= before);
            assert(after.last() == parts@[i as int]@);
        }
        text.append(parts[i].as_str());
        text.append(end);
        i += 1;
    }
    assert(parts@.take(i as int) =~= parts@);
    text
}

/// The digit that stands for `d` in base sixteen.
pub open spec fn hex_digit(d: nat) -> Seq<char>
    recommends
        d < 16,
{
    if d == 0 {
        "0"@
    } else if d == 1 {
        "1"@
    } else if d == 2 {
        "2"@
    } else if d == 3 {
        "3"@
    } else if d == 4 {
        "4"@
    } else if d == 5 {
        "5"@
    } else if d == 6 {
        "6"@
    } else if d == 7 {
        "7"@
    } else if d == 8 {
        "8"@
    } else if d == 9 {
        "9"@
    } else if d == 10 {
        "a"@
    } else if d == 11 {
        "b"@
    } else if d == 12 {
        "c"@
    } else if d == 13 {
        "d"@
    } else if d == 14 {
        "e"@
    } else {
        "f"@
    }
}

/// `n` in base sixteen, without leading zeros.
pub open spec fn hex(n: nat) -> Seq<char>
    decreases n,
{
    if n < 16 {
        hex_digit(n)
    } else {
        hex(n / 16) + hex_digit(n % 16)
    }
}

/// Whether `c` stands for itself between double quotes: a printable ASCII
/// character other than the quote and the backslash.
pub open spec fn is_plain(c: char) -> bool {
    ' ' <= c && c <= '~' && c != '"' && c != '\\'
}

/// How `c` is written between the quotes of a string literal.
pub open spec fn escaped_char(c: char) -> Seq<char> {
    if c == '"' {
        "\\\""@
    } else if c == '\\' {
        "\\\\"@
    } else if is_plain(c) {
        seq![c]
    } else {
        "\\u{"@ + hex(c as nat) + "}"@
    }
}

/// How the characters of `s` are written between the quotes of a string literal.
pub open spec fn escaped(s: Seq<char>) -> Seq<char>
    decreases s.len(),
{
    if s.len() == 0 {
        Seq::empty()
    } else {
        escaped(s.drop_last()) + escaped_char(s.last())
    }
}

/// The Rust string literal that denotes `s`.
pub open spec fn literal(s: Seq<char>) -> Seq<char> {
    "\""@ + escaped(s) + "\""@
}

/// The Rust literal that denotes `b`.
pub open spec fn bool_literal(b: bool) -> Seq<char> {
    if b {
        "true"@
    } else {
        "false"@
    }
}

/// Whether `text` holds printable ASCII characters only.
pub open spec fn is_printable_ascii(text: Seq<char>) -> bool {
    forall|i: int| 0 <= i < text.len() ==> ' ' <= #[trigger] text[i] && text[i] <= '~'
}

/// A number in base sixteen is printable ASCII.
pub proof fn lemma_hex_printable(n: nat)
    ensures
        is_printable_ascii(hex(n)),
    decreases n,
{
    reveal_strlit("0");
    reveal_strlit("1");
    reveal_strlit("2");
    reveal_strlit("3");
    reveal_strlit("4");
    reveal_strlit("5");
    reveal_strlit("6");
    reveal_strlit("7");
    reveal_strlit("8");
    reveal_strlit("9");
    reveal_strlit("a");
    reveal_strlit("b");
    reveal_strlit("c");
    reveal_strlit("d");
    reveal_strlit("e");
    reveal_strlit("f");
    if n >= 16 {
        lemma_hex_printable(n / 16);
        assert(is_printable_ascii(hex_digit(n % 16)));
    }
}

/// Whatever a string holds, its literal is printable ASCII: it can be written
/// into any source file, and shows every character that it denotes.
pub proof fn lemma_literal_printable(s: Seq<char>)
    ensures
        is_printable_ascii(escaped(s)),
        is_printable_ascii(literal(s)),
    decreases s.len(),
{
    reveal_strlit("\"");
    reveal_strlit("\\\"");
    reveal_strlit("\\\\");
    reveal_strlit("\\u{");
    reveal_strlit("}");
    if s.len() > 0 {
        lemma_literal_printable(s.drop_last());
        lemma_hex_printable(s.last() as nat);
        assert(is_printable_ascii(escaped_char(s.last())));
    }
}

/// The value of a digit in base sixteen.
pub open spec fn digit_value(c: char) -> Option<nat> {
    if '0' <= c && c <= '9' {
        Some((c as nat - '0' as nat) as nat)
    } else if 'a' <= c && c <= 'f' {
        Some((c as nat - 'a' as nat + 10) as nat)
    } else {
        None
    }
}

/// Reads digits in base sixteen up to a closing brace: the number that they
/// make after `acc`, and what follows the brace.
pub open spec fn read_hex(text: Seq<char>, acc: nat) -> Option<(nat, Seq<char>)>
    decreases text.len(),
{
    if text.len() == 0 {
        None
    } else if text[0] == '}' {
        Some((acc, text.skip(1)))
    } else {
        match digit_value(text[0]) {
            Some(d) => read_hex(text.skip(1), acc * 16 + d),
            None => None,
        }
    }
}

/// The code points that a text between the quotes of a string literal
/// denotes: a character stands for itself, a backslash makes the quote or
/// backslash behind it stand for itself, and `\u{..}` stands for the code
/// point that it holds. No more of Rust's escapes is read; a text that holds
/// another, or a bare quote, denotes nothing.
pub open spec fn denoted(text: Seq<char>) -> Option<Seq<nat>>
    decreases text.len(),
{
    if text.len() == 0 {
        Some(Seq::empty())
    } else if text[0] == '"' {
        None
    } else if text[0] != '\\' {
        match denoted(text.skip(1)) {
            Some(rest) => Some(seq![text[0] as nat] + rest),
            None => None,
        }
    } else if text.len() < 2 {
        None
    } else if text[1] == '"' || text[1] == '\\' {
        match denoted(text.skip(2)) {
            Some(rest) => Some(seq![text[1] as nat] + rest),
            None => None,
        }
    } else if text[1] == 'u' && text.len() >= 3 && text[2] == '{' {
        match read_hex(text.skip(3), 0) {
            Some((code, rest)) => if rest.len() < text.len() {
                match denoted(rest) {
                    Some(rest) => Some(seq![code] + rest),
                    None => None,
                }
            } else {
                None
            },
            None => None,
        }
    } else {
        None
    }
}

/// The code points of a string.
pub open spec fn code_points(s: Seq<char>) -> Seq<nat> {
    Seq::new(s.len(), |i: int| s[i] as nat)
}

/// Escaping goes character by character.
pub proof fn lemma_escaped_concat(a: Seq<char>, b: Seq<char>)
    ensures
        escaped(a + b) == escaped(a) + escaped(b),
    decreases b.len(),
{
    if b.len() == 0 {
        assert(a + b =~= a);
        assert(escaped(a) + escaped(b) =~= escaped(a));
    } else {
        lemma_escaped_concat(a, b.drop_last());
        assert((a + b).drop_last() =~= a + b.drop_last());
        assert((a + b).last() == b.last());
        assert(escaped(a + b) =~= escaped(a) + escaped(b));
    }
}

/// A digit is one character, not the closing brace, and has the value that it
/// stands for.
pub proof fn lemma_hex_digit(d: nat)
    requires
        d < 16,
    ensures
        hex_digit(d).len() == 1,
        hex_digit(d)[0] != '}',
        digit_value(hex_digit(d)[0]) == Some(d),
{
    reveal_strlit("0");
    reveal_strlit("1");
    reveal_strlit("2");
    reveal_strlit("3");
    reveal_strlit("4");
    reveal_strlit("5");
    reveal_strlit("6");
    reveal_strlit("7");
    reveal_strlit("8");
    reveal_strlit("9");
    reveal_strlit("a");
    reveal_strlit("b");
    reveal_strlit("c");
    reveal_strlit("d");
    reveal_strlit("e");
    reveal_strlit("f");
}

/// The number that the digits of `n` make after `acc`.
pub open spec fn after_hex(acc: nat, n: nat) -> nat
    decreases n,
{
    if n < 16 {
        acc * 16 + n
    } else {
        after_hex(acc, n / 16) * 16 + n % 16
    }
}

/// After nothing, the digits of `n` make `n`.
pub proof fn lemma_after_hex(n: nat)
    ensures
        after_hex(0, n) == n,
    decreases n,
{
    if n >= 16 {
        lemma_after_hex(n / 16);
    }
}

/// Reading the digits of `n` adds them to what was read.
pub proof fn lemma_read_hex(n: nat, tail: Seq<char>, acc: nat)
    ensures
        read_hex(hex(n) + tail, acc) == read_hex(tail, after_hex(acc, n)),
    decreases n,
{
    let digit = hex_digit(n % 16);
    lemma_hex_digit(n % 16);
    if n < 16 {
        let text = digit + tail;
        assert(text[0] == digit[0]);
        assert(text.skip(1) =~= tail);
    } else {
        lemma_read_hex(n / 16, digit + tail, acc);
        assert(hex(n) + tail =~= hex(n / 16) + (digit + tail));
        let text = digit + tail;
        assert(text[0] == digit[0]);
        assert(text.skip(1) =~= tail);
    }
}

/// What stands for one character denotes that character.
pub proof fn lemma_denoted_char(c: char, rest: Seq<char>)
    ensures
        denoted(escaped_char(c) + rest) == match denoted(rest) {
            Some(rest) => Some(seq![c as nat] + rest),
            None => None,
        },
{
    let text = escaped_char(c) + rest;
    reveal_strlit("\\\"");
    reveal_strlit("\\\\");
    reveal_strlit("\\u{");
    reveal_strlit("}");
    if c == '"' || c == '\\' {
        assert(text[0] == '\\');
        assert(text[1] == c);
        assert(text.skip(2) =~= rest);
    } else if is_plain(c) {
        assert(text[0] == c);
        assert(text.skip(1) =~= rest);
    } else {
        let tail = "}"@ + rest;
        assert(text =~= "\\u{"@ + (hex(c as nat) + tail));
        assert(text[0] == '\\' && text[1] == 'u' && text[2] == '{');
        assert(text.skip(3) =~= hex(c as nat) + tail);
        lemma_read_hex(c as nat, tail, 0);
        lemma_after_hex(c as nat);
        assert(tail[0] == '}');
        assert(tail.skip(1) =~= rest);
        assert(read_hex(text.skip(3), 0) == Some((c as nat, rest)));
    }
}

/// What `escaped` writes denotes what it was given.
pub proof fn lemma_denoted_escaped(s: Seq<char>)
    ensures
        denoted(escaped(s)) == Some(code_points(s)),
    decreases s.len(),
{
    if s.len() == 0 {
        assert(code_points(s) =~= Seq::<nat>::empty());
    } else {
        let first = seq![s[0]];
        let rest = s.skip(1);
        assert(first + rest =~= s);
        lemma_escaped_concat(first, rest);
        assert(first.drop_last() =~= Seq::<char>::empty());
        assert(escaped(first) =~= escaped_char(s[0])) by {
            assert(escaped(first.drop_last()) =~= Seq::<char>::empty());
        }
        lemma_denoted_escaped(rest);
        lemma_denoted_char(s[0], escaped(rest));
        assert(seq![s[0] as nat] + code_points(rest) =~= code_points(s));
    }
}

/// A string literal denotes the string that it was written for: it opens and
/// closes with a double quote, and what stands between the two denotes the
/// string's characters.
pub proof fn lemma_literal_denotes(s: Seq<char>)
    ensures
        literal(s).len() >= 2,
        literal(s).first() == '"',
        literal(s).last() == '"',
        denoted(literal(s).subrange(1, literal(s).len() - 1)) == Some(code_points(s)),
{
    reveal_strlit("\"");
    lemma_denoted_escaped(s);
    assert(literal(s).subrange(1, literal(s).len() - 1) =~= escaped(s));
}

/// Writes the digit that stands for `d` in base sixteen.
fn hex_digit_str(d: u32) -> (digit: &'static str)
    requires
        d < 16,
    ensures
        digit@ == hex_digit(d as nat),
{
    if d == 0 {
        "0"
    } else if d == 1 {
        "1"
    } else if d == 2 {
        "2"
    } else if d == 3 {
        "3"
    } else if d == 4 {
        "4"
    } else if d == 5 {
        "5"
    } else if d == 6 {
        "6"
    } else if d == 7 {
        "7"
    } else if d == 8 {
        "8"
    } else if d == 9 {
        "9"
    } else if d == 10 {
        "a"
    } else if d == 11 {
        "b"
    } else if d == 12 {
        "c"
    } else if d == 13 {
        "d"
    } else if d == 14 {
        "e"
    } else {
        "f"
    }
}

/// Appends `n` in base sixteen to `text`.
fn append_hex(text: &mut String, n: u32)
    ensures
        final(text)@ == old(text)@ + hex(n as nat),
    decreases n,
{
    if n >= 16 {
        append_hex(text, n / 16);
    }
    text.append(hex_digit_str(n % 16));
    assert(final(text)@ =~= old(text)@ + hex(n as nat));
}

/// Writes `s` as a Rust string literal: between double quotes, with the quote
/// and the backslash behind a backslash, and every character that is not
/// printable ASCII as a `\u{..}` escape. The literal is printable ASCII, and
/// what stands between its quotes denotes the characters of `s`.
pub fn string_literal(s: &str) -> (text: String)
    ensures
        text@ == literal(s@),
        is_printable_ascii(text@),
        text@.len() >= 2,
        text@.first() == '"',
        text@.last() == '"',
        denoted(text@.subrange(1, text@.len() - 1)) == Some(code_points(s@)),
{
    let mut text = String::from_str("\"");
    let count = s.unicode_len();
    let mut i: usize = 0;
    while i < count
        invariant
            i <= count,
            count == s@.len(),
            text@ == "\""@ + escaped(s@.take(i as int)),
        decreases count - i,
    {
        let c = s.get_char(i);
        proof {
            assert(s@.take(i + 1).drop_last() =~= s@.take(i as int));
            assert(s@.take(i + 1).last() == c);
        }
        if c == '"' {
            text.append("\\\"");
        } else if c == '\\' {
            text.append("\\\\");
        } else if ' ' <= c && c <= '~' {
            text.append(s.substring_char(i, i + 1));
            assert(s@.subrange(i as int, i + 1) =~= seq![c]);
        } else {
            text.append("\\u{");
            append_hex(&mut text, c as u32);
            text.append("}");
        }
        assert(text@ =~= "\""@ + escaped(s@.take(i + 1)));
        i += 1;
    }
    assert(s@.take(i as int) =~= s@);
    text.append("\"");
    proof {
        lemma_literal_printable(s@);
        lemma_literal_denotes(s@);
    }
    text
}

/// Writes `b` as a Rust literal.
pub fn bool_str(b: bool) -> (text: &'static str)
    ensures
        text@ == bool_literal(b),
{
    if b {
        "true"
    } else {
        "false"
    }
}

} // verus!
