//! JSON text.

use vstd::prelude::*;

verus! {

/// The lower-case hexadecimal digit of a number below 16.
pub open spec fn hex_digit(n: int) -> char {
    if n < 10 {
        ('0' as int + n) as char
    } else {
        ('a' as int + (n - 10)) as char
    }
}

/// A character as it stands in a JSON string: quotes, backslashes and control characters are
/// escaped, all others stand for themselves.
pub open spec fn escaped_char(c: char) -> Seq<char> {
    if c == '"' || c == '\\' {
        seq!['\\', c]
    } else if c == '\x08' {
        seq!['\\', 'b']
    } else if c == '\t' {
        seq!['\\', 't']
    } else if c == '\n' {
        seq!['\\', 'n']
    } else if c == '\x0c' {
        seq!['\\', 'f']
    } else if c == '\r' {
        seq!['\\', 'r']
    } else if c as int <= 31 {
        seq!['\\', 'u', '0', '0', hex_digit(c as int / 16), hex_digit(c as int % 16)]
    } else {
        seq![c]
    }
}

/// A text as it stands in a JSON string.
pub open spec fn escaped(text: Seq<char>) -> Seq<char>
    decreases text.len(),
{
    if text.len() == 0 {
        Seq::empty()
    } else {
        escaped_char(text[0]) + escaped(text.drop_first())
    }
}

/// The JSON string of a text.
pub open spec fn json_string(text: Seq<char>) -> Seq<char> {
    seq!['"'] + escaped(text) + seq!['"']
}

/// The JSON strings of some texts, with commas between them.
pub open spec fn json_strings(texts: Seq<Seq<char>>) -> Seq<char>
    decreases texts.len(),
{
    if texts.len() == 0 {
        Seq::empty()
    } else if texts.len() == 1 {
        json_string(texts[0])
    } else {
        json_string(texts[0]) + seq![','] + json_strings(texts.drop_first())
    }
}

/// A JSON object with one member, an array of strings.
pub open spec fn json_object_text(key: Seq<char>, values: Seq<Seq<char>>) -> Seq<char> {
    seq!['{'] + json_string(key) + seq![':', '['] + json_strings(values) + seq![']', '}']
}

/// Writes an object with one member, an array of strings: the `Display` of `serde_json::Value`,
/// which writes by `serde_json::to_writer`.
///
/// Claimed of it: the text is the compact form, without a space between tokens, and escapes
/// quotes, backslashes and control characters, and nothing else.
#[verifier::external_body]
pub(crate) fn json_object(key: &str, values: &Vec<String>) -> (r: String)
    ensures
        r@ == json_object_text(key@, values.deep_view()),
{
    let mut object = serde_json::Map::new();
    object.insert(key.to_owned(), serde_json::Value::from(values.as_slice()));
    serde_json::Value::Object(object).to_string()
}

proof fn escaped_char_shape(c: char)
    ensures
        escaped_char(c).len() > 0,
        escaped_char(c)[0] != '"',
        escaped_char(c)[0] != '\\' ==> escaped_char(c) == seq![c],
        escaped_char(c)[0] == '\\' ==> escaped_char(c).len() >= 2,
        escaped_char(c)[0] == '\\' && escaped_char(c)[1] != 'u' ==> escaped_char(c).len() == 2,
        escaped_char(c)[0] == '\\' && escaped_char(c)[1] == 'u' ==> {
            &&& escaped_char(c).len() == 6
            &&& escaped_char(c)[4] == hex_digit(c as int / 16)
            &&& escaped_char(c)[5] == hex_digit(c as int % 16)
            &&& c as int <= 31
        },
{
}

proof fn escaped_char_is_prefix_code(c: char, u: Seq<char>, d: char, v: Seq<char>)
    requires
        escaped_char(c) + u == escaped_char(d) + v,
    ensures
        c == d,
        u == v,
{
    let left = escaped_char(c) + u;
    let right = escaped_char(d) + v;
    escaped_char_shape(c);
    escaped_char_shape(d);
    assert(left[0] == escaped_char(c)[0]);
    assert(right[0] == escaped_char(d)[0]);
    if left[0] == '\\' {
        assert(left[1] == escaped_char(c)[1]);
        assert(right[1] == escaped_char(d)[1]);
        if left[1] == 'u' {
            assert(left[4] == escaped_char(c)[4]);
            assert(right[4] == escaped_char(d)[4]);
            assert(left[5] == escaped_char(c)[5]);
            assert(right[5] == escaped_char(d)[5]);
        }
    }
    assert(c == d);
    assert(u =~= left.skip(escaped_char(c).len() as int));
    assert(v =~= right.skip(escaped_char(c).len() as int));
}

proof fn escaped_ends_at_quote(s: Seq<char>, u: Seq<char>, t: Seq<char>, v: Seq<char>)
    requires
        escaped(s) + seq!['"'] + u == escaped(t) + seq!['"'] + v,
    ensures
        s == t,
        u == v,
    decreases s.len(),
{
    let left = escaped(s) + seq!['"'] + u;
    let right = escaped(t) + seq!['"'] + v;
    if s.len() == 0 {
        assert(left[0] == '"');
        if t.len() > 0 {
            escaped_char_shape(t[0]);
            assert(right[0] == escaped_char(t[0])[0]);
        }
        assert(s =~= t);
        assert(u =~= left.skip(1));
        assert(v =~= right.skip(1));
    } else if t.len() == 0 {
        assert(right[0] == '"');
        escaped_char_shape(s[0]);
        assert(left[0] == escaped_char(s[0])[0]);
    } else {
        let s_rest = escaped(s.drop_first()) + seq!['"'] + u;
        let t_rest = escaped(t.drop_first()) + seq!['"'] + v;
        assert(left =~= escaped_char(s[0]) + s_rest);
        assert(right =~= escaped_char(t[0]) + t_rest);
        escaped_char_is_prefix_code(s[0], s_rest, t[0], t_rest);
        escaped_ends_at_quote(s.drop_first(), u, t.drop_first(), v);
        assert(s =~= seq![s[0]] + s.drop_first());
        assert(t =~= seq![t[0]] + t.drop_first());
    }
}

proof fn json_string_is_prefix_code(s: Seq<char>, u: Seq<char>, t: Seq<char>, v: Seq<char>)
    requires
        json_string(s) + u == json_string(t) + v,
    ensures
        s == t,
        u == v,
{
    let left = json_string(s) + u;
    let right = json_string(t) + v;
    assert(left.skip(1) =~= escaped(s) + seq!['"'] + u);
    assert(right.skip(1) =~= escaped(t) + seq!['"'] + v);
    escaped_ends_at_quote(s, u, t, v);
}

proof fn json_strings_are_unambiguous(a: Seq<Seq<char>>, b: Seq<Seq<char>>)
    requires
        json_strings(a) == json_strings(b),
    ensures
        a == b,
    decreases a.len(),
{
    if a.len() == 0 || b.len() == 0 {
        if a.len() > 0 {
            assert(json_strings(a).len() > 0);
        }
        if b.len() > 0 {
            assert(json_strings(b).len() > 0);
        }
        assert(a =~= b);
    } else {
        let a_rest = if a.len() == 1 {
            Seq::empty()
        } else {
            seq![','] + json_strings(a.drop_first())
        };
        let b_rest = if b.len() == 1 {
            Seq::empty()
        } else {
            seq![','] + json_strings(b.drop_first())
        };
        assert(json_strings(a) =~= json_string(a[0]) + a_rest);
        assert(json_strings(b) =~= json_string(b[0]) + b_rest);
        json_string_is_prefix_code(a[0], a_rest, b[0], b_rest);
        if a.len() > 1 {
            assert(b.len() > 1);
            assert(a_rest.skip(1) =~= json_strings(a.drop_first()));
            assert(b_rest.skip(1) =~= json_strings(b.drop_first()));
            json_strings_are_unambiguous(a.drop_first(), b.drop_first());
            assert(a =~= seq![a[0]] + a.drop_first());
            assert(b =~= seq![b[0]] + b.drop_first());
        } else {
            assert(b.len() == 1);
            assert(a =~= b);
        }
    }
}

/// The text of an object tells the strings in it: different lists give different texts.
pub proof fn json_object_tells_its_values(key: Seq<char>, a: Seq<Seq<char>>, b: Seq<Seq<char>>)
    requires
        json_object_text(key, a) == json_object_text(key, b),
    ensures
        a == b,
{
    let left = json_object_text(key, a);
    let right = json_object_text(key, b);
    let head = json_string(key).len() as int + 3;
    assert(left.len() == head + json_strings(a).len() + 2);
    assert(right.len() == head + json_strings(b).len() + 2);
    assert(left.subrange(head, left.len() - 2) =~= json_strings(a));
    assert(right.subrange(head, right.len() - 2) =~= json_strings(b));
    json_strings_are_unambiguous(a, b);
}

/// The value of a hexadecimal digit, of either case; -1 where the character is none.
pub open spec fn hex_value(c: char) -> int {
    if '0' <= c && c <= '9' {
        c as int - '0' as int
    } else if 'a' <= c && c <= 'f' {
        c as int - 'a' as int + 10
    } else if 'A' <= c && c <= 'F' {
        c as int - 'A' as int + 10
    } else {
        -1
    }
}

/// The character that the escape `\u` with the four digits after it stands for; `None` where these
/// are no digits or stand for half of a pair.
pub open spec fn read_code(digits: Seq<char>) -> Option<char> {
    if digits.len() == 4 && hex_value(digits[0]) >= 0 && hex_value(digits[1]) >= 0 && hex_value(
        digits[2],
    ) >= 0 && hex_value(digits[3]) >= 0 {
        let code = hex_value(digits[0]) * 4096 + hex_value(digits[1]) * 256 + hex_value(digits[2])
            * 16 + hex_value(digits[3]);
        if 0xd800 <= code <= 0xdfff {
            None
        } else {
            Some(code as char)
        }
    } else {
        None
    }
}

/// The character that a letter after a backslash stands for; `None` where it stands for none.
pub open spec fn read_escape(letter: char) -> Option<char> {
    if letter == '"' || letter == '\\' || letter == '/' {
        Some(letter)
    } else if letter == 'b' {
        Some('\x08')
    } else if letter == 't' {
        Some('\t')
    } else if letter == 'n' {
        Some('\n')
    } else if letter == 'f' {
        Some('\x0c')
    } else if letter == 'r' {
        Some('\r')
    } else {
        None
    }
}

/// A character before what was read of a text.
pub open spec fn before_rest(
    c: Option<char>,
    rest: Option<(Seq<char>, Seq<char>)>,
) -> Option<(Seq<char>, Seq<char>)> {
    match (c, rest) {
        (Some(c), Some((text, after))) => Some((seq![c] + text, after)),
        _ => None,
    }
}

/// Reads a JSON string whose opening quote was read: its text, and what comes after the closing
/// quote. `None` where the string is broken.
pub open spec fn read_chars(json: Seq<char>) -> Option<(Seq<char>, Seq<char>)>
    decreases json.len(),
{
    if json.len() == 0 {
        None
    } else if json[0] == '"' {
        Some((Seq::empty(), json.drop_first()))
    } else if json[0] == '\\' {
        if json.len() >= 6 && json[1] == 'u' {
            before_rest(read_code(json.subrange(2, 6)), read_chars(json.skip(6)))
        } else if json.len() >= 2 {
            before_rest(read_escape(json[1]), read_chars(json.skip(2)))
        } else {
            None
        }
    } else if json[0] as int <= 31 {
        None
    } else {
        before_rest(Some(json[0]), read_chars(json.drop_first()))
    }
}

/// Reads a JSON string: its text, and what comes after it.
pub open spec fn read_string(json: Seq<char>) -> Option<(Seq<char>, Seq<char>)> {
    if json.len() > 0 && json[0] == '"' {
        read_chars(json.drop_first())
    } else {
        None
    }
}

/// Reads the strings of a JSON array, at least one, up to the closing bracket: the texts, and what
/// comes after the bracket. `None` where the array is broken or holds anything else.
pub open spec fn read_items(json: Seq<char>) -> Option<(Seq<Seq<char>>, Seq<char>)>
    decreases json.len(),
{
    match read_string(json) {
        None => None,
        Some((text, after)) => if after.len() == 0 || after.len() >= json.len() {
            None
        } else if after[0] == ']' {
            Some((seq![text], after.drop_first()))
        } else if after[0] == ',' {
            match read_items(after.drop_first()) {
                None => None,
                Some((texts, end)) => Some((seq![text] + texts, end)),
            }
        } else {
            None
        },
    }
}

/// Reads a JSON object with one member, an array of strings, and nothing after it: the key and
/// the strings. `None` where the text is no such object.
pub open spec fn read_object(json: Seq<char>) -> Option<(Seq<char>, Seq<Seq<char>>)> {
    if json.len() == 0 || json[0] != '{' {
        None
    } else {
        match read_string(json.drop_first()) {
            None => None,
            Some((key, after)) => if after.len() < 2 || after[0] != ':' || after[1] != '[' {
                None
            } else {
                let array = after.skip(2);
                if array == seq![']', '}'] {
                    Some((key, Seq::empty()))
                } else {
                    match read_items(array) {
                        Some((texts, end)) => if end == seq!['}'] {
                            Some((key, texts))
                        } else {
                            None
                        },
                        None => None,
                    }
                }
            },
        }
    }
}

proof fn read_escaped_char(c: char, tail: Seq<char>)
    ensures
        read_chars(escaped_char(c) + tail) == before_rest(Some(c), read_chars(tail)),
{
    let json = escaped_char(c) + tail;
    escaped_char_shape(c);
    assert(json[0] == escaped_char(c)[0]);
    if json[0] == '\\' {
        assert(json[1] == escaped_char(c)[1]);
        if json[1] == 'u' {
            assert(json.skip(6) =~= tail);
            assert(json.subrange(2, 6) =~= seq![
                '0',
                '0',
                hex_digit(c as int / 16),
                hex_digit(c as int % 16),
            ]);
            assert(hex_value(hex_digit(c as int / 16)) == c as int / 16);
            assert(hex_value(hex_digit(c as int % 16)) == c as int % 16);
            assert(read_code(json.subrange(2, 6)) == Some(c));
        } else {
            assert(json.skip(2) =~= tail);
            assert(read_escape(json[1]) == Some(c));
        }
    } else {
        assert(json.drop_first() =~= tail);
        assert(c as int > 31);
    }
}

proof fn read_escaped(text: Seq<char>, rest: Seq<char>)
    ensures
        read_chars(escaped(text) + seq!['"'] + rest) == Some((text, rest)),
    decreases text.len(),
{
    let json = escaped(text) + seq!['"'] + rest;
    if text.len() == 0 {
        assert(json[0] == '"');
        assert(json.drop_first() =~= rest);
        assert(text =~= Seq::empty());
    } else {
        let tail = escaped(text.drop_first()) + seq!['"'] + rest;
        read_escaped(text.drop_first(), rest);
        read_escaped_char(text[0], tail);
        assert(json =~= escaped_char(text[0]) + tail);
        assert(text =~= seq![text[0]] + text.drop_first());
    }
}

proof fn read_json_string(text: Seq<char>, rest: Seq<char>)
    ensures
        read_string(json_string(text) + rest) == Some((text, rest)),
        (json_string(text) + rest)[0] == '"',
        (json_string(text) + rest).len() > rest.len(),
{
    let json = json_string(text) + rest;
    assert(json[0] == '"');
    assert(json.drop_first() =~= escaped(text) + seq!['"'] + rest);
    read_escaped(text, rest);
}

proof fn read_json_strings(texts: Seq<Seq<char>>, rest: Seq<char>)
    requires
        texts.len() > 0,
    ensures
        read_items(json_strings(texts) + seq![']'] + rest) == Some((texts, rest)),
        (json_strings(texts) + seq![']'] + rest)[0] == '"',
    decreases texts.len(),
{
    let json = json_strings(texts) + seq![']'] + rest;
    if texts.len() == 1 {
        let after = seq![']'] + rest;
        assert(json =~= json_string(texts[0]) + after);
        read_json_string(texts[0], after);
        assert(after.drop_first() =~= rest);
        assert(texts =~= seq![texts[0]]);
    } else {
        let others = texts.drop_first();
        let after = seq![','] + (json_strings(others) + seq![']'] + rest);
        assert(json =~= json_string(texts[0]) + after);
        read_json_string(texts[0], after);
        read_json_strings(others, rest);
        assert(after.drop_first() =~= json_strings(others) + seq![']'] + rest);
        assert(texts =~= seq![texts[0]] + others);
    }
}

/// What is written as an object reads back as the same object: the one key, and the strings in
/// their order.
pub proof fn json_object_reads_back(key: Seq<char>, values: Seq<Seq<char>>)
    ensures
        read_object(json_object_text(key, values)) == Some((key, values)),
{
    let json = json_object_text(key, values);
    let after = seq![':', '['] + json_strings(values) + seq![']', '}'];
    assert(json[0] == '{');
    assert(json.drop_first() =~= json_string(key) + after);
    read_json_string(key, after);
    let array = after.skip(2);
    if values.len() == 0 {
        assert(array =~= seq![']', '}']);
        assert(values =~= Seq::empty());
    } else {
        assert(array =~= json_strings(values) + seq![']'] + seq!['}']);
        read_json_strings(values, seq!['}']);
        assert(array[0] == '"');
    }
}

} // verus!
