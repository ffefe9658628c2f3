//! Verified rendering of JSON text fragments: string literals with the
//! standard escapes, decimal numbers, and arrays of strings. Each exec
//! function produces exactly the character sequence that its spec-level
//! counterpart describes.

use vstd::prelude::*;
use vstd::string::StrSliceExecFns;
use vstd::string::StringExecFns;

verus! {

/// The lowercase hexadecimal digit character for a value below sixteen.
pub open spec fn spec_hex_digit(n: int) -> char {
    if n == 0 {
        '0'
    } else if n == 1 {
        '1'
    } else if n == 2 {
        '2'
    } else if n == 3 {
        '3'
    } else if n == 4 {
        '4'
    } else if n == 5 {
        '5'
    } else if n == 6 {
        '6'
    } else if n == 7 {
        '7'
    } else if n == 8 {
        '8'
    } else if n == 9 {
        '9'
    } else if n == 10 {
        'a'
    } else if n == 11 {
        'b'
    } else if n == 12 {
        'c'
    } else if n == 13 {
        'd'
    } else if n == 14 {
        'e'
    } else {
        'f'
    }
}

/// The decimal digit character for a value below ten.
pub open spec fn spec_digit(n: int) -> char {
    if n == 0 {
        '0'
    } else if n == 1 {
        '1'
    } else if n == 2 {
        '2'
    } else if n == 3 {
        '3'
    } else if n == 4 {
        '4'
    } else if n == 5 {
        '5'
    } else if n == 6 {
        '6'
    } else if n == 7 {
        '7'
    } else if n == 8 {
        '8'
    } else {
        '9'
    }
}

/// How one character appears inside a JSON string literal: the quote and
/// the backslash are escaped, control characters get their short escape or
/// a `\u00XX` form with lowercase hexadecimal digits, and every other
/// character stands for itself.
pub open spec fn spec_escape_char(c: char) -> Seq<char> {
    if c == '"' {
        seq!['\\', '"']
    } else if c == '\\' {
        seq!['\\', '\\']
    } else if c == '\u{8}' {
        seq!['\\', 'b']
    } else if c == '\t' {
        seq!['\\', 't']
    } else if c == '\n' {
        seq!['\\', 'n']
    } else if c == '\u{c}' {
        seq!['\\', 'f']
    } else if c == '\r' {
        seq!['\\', 'r']
    } else if (c as int) < 32 {
        seq!['\\', 'u', '0', '0', spec_hex_digit((c as int) / 16), spec_hex_digit((c as int) % 16)]
    } else {
        seq![c]
    }
}

/// The body of a JSON string literal: each character escaped in turn.
pub open spec fn spec_escape(s: Seq<char>) -> Seq<char>
    decreases s.len(),
{
    if s.len() == 0 {
        Seq::empty()
    } else {
        spec_escape(s.drop_last()) + spec_escape_char(s.last())
    }
}

/// A JSON string literal: the escaped characters between double quotes.
pub open spec fn spec_json_string(s: Seq<char>) -> Seq<char> {
    seq!['"'] + spec_escape(s) + seq!['"']
}

/// The decimal digits of a nonnegative integer, most significant first,
/// with no sign and no leading zeros (zero itself is the single digit `0`).
pub open spec fn spec_decimal(n: nat) -> Seq<char>
    decreases n,
{
    if n < 10 {
        seq![spec_digit(n as int)]
    } else {
        spec_decimal(n / 10) + seq![spec_digit((n % 10) as int)]
    }
}

/// A decimal integer with a leading minus sign when negative.
pub open spec fn spec_signed_decimal(n: int) -> Seq<char> {
    if n < 0 {
        seq!['-'] + spec_decimal((-n) as nat)
    } else {
        spec_decimal(n as nat)
    }
}

/// The comma-separated items of a JSON array of strings.
pub open spec fn spec_string_array_items(items: Seq<Seq<char>>) -> Seq<char>
    decreases items.len(),
{
    if items.len() == 0 {
        Seq::empty()
    } else if items.len() == 1 {
        spec_json_string(items[0])
    } else {
        spec_string_array_items(items.drop_last()) + seq![','] + spec_json_string(items.last())
    }
}

/// A JSON array of string literals between square brackets. An empty
/// sequence of items renders as `[]`.
pub open spec fn spec_string_array(items: Seq<Seq<char>>) -> Seq<char> {
    seq!['['] + spec_string_array_items(items) + seq![']']
}

/// Relies on String::push: appends the given character to the end of the
/// string, leaving everything before it unchanged.
#[verifier::external_body]
fn push_char(out: &mut String, c: char)
    ensures
        final(out)@ == old(out)@ + seq![c],
{
    out.push(c);
}

/// The decimal digit character for a value below ten, as exec code.
fn digit(n: u8) -> (c: char)
    requires
        n < 10,
    ensures
        c == spec_digit(n as int),
{
    if n == 0 {
        '0'
    } else if n == 1 {
        '1'
    } else if n == 2 {
        '2'
    } else if n == 3 {
        '3'
    } else if n == 4 {
        '4'
    } else if n == 5 {
        '5'
    } else if n == 6 {
        '6'
    } else if n == 7 {
        '7'
    } else if n == 8 {
        '8'
    } else {
        '9'
    }
}

/// The lowercase hexadecimal digit character for a value below sixteen,
/// as exec code.
fn hex_digit(n: u8) -> (c: char)
    requires
        n < 16,
    ensures
        c == spec_hex_digit(n as int),
{
    if n < 10 {
        digit(n)
    } else if n == 10 {
        'a'
    } else if n == 11 {
        'b'
    } else if n == 12 {
        'c'
    } else if n == 13 {
        'd'
    } else if n == 14 {
        'e'
    } else {
        'f'
    }
}

/// Appends the escaped form of one character.
fn push_escaped(out: &mut String, c: char)
    ensures
        final(out)@ == old(out)@ + spec_escape_char(c),
{
    if c == '"' {
        push_char(out, '\\');
        push_char(out, '"');
        assert(out@ =~= old(out)@ + spec_escape_char(c));
    } else if c == '\\' {
        push_char(out, '\\');
        push_char(out, '\\');
        assert(out@ =~= old(out)@ + spec_escape_char(c));
    } else if c == '\u{8}' {
        push_char(out, '\\');
        push_char(out, 'b');
        assert(out@ =~= old(out)@ + spec_escape_char(c));
    } else if c == '\t' {
        push_char(out, '\\');
        push_char(out, 't');
        assert(out@ =~= old(out)@ + spec_escape_char(c));
    } else if c == '\n' {
        push_char(out, '\\');
        push_char(out, 'n');
        assert(out@ =~= old(out)@ + spec_escape_char(c));
    } else if c == '\u{c}' {
        push_char(out, '\\');
        push_char(out, 'f');
        assert(out@ =~= old(out)@ + spec_escape_char(c));
    } else if c == '\r' {
        push_char(out, '\\');
        push_char(out, 'r');
        assert(out@ =~= old(out)@ + spec_escape_char(c));
    } else if (c as u32) < 32 {
        let v = c as u32;
        push_char(out, '\\');
        push_char(out, 'u');
        push_char(out, '0');
        push_char(out, '0');
        push_char(out, hex_digit((v / 16) as u8));
        push_char(out, hex_digit((v % 16) as u8));
        assert(out@ =~= old(out)@ + spec_escape_char(c));
    } else {
        push_char(out, c);
        assert(out@ =~= old(out)@ + spec_escape_char(c));
    }
}

/// Escaping one more character extends the escaped prefix.
proof fn lemma_escape_take_snoc(s: Seq<char>, i: int)
    requires
        0 <= i < s.len(),
    ensures
        spec_escape(s.take(i + 1)) == spec_escape(s.take(i)) + spec_escape_char(s[i]),
{
    let t = s.take(i + 1);
    assert(t.drop_last() =~= s.take(i));
    assert(t.last() == s[i]);
}

/// Renders a JSON string literal: the input between double quotes, with
/// the standard escapes applied.
pub fn json_quote(s: &str) -> (r: String)
    ensures
        r@ == spec_json_string(s@),
{
    let n = s.unicode_len();
    let mut out = String::new();
    push_char(&mut out, '"');
    proof {
        assert(s@.take(0) =~= Seq::<char>::empty());
        assert(out@ =~= seq!['"'] + spec_escape(s@.take(0)));
    }
    let mut i: usize = 0;
    while i < n
        invariant
            n == s@.len(),
            i <= n,
            out@ == seq!['"'] + spec_escape(s@.take(i as int)),
        decreases n - i,
    {
        let c = s.get_char(i);
        push_escaped(&mut out, c);
        proof {
            lemma_escape_take_snoc(s@, i as int);
            assert(out@ =~= seq!['"'] + spec_escape(s@.take(i + 1)));
        }
        i = i + 1;
    }
    proof {
        assert(s@.take(n as int) =~= s@);
    }
    push_char(&mut out, '"');
    proof {
        assert(out@ =~= spec_json_string(s@));
    }
    out
}

/// Appends the decimal digits of `n`, most significant first.
fn push_decimal(out: &mut String, n: u64)
    ensures
        final(out)@ == old(out)@ + spec_decimal(n as nat),
    decreases n,
{
    if n < 10 {
        push_char(out, digit(n as u8));
    } else {
        push_decimal(out, n / 10);
        push_char(out, digit((n % 10) as u8));
        assert(out@ =~= old(out)@ + spec_decimal(n as nat));
    }
}

/// Renders a nonnegative integer in decimal.
pub fn u64_decimal(n: u64) -> (r: String)
    ensures
        r@ == spec_decimal(n as nat),
{
    let mut out = String::new();
    push_decimal(&mut out, n);
    proof {
        assert(out@ =~= spec_decimal(n as nat));
    }
    out
}

/// Renders a signed integer in decimal, with a leading minus sign when
/// negative.
pub fn i32_decimal(n: i32) -> (r: String)
    ensures
        r@ == spec_signed_decimal(n as int),
{
    let mut out = String::new();
    if n < 0 {
        push_char(&mut out, '-');
        let wide: i64 = n as i64;
        let magnitude: u64 = (-wide) as u64;
        assert(magnitude as nat == (-(n as int)) as nat);
        push_decimal(&mut out, magnitude);
        proof {
            assert(out@ =~= spec_signed_decimal(n as int));
        }
    } else {
        push_decimal(&mut out, n as u64);
        proof {
            assert(out@ =~= spec_signed_decimal(n as int));
        }
    }
    out
}

/// Appending one more item extends the rendered array body.
proof fn lemma_array_items_take_snoc(items: Seq<Seq<char>>, i: int)
    requires
        0 <= i < items.len(),
    ensures
        spec_string_array_items(items.take(i + 1)) == if i == 0 {
            spec_json_string(items[0])
        } else {
            spec_string_array_items(items.take(i)) + seq![','] + spec_json_string(items[i])
        },
{
    let t = items.take(i + 1);
    assert(t.drop_last() =~= items.take(i));
    assert(t.last() == items[i]);
}

/// Renders a JSON array of string literals. An empty vector renders as
/// `[]`.
pub fn string_array(items: &Vec<String>) -> (r: String)
    ensures
        r@ == spec_string_array(items.deep_view()),
{
    let ghost view: Seq<Seq<char>> = items.deep_view();
    let mut out = String::new();
    push_char(&mut out, '[');
    proof {
        assert(view.take(0) =~= Seq::<Seq<char>>::empty());
        assert(out@ =~= seq!['['] + spec_string_array_items(view.take(0)));
    }
    let mut i: usize = 0;
    while i < items.len()
        invariant
            view == items.deep_view(),
            view.len() == items.len(),
            i <= items.len(),
            out@ == seq!['['] + spec_string_array_items(view.take(i as int)),
        decreases items.len() - i,
    {
        if i > 0 {
            push_char(&mut out, ',');
        }
        let item: &String = &items[i];
        let quoted = json_quote(item.as_str());
        out.append(quoted.as_str());
        proof {
            assert(view[i as int] == items@[i as int]@);
            lemma_array_items_take_snoc(view, i as int);
            assert(out@ =~= seq!['['] + spec_string_array_items(view.take(i + 1)));
        }
        i = i + 1;
    }
    proof {
        assert(view.take(items.len() as int) =~= view);
    }
    push_char(&mut out, ']');
    proof {
        assert(out@ =~= spec_string_array(view));
    }
    out
}

} // verus!
