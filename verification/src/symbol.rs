//! The name under which a native method is exposed to the runtime's linker.
//!
//! The name is made of the prefix `Java_`, the escaped name of the class that
//! declares the method, an underscore, and the escaped name of the method.
//! Escaping keeps ASCII letters and digits, writes the separator `/` as `_`,
//! and writes every other UTF-16 code unit as an escape that starts with an
//! underscore, so that the whole is an identifier of the linker.

use vstd::prelude::*;
use vstd::string::StrSliceExecFns;
use vstd::string::StringExecFns;

verus! {

/// `String::push` appends one character, as std documents.
pub assume_specification[ String::push ](text: &mut String, ch: char)
    ensures
        final(text)@ == old(text)@.push(ch),
;

/// An ASCII letter or digit: a character that escaping leaves as it is.
pub open spec fn is_plain(c: char) -> bool {
    ('a' <= c && c <= 'z') || ('A' <= c && c <= 'Z') || ('0' <= c && c <= '9')
}

/// A character that may stand in an escaped name.
pub open spec fn is_symbol_char(c: char) -> bool {
    is_plain(c) || c == '_'
}

/// The lower-case hexadecimal digit of `value`, which is below 16.
pub open spec fn hex_digit(value: int) -> char {
    if value < 10 {
        ('0' as int + value) as char
    } else {
        ('a' as int + value - 10) as char
    }
}

/// The escape of a UTF-16 code unit that has no shorter one: `_0` and the
/// unit's four hexadecimal digits.
pub open spec fn escape_unit(unit: int) -> Seq<char> {
    seq![
        '_',
        '0',
        hex_digit(unit / 4096),
        hex_digit(unit / 256 % 16),
        hex_digit(unit / 16 % 16),
        hex_digit(unit % 16),
    ]
}

/// The escape of one character. A character beyond the basic plane is
/// escaped as its two surrogate code units, one after the other.
pub open spec fn escape_char(c: char) -> Seq<char> {
    if is_plain(c) {
        seq![c]
    } else if c == '/' {
        seq!['_']
    } else if c == '_' {
        seq!['_', '1']
    } else if c == ';' {
        seq!['_', '2']
    } else if c == '[' {
        seq!['_', '3']
    } else if (c as int) < 0x10000 {
        escape_unit(c as int)
    } else {
        escape_unit(0xD800 + (c as int - 0x10000) / 1024) + escape_unit(
            0xDC00 + (c as int - 0x10000) % 1024,
        )
    }
}

/// The escape of a name: the escapes of its characters, in order.
pub open spec fn escape_text(name: Seq<char>) -> Seq<char>
    decreases name.len(),
{
    if name.len() == 0 {
        Seq::<char>::empty()
    } else {
        escape_text(name.drop_last()) + escape_char(name.last())
    }
}

/// The linker name of the method `method` declared by `class`, which is
/// given in internal form, its packages separated by `/`.
pub open spec fn native_symbol_text(class: Seq<char>, method: Seq<char>) -> Seq<char> {
    "Java_"@ + escape_text(class) + seq!['_'] + escape_text(method)
}

/// Every character of an escape may stand in an identifier.
pub proof fn lemma_escape_char_is_identifier(c: char)
    ensures
        forall|i: int| 0 <= i < escape_char(c).len() ==> is_symbol_char(#[trigger] escape_char(c)[i]),
{
    if !is_plain(c) && c != '/' && c != '_' && c != ';' && c != '[' {
        let code = c as int;
        if code < 0x10000 {
            lemma_escape_unit_is_identifier(code);
        } else {
            let high = 0xD800 + (code - 0x10000) / 1024;
            let low = 0xDC00 + (code - 0x10000) % 1024;
            lemma_escape_unit_is_identifier(high);
            lemma_escape_unit_is_identifier(low);
        }
    }
}

/// Every character of a code unit's escape may stand in an identifier.
pub proof fn lemma_escape_unit_is_identifier(unit: int)
    requires
        0 <= unit < 0x10000,
    ensures
        escape_unit(unit).len() == 6,
        forall|i: int| 0 <= i < 6 ==> is_symbol_char(#[trigger] escape_unit(unit)[i]),
{
    lemma_hex_digit_is_plain(unit / 4096);
    lemma_hex_digit_is_plain(unit / 256 % 16);
    lemma_hex_digit_is_plain(unit / 16 % 16);
    lemma_hex_digit_is_plain(unit % 16);
}

/// A hexadecimal digit is an ASCII digit or a lower-case letter.
pub proof fn lemma_hex_digit_is_plain(value: int)
    requires
        0 <= value < 16,
    ensures
        is_plain(hex_digit(value)),
{
}

/// An escaped name is an identifier of the linker: it holds ASCII letters,
/// digits and underscores only.
pub proof fn lemma_escape_text_is_identifier(name: Seq<char>)
    ensures
        forall|i: int| 0 <= i < escape_text(name).len() ==> is_symbol_char(#[trigger] escape_text(name)[i]),
    decreases name.len(),
{
    if name.len() > 0 {
        let front = escape_text(name.drop_last());
        let back = escape_char(name.last());
        lemma_escape_text_is_identifier(name.drop_last());
        lemma_escape_char_is_identifier(name.last());
        assert forall|i: int| 0 <= i < escape_text(name).len() implies is_symbol_char(
            #[trigger] escape_text(name)[i],
        ) by {
            if i < front.len() {
                assert(escape_text(name)[i] == front[i]);
            } else {
                assert(escape_text(name)[i] == back[i - front.len()]);
            }
        }
    }
}

/// The hexadecimal digit of `value`.
fn hex_char(value: u32) -> (digit: char)
    requires
        value < 16,
    ensures
        digit == hex_digit(value as int),
{
    if value < 10 {
        (48u8 + value as u8) as char
    } else {
        (87u8 + value as u8) as char
    }
}

/// Appends the escape of one code unit.
fn push_unit(text: &mut String, unit: u32)
    requires
        unit < 0x10000,
    ensures
        final(text)@ == old(text)@ + escape_unit(unit as int),
{
    text.push('_');
    text.push('0');
    text.push(hex_char(unit / 4096));
    text.push(hex_char(unit / 256 % 16));
    text.push(hex_char(unit / 16 % 16));
    text.push(hex_char(unit % 16));
}

/// Appends the escape of one character.
fn push_escaped(text: &mut String, c: char)
    ensures
        final(text)@ == old(text)@ + escape_char(c),
{
    let code = c as u32;
    if ('a' <= c && c <= 'z') || ('A' <= c && c <= 'Z') || ('0' <= c && c <= '9') {
        text.push(c);
    } else if c == '/' {
        text.push('_');
    } else if c == '_' {
        text.push('_');
        text.push('1');
    } else if c == ';' {
        text.push('_');
        text.push('2');
    } else if c == '[' {
        text.push('_');
        text.push('3');
    } else if code < 0x10000 {
        push_unit(text, code);
    } else {
        let beyond = code - 0x10000;
        push_unit(text, 0xD800 + beyond / 1024);
        push_unit(text, 0xDC00 + beyond % 1024);
    }
}

/// Appends the escape of a name.
fn push_escaped_text(text: &mut String, name: &str)
    ensures
        final(text)@ == old(text)@ + escape_text(name@),
{
    let count = name.unicode_len();
    let mut done: usize = 0;
    while done < count
        invariant
            count == name@.len(),
            done <= count,
            text@ == old(text)@ + escape_text(name@.take(done as int)),
        decreases count - done,
    {
        let c = name.get_char(done);
        push_escaped(text, c);
        proof {
            let before = name@.take(done as int);
            let after = name@.take(done + 1);
            assert(after.drop_last() =~= before);
        }
        done = done + 1;
    }
    assert(name@.take(count as int) =~= name@);
}

/// The name under which the method `method` of `class` is exposed. The class
/// is given in internal form, its packages separated by `/`.
pub fn native_symbol(class: &str, method: &str) -> (symbol: String)
    ensures
        symbol@ == native_symbol_text(class@, method@),
        forall|i: int| 0 <= i < symbol@.len() ==> is_symbol_char(#[trigger] symbol@[i]),
{
    let mut symbol = String::from_str("Java_");
    push_escaped_text(&mut symbol, class);
    symbol.push('_');
    push_escaped_text(&mut symbol, method);
    proof {
        reveal_strlit("Java_");
        lemma_escape_text_is_identifier(class@);
        lemma_escape_text_is_identifier(method@);
        assert(symbol@ =~= native_symbol_text(class@, method@));
    }
    symbol
}

} // verus!
