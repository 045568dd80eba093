//! Text as sequences of characters: conversion from and to strings, the
//! replacement of a token, and the rendering of numbers.

use vstd::prelude::*;

verus! {

/// `String::push` appends one character to the end of the string.
pub assume_specification[ String::push ](text: &mut String, ch: char)
    ensures
        final(text)@ == old(text)@.push(ch),
;

/// The characters of `text`, in order.
pub fn chars_of(text: &str) -> (chars: Vec<char>)
    ensures
        chars@ == text@,
{
    let mut chars: Vec<char> = Vec::new();
    for ch in it: text.chars()
        invariant
            chars@ == it.seq().take(it.index() as int),
    {
        chars.push(ch);
    }
    chars
}

/// The string that holds `chars`, in order.
pub fn string_of(chars: &Vec<char>) -> (text: String)
    ensures
        text@ == chars@,
{
    let mut text = String::new();
    let mut i: usize = 0;
    while i < chars.len()
        invariant
            i <= chars.len(),
            text@ == chars@.take(i as int),
        decreases chars.len() - i,
    {
        text.push(chars[i]);
        assert(text@ =~= chars@.take(i + 1));
        i = i + 1;
    }
    assert(chars@.take(i as int) =~= chars@);
    text
}

/// `text` with every occurrence of `token` replaced by `with`. Occurrences
/// are found from the left and do not overlap; the text put in is not
/// searched again. An empty token occurs nowhere.
pub open spec fn replaced(text: Seq<char>, token: Seq<char>, with: Seq<char>) -> Seq<char>
    decreases text.len(),
{
    if token.len() == 0 || text.len() < token.len() {
        text
    } else if text.take(token.len() as int) == token {
        with + replaced(text.skip(token.len() as int), token, with)
    } else {
        seq![text[0]] + replaced(text.skip(1), token, with)
    }
}

/// The character of the digit `d` in base 16, in lower case.
pub open spec fn digit_char(d: int) -> char
    recommends
        0 <= d < 16,
{
    if d == 0 {
        '0'
    } else if d == 1 {
        '1'
    } else if d == 2 {
        '2'
    } else if d == 3 {
        '3'
    } else if d == 4 {
        '4'
    } else if d == 5 {
        '5'
    } else if d == 6 {
        '6'
    } else if d == 7 {
        '7'
    } else if d == 8 {
        '8'
    } else if d == 9 {
        '9'
    } else if d == 10 {
        'a'
    } else if d == 11 {
        'b'
    } else if d == 12 {
        'c'
    } else if d == 13 {
        'd'
    } else if d == 14 {
        'e'
    } else {
        'f'
    }
}

/// `n` in decimal, without leading zeros.
pub open spec fn decimal(n: nat) -> Seq<char>
    decreases n,
{
    if n < 10 {
        seq![digit_char(n as int)]
    } else {
        decimal(n / 10).push(digit_char((n % 10) as int))
    }
}

/// `bytes` in hexadecimal: two lower-case digits for each byte, the high
/// one first.
pub open spec fn hex(bytes: Seq<u8>) -> Seq<char> {
    Seq::new(
        2 * bytes.len(),
        |k: int|
            if k % 2 == 0 {
                digit_char(bytes[k / 2] as int / 16)
            } else {
                digit_char(bytes[k / 2] as int % 16)
            },
    )
}

/// The character of a digit below 16.
pub fn digit_char_of(d: u8) -> (ch: char)
    requires
        d < 16,
    ensures
        ch == digit_char(d as int),
{
    if d == 0 {
        '0'
    } else if d == 1 {
        '1'
    } else if d == 2 {
        '2'
    } else if d == 3 {
        '3'
    } else if d == 4 {
        '4'
    } else if d == 5 {
        '5'
    } else if d == 6 {
        '6'
    } else if d == 7 {
        '7'
    } else if d == 8 {
        '8'
    } else if d == 9 {
        '9'
    } else if d == 10 {
        'a'
    } else if d == 11 {
        'b'
    } else if d == 12 {
        'c'
    } else if d == 13 {
        'd'
    } else if d == 14 {
        'e'
    } else {
        'f'
    }
}

/// Appends `n` in decimal to `out`.
pub fn push_decimal(out: &mut Vec<char>, n: usize)
    ensures
        final(out)@ == old(out)@ + decimal(n as nat),
    decreases n,
{
    if n >= 10 {
        push_decimal(out, n / 10);
    }
    out.push(digit_char_of((n % 10) as u8));
    assert(out@ =~= old(out)@ + decimal(n as nat));
}

/// Appends `bytes` in hexadecimal to `out`.
pub fn push_hex(out: &mut Vec<char>, bytes: &[u8])
    ensures
        final(out)@ == old(out)@ + hex(bytes@),
{
    let mut i: usize = 0;
    while i < bytes.len()
        invariant
            i <= bytes.len(),
            out@ == old(out)@ + hex(bytes@.take(i as int)),
        decreases bytes.len() - i,
    {
        let byte = bytes[i];
        out.push(digit_char_of(byte / 16));
        out.push(digit_char_of(byte % 16));
        assert(out@ =~= old(out)@ + hex(bytes@.take(i + 1)));
        i = i + 1;
    }
    assert(bytes@.take(i as int) =~= bytes@);
}

/// Appends `piece` to `out`.
pub fn push_all(out: &mut Vec<char>, piece: &Vec<char>)
    ensures
        final(out)@ == old(out)@ + piece@,
{
    let mut i: usize = 0;
    while i < piece.len()
        invariant
            i <= piece.len(),
            out@ == old(out)@ + piece@.take(i as int),
        decreases piece.len() - i,
    {
        out.push(piece[i]);
        assert(out@ =~= old(out)@ + piece@.take(i + 1));
        i = i + 1;
    }
    assert(piece@.take(i as int) =~= piece@);
}

/// Whether `token` stands in `text` at position `at`.
pub fn occurs_at(text: &Vec<char>, at: usize, token: &Vec<char>) -> (found: bool)
    requires
        at + token@.len() <= text@.len(),
    ensures
        found <==> text@.skip(at as int).take(token@.len() as int) == token@,
{
    let ghost window = text@.skip(at as int).take(token@.len() as int);
    let mut j: usize = 0;
    while j < token.len()
        invariant
            j <= token.len(),
            at + token.len() <= text.len(),
            window == text@.skip(at as int).take(token@.len() as int),
            forall|k: int| 0 <= k < j ==> #[trigger] window[k] == token@[k],
        decreases token.len() - j,
    {
        if text[at + j] != token[j] {
            assert(window[j as int] != token@[j as int]);
            return false;
        }
        j = j + 1;
    }
    assert(window =~= token@);
    true
}

/// `text` with every occurrence of `token` replaced by `with`, from the
/// left and without overlap.
pub fn replace_all(text: &Vec<char>, token: &Vec<char>, with: &Vec<char>) -> (out: Vec<char>)
    ensures
        out@ == replaced(text@, token@, with@),
{
    let mut out: Vec<char> = Vec::new();
    if token.len() == 0 {
        push_all(&mut out, text);
        assert(out@ =~= text@);
        return out;
    }
    let mut i: usize = 0;
    assert(text@.skip(0) =~= text@);
    while i < text.len() && token.len() <= text.len() - i
        invariant
            i <= text.len(),
            token@.len() > 0,
            out@ + replaced(text@.skip(i as int), token@, with@) == replaced(
                text@,
                token@,
                with@,
            ),
        decreases text.len() - i,
    {
        let ghost rest = text@.skip(i as int);
        let ghost before = out@;
        if occurs_at(text, i, token) {
            push_all(&mut out, with);
            assert(rest.skip(token@.len() as int) =~= text@.skip(i + token@.len()));
            let ghost tail = replaced(text@.skip(i + token@.len()), token@, with@);
            assert(out@ + tail =~= before + (with@ + tail));
            i = i + token.len();
        } else {
            out.push(text[i]);
            assert(rest.skip(1) =~= text@.skip(i + 1));
            let ghost tail = replaced(text@.skip(i + 1), token@, with@);
            assert(out@ + tail =~= before + (seq![rest[0]] + tail));
            i = i + 1;
        }
    }
    let ghost before = out@;
    let ghost rest = text@.skip(i as int);
    let mut j: usize = i;
    while j < text.len()
        invariant
            i <= j <= text.len(),
            out@ == before + text@.subrange(i as int, j as int),
        decreases text.len() - j,
    {
        out.push(text[j]);
        assert(out@ =~= before + text@.subrange(i as int, j + 1));
        j = j + 1;
    }
    assert(text@.subrange(i as int, text@.len() as int) =~= rest);
    out
}

} // verus!
