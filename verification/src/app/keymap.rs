//! Keys to the bytes a terminal program receives for them.

use crate::text::ascii_lower;
use crate::app::keys::{
    arrow_direction, no_mods, only_control, only_shift, Direction, KeyCode, KeyEvent,
};
use vstd::prelude::*;

verus! {

/// The UTF-8 encoding of a character.
pub open spec fn utf8_bytes(c: char) -> Seq<u8> {
    let v = c as u32 as int;
    if v < 0x80 {
        seq![v as u8]
    } else if v < 0x800 {
        seq![(0xC0 + v / 64) as u8, (0x80 + v % 64) as u8]
    } else if v < 0x10000 {
        seq![(0xE0 + v / 4096) as u8, (0x80 + (v / 64) % 64) as u8, (0x80 + v % 64) as u8]
    } else {
        seq![
            (0xF0 + v / 262144) as u8,
            (0x80 + (v / 4096) % 64) as u8,
            (0x80 + (v / 64) % 64) as u8,
            (0x80 + v % 64) as u8,
        ]
    }
}

/// The control byte for Ctrl plus a character: its lower-case code's low
/// byte minus 0x60, wrapping.
pub open spec fn control_byte(c: char) -> u8 {
    let b = (ascii_lower(c) as u32 as int) % 256;
    (if b >= 0x60 {
        b - 0x60
    } else {
        b + 0xA0
    }) as u8
}

/// The escape sequence of function key F`n`, empty beyond F12.
pub open spec fn function_key_seq(n: u8) -> Seq<u8> {
    if n == 1 {
        seq![0x1bu8, 0x4f, 0x50]
    } else if n == 2 {
        seq![0x1bu8, 0x4f, 0x51]
    } else if n == 3 {
        seq![0x1bu8, 0x4f, 0x52]
    } else if n == 4 {
        seq![0x1bu8, 0x4f, 0x53]
    } else if n == 5 {
        seq![0x1bu8, 0x5b, 0x31, 0x35, 0x7e]
    } else if n == 6 {
        seq![0x1bu8, 0x5b, 0x31, 0x37, 0x7e]
    } else if n == 7 {
        seq![0x1bu8, 0x5b, 0x31, 0x38, 0x7e]
    } else if n == 8 {
        seq![0x1bu8, 0x5b, 0x31, 0x39, 0x7e]
    } else if n == 9 {
        seq![0x1bu8, 0x5b, 0x32, 0x30, 0x7e]
    } else if n == 10 {
        seq![0x1bu8, 0x5b, 0x32, 0x31, 0x7e]
    } else if n == 11 {
        seq![0x1bu8, 0x5b, 0x32, 0x33, 0x7e]
    } else if n == 12 {
        seq![0x1bu8, 0x5b, 0x32, 0x34, 0x7e]
    } else {
        Seq::empty()
    }
}

/// The bytes sent to the terminal for `key`: characters (plain or with
/// Shift) as UTF-8, Ctrl plus a character as a control byte, the editing
/// and cursor keys as their VT sequences, and nothing for anything else.
pub open spec fn key_bytes(key: KeyEvent) -> Seq<u8> {
    let m = key.modifiers;
    match key.code {
        KeyCode::Char(c) => if no_mods(m) || only_shift(m) {
            utf8_bytes(c)
        } else if only_control(m) {
            seq![control_byte(c)]
        } else {
            Seq::empty()
        },
        KeyCode::Enter => if no_mods(m) { seq![0x0du8] } else { Seq::empty() },
        KeyCode::Backspace => if no_mods(m) { seq![0x7fu8] } else { Seq::empty() },
        KeyCode::Tab => if no_mods(m) { seq![0x09u8] } else { Seq::empty() },
        KeyCode::Esc => if no_mods(m) { seq![0x1bu8] } else { Seq::empty() },
        KeyCode::Up => if no_mods(m) { seq![0x1bu8, 0x5b, 0x41] } else { Seq::empty() },
        KeyCode::Down => if no_mods(m) { seq![0x1bu8, 0x5b, 0x42] } else { Seq::empty() },
        KeyCode::Right => if no_mods(m) { seq![0x1bu8, 0x5b, 0x43] } else { Seq::empty() },
        KeyCode::Left => if no_mods(m) { seq![0x1bu8, 0x5b, 0x44] } else { Seq::empty() },
        KeyCode::Home => if no_mods(m) { seq![0x1bu8, 0x5b, 0x48] } else { Seq::empty() },
        KeyCode::End => if no_mods(m) { seq![0x1bu8, 0x5b, 0x46] } else { Seq::empty() },
        KeyCode::PageUp => if no_mods(m) { seq![0x1bu8, 0x5b, 0x35, 0x7e] } else { Seq::empty() },
        KeyCode::PageDown => if no_mods(m) { seq![0x1bu8, 0x5b, 0x36, 0x7e] } else { Seq::empty() },
        KeyCode::Insert => if no_mods(m) { seq![0x1bu8, 0x5b, 0x32, 0x7e] } else { Seq::empty() },
        KeyCode::Delete => if no_mods(m) { seq![0x1bu8, 0x5b, 0x33, 0x7e] } else { Seq::empty() },
        KeyCode::F(n) => if no_mods(m) { function_key_seq(n) } else { Seq::empty() },
        _ => Seq::empty(),
    }
}

/// A byte vector from a fixed sequence.
fn bytes_of(s: &[u8]) -> (r: Vec<u8>)
    ensures
        r@ == s@,
{
    let mut v: Vec<u8> = Vec::new();
    let mut i: usize = 0;
    while i < s.len()
        invariant
            i <= s@.len(),
            v@ == s@.take(i as int),
        decreases s@.len() - i,
    {
        v.push(s[i]);
        i = i + 1;
        assert(v@ =~= s@.take(i as int));
    }
    assert(s@.take(s@.len() as int) =~= s@);
    v
}

/// The UTF-8 encoding of a character.
pub fn encode_utf8(c: char) -> (r: Vec<u8>)
    ensures
        r@ == utf8_bytes(c),
{
    let v: u32 = c as u32;
    let mut out: Vec<u8> = Vec::new();
    if v < 0x80 {
        out.push(v as u8);
    } else if v < 0x800 {
        out.push((0xC0 + v / 64) as u8);
        out.push((0x80 + v % 64) as u8);
    } else if v < 0x10000 {
        out.push((0xE0 + v / 4096) as u8);
        out.push((0x80 + (v / 64) % 64) as u8);
        out.push((0x80 + v % 64) as u8);
    } else {
        assert(v <= 0x10FFFF);
        out.push((0xF0 + v / 262144) as u8);
        out.push((0x80 + (v / 4096) % 64) as u8);
        out.push((0x80 + (v / 64) % 64) as u8);
        out.push((0x80 + v % 64) as u8);
    }
    assert(out@ =~= utf8_bytes(c));
    out
}

/// The escape sequence of a function key.
fn function_key_bytes(n: u8) -> (r: Vec<u8>)
    ensures
        r@ == function_key_seq(n),
{
    let r = if n == 1 {
        bytes_of(&[0x1b, 0x4f, 0x50])
    } else if n == 2 {
        bytes_of(&[0x1b, 0x4f, 0x51])
    } else if n == 3 {
        bytes_of(&[0x1b, 0x4f, 0x52])
    } else if n == 4 {
        bytes_of(&[0x1b, 0x4f, 0x53])
    } else if n == 5 {
        bytes_of(&[0x1b, 0x5b, 0x31, 0x35, 0x7e])
    } else if n == 6 {
        bytes_of(&[0x1b, 0x5b, 0x31, 0x37, 0x7e])
    } else if n == 7 {
        bytes_of(&[0x1b, 0x5b, 0x31, 0x38, 0x7e])
    } else if n == 8 {
        bytes_of(&[0x1b, 0x5b, 0x31, 0x39, 0x7e])
    } else if n == 9 {
        bytes_of(&[0x1b, 0x5b, 0x32, 0x30, 0x7e])
    } else if n == 10 {
        bytes_of(&[0x1b, 0x5b, 0x32, 0x31, 0x7e])
    } else if n == 11 {
        bytes_of(&[0x1b, 0x5b, 0x32, 0x33, 0x7e])
    } else if n == 12 {
        bytes_of(&[0x1b, 0x5b, 0x32, 0x34, 0x7e])
    } else {
        Vec::new()
    };
    assert(r@ =~= function_key_seq(n));
    r
}

/// Converts a key to the bytes the terminal program receives.
pub fn key_to_bytes(key: KeyEvent) -> (r: Vec<u8>)
    ensures
        r@ == key_bytes(key),
{
    let m = key.modifiers;
    let plain = m.is_empty();
    let r = match key.code {
        KeyCode::Char(c) => {
            if plain || m.is_only_shift() {
                encode_utf8(c)
            } else if m.is_only_control() {
                let lower = if 'A' <= c && c <= 'Z' {
                    ((c as u8) + 32) as char
                } else {
                    c
                };
                let b: u32 = (lower as u32) % 256;
                let byte: u8 = if b >= 0x60 {
                    (b - 0x60) as u8
                } else {
                    (b + 0xA0) as u8
                };
                let mut v: Vec<u8> = Vec::new();
                v.push(byte);
                v
            } else {
                Vec::new()
            }
        },
        KeyCode::Enter => if plain { bytes_of(&[0x0d]) } else { Vec::new() },
        KeyCode::Backspace => if plain { bytes_of(&[0x7f]) } else { Vec::new() },
        KeyCode::Tab => if plain { bytes_of(&[0x09]) } else { Vec::new() },
        KeyCode::Esc => if plain { bytes_of(&[0x1b]) } else { Vec::new() },
        KeyCode::Up => if plain { bytes_of(&[0x1b, 0x5b, 0x41]) } else { Vec::new() },
        KeyCode::Down => if plain { bytes_of(&[0x1b, 0x5b, 0x42]) } else { Vec::new() },
        KeyCode::Right => if plain { bytes_of(&[0x1b, 0x5b, 0x43]) } else { Vec::new() },
        KeyCode::Left => if plain { bytes_of(&[0x1b, 0x5b, 0x44]) } else { Vec::new() },
        KeyCode::Home => if plain { bytes_of(&[0x1b, 0x5b, 0x48]) } else { Vec::new() },
        KeyCode::End => if plain { bytes_of(&[0x1b, 0x5b, 0x46]) } else { Vec::new() },
        KeyCode::PageUp => if plain { bytes_of(&[0x1b, 0x5b, 0x35, 0x7e]) } else { Vec::new() },
        KeyCode::PageDown => if plain { bytes_of(&[0x1b, 0x5b, 0x36, 0x7e]) } else { Vec::new() },
        KeyCode::Insert => if plain { bytes_of(&[0x1b, 0x5b, 0x32, 0x7e]) } else { Vec::new() },
        KeyCode::Delete => if plain { bytes_of(&[0x1b, 0x5b, 0x33, 0x7e]) } else { Vec::new() },
        KeyCode::F(n) => if plain { function_key_bytes(n) } else { Vec::new() },
        _ => Vec::new(),
    };
    assert(r@ =~= key_bytes(key));
    r
}

/// The final byte of the ECMA-48 / VT100 cursor-movement sequence
/// `ESC [ X` for a direction: CUU `A` up, CUD `B` down, CUF `C` forward
/// (right), CUB `D` back (left).
pub open spec fn cursor_final_byte(d: Direction) -> u8 {
    match d {
        Direction::Up => 'A' as u8,
        Direction::Down => 'B' as u8,
        Direction::Right => 'C' as u8,
        Direction::Left => 'D' as u8,
    }
}

/// Law: an arrow key with no modifier sends the cursor-movement sequence
/// `ESC [` followed by the final byte of the direction it points in, so
/// each arrow moves the shell's cursor its own way.
pub proof fn law_arrow_keys_move_the_cursor_their_way(key: KeyEvent)
    requires
        no_mods(key.modifiers),
        arrow_direction(key.code) is Some,
    ensures
        key_bytes(key) == seq![0x1bu8, '[' as u8, cursor_final_byte(
            arrow_direction(key.code).unwrap(),
        )],
{
}

/// The keys of the cursor and editing block: the arrows, Home, End, the
/// page keys, Insert and Delete.
pub open spec fn editing_block_key(code: KeyCode) -> bool {
    arrow_direction(code) is Some || code == KeyCode::Home || code == KeyCode::End || code
        == KeyCode::PageUp || code == KeyCode::PageDown || code == KeyCode::Insert || code
        == KeyCode::Delete
}

/// Law: with no modifier, two different keys of the cursor and editing
/// block send different bytes, and each sends a non-empty escape sequence;
/// the shell can tell every one of them apart.
pub proof fn law_editing_keys_send_distinct_sequences(a: KeyEvent, b: KeyEvent)
    requires
        no_mods(a.modifiers),
        no_mods(b.modifiers),
        editing_block_key(a.code),
        editing_block_key(b.code),
        a.code != b.code,
    ensures
        key_bytes(a) != key_bytes(b),
        key_bytes(a).len() >= 3 && key_bytes(a)[0] == 0x1b,
{
    let x = key_bytes(a);
    let y = key_bytes(b);
    if x.len() == y.len() {
        if x.len() == 3 {
            assert(x[2] != y[2]);
        } else {
            assert(x[2] != y[2]);
        }
    }
}

/// Law: Ctrl with a letter sends the letter's position in the alphabet
/// (Ctrl+A is 1, Ctrl+Z is 26), whichever case the letter is in.
pub proof fn law_control_letters_send_their_position(key: KeyEvent, c: char)
    requires
        only_control(key.modifiers),
        key.code == KeyCode::Char(c),
        ('a' <= c <= 'z') || ('A' <= c <= 'Z'),
    ensures
        key_bytes(key) == seq![(if 'a' <= c <= 'z' {
            (c as u32) - ('a' as u32) + 1
        } else {
            (c as u32) - ('A' as u32) + 1
        }) as u8],
{
}

/// Law: a printable ASCII character typed with no modifier or with Shift
/// is sent as its own code, one byte.
pub proof fn law_ascii_characters_are_sent_as_themselves(key: KeyEvent, c: char)
    requires
        no_mods(key.modifiers) || only_shift(key.modifiers),
        key.code == KeyCode::Char(c),
        (c as u32) < 0x80,
    ensures
        key_bytes(key) == seq![c as u8],
{
}

/// The ASCII control code a key is named after: carriage return for
/// Enter, horizontal tab for Tab, delete for Backspace, escape for Esc.
pub open spec fn ascii_control_code(code: KeyCode) -> Option<u8> {
    match code {
        KeyCode::Enter => Some(13u8),
        KeyCode::Tab => Some(9u8),
        KeyCode::Backspace => Some(127u8),
        KeyCode::Esc => Some(27u8),
        _ => None,
    }
}

/// Law: Enter, Tab, Backspace and Esc with no modifier each send the one
/// ASCII control code they are named after (CR, HT, DEL, ESC), so no two
/// of them send the same byte.
pub proof fn law_control_keys_send_their_ascii_code(key: KeyEvent)
    requires
        no_mods(key.modifiers),
        ascii_control_code(key.code) is Some,
    ensures
        key_bytes(key) == seq![ascii_control_code(key.code).unwrap()],
{
}

/// Law: the function keys F1 to F12 send twelve different escape
/// sequences, each starting with ESC; keys past F12 send nothing.
pub proof fn law_function_keys_are_distinct(n: u8, k: u8)
    requires
        1 <= n <= 12,
        1 <= k <= 12,
        n != k,
    ensures
        function_key_seq(n) != function_key_seq(k),
        function_key_seq(n).len() >= 3 && function_key_seq(n)[0] == 0x1b,
        function_key_seq(13) == Seq::<u8>::empty(),
{
    let x = function_key_seq(n);
    let y = function_key_seq(k);
    if x.len() == y.len() {
        if x.len() == 3 {
            assert(x[2] != y[2]);
        } else {
            assert(x[2] != y[2] || x[3] != y[3]);
        }
    }
}

} // verus!
