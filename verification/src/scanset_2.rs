//! Scan code set 2 decoding of PS/2 keyboard input.

use vstd::prelude::*;
use crate::ps2::keyboard::Scancode;
use crate::keymap::{
    Keycode, A, B, BACKSPACE, BACK_SLASH, BACK_TICK, C, CAPS_LOCK, COMMA, D, DELETE, DOWN_ARROW, E, END, ENTER, EQUALS, ESCAPE, F, F1, F10, F11, F12, F2, F3, F4, F5, F6, F7, F8, F9, FORWARD_SLASH, G, H, HOME, I, INSERT, J, K, KEY_0, KEY_1, KEY_2, KEY_3, KEY_4, KEY_5, KEY_6, KEY_7, KEY_8, KEY_9, L, LEFT_ALT, LEFT_ARROW, LEFT_CONTROL, LEFT_SHIFT, M, MINUS, N, NUM_LOCK, NUM_PAD_0, NUM_PAD_1, NUM_PAD_2, NUM_PAD_3, NUM_PAD_4, NUM_PAD_5, NUM_PAD_6, NUM_PAD_7, NUM_PAD_8, NUM_PAD_9, NUM_PAD_ASTERISK, NUM_PAD_ENTER, NUM_PAD_FORWARD_SLASH, NUM_PAD_MINUS, NUM_PAD_PERIOD, NUM_PAD_PLUS, O, P, PAGE_DOWN, PAGE_UP, PERIOD, Q, R, RIGHT_ALT, RIGHT_ARROW, RIGHT_CONTROL, RIGHT_SHIFT, S, SCROLL_LOCK, SEMI_COLON, SINGLE_QUOTE, SPACE, SQUARE_BRACKET_CLOSE, SQUARE_BRACKET_OPEN, T, TAB, U, UP_ARROW, V, W, X, Y, Z,
};

verus! {

/// The keycode of a standard (not extended) scan code of set 2.
pub open spec fn spec_parse_standard(code: u8) -> Option<Keycode> {
    match code {
        0x01 => Some(F9),
        0x03 => Some(F5),
        0x04 => Some(F3),
        0x05 => Some(F1),
        0x06 => Some(F2),
        0x07 => Some(F12),
        0x09 => Some(F10),
        0x0A => Some(F8),
        0x0B => Some(F6),
        0x0C => Some(F4),
        0x0D => Some(TAB),
        0x0E => Some(BACK_TICK),
        0x11 => Some(LEFT_ALT),
        0x12 => Some(LEFT_SHIFT),
        0x14 => Some(LEFT_CONTROL),
        0x15 => Some(Q),
        0x16 => Some(KEY_1),
        0x1A => Some(Z),
        0x1B => Some(S),
        0x1C => Some(A),
        0x1D => Some(W),
        0x1E => Some(KEY_2),
        0x21 => Some(C),
        0x22 => Some(X),
        0x23 => Some(D),
        0x24 => Some(E),
        0x25 => Some(KEY_4),
        0x26 => Some(KEY_3),
        0x29 => Some(SPACE),
        0x2A => Some(V),
        0x2B => Some(F),
        0x2C => Some(T),
        0x2D => Some(R),
        0x2E => Some(KEY_5),
        0x31 => Some(N),
        0x32 => Some(B),
        0x33 => Some(H),
        0x34 => Some(G),
        0x35 => Some(Y),
        0x36 => Some(KEY_6),
        0x3A => Some(M),
        0x3B => Some(J),
        0x3C => Some(U),
        0x3D => Some(KEY_7),
        0x3E => Some(KEY_8),
        0x41 => Some(COMMA),
        0x42 => Some(K),
        0x43 => Some(I),
        0x44 => Some(O),
        0x45 => Some(KEY_0),
        0x46 => Some(KEY_9),
        0x49 => Some(PERIOD),
        0x4A => Some(FORWARD_SLASH),
        0x4B => Some(L),
        0x4C => Some(SEMI_COLON),
        0x4D => Some(P),
        0x4E => Some(MINUS),
        0x52 => Some(SINGLE_QUOTE),
        0x54 => Some(SQUARE_BRACKET_OPEN),
        0x55 => Some(EQUALS),
        0x58 => Some(CAPS_LOCK),
        0x59 => Some(RIGHT_SHIFT),
        0x5A => Some(ENTER),
        0x5B => Some(SQUARE_BRACKET_CLOSE),
        0x5D => Some(BACK_SLASH),
        0x66 => Some(BACKSPACE),
        0x69 => Some(NUM_PAD_1),
        0x6B => Some(NUM_PAD_4),
        0x6C => Some(NUM_PAD_7),
        0x70 => Some(NUM_PAD_0),
        0x71 => Some(NUM_PAD_PERIOD),
        0x72 => Some(NUM_PAD_2),
        0x73 => Some(NUM_PAD_5),
        0x74 => Some(NUM_PAD_6),
        0x75 => Some(NUM_PAD_8),
        0x76 => Some(ESCAPE),
        0x77 => Some(NUM_LOCK),
        0x78 => Some(F11),
        0x79 => Some(NUM_PAD_PLUS),
        0x7A => Some(NUM_PAD_3),
        0x7B => Some(NUM_PAD_MINUS),
        0x7C => Some(NUM_PAD_ASTERISK),
        0x7D => Some(NUM_PAD_9),
        0x7E => Some(SCROLL_LOCK),
        0x83 => Some(F7),
        _ => None,
    }
}

/// The keycode of an extended (0xE0 prefixed) scan code of set 2.
pub open spec fn spec_parse_extended(code: u8) -> Option<Keycode> {
    match code {
        0x11 => Some(RIGHT_ALT),
        0x14 => Some(RIGHT_CONTROL),
        0x4A => Some(NUM_PAD_FORWARD_SLASH),
        0x5A => Some(NUM_PAD_ENTER),
        0x69 => Some(END),
        0x6B => Some(LEFT_ARROW),
        0x6C => Some(HOME),
        0x70 => Some(INSERT),
        0x71 => Some(DELETE),
        0x72 => Some(DOWN_ARROW),
        0x74 => Some(RIGHT_ARROW),
        0x75 => Some(UP_ARROW),
        0x7A => Some(PAGE_DOWN),
        0x7D => Some(PAGE_UP),
        _ => None,
    }
}

pub fn parse_standard(code: u8) -> (keycode: Option<Keycode>)
    ensures
        keycode == spec_parse_standard(code),
{
    match code {
        0x01 => Some(F9),
        0x03 => Some(F5),
        0x04 => Some(F3),
        0x05 => Some(F1),
        0x06 => Some(F2),
        0x07 => Some(F12),
        0x09 => Some(F10),
        0x0A => Some(F8),
        0x0B => Some(F6),
        0x0C => Some(F4),
        0x0D => Some(TAB),
        0x0E => Some(BACK_TICK),
        0x11 => Some(LEFT_ALT),
        0x12 => Some(LEFT_SHIFT),
        0x14 => Some(LEFT_CONTROL),
        0x15 => Some(Q),
        0x16 => Some(KEY_1),
        0x1A => Some(Z),
        0x1B => Some(S),
        0x1C => Some(A),
        0x1D => Some(W),
        0x1E => Some(KEY_2),
        0x21 => Some(C),
        0x22 => Some(X),
        0x23 => Some(D),
        0x24 => Some(E),
        0x25 => Some(KEY_4),
        0x26 => Some(KEY_3),
        0x29 => Some(SPACE),
        0x2A => Some(V),
        0x2B => Some(F),
        0x2C => Some(T),
        0x2D => Some(R),
        0x2E => Some(KEY_5),
        0x31 => Some(N),
        0x32 => Some(B),
        0x33 => Some(H),
        0x34 => Some(G),
        0x35 => Some(Y),
        0x36 => Some(KEY_6),
        0x3A => Some(M),
        0x3B => Some(J),
        0x3C => Some(U),
        0x3D => Some(KEY_7),
        0x3E => Some(KEY_8),
        0x41 => Some(COMMA),
        0x42 => Some(K),
        0x43 => Some(I),
        0x44 => Some(O),
        0x45 => Some(KEY_0),
        0x46 => Some(KEY_9),
        0x49 => Some(PERIOD),
        0x4A => Some(FORWARD_SLASH),
        0x4B => Some(L),
        0x4C => Some(SEMI_COLON),
        0x4D => Some(P),
        0x4E => Some(MINUS),
        0x52 => Some(SINGLE_QUOTE),
        0x54 => Some(SQUARE_BRACKET_OPEN),
        0x55 => Some(EQUALS),
        0x58 => Some(CAPS_LOCK),
        0x59 => Some(RIGHT_SHIFT),
        0x5A => Some(ENTER),
        0x5B => Some(SQUARE_BRACKET_CLOSE),
        0x5D => Some(BACK_SLASH),
        0x66 => Some(BACKSPACE),
        0x69 => Some(NUM_PAD_1),
        0x6B => Some(NUM_PAD_4),
        0x6C => Some(NUM_PAD_7),
        0x70 => Some(NUM_PAD_0),
        0x71 => Some(NUM_PAD_PERIOD),
        0x72 => Some(NUM_PAD_2),
        0x73 => Some(NUM_PAD_5),
        0x74 => Some(NUM_PAD_6),
        0x75 => Some(NUM_PAD_8),
        0x76 => Some(ESCAPE),
        0x77 => Some(NUM_LOCK),
        0x78 => Some(F11),
        0x79 => Some(NUM_PAD_PLUS),
        0x7A => Some(NUM_PAD_3),
        0x7B => Some(NUM_PAD_MINUS),
        0x7C => Some(NUM_PAD_ASTERISK),
        0x7D => Some(NUM_PAD_9),
        0x7E => Some(SCROLL_LOCK),
        0x83 => Some(F7),
        _ => None,
    }
}

pub fn parse_extended(code: u8) -> (keycode: Option<Keycode>)
    ensures
        keycode == spec_parse_extended(code),
{
    match code {
        0x11 => Some(RIGHT_ALT),
        0x14 => Some(RIGHT_CONTROL),
        0x4A => Some(NUM_PAD_FORWARD_SLASH),
        0x5A => Some(NUM_PAD_ENTER),
        0x69 => Some(END),
        0x6B => Some(LEFT_ARROW),
        0x6C => Some(HOME),
        0x70 => Some(INSERT),
        0x71 => Some(DELETE),
        0x72 => Some(DOWN_ARROW),
        0x74 => Some(RIGHT_ARROW),
        0x75 => Some(UP_ARROW),
        0x7A => Some(PAGE_DOWN),
        0x7D => Some(PAGE_UP),
        _ => None,
    }
}

/// The keycode of a complete scan code of set 2.
pub open spec fn spec_parse(scancode: Scancode) -> Option<Keycode> {
    if scancode.extended {
        spec_parse_extended(scancode.code)
    } else {
        spec_parse_standard(scancode.code)
    }
}

/// Looks up the keycode of a complete scan code, extended or standard.
pub fn parse(scancode: Scancode) -> (keycode: Option<Keycode>)
    ensures
        keycode == spec_parse(scancode),
{
    if scancode.extended {
        parse_extended(scancode.code)
    } else {
        parse_standard(scancode.code)
    }
}

/// The make code of set 2 that names key `keycode` without the extended prefix, for the keys
/// that have one: the scan code set 2 table, read by key.
pub open spec fn standard_make_code(keycode: Keycode) -> Option<u8> {
    if keycode == F9 {
        Some(0x01)
    } else if keycode == F5 {
        Some(0x03)
    } else if keycode == F3 {
        Some(0x04)
    } else if keycode == F1 {
        Some(0x05)
    } else if keycode == F2 {
        Some(0x06)
    } else if keycode == F12 {
        Some(0x07)
    } else if keycode == F10 {
        Some(0x09)
    } else if keycode == F8 {
        Some(0x0A)
    } else if keycode == F6 {
        Some(0x0B)
    } else if keycode == F4 {
        Some(0x0C)
    } else if keycode == TAB {
        Some(0x0D)
    } else if keycode == BACK_TICK {
        Some(0x0E)
    } else if keycode == LEFT_ALT {
        Some(0x11)
    } else if keycode == LEFT_SHIFT {
        Some(0x12)
    } else if keycode == LEFT_CONTROL {
        Some(0x14)
    } else if keycode == Q {
        Some(0x15)
    } else if keycode == KEY_1 {
        Some(0x16)
    } else if keycode == Z {
        Some(0x1A)
    } else if keycode == S {
        Some(0x1B)
    } else if keycode == A {
        Some(0x1C)
    } else if keycode == W {
        Some(0x1D)
    } else if keycode == KEY_2 {
        Some(0x1E)
    } else if keycode == C {
        Some(0x21)
    } else if keycode == X {
        Some(0x22)
    } else if keycode == D {
        Some(0x23)
    } else if keycode == E {
        Some(0x24)
    } else if keycode == KEY_4 {
        Some(0x25)
    } else if keycode == KEY_3 {
        Some(0x26)
    } else if keycode == SPACE {
        Some(0x29)
    } else if keycode == V {
        Some(0x2A)
    } else if keycode == F {
        Some(0x2B)
    } else if keycode == T {
        Some(0x2C)
    } else if keycode == R {
        Some(0x2D)
    } else if keycode == KEY_5 {
        Some(0x2E)
    } else if keycode == N {
        Some(0x31)
    } else if keycode == B {
        Some(0x32)
    } else if keycode == H {
        Some(0x33)
    } else if keycode == G {
        Some(0x34)
    } else if keycode == Y {
        Some(0x35)
    } else if keycode == KEY_6 {
        Some(0x36)
    } else if keycode == M {
        Some(0x3A)
    } else if keycode == J {
        Some(0x3B)
    } else if keycode == U {
        Some(0x3C)
    } else if keycode == KEY_7 {
        Some(0x3D)
    } else if keycode == KEY_8 {
        Some(0x3E)
    } else if keycode == COMMA {
        Some(0x41)
    } else if keycode == K {
        Some(0x42)
    } else if keycode == I {
        Some(0x43)
    } else if keycode == O {
        Some(0x44)
    } else if keycode == KEY_0 {
        Some(0x45)
    } else if keycode == KEY_9 {
        Some(0x46)
    } else if keycode == PERIOD {
        Some(0x49)
    } else if keycode == FORWARD_SLASH {
        Some(0x4A)
    } else if keycode == L {
        Some(0x4B)
    } else if keycode == SEMI_COLON {
        Some(0x4C)
    } else if keycode == P {
        Some(0x4D)
    } else if keycode == MINUS {
        Some(0x4E)
    } else if keycode == SINGLE_QUOTE {
        Some(0x52)
    } else if keycode == SQUARE_BRACKET_OPEN {
        Some(0x54)
    } else if keycode == EQUALS {
        Some(0x55)
    } else if keycode == CAPS_LOCK {
        Some(0x58)
    } else if keycode == RIGHT_SHIFT {
        Some(0x59)
    } else if keycode == ENTER {
        Some(0x5A)
    } else if keycode == SQUARE_BRACKET_CLOSE {
        Some(0x5B)
    } else if keycode == BACK_SLASH {
        Some(0x5D)
    } else if keycode == BACKSPACE {
        Some(0x66)
    } else if keycode == NUM_PAD_1 {
        Some(0x69)
    } else if keycode == NUM_PAD_4 {
        Some(0x6B)
    } else if keycode == NUM_PAD_7 {
        Some(0x6C)
    } else if keycode == NUM_PAD_0 {
        Some(0x70)
    } else if keycode == NUM_PAD_PERIOD {
        Some(0x71)
    } else if keycode == NUM_PAD_2 {
        Some(0x72)
    } else if keycode == NUM_PAD_5 {
        Some(0x73)
    } else if keycode == NUM_PAD_6 {
        Some(0x74)
    } else if keycode == NUM_PAD_8 {
        Some(0x75)
    } else if keycode == ESCAPE {
        Some(0x76)
    } else if keycode == NUM_LOCK {
        Some(0x77)
    } else if keycode == F11 {
        Some(0x78)
    } else if keycode == NUM_PAD_PLUS {
        Some(0x79)
    } else if keycode == NUM_PAD_3 {
        Some(0x7A)
    } else if keycode == NUM_PAD_MINUS {
        Some(0x7B)
    } else if keycode == NUM_PAD_ASTERISK {
        Some(0x7C)
    } else if keycode == NUM_PAD_9 {
        Some(0x7D)
    } else if keycode == SCROLL_LOCK {
        Some(0x7E)
    } else if keycode == F7 {
        Some(0x83)
    } else {
        None
    }
}

/// The make code of set 2 that names key `keycode` after the extended prefix (0xE0), for the
/// keys that have one.
pub open spec fn extended_make_code(keycode: Keycode) -> Option<u8> {
    if keycode == RIGHT_ALT {
        Some(0x11)
    } else if keycode == RIGHT_CONTROL {
        Some(0x14)
    } else if keycode == NUM_PAD_FORWARD_SLASH {
        Some(0x4A)
    } else if keycode == NUM_PAD_ENTER {
        Some(0x5A)
    } else if keycode == END {
        Some(0x69)
    } else if keycode == LEFT_ARROW {
        Some(0x6B)
    } else if keycode == HOME {
        Some(0x6C)
    } else if keycode == INSERT {
        Some(0x70)
    } else if keycode == DELETE {
        Some(0x71)
    } else if keycode == DOWN_ARROW {
        Some(0x72)
    } else if keycode == RIGHT_ARROW {
        Some(0x74)
    } else if keycode == UP_ARROW {
        Some(0x75)
    } else if keycode == PAGE_DOWN {
        Some(0x7A)
    } else if keycode == PAGE_UP {
        Some(0x7D)
    } else {
        None
    }
}

/// **Law: standard codes decode by the set 2 table.** A standard code decodes to a key exactly
/// when that key's make code in the scan code set 2 table is that code.
pub proof fn law_standard_codes_follow_the_table(code: u8)
    ensures
        spec_parse_standard(code) matches Some(keycode) ==> standard_make_code(keycode) == Some(code),
{
}

/// **Law: standard codes decode by the set 2 table (keys).** Every key with a standard make
/// code is what that code decodes to.
pub proof fn law_table_codes_decode(keycode: Keycode)
    ensures
        standard_make_code(keycode) matches Some(code) ==> spec_parse_standard(code) == Some(keycode),
{
}

/// **Law: no two standard codes name the same key.**
pub proof fn law_standard_codes_distinct(first: u8, second: u8)
    requires
        first != second,
        spec_parse_standard(first) is Some,
    ensures
        spec_parse_standard(first) != spec_parse_standard(second),
{
    law_standard_codes_follow_the_table(first);
    law_standard_codes_follow_the_table(second);
}

/// **Law: extended codes decode by the set 2 table.**
pub proof fn law_extended_codes_follow_the_table(code: u8)
    ensures
        spec_parse_extended(code) matches Some(keycode) ==> extended_make_code(keycode) == Some(code),
{
}

/// **Law: no two extended codes name the same key.**
pub proof fn law_extended_codes_distinct(first: u8, second: u8)
    requires
        first != second,
        spec_parse_extended(first) is Some,
    ensures
        spec_parse_extended(first) != spec_parse_extended(second),
{
    law_extended_codes_follow_the_table(first);
    law_extended_codes_follow_the_table(second);
}

/// **Law: the extended prefix names other keys.** No key is named both by a standard code and
/// by an extended one.
pub proof fn law_standard_and_extended_keys_differ(standard: u8, extended: u8)
    requires
        spec_parse_standard(standard) is Some,
    ensures
        spec_parse_standard(standard) != spec_parse_extended(extended),
{
    law_standard_codes_follow_the_table(standard);
    law_extended_codes_follow_the_table(extended);
}

} // verus!
