//! Key codes as delivered by SDL (`SDL_Keycode` values): printable keys are
//! their ASCII character, the others carry bit 30 set over their scancode.

use vstd::prelude::*;

verus! {

pub const KEY_BACKSPACE: i32 = 8;
pub const KEY_TAB: i32 = 9;
pub const KEY_RETURN: i32 = 13;
pub const KEY_ESCAPE: i32 = 27;
pub const KEY_SPACE: i32 = 32;
pub const KEY_QUOTE: i32 = 39;
pub const KEY_COMMA: i32 = 44;
pub const KEY_MINUS: i32 = 45;
pub const KEY_PERIOD: i32 = 46;
pub const KEY_SLASH: i32 = 47;
pub const KEY_NUM0: i32 = 48;
pub const KEY_NUM9: i32 = 57;
pub const KEY_SEMICOLON: i32 = 59;
pub const KEY_EQUALS: i32 = 61;
pub const KEY_LEFTBRACKET: i32 = 91;
pub const KEY_BACKSLASH: i32 = 92;
pub const KEY_RIGHTBRACKET: i32 = 93;
pub const KEY_BACKQUOTE: i32 = 96;
pub const KEY_A: i32 = 97;
pub const KEY_Z: i32 = 122;
pub const KEY_DELETE: i32 = 127;
pub const KEY_CAPSLOCK: i32 = 0x4000_0039;
pub const KEY_F1: i32 = 0x4000_003A;
pub const KEY_F11: i32 = 0x4000_0044;
pub const KEY_F12: i32 = 0x4000_0045;
pub const KEY_INSERT: i32 = 0x4000_0049;
pub const KEY_HOME: i32 = 0x4000_004A;
pub const KEY_PAGEUP: i32 = 0x4000_004B;
pub const KEY_END: i32 = 0x4000_004D;
pub const KEY_PAGEDOWN: i32 = 0x4000_004E;
pub const KEY_RIGHT: i32 = 0x4000_004F;
pub const KEY_LEFT: i32 = 0x4000_0050;
pub const KEY_DOWN: i32 = 0x4000_0051;
pub const KEY_UP: i32 = 0x4000_0052;
pub const KEY_LCTRL: i32 = 0x4000_00E0;
pub const KEY_LSHIFT: i32 = 0x4000_00E1;
pub const KEY_LALT: i32 = 0x4000_00E2;
pub const KEY_RCTRL: i32 = 0x4000_00E4;
pub const KEY_RSHIFT: i32 = 0x4000_00E5;
pub const KEY_RALT: i32 = 0x4000_00E6;

/// Display name of a letter key `KEY_A + i` (`0 <= i < 26`).
pub open spec fn letter_name(i: int) -> Seq<char> {
    seq![(('A' as int) + i) as char]
}

/// Display name of a digit key `KEY_NUM0 + i` (`0 <= i < 10`).
pub open spec fn digit_name(i: int) -> Seq<char> {
    seq![(('0' as int) + i) as char]
}

/// Display name of function key `KEY_F1 + i` (`0 <= i < 12`).
pub open spec fn function_key_name(i: int) -> Seq<char> {
    if i < 9 {
        seq!['F', (('1' as int) + i) as char]
    } else {
        seq!['F', '1', (('0' as int) + i - 9) as char]
    }
}

/// The name shown for key code `key` in the binding pages: letters and
/// digits as themselves, punctuation as its character, the rest by a short
/// name, and `???` for a key without one.
pub open spec fn key_name(key: i32) -> Seq<char> {
    if KEY_A <= key <= KEY_Z {
        letter_name(key - KEY_A)
    } else if KEY_NUM0 <= key <= KEY_NUM9 {
        digit_name(key - KEY_NUM0)
    } else if KEY_F1 <= key <= KEY_F12 {
        function_key_name(key - KEY_F1)
    } else if key == KEY_RETURN {
        "Return"@
    } else if key == KEY_ESCAPE {
        "Escape"@
    } else if key == KEY_BACKSPACE {
        "Backspace"@
    } else if key == KEY_TAB {
        "Tab"@
    } else if key == KEY_SPACE {
        "Space"@
    } else if key == KEY_UP {
        "Up"@
    } else if key == KEY_DOWN {
        "Down"@
    } else if key == KEY_LEFT {
        "Left"@
    } else if key == KEY_RIGHT {
        "Right"@
    } else if key == KEY_LEFTBRACKET {
        "["@
    } else if key == KEY_RIGHTBRACKET {
        "]"@
    } else if key == KEY_SEMICOLON {
        ";"@
    } else if key == KEY_QUOTE {
        "'"@
    } else if key == KEY_COMMA {
        ","@
    } else if key == KEY_PERIOD {
        "."@
    } else if key == KEY_SLASH {
        "/"@
    } else if key == KEY_MINUS {
        "-"@
    } else if key == KEY_EQUALS {
        "="@
    } else if key == KEY_BACKSLASH {
        "\\"@
    } else if key == KEY_BACKQUOTE {
        "`"@
    } else if key == KEY_CAPSLOCK {
        "CapsLk"@
    } else if key == KEY_LCTRL {
        "LCtrl"@
    } else if key == KEY_RCTRL {
        "RCtrl"@
    } else if key == KEY_LSHIFT {
        "LShift"@
    } else if key == KEY_RSHIFT {
        "RShift"@
    } else if key == KEY_LALT {
        "LAlt"@
    } else if key == KEY_RALT {
        "RAlt"@
    } else if key == KEY_HOME {
        "Home"@
    } else if key == KEY_END {
        "End"@
    } else if key == KEY_PAGEUP {
        "PgUp"@
    } else if key == KEY_PAGEDOWN {
        "PgDn"@
    } else if key == KEY_INSERT {
        "Ins"@
    } else if key == KEY_DELETE {
        "Del"@
    } else {
        "???"@
    }
}

/// Names of the letter keys, in order.
fn letter_str(i: i32) -> (r: &'static str)
    requires
        0 <= i < 26,
    ensures
        r@ == letter_name(i as int),
{
    proof {
        reveal_strlit("A"); reveal_strlit("B"); reveal_strlit("C"); reveal_strlit("D");
        reveal_strlit("E"); reveal_strlit("F"); reveal_strlit("G"); reveal_strlit("H");
        reveal_strlit("I"); reveal_strlit("J"); reveal_strlit("K"); reveal_strlit("L");
        reveal_strlit("M"); reveal_strlit("N"); reveal_strlit("O"); reveal_strlit("P");
        reveal_strlit("Q"); reveal_strlit("R"); reveal_strlit("S"); reveal_strlit("T");
        reveal_strlit("U"); reveal_strlit("V"); reveal_strlit("W"); reveal_strlit("X");
        reveal_strlit("Y"); reveal_strlit("Z");
    }
    let r: &'static str = if i == 0 { "A" } else if i == 1 { "B" } else if i == 2 { "C" }
        else if i == 3 { "D" } else if i == 4 { "E" } else if i == 5 { "F" } else if i == 6 { "G" }
        else if i == 7 { "H" } else if i == 8 { "I" } else if i == 9 { "J" } else if i == 10 { "K" }
        else if i == 11 { "L" } else if i == 12 { "M" } else if i == 13 { "N" } else if i == 14 { "O" }
        else if i == 15 { "P" } else if i == 16 { "Q" } else if i == 17 { "R" } else if i == 18 { "S" }
        else if i == 19 { "T" } else if i == 20 { "U" } else if i == 21 { "V" } else if i == 22 { "W" }
        else if i == 23 { "X" } else if i == 24 { "Y" } else { "Z" };
    assert(r@ =~= letter_name(i as int));
    r
}

/// Names of the digit keys, in order.
fn digit_key_str(i: i32) -> (r: &'static str)
    requires
        0 <= i < 10,
    ensures
        r@ == digit_name(i as int),
{
    proof {
        reveal_strlit("0"); reveal_strlit("1"); reveal_strlit("2"); reveal_strlit("3");
        reveal_strlit("4"); reveal_strlit("5"); reveal_strlit("6"); reveal_strlit("7");
        reveal_strlit("8"); reveal_strlit("9");
    }
    let r: &'static str = if i == 0 { "0" } else if i == 1 { "1" } else if i == 2 { "2" }
        else if i == 3 { "3" } else if i == 4 { "4" } else if i == 5 { "5" } else if i == 6 { "6" }
        else if i == 7 { "7" } else if i == 8 { "8" } else { "9" };
    assert(r@ =~= digit_name(i as int));
    r
}

/// Names of the function keys, in order.
fn function_key_str(i: i32) -> (r: &'static str)
    requires
        0 <= i < 12,
    ensures
        r@ == function_key_name(i as int),
{
    proof {
        reveal_strlit("F1"); reveal_strlit("F2"); reveal_strlit("F3"); reveal_strlit("F4");
        reveal_strlit("F5"); reveal_strlit("F6"); reveal_strlit("F7"); reveal_strlit("F8");
        reveal_strlit("F9"); reveal_strlit("F10"); reveal_strlit("F11"); reveal_strlit("F12");
    }
    let r: &'static str = if i == 0 { "F1" } else if i == 1 { "F2" } else if i == 2 { "F3" }
        else if i == 3 { "F4" } else if i == 4 { "F5" } else if i == 5 { "F6" } else if i == 6 { "F7" }
        else if i == 7 { "F8" } else if i == 8 { "F9" } else if i == 9 { "F10" } else if i == 10 { "F11" }
        else { "F12" };
    assert(r@ =~= function_key_name(i as int));
    r
}

/// The display name of key code `key` (see [`key_name`]).
pub fn keycode_to_name(key: i32) -> (r: &'static str)
    ensures
        r@ == key_name(key),
{
    if KEY_A <= key && key <= KEY_Z {
        letter_str(key - KEY_A)
    } else if KEY_NUM0 <= key && key <= KEY_NUM9 {
        digit_key_str(key - KEY_NUM0)
    } else if KEY_F1 <= key && key <= KEY_F12 {
        function_key_str(key - KEY_F1)
    } else if key == KEY_RETURN {
        "Return"
    } else if key == KEY_ESCAPE {
        "Escape"
    } else if key == KEY_BACKSPACE {
        "Backspace"
    } else if key == KEY_TAB {
        "Tab"
    } else if key == KEY_SPACE {
        "Space"
    } else if key == KEY_UP {
        "Up"
    } else if key == KEY_DOWN {
        "Down"
    } else if key == KEY_LEFT {
        "Left"
    } else if key == KEY_RIGHT {
        "Right"
    } else if key == KEY_LEFTBRACKET {
        "["
    } else if key == KEY_RIGHTBRACKET {
        "]"
    } else if key == KEY_SEMICOLON {
        ";"
    } else if key == KEY_QUOTE {
        "'"
    } else if key == KEY_COMMA {
        ","
    } else if key == KEY_PERIOD {
        "."
    } else if key == KEY_SLASH {
        "/"
    } else if key == KEY_MINUS {
        "-"
    } else if key == KEY_EQUALS {
        "="
    } else if key == KEY_BACKSLASH {
        "\\"
    } else if key == KEY_BACKQUOTE {
        "`"
    } else if key == KEY_CAPSLOCK {
        "CapsLk"
    } else if key == KEY_LCTRL {
        "LCtrl"
    } else if key == KEY_RCTRL {
        "RCtrl"
    } else if key == KEY_LSHIFT {
        "LShift"
    } else if key == KEY_RSHIFT {
        "RShift"
    } else if key == KEY_LALT {
        "LAlt"
    } else if key == KEY_RALT {
        "RAlt"
    } else if key == KEY_HOME {
        "Home"
    } else if key == KEY_END {
        "End"
    } else if key == KEY_PAGEUP {
        "PgUp"
    } else if key == KEY_PAGEDOWN {
        "PgDn"
    } else if key == KEY_INSERT {
        "Ins"
    } else if key == KEY_DELETE {
        "Del"
    } else {
        "???"
    }
}

} // verus!
