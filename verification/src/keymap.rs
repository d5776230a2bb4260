//! USB HID keyboard scancodes (US layout).
//! Reference: USB HID Usage Tables, Section 10 (Keyboard/Keypad Page 0x07).
use vstd::prelude::*;

verus! {

/// Usage ID of the Enter key.
pub const KEY_ENTER: u8 = 0x28;

/// Modifier byte with no modifier held.
pub const MOD_NONE: u8 = 0x00;

/// Modifier byte with Left Control held.
pub const MOD_LCTRL: u8 = 0x01;

/// Modifier byte with Left Shift held.
pub const MOD_LSHIFT: u8 = 0x02;

/// The code point of `c`.
pub open spec fn code(c: char) -> int {
    c as u32 as int
}

/// The key that types `c` with no modifier held, if there is one.
pub open spec fn base_keycode(c: char) -> Option<u8> {
    let n: int = code(c);
    if c == '\n' {
        Some(KEY_ENTER)
    } else if c == '\t' {
        Some(0x2bu8)
    } else if c == '\x08' || c == '\x7f' {
        Some(0x2au8)
    } else if 0x61 <= n <= 0x7a {
        Some((0x04 + (n - 0x61)) as u8)
    } else if 0x31 <= n <= 0x39 {
        Some((0x1e + (n - 0x31)) as u8)
    } else if c == '0' {
        Some(0x27u8)
    } else if c == ' ' {
        Some(0x2cu8)
    } else if c == '-' {
        Some(0x2du8)
    } else if c == '=' {
        Some(0x2eu8)
    } else if c == '[' {
        Some(0x2fu8)
    } else if c == ']' {
        Some(0x30u8)
    } else if c == '\\' {
        Some(0x31u8)
    } else if c == ';' {
        Some(0x33u8)
    } else if c == '\'' {
        Some(0x34u8)
    } else if c == '`' {
        Some(0x35u8)
    } else if c == ',' {
        Some(0x36u8)
    } else if c == '.' {
        Some(0x37u8)
    } else if c == '/' {
        Some(0x38u8)
    } else {
        None
    }
}

/// The character on the same key as `c` when Shift is not held, for the
/// characters that a US layout types with Shift.
pub open spec fn shifted_partner(c: char) -> Option<char> {
    let n: int = code(c);
    if 0x41 <= n <= 0x5a {
        Some((n + 0x20) as char)
    } else if c == '!' {
        Some('1')
    } else if c == '@' {
        Some('2')
    } else if c == '#' {
        Some('3')
    } else if c == '$' {
        Some('4')
    } else if c == '%' {
        Some('5')
    } else if c == '^' {
        Some('6')
    } else if c == '&' {
        Some('7')
    } else if c == '*' {
        Some('8')
    } else if c == '(' {
        Some('9')
    } else if c == ')' {
        Some('0')
    } else if c == '_' {
        Some('-')
    } else if c == '+' {
        Some('=')
    } else if c == '{' {
        Some('[')
    } else if c == '}' {
        Some(']')
    } else if c == '|' {
        Some('\\')
    } else if c == ':' {
        Some(';')
    } else if c == '"' {
        Some('\'')
    } else if c == '~' {
        Some('`')
    } else if c == '<' {
        Some(',')
    } else if c == '>' {
        Some('.')
    } else if c == '?' {
        Some('/')
    } else {
        None
    }
}

/// For a control character Ctrl+A .. Ctrl+Z (0x01 .. 0x1a), the letter typed
/// together with Control.
pub open spec fn ctrl_letter(c: char) -> Option<char> {
    let n: int = code(c);
    if 0x01 <= n <= 0x1a {
        Some((n + 0x60) as char)
    } else {
        None
    }
}

/// The (modifier, keycode) pair that types `c` on a US layout: a key of its
/// own where there is one, else Control plus a letter for the control
/// characters, else Shift plus the key of its unshifted partner.
pub open spec fn spec_lookup(c: char) -> Option<(u8, u8)> {
    if base_keycode(c) is Some {
        Some((MOD_NONE, base_keycode(c)->0))
    } else if ctrl_letter(c) is Some {
        Some((MOD_LCTRL, base_keycode(ctrl_letter(c)->0)->0))
    } else if shifted_partner(c) is Some {
        Some((MOD_LSHIFT, base_keycode(shifted_partner(c)->0)->0))
    } else {
        None
    }
}

/// The characters the table maps: the control characters 0x01 .. 0x1a
/// (Tab, Enter and Backspace among them) and every character from Space to
/// Delete (0x20 .. 0x7f).
pub open spec fn is_mapped(c: char) -> bool {
    let n: int = code(c);
    (0x01 <= n <= 0x1a) || (0x20 <= n <= 0x7f)
}

/// Returns (modifier, keycode) for a character, or None if unmapped.
pub fn lookup(ch: char) -> (r: Option<(u8, u8)>)
    ensures
        r == spec_lookup(ch),
        r is Some <==> is_mapped(ch),
        r matches Some((m, k)) ==> (m == MOD_NONE || m == MOD_LCTRL || m == MOD_LSHIFT) && 0x04
            <= k <= 0x38,
{
    let n: u32 = ch as u32;
    let (modifier, keycode): (u8, u8) = match ch {
        '\n' => (MOD_NONE, KEY_ENTER),
        '\t' => (MOD_NONE, 0x2b),
        '\x08' | '\x7f' => (MOD_NONE, 0x2a),  // backspace / delete
        // Ctrl+A through Ctrl+Z (0x01-0x1a), excluding \t \n \x08 matched above
        '\x01'..='\x1a' => (MOD_LCTRL, (0x04 + (n - 0x01)) as u8),
        'a'..='z' => (MOD_NONE, (0x04 + (n - 0x61)) as u8),
        'A'..='Z' => (MOD_LSHIFT, (0x04 + (n - 0x41)) as u8),
        '1'..='9' => (MOD_NONE, (0x1e + (n - 0x31)) as u8),
        '0' => (MOD_NONE, 0x27),
        ' ' => (MOD_NONE, 0x2c),
        // Punctuation (unshifted keys)
        '-' => (MOD_NONE, 0x2d),
        '=' => (MOD_NONE, 0x2e),
        '[' => (MOD_NONE, 0x2f),
        ']' => (MOD_NONE, 0x30),
        '\\' => (MOD_NONE, 0x31),
        ';' => (MOD_NONE, 0x33),
        '\'' => (MOD_NONE, 0x34),
        '`' => (MOD_NONE, 0x35),
        ',' => (MOD_NONE, 0x36),
        '.' => (MOD_NONE, 0x37),
        '/' => (MOD_NONE, 0x38),
        // Shifted punctuation
        '!' => (MOD_LSHIFT, 0x1e),
        '@' => (MOD_LSHIFT, 0x1f),
        '#' => (MOD_LSHIFT, 0x20),
        '$' => (MOD_LSHIFT, 0x21),
        '%' => (MOD_LSHIFT, 0x22),
        '^' => (MOD_LSHIFT, 0x23),
        '&' => (MOD_LSHIFT, 0x24),
        '*' => (MOD_LSHIFT, 0x25),
        '(' => (MOD_LSHIFT, 0x26),
        ')' => (MOD_LSHIFT, 0x27),
        '_' => (MOD_LSHIFT, 0x2d),
        '+' => (MOD_LSHIFT, 0x2e),
        '{' => (MOD_LSHIFT, 0x2f),
        '}' => (MOD_LSHIFT, 0x30),
        '|' => (MOD_LSHIFT, 0x31),
        ':' => (MOD_LSHIFT, 0x33),
        '"' => (MOD_LSHIFT, 0x34),
        '~' => (MOD_LSHIFT, 0x35),
        '<' => (MOD_LSHIFT, 0x36),
        '>' => (MOD_LSHIFT, 0x37),
        '?' => (MOD_LSHIFT, 0x38),
        _ => return None,
    };
    Some((modifier, keycode))
}

/// The printing keys of a US keyboard, by HID usage ID (USB HID Usage
/// Tables, Keyboard/Keypad page 0x07): the character each key types alone
/// and the one it types with Shift.
pub open spec fn us_key(usage: u8) -> Option<(char, char)> {
    if 0x04 <= usage <= 0x1d {
        Some(((usage - 0x04 + 0x61) as char, (usage - 0x04 + 0x41) as char))
    } else if usage == 0x1e {
        Some(('1', '!'))
    } else if usage == 0x1f {
        Some(('2', '@'))
    } else if usage == 0x20 {
        Some(('3', '#'))
    } else if usage == 0x21 {
        Some(('4', '$'))
    } else if usage == 0x22 {
        Some(('5', '%'))
    } else if usage == 0x23 {
        Some(('6', '^'))
    } else if usage == 0x24 {
        Some(('7', '&'))
    } else if usage == 0x25 {
        Some(('8', '*'))
    } else if usage == 0x26 {
        Some(('9', '('))
    } else if usage == 0x27 {
        Some(('0', ')'))
    } else if usage == 0x2d {
        Some(('-', '_'))
    } else if usage == 0x2e {
        Some(('=', '+'))
    } else if usage == 0x2f {
        Some(('[', '{'))
    } else if usage == 0x30 {
        Some((']', '}'))
    } else if usage == 0x31 {
        Some(('\\', '|'))
    } else if usage == 0x33 {
        Some((';', ':'))
    } else if usage == 0x34 {
        Some(('\'', '"'))
    } else if usage == 0x35 {
        Some(('`', '~'))
    } else if usage == 0x36 {
        Some((',', '<'))
    } else if usage == 0x37 {
        Some(('.', '>'))
    } else if usage == 0x38 {
        Some(('/', '?'))
    } else {
        None
    }
}

/// Every printing key of the US layout types its character with no
/// modifier (0x00) and its shifted character with Left Shift (0x02), under
/// the key's own usage ID.
pub proof fn lemma_lookup_follows_us_layout(usage: u8)
    requires
        us_key(usage) is Some,
    ensures
        us_key(usage) matches Some((plain, shifted)) && spec_lookup(plain) == Some((0x00u8, usage))
            && spec_lookup(shifted) == Some((0x02u8, usage)),
{
}

/// The keys that are not printing keys: Enter (0x28), Tab (0x2b), Backspace
/// (0x2a, for both Backspace and Delete) and the space bar (0x2c), with no
/// modifier; and Ctrl+A .. Ctrl+Z as Left Control (0x01) plus the letter's
/// usage ID (0x04 for A onwards).
pub proof fn lemma_lookup_special_keys(c: char)
    ensures
        spec_lookup('\n') == Some((0x00u8, 0x28u8)),
        spec_lookup('\t') == Some((0x00u8, 0x2bu8)),
        spec_lookup('\x08') == Some((0x00u8, 0x2au8)),
        spec_lookup('\x7f') == Some((0x00u8, 0x2au8)),
        spec_lookup(' ') == Some((0x00u8, 0x2cu8)),
        0x01 <= c as u32 <= 0x1a && c != '\x08' && c != '\t' && c != '\n' ==> spec_lookup(c)
            == Some((0x01u8, (c as u32 - 0x01 + 0x04) as u8)),
{
}

/// Distinct characters are typed by distinct key combinations, with one
/// exception: Backspace (0x08) and Delete (0x7f) share the Backspace key.
pub proof fn lemma_lookup_injective(c1: char, c2: char)
    requires
        spec_lookup(c1) is Some,
        spec_lookup(c1) == spec_lookup(c2),
        c1 != c2,
    ensures
        (c1 == '\x08' && c2 == '\x7f') || (c1 == '\x7f' && c2 == '\x08'),
{
}

/// Control characters Ctrl+A .. Ctrl+Z (other than Backspace, Tab and Enter,
/// which have keys of their own) are typed as Left Control plus the key of
/// the corresponding lowercase letter.
pub proof fn lemma_ctrl_uses_letter_key(c: char)
    requires
        0x01 <= code(c) <= 0x1a,
        c != '\x08',
        c != '\t',
        c != '\n',
    ensures
        spec_lookup((code(c) + 0x60) as char) matches Some((m, k)) && m == MOD_NONE
            && spec_lookup(c) == Some((MOD_LCTRL, k)),
{
}

/// A character typed with Shift shares its key with its unshifted partner,
/// which is typed with no modifier.
pub proof fn lemma_shift_shares_key(c: char)
    requires
        shifted_partner(c) is Some,
    ensures
        spec_lookup(shifted_partner(c)->0) matches Some((m, k)) && m == MOD_NONE
            && spec_lookup(c) == Some((MOD_LSHIFT, k)),
{
}

} // verus!
