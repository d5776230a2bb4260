use zerokb::keymap::{lookup, KEY_ENTER, MOD_LCTRL, MOD_LSHIFT, MOD_NONE};

#[test]
fn lowercase_letters() {
    assert_eq!(lookup('a'), Some((MOD_NONE, 0x04)));
    assert_eq!(lookup('z'), Some((MOD_NONE, 0x1d)));
}

#[test]
fn uppercase_letters() {
    assert_eq!(lookup('A'), Some((MOD_LSHIFT, 0x04)));
    assert_eq!(lookup('Z'), Some((MOD_LSHIFT, 0x1d)));
}

#[test]
fn digits() {
    assert_eq!(lookup('1'), Some((MOD_NONE, 0x1e)));
    assert_eq!(lookup('0'), Some((MOD_NONE, 0x27)));
}

#[test]
fn shifted_punctuation() {
    assert_eq!(lookup('!'), Some((MOD_LSHIFT, 0x1e)));
    assert_eq!(lookup('?'), Some((MOD_LSHIFT, 0x38)));
}

#[test]
fn ctrl_keys() {
    assert_eq!(lookup('\x01'), Some((MOD_LCTRL, 0x04))); // Ctrl+A
    assert_eq!(lookup('\x03'), Some((MOD_LCTRL, 0x06))); // Ctrl+C
    assert_eq!(lookup('\x1a'), Some((MOD_LCTRL, 0x1d))); // Ctrl+Z
}

#[test]
fn unmapped_returns_none() {
    assert_eq!(lookup('å'), None);
    assert_eq!(lookup('€'), None);
}

#[test]
fn special_keys() {
    assert_eq!(lookup('\n'), Some((MOD_NONE, KEY_ENTER)));
    assert_eq!(lookup('\t'), Some((MOD_NONE, 0x2b)));
    assert_eq!(lookup('\x08'), Some((MOD_NONE, 0x2a)));
    assert_eq!(lookup('\x7f'), Some((MOD_NONE, 0x2a)));
    assert_eq!(lookup(' '), Some((MOD_NONE, 0x2c)));
}

#[test]
fn unshifted_punctuation() {
    assert_eq!(lookup('-'), Some((MOD_NONE, 0x2d)));
    assert_eq!(lookup('\\'), Some((MOD_NONE, 0x31)));
    assert_eq!(lookup(';'), Some((MOD_NONE, 0x33)));
    assert_eq!(lookup('/'), Some((MOD_NONE, 0x38)));
}

#[test]
fn unmapped_controls() {
    assert_eq!(lookup('\0'), None);
    assert_eq!(lookup('\x1b'), None);
    assert_eq!(lookup('\x1f'), None);
    assert_eq!(lookup('\u{80}'), None);
}

#[test]
fn every_printable_ascii_is_mapped() {
    for b in 0x20u8..=0x7e {
        assert!(lookup(b as char).is_some(), "{:?}", b as char);
    }
}

#[test]
fn shift_shares_key_with_partner() {
    let pairs = [('!', '1'), ('@', '2'), ('(', '9'), (')', '0'), ('_', '-'), ('~', '`'), ('?', '/'), ('Q', 'q')];
    for (shifted, base) in pairs {
        let (m, k) = lookup(shifted).unwrap();
        assert_eq!(m, MOD_LSHIFT);
        assert_eq!(lookup(base), Some((MOD_NONE, k)));
    }
}

#[test]
fn distinct_chars_distinct_keys_except_delete() {
    let mut seen = std::collections::HashMap::new();
    for b in 0u8..=0x7f {
        if let Some(key) = lookup(b as char) {
            if let Some(prev) = seen.insert(key, b) {
                assert_eq!((prev, b), (0x08, 0x7f));
            }
        }
    }
}
