//! Keyboard shortcuts of quick actions: key names to HID usage ids, the key
//! events that play a shortcut, and the check of URLs that actions open.

use vstd::prelude::*;
use vstd::string::StringExecFns;
use crate::text::{chars_equal, chars_of, is_ascii_alnum, is_ascii_alpha, is_control, lower_chars, lower_seq, push_chars, string_from_chars, trim, trim_chars};

verus! {

pub open spec fn underscored(s: Seq<char>) -> Seq<char> {
    s.map_values(|c: char| if c == ' ' || c == '-' { '_' } else { c })
}

/// A key name as matched: trimmed, lower case, spaces and hyphens as underscores.
pub open spec fn normalized_key(key: Seq<char>) -> Seq<char> {
    underscored(lower_seq(trim(key)))
}

fn underscored_exec(s: &[char]) -> (v: Vec<char>)
    ensures
        v@ == underscored(s@),
{
    let mut v: Vec<char> = Vec::new();
    let mut i: usize = 0;
    while i < s.len()
        invariant
            i <= s@.len(),
            v@ == underscored(s@).take(i as int),
        decreases s@.len() - i,
    {
        let c = s[i];
        v.push(if c == ' ' || c == '-' { '_' } else { c });
        i = i + 1;
        assert(v@ =~= underscored(s@).take(i as int));
    }
    assert(underscored(s@).take(s@.len() as int) =~= underscored(s@));
    v
}

/// Usage ids of the named keys.
pub open spec fn named_key_usage(k: Seq<char>) -> Option<u16> {
    if k == "enter"@ {
        Some(0x28)
    } else if k == "return"@ {
        Some(0x28)
    } else if k == "escape"@ {
        Some(0x29)
    } else if k == "esc"@ {
        Some(0x29)
    } else if k == "backspace"@ {
        Some(0x2A)
    } else if k == "tab"@ {
        Some(0x2B)
    } else if k == "space"@ {
        Some(0x2C)
    } else if k == "minus"@ {
        Some(0x2D)
    } else if k == "equal"@ {
        Some(0x2E)
    } else if k == "left_bracket"@ {
        Some(0x2F)
    } else if k == "right_bracket"@ {
        Some(0x30)
    } else if k == "backslash"@ {
        Some(0x31)
    } else if k == "semicolon"@ {
        Some(0x33)
    } else if k == "quote"@ {
        Some(0x34)
    } else if k == "grave"@ {
        Some(0x35)
    } else if k == "backtick"@ {
        Some(0x35)
    } else if k == "comma"@ {
        Some(0x36)
    } else if k == "period"@ {
        Some(0x37)
    } else if k == "dot"@ {
        Some(0x37)
    } else if k == "slash"@ {
        Some(0x38)
    } else if k == "caps_lock"@ {
        Some(0x39)
    } else if k == "f1"@ {
        Some(0x3A)
    } else if k == "f2"@ {
        Some(0x3B)
    } else if k == "f3"@ {
        Some(0x3C)
    } else if k == "f4"@ {
        Some(0x3D)
    } else if k == "f5"@ {
        Some(0x3E)
    } else if k == "f6"@ {
        Some(0x3F)
    } else if k == "f7"@ {
        Some(0x40)
    } else if k == "f8"@ {
        Some(0x41)
    } else if k == "f9"@ {
        Some(0x42)
    } else if k == "f10"@ {
        Some(0x43)
    } else if k == "f11"@ {
        Some(0x44)
    } else if k == "f12"@ {
        Some(0x45)
    } else if k == "insert"@ {
        Some(0x49)
    } else if k == "home"@ {
        Some(0x4A)
    } else if k == "page_up"@ {
        Some(0x4B)
    } else if k == "pageup"@ {
        Some(0x4B)
    } else if k == "delete"@ {
        Some(0x4C)
    } else if k == "end"@ {
        Some(0x4D)
    } else if k == "page_down"@ {
        Some(0x4E)
    } else if k == "pagedown"@ {
        Some(0x4E)
    } else if k == "arrow_right"@ {
        Some(0x4F)
    } else if k == "right"@ {
        Some(0x4F)
    } else if k == "arrow_left"@ {
        Some(0x50)
    } else if k == "left"@ {
        Some(0x50)
    } else if k == "arrow_down"@ {
        Some(0x51)
    } else if k == "down"@ {
        Some(0x51)
    } else if k == "arrow_up"@ {
        Some(0x52)
    } else if k == "up"@ {
        Some(0x52)
    } else {
        None
    }
}

/// The key that the name `k` stands for: aliases (`return`, `esc`,
/// `backtick`, `dot`, `pageup`, `pagedown`, `right`, `left`, `down`, `up`)
/// give the name of the key they stand for; any other name stands for itself.
pub open spec fn canonical_key(k: Seq<char>) -> Seq<char> {
    if k == "enter"@ {
        "enter"@
    } else if k == "return"@ {
        "enter"@
    } else if k == "escape"@ {
        "escape"@
    } else if k == "esc"@ {
        "escape"@
    } else if k == "backspace"@ {
        "backspace"@
    } else if k == "tab"@ {
        "tab"@
    } else if k == "space"@ {
        "space"@
    } else if k == "minus"@ {
        "minus"@
    } else if k == "equal"@ {
        "equal"@
    } else if k == "left_bracket"@ {
        "left_bracket"@
    } else if k == "right_bracket"@ {
        "right_bracket"@
    } else if k == "backslash"@ {
        "backslash"@
    } else if k == "semicolon"@ {
        "semicolon"@
    } else if k == "quote"@ {
        "quote"@
    } else if k == "grave"@ {
        "grave"@
    } else if k == "backtick"@ {
        "grave"@
    } else if k == "comma"@ {
        "comma"@
    } else if k == "period"@ {
        "period"@
    } else if k == "dot"@ {
        "period"@
    } else if k == "slash"@ {
        "slash"@
    } else if k == "caps_lock"@ {
        "caps_lock"@
    } else if k == "f1"@ {
        "f1"@
    } else if k == "f2"@ {
        "f2"@
    } else if k == "f3"@ {
        "f3"@
    } else if k == "f4"@ {
        "f4"@
    } else if k == "f5"@ {
        "f5"@
    } else if k == "f6"@ {
        "f6"@
    } else if k == "f7"@ {
        "f7"@
    } else if k == "f8"@ {
        "f8"@
    } else if k == "f9"@ {
        "f9"@
    } else if k == "f10"@ {
        "f10"@
    } else if k == "f11"@ {
        "f11"@
    } else if k == "f12"@ {
        "f12"@
    } else if k == "insert"@ {
        "insert"@
    } else if k == "home"@ {
        "home"@
    } else if k == "page_up"@ {
        "page_up"@
    } else if k == "pageup"@ {
        "page_up"@
    } else if k == "delete"@ {
        "delete"@
    } else if k == "end"@ {
        "end"@
    } else if k == "page_down"@ {
        "page_down"@
    } else if k == "pagedown"@ {
        "page_down"@
    } else if k == "arrow_right"@ {
        "arrow_right"@
    } else if k == "right"@ {
        "arrow_right"@
    } else if k == "arrow_left"@ {
        "arrow_left"@
    } else if k == "left"@ {
        "arrow_left"@
    } else if k == "arrow_down"@ {
        "arrow_down"@
    } else if k == "down"@ {
        "arrow_down"@
    } else if k == "arrow_up"@ {
        "arrow_up"@
    } else if k == "up"@ {
        "arrow_up"@
    } else {
        k
    }
}

/// Letters and digits send the usage ids of the HID keyboard page: `a` to
/// `z` are 0x04 to 0x1D in alphabet order, `1` to `9` are 0x1E to 0x26, and
/// `0` is 0x27.
pub proof fn letters_and_digits_follow_the_hid_keyboard_page(c: char)
    ensures
        'a' <= c <= 'z' ==> key_usage(seq![c]) == Some((0x04 + (c as u32 - 'a' as u32)) as u16),
        '1' <= c <= '9' ==> key_usage(seq![c]) == Some((0x1E + (c as u32 - '1' as u32)) as u16),
        key_usage(seq!['a']) == Some(0x04u16),
        key_usage(seq!['z']) == Some(0x1Du16),
        key_usage(seq!['1']) == Some(0x1Eu16),
        key_usage(seq!['9']) == Some(0x26u16),
        key_usage(seq!['0']) == Some(0x27u16),
{
}

/// Distinct keys send distinct usage ids: two key names that give the same
/// HID usage id name the same key (letters, digits, or one named key under
/// its aliases), so no shortcut presses a key other than the one named.
pub proof fn distinct_keys_have_distinct_usages(k1: Seq<char>, k2: Seq<char>)
    requires
        key_usage(k1) is Some,
        key_usage(k1) == key_usage(k2),
    ensures
        canonical_key(k1) == canonical_key(k2),
{
    if k1.len() == 1 && k2.len() == 1 && k1[0] == k2[0] {
        assert(k1 =~= k2);
    }
}

/// The named keys send the usage ids of the USB HID keyboard page: Enter
/// 0x28, Escape 0x29, Backspace 0x2A, Tab 0x2B, Space 0x2C, the punctuation
/// keys 0x2D to 0x38 (no 0x32), Caps Lock 0x39, F1 to F12 from 0x3A on,
/// Insert 0x49, Home 0x4A, Page Up 0x4B, Delete (forward) 0x4C, End 0x4D,
/// Page Down 0x4E, and the arrows Right, Left, Down, Up from 0x4F on; each
/// alias sends the id of the key it stands for.
pub proof fn named_keys_follow_the_hid_keyboard_page()
    ensures
        key_usage("enter"@) == Some(0x28u16),
        key_usage("return"@) == Some(0x28u16),
        key_usage("escape"@) == Some(0x29u16),
        key_usage("esc"@) == Some(0x29u16),
        key_usage("backspace"@) == Some(0x2Au16),
        key_usage("tab"@) == Some(0x2Bu16),
        key_usage("space"@) == Some(0x2Cu16),
        key_usage("minus"@) == Some(0x2Du16),
        key_usage("equal"@) == Some(0x2Eu16),
        key_usage("left_bracket"@) == Some(0x2Fu16),
        key_usage("right_bracket"@) == Some(0x30u16),
        key_usage("backslash"@) == Some(0x31u16),
        key_usage("semicolon"@) == Some(0x33u16),
        key_usage("quote"@) == Some(0x34u16),
        key_usage("grave"@) == Some(0x35u16),
        key_usage("backtick"@) == Some(0x35u16),
        key_usage("comma"@) == Some(0x36u16),
        key_usage("period"@) == Some(0x37u16),
        key_usage("dot"@) == Some(0x37u16),
        key_usage("slash"@) == Some(0x38u16),
        key_usage("caps_lock"@) == Some(0x39u16),
        key_usage("f1"@) == Some(0x3Au16),
        key_usage("f2"@) == Some(0x3Bu16),
        key_usage("f3"@) == Some(0x3Cu16),
        key_usage("f4"@) == Some(0x3Du16),
        key_usage("f5"@) == Some(0x3Eu16),
        key_usage("f6"@) == Some(0x3Fu16),
        key_usage("f7"@) == Some(0x40u16),
        key_usage("f8"@) == Some(0x41u16),
        key_usage("f9"@) == Some(0x42u16),
        key_usage("f10"@) == Some(0x43u16),
        key_usage("f11"@) == Some(0x44u16),
        key_usage("f12"@) == Some(0x45u16),
        key_usage("insert"@) == Some(0x49u16),
        key_usage("home"@) == Some(0x4Au16),
        key_usage("page_up"@) == Some(0x4Bu16),
        key_usage("pageup"@) == Some(0x4Bu16),
        key_usage("delete"@) == Some(0x4Cu16),
        key_usage("end"@) == Some(0x4Du16),
        key_usage("page_down"@) == Some(0x4Eu16),
        key_usage("pagedown"@) == Some(0x4Eu16),
        key_usage("arrow_right"@) == Some(0x4Fu16),
        key_usage("right"@) == Some(0x4Fu16),
        key_usage("arrow_left"@) == Some(0x50u16),
        key_usage("left"@) == Some(0x50u16),
        key_usage("arrow_down"@) == Some(0x51u16),
        key_usage("down"@) == Some(0x51u16),
        key_usage("arrow_up"@) == Some(0x52u16),
        key_usage("up"@) == Some(0x52u16),
{
    assert(key_usage("enter"@) == Some(0x28u16)) by {
        reveal_strlit("enter");
    }
    assert(key_usage("return"@) == Some(0x28u16)) by {
        reveal_strlit("return");
        reveal_strlit("enter");
        assert("return"@.len() != "enter"@.len());
    }
    assert(key_usage("escape"@) == Some(0x29u16)) by {
        reveal_strlit("escape");
        reveal_strlit("enter");
        assert("escape"@.len() != "enter"@.len());
        reveal_strlit("return");
        assert("escape"@[0] != "return"@[0]);
    }
    assert(key_usage("esc"@) == Some(0x29u16)) by {
        reveal_strlit("esc");
        reveal_strlit("enter");
        assert("esc"@.len() != "enter"@.len());
        reveal_strlit("return");
        assert("esc"@.len() != "return"@.len());
        reveal_strlit("escape");
        assert("esc"@.len() != "escape"@.len());
    }
    assert(key_usage("backspace"@) == Some(0x2Au16)) by {
        reveal_strlit("backspace");
        reveal_strlit("enter");
        assert("backspace"@.len() != "enter"@.len());
        reveal_strlit("return");
        assert("backspace"@.len() != "return"@.len());
        reveal_strlit("escape");
        assert("backspace"@.len() != "escape"@.len());
        reveal_strlit("esc");
        assert("backspace"@.len() != "esc"@.len());
    }
    assert(key_usage("tab"@) == Some(0x2Bu16)) by {
        reveal_strlit("tab");
        reveal_strlit("enter");
        assert("tab"@.len() != "enter"@.len());
        reveal_strlit("return");
        assert("tab"@.len() != "return"@.len());
        reveal_strlit("escape");
        assert("tab"@.len() != "escape"@.len());
        reveal_strlit("esc");
        assert("tab"@[0] != "esc"@[0]);
        reveal_strlit("backspace");
        assert("tab"@.len() != "backspace"@.len());
    }
    assert(key_usage("space"@) == Some(0x2Cu16)) by {
        reveal_strlit("space");
        reveal_strlit("enter");
        assert("space"@[0] != "enter"@[0]);
        reveal_strlit("return");
        assert("space"@.len() != "return"@.len());
        reveal_strlit("escape");
        assert("space"@.len() != "escape"@.len());
        reveal_strlit("esc");
        assert("space"@.len() != "esc"@.len());
        reveal_strlit("backspace");
        assert("space"@.len() != "backspace"@.len());
        reveal_strlit("tab");
        assert("space"@.len() != "tab"@.len());
    }
    assert(key_usage("minus"@) == Some(0x2Du16)) by {
        reveal_strlit("minus");
        reveal_strlit("enter");
        assert("minus"@[0] != "enter"@[0]);
        reveal_strlit("return");
        assert("minus"@.len() != "return"@.len());
        reveal_strlit("escape");
        assert("minus"@.len() != "escape"@.len());
        reveal_strlit("esc");
        assert("minus"@.len() != "esc"@.len());
        reveal_strlit("backspace");
        assert("minus"@.len() != "backspace"@.len());
        reveal_strlit("tab");
        assert("minus"@.len() != "tab"@.len());
        reveal_strlit("space");
        assert("minus"@[0] != "space"@[0]);
    }
    assert(key_usage("equal"@) == Some(0x2Eu16)) by {
        reveal_strlit("equal");
        reveal_strlit("enter");
        assert("equal"@[1] != "enter"@[1]);
        reveal_strlit("return");
        assert("equal"@.len() != "return"@.len());
        reveal_strlit("escape");
        assert("equal"@.len() != "escape"@.len());
        reveal_strlit("esc");
        assert("equal"@.len() != "esc"@.len());
        reveal_strlit("backspace");
        assert("equal"@.len() != "backspace"@.len());
        reveal_strlit("tab");
        assert("equal"@.len() != "tab"@.len());
        reveal_strlit("space");
        assert("equal"@[0] != "space"@[0]);
        reveal_strlit("minus");
        assert("equal"@[0] != "minus"@[0]);
    }
    assert(key_usage("left_bracket"@) == Some(0x2Fu16)) by {
        reveal_strlit("left_bracket");
        reveal_strlit("enter");
        assert("left_bracket"@.len() != "enter"@.len());
        reveal_strlit("return");
        assert("left_bracket"@.len() != "return"@.len());
        reveal_strlit("escape");
        assert("left_bracket"@.len() != "escape"@.len());
        reveal_strlit("esc");
        assert("left_bracket"@.len() != "esc"@.len());
        reveal_strlit("backspace");
        assert("left_bracket"@.len() != "backspace"@.len());
        reveal_strlit("tab");
        assert("left_bracket"@.len() != "tab"@.len());
        reveal_strlit("space");
        assert("left_bracket"@.len() != "space"@.len());
        reveal_strlit("minus");
        assert("left_bracket"@.len() != "minus"@.len());
        reveal_strlit("equal");
        assert("left_bracket"@.len() != "equal"@.len());
    }
    assert(key_usage("right_bracket"@) == Some(0x30u16)) by {
        reveal_strlit("right_bracket");
        reveal_strlit("enter");
        assert("right_bracket"@.len() != "enter"@.len());
        reveal_strlit("return");
        assert("right_bracket"@.len() != "return"@.len());
        reveal_strlit("escape");
        assert("right_bracket"@.len() != "escape"@.len());
        reveal_strlit("esc");
        assert("right_bracket"@.len() != "esc"@.len());
        reveal_strlit("backspace");
        assert("right_bracket"@.len() != "backspace"@.len());
        reveal_strlit("tab");
        assert("right_bracket"@.len() != "tab"@.len());
        reveal_strlit("space");
        assert("right_bracket"@.len() != "space"@.len());
        reveal_strlit("minus");
        assert("right_bracket"@.len() != "minus"@.len());
        reveal_strlit("equal");
        assert("right_bracket"@.len() != "equal"@.len());
        reveal_strlit("left_bracket");
        assert("right_bracket"@.len() != "left_bracket"@.len());
    }
    assert(key_usage("backslash"@) == Some(0x31u16)) by {
        reveal_strlit("backslash");
        reveal_strlit("enter");
        assert("backslash"@.len() != "enter"@.len());
        reveal_strlit("return");
        assert("backslash"@.len() != "return"@.len());
        reveal_strlit("escape");
        assert("backslash"@.len() != "escape"@.len());
        reveal_strlit("esc");
        assert("backslash"@.len() != "esc"@.len());
        reveal_strlit("backspace");
        assert("backslash"@[5] != "backspace"@[5]);
        reveal_strlit("tab");
        assert("backslash"@.len() != "tab"@.len());
        reveal_strlit("space");
        assert("backslash"@.len() != "space"@.len());
        reveal_strlit("minus");
        assert("backslash"@.len() != "minus"@.len());
        reveal_strlit("equal");
        assert("backslash"@.len() != "equal"@.len());
        reveal_strlit("left_bracket");
        assert("backslash"@.len() != "left_bracket"@.len());
        reveal_strlit("right_bracket");
        assert("backslash"@.len() != "right_bracket"@.len());
    }
    assert(key_usage("semicolon"@) == Some(0x33u16)) by {
        reveal_strlit("semicolon");
        reveal_strlit("enter");
        assert("semicolon"@.len() != "enter"@.len());
        reveal_strlit("return");
        assert("semicolon"@.len() != "return"@.len());
        reveal_strlit("escape");
        assert("semicolon"@.len() != "escape"@.len());
        reveal_strlit("esc");
        assert("semicolon"@.len() != "esc"@.len());
        reveal_strlit("backspace");
        assert("semicolon"@[0] != "backspace"@[0]);
        reveal_strlit("tab");
        assert("semicolon"@.len() != "tab"@.len());
        reveal_strlit("space");
        assert("semicolon"@.len() != "space"@.len());
        reveal_strlit("minus");
        assert("semicolon"@.len() != "minus"@.len());
        reveal_strlit("equal");
        assert("semicolon"@.len() != "equal"@.len());
        reveal_strlit("left_bracket");
        assert("semicolon"@.len() != "left_bracket"@.len());
        reveal_strlit("right_bracket");
        assert("semicolon"@.len() != "right_bracket"@.len());
        reveal_strlit("backslash");
        assert("semicolon"@[0] != "backslash"@[0]);
    }
    assert(key_usage("quote"@) == Some(0x34u16)) by {
        reveal_strlit("quote");
        reveal_strlit("enter");
        assert("quote"@[0] != "enter"@[0]);
        reveal_strlit("return");
        assert("quote"@.len() != "return"@.len());
        reveal_strlit("escape");
        assert("quote"@.len() != "escape"@.len());
        reveal_strlit("esc");
        assert("quote"@.len() != "esc"@.len());
        reveal_strlit("backspace");
        assert("quote"@.len() != "backspace"@.len());
        reveal_strlit("tab");
        assert("quote"@.len() != "tab"@.len());
        reveal_strlit("space");
        assert("quote"@[0] != "space"@[0]);
        reveal_strlit("minus");
        assert("quote"@[0] != "minus"@[0]);
        reveal_strlit("equal");
        assert("quote"@[0] != "equal"@[0]);
        reveal_strlit("left_bracket");
        assert("quote"@.len() != "left_bracket"@.len());
        reveal_strlit("right_bracket");
        assert("quote"@.len() != "right_bracket"@.len());
        reveal_strlit("backslash");
        assert("quote"@.len() != "backslash"@.len());
        reveal_strlit("semicolon");
        assert("quote"@.len() != "semicolon"@.len());
    }
    assert(key_usage("grave"@) == Some(0x35u16)) by {
        reveal_strlit("grave");
        reveal_strlit("enter");
        assert("grave"@[0] != "enter"@[0]);
        reveal_strlit("return");
        assert("grave"@.len() != "return"@.len());
        reveal_strlit("escape");
        assert("grave"@.len() != "escape"@.len());
        reveal_strlit("esc");
        assert("grave"@.len() != "esc"@.len());
        reveal_strlit("backspace");
        assert("grave"@.len() != "backspace"@.len());
        reveal_strlit("tab");
        assert("grave"@.len() != "tab"@.len());
        reveal_strlit("space");
        assert("grave"@[0] != "space"@[0]);
        reveal_strlit("minus");
        assert("grave"@[0] != "minus"@[0]);
        reveal_strlit("equal");
        assert("grave"@[0] != "equal"@[0]);
        reveal_strlit("left_bracket");
        assert("grave"@.len() != "left_bracket"@.len());
        reveal_strlit("right_bracket");
        assert("grave"@.len() != "right_bracket"@.len());
        reveal_strlit("backslash");
        assert("grave"@.len() != "backslash"@.len());
        reveal_strlit("semicolon");
        assert("grave"@.len() != "semicolon"@.len());
        reveal_strlit("quote");
        assert("grave"@[0] != "quote"@[0]);
    }
    assert(key_usage("backtick"@) == Some(0x35u16)) by {
        reveal_strlit("backtick");
        reveal_strlit("enter");
        assert("backtick"@.len() != "enter"@.len());
        reveal_strlit("return");
        assert("backtick"@.len() != "return"@.len());
        reveal_strlit("escape");
        assert("backtick"@.len() != "escape"@.len());
        reveal_strlit("esc");
        assert("backtick"@.len() != "esc"@.len());
        reveal_strlit("backspace");
        assert("backtick"@.len() != "backspace"@.len());
        reveal_strlit("tab");
        assert("backtick"@.len() != "tab"@.len());
        reveal_strlit("space");
        assert("backtick"@.len() != "space"@.len());
        reveal_strlit("minus");
        assert("backtick"@.len() != "minus"@.len());
        reveal_strlit("equal");
        assert("backtick"@.len() != "equal"@.len());
        reveal_strlit("left_bracket");
        assert("backtick"@.len() != "left_bracket"@.len());
        reveal_strlit("right_bracket");
        assert("backtick"@.len() != "right_bracket"@.len());
        reveal_strlit("backslash");
        assert("backtick"@.len() != "backslash"@.len());
        reveal_strlit("semicolon");
        assert("backtick"@.len() != "semicolon"@.len());
        reveal_strlit("quote");
        assert("backtick"@.len() != "quote"@.len());
        reveal_strlit("grave");
        assert("backtick"@.len() != "grave"@.len());
    }
    assert(key_usage("comma"@) == Some(0x36u16)) by {
        reveal_strlit("comma");
        reveal_strlit("enter");
        assert("comma"@[0] != "enter"@[0]);
        reveal_strlit("return");
        assert("comma"@.len() != "return"@.len());
        reveal_strlit("escape");
        assert("comma"@.len() != "escape"@.len());
        reveal_strlit("esc");
        assert("comma"@.len() != "esc"@.len());
        reveal_strlit("backspace");
        assert("comma"@.len() != "backspace"@.len());
        reveal_strlit("tab");
        assert("comma"@.len() != "tab"@.len());
        reveal_strlit("space");
        assert("comma"@[0] != "space"@[0]);
        reveal_strlit("minus");
        assert("comma"@[0] != "minus"@[0]);
        reveal_strlit("equal");
        assert("comma"@[0] != "equal"@[0]);
        reveal_strlit("left_bracket");
        assert("comma"@.len() != "left_bracket"@.len());
        reveal_strlit("right_bracket");
        assert("comma"@.len() != "right_bracket"@.len());
        reveal_strlit("backslash");
        assert("comma"@.len() != "backslash"@.len());
        reveal_strlit("semicolon");
        assert("comma"@.len() != "semicolon"@.len());
        reveal_strlit("quote");
        assert("comma"@[0] != "quote"@[0]);
        reveal_strlit("grave");
        assert("comma"@[0] != "grave"@[0]);
        reveal_strlit("backtick");
        assert("comma"@.len() != "backtick"@.len());
    }
    assert(key_usage("period"@) == Some(0x37u16)) by {
        reveal_strlit("period");
        reveal_strlit("enter");
        assert("period"@.len() != "enter"@.len());
        reveal_strlit("return");
        assert("period"@[0] != "return"@[0]);
        reveal_strlit("escape");
        assert("period"@[0] != "escape"@[0]);
        reveal_strlit("esc");
        assert("period"@.len() != "esc"@.len());
        reveal_strlit("backspace");
        assert("period"@.len() != "backspace"@.len());
        reveal_strlit("tab");
        assert("period"@.len() != "tab"@.len());
        reveal_strlit("space");
        assert("period"@.len() != "space"@.len());
        reveal_strlit("minus");
        assert("period"@.len() != "minus"@.len());
        reveal_strlit("equal");
        assert("period"@.len() != "equal"@.len());
        reveal_strlit("left_bracket");
        assert("period"@.len() != "left_bracket"@.len());
        reveal_strlit("right_bracket");
        assert("period"@.len() != "right_bracket"@.len());
        reveal_strlit("backslash");
        assert("period"@.len() != "backslash"@.len());
        reveal_strlit("semicolon");
        assert("period"@.len() != "semicolon"@.len());
        reveal_strlit("quote");
        assert("period"@.len() != "quote"@.len());
        reveal_strlit("grave");
        assert("period"@.len() != "grave"@.len());
        reveal_strlit("backtick");
        assert("period"@.len() != "backtick"@.len());
        reveal_strlit("comma");
        assert("period"@.len() != "comma"@.len());
    }
    assert(key_usage("dot"@) == Some(0x37u16)) by {
        reveal_strlit("dot");
        reveal_strlit("enter");
        assert("dot"@.len() != "enter"@.len());
        reveal_strlit("return");
        assert("dot"@.len() != "return"@.len());
        reveal_strlit("escape");
        assert("dot"@.len() != "escape"@.len());
        reveal_strlit("esc");
        assert("dot"@[0] != "esc"@[0]);
        reveal_strlit("backspace");
        assert("dot"@.len() != "backspace"@.len());
        reveal_strlit("tab");
        assert("dot"@[0] != "tab"@[0]);
        reveal_strlit("space");
        assert("dot"@.len() != "space"@.len());
        reveal_strlit("minus");
        assert("dot"@.len() != "minus"@.len());
        reveal_strlit("equal");
        assert("dot"@.len() != "equal"@.len());
        reveal_strlit("left_bracket");
        assert("dot"@.len() != "left_bracket"@.len());
        reveal_strlit("right_bracket");
        assert("dot"@.len() != "right_bracket"@.len());
        reveal_strlit("backslash");
        assert("dot"@.len() != "backslash"@.len());
        reveal_strlit("semicolon");
        assert("dot"@.len() != "semicolon"@.len());
        reveal_strlit("quote");
        assert("dot"@.len() != "quote"@.len());
        reveal_strlit("grave");
        assert("dot"@.len() != "grave"@.len());
        reveal_strlit("backtick");
        assert("dot"@.len() != "backtick"@.len());
        reveal_strlit("comma");
        assert("dot"@.len() != "comma"@.len());
        reveal_strlit("period");
        assert("dot"@.len() != "period"@.len());
    }
    assert(key_usage("slash"@) == Some(0x38u16)) by {
        reveal_strlit("slash");
        reveal_strlit("enter");
        assert("slash"@[0] != "enter"@[0]);
        reveal_strlit("return");
        assert("slash"@.len() != "return"@.len());
        reveal_strlit("escape");
        assert("slash"@.len() != "escape"@.len());
        reveal_strlit("esc");
        assert("slash"@.len() != "esc"@.len());
        reveal_strlit("backspace");
        assert("slash"@.len() != "backspace"@.len());
        reveal_strlit("tab");
        assert("slash"@.len() != "tab"@.len());
        reveal_strlit("space");
        assert("slash"@[1] != "space"@[1]);
        reveal_strlit("minus");
        assert("slash"@[0] != "minus"@[0]);
        reveal_strlit("equal");
        assert("slash"@[0] != "equal"@[0]);
        reveal_strlit("left_bracket");
        assert("slash"@.len() != "left_bracket"@.len());
        reveal_strlit("right_bracket");
        assert("slash"@.len() != "right_bracket"@.len());
        reveal_strlit("backslash");
        assert("slash"@.len() != "backslash"@.len());
        reveal_strlit("semicolon");
        assert("slash"@.len() != "semicolon"@.len());
        reveal_strlit("quote");
        assert("slash"@[0] != "quote"@[0]);
        reveal_strlit("grave");
        assert("slash"@[0] != "grave"@[0]);
        reveal_strlit("backtick");
        assert("slash"@.len() != "backtick"@.len());
        reveal_strlit("comma");
        assert("slash"@[0] != "comma"@[0]);
        reveal_strlit("period");
        assert("slash"@.len() != "period"@.len());
        reveal_strlit("dot");
        assert("slash"@.len() != "dot"@.len());
    }
    assert(key_usage("caps_lock"@) == Some(0x39u16)) by {
        reveal_strlit("caps_lock");
        reveal_strlit("enter");
        assert("caps_lock"@.len() != "enter"@.len());
        reveal_strlit("return");
        assert("caps_lock"@.len() != "return"@.len());
        reveal_strlit("escape");
        assert("caps_lock"@.len() != "escape"@.len());
        reveal_strlit("esc");
        assert("caps_lock"@.len() != "esc"@.len());
        reveal_strlit("backspace");
        assert("caps_lock"@[0] != "backspace"@[0]);
        reveal_strlit("tab");
        assert("caps_lock"@.len() != "tab"@.len());
        reveal_strlit("space");
        assert("caps_lock"@.len() != "space"@.len());
        reveal_strlit("minus");
        assert("caps_lock"@.len() != "minus"@.len());
        reveal_strlit("equal");
        assert("caps_lock"@.len() != "equal"@.len());
        reveal_strlit("left_bracket");
        assert("caps_lock"@.len() != "left_bracket"@.len());
        reveal_strlit("right_bracket");
        assert("caps_lock"@.len() != "right_bracket"@.len());
        reveal_strlit("backslash");
        assert("caps_lock"@[0] != "backslash"@[0]);
        reveal_strlit("semicolon");
        assert("caps_lock"@[0] != "semicolon"@[0]);
        reveal_strlit("quote");
        assert("caps_lock"@.len() != "quote"@.len());
        reveal_strlit("grave");
        assert("caps_lock"@.len() != "grave"@.len());
        reveal_strlit("backtick");
        assert("caps_lock"@.len() != "backtick"@.len());
        reveal_strlit("comma");
        assert("caps_lock"@.len() != "comma"@.len());
        reveal_strlit("period");
        assert("caps_lock"@.len() != "period"@.len());
        reveal_strlit("dot");
        assert("caps_lock"@.len() != "dot"@.len());
        reveal_strlit("slash");
        assert("caps_lock"@.len() != "slash"@.len());
    }
    assert(key_usage("f1"@) == Some(0x3Au16)) by {
        reveal_strlit("f1");
        reveal_strlit("enter");
        assert("f1"@.len() != "enter"@.len());
        reveal_strlit("return");
        assert("f1"@.len() != "return"@.len());
        reveal_strlit("escape");
        assert("f1"@.len() != "escape"@.len());
        reveal_strlit("esc");
        assert("f1"@.len() != "esc"@.len());
        reveal_strlit("backspace");
        assert("f1"@.len() != "backspace"@.len());
        reveal_strlit("tab");
        assert("f1"@.len() != "tab"@.len());
        reveal_strlit("space");
        assert("f1"@.len() != "space"@.len());
        reveal_strlit("minus");
        assert("f1"@.len() != "minus"@.len());
        reveal_strlit("equal");
        assert("f1"@.len() != "equal"@.len());
        reveal_strlit("left_bracket");
        assert("f1"@.len() != "left_bracket"@.len());
        reveal_strlit("right_bracket");
        assert("f1"@.len() != "right_bracket"@.len());
        reveal_strlit("backslash");
        assert("f1"@.len() != "backslash"@.len());
        reveal_strlit("semicolon");
        assert("f1"@.len() != "semicolon"@.len());
        reveal_strlit("quote");
        assert("f1"@.len() != "quote"@.len());
        reveal_strlit("grave");
        assert("f1"@.len() != "grave"@.len());
        reveal_strlit("backtick");
        assert("f1"@.len() != "backtick"@.len());
        reveal_strlit("comma");
        assert("f1"@.len() != "comma"@.len());
        reveal_strlit("period");
        assert("f1"@.len() != "period"@.len());
        reveal_strlit("dot");
        assert("f1"@.len() != "dot"@.len());
        reveal_strlit("slash");
        assert("f1"@.len() != "slash"@.len());
        reveal_strlit("caps_lock");
        assert("f1"@.len() != "caps_lock"@.len());
    }
    assert(key_usage("f2"@) == Some(0x3Bu16)) by {
        reveal_strlit("f2");
        reveal_strlit("enter");
        assert("f2"@.len() != "enter"@.len());
        reveal_strlit("return");
        assert("f2"@.len() != "return"@.len());
        reveal_strlit("escape");
        assert("f2"@.len() != "escape"@.len());
        reveal_strlit("esc");
        assert("f2"@.len() != "esc"@.len());
        reveal_strlit("backspace");
        assert("f2"@.len() != "backspace"@.len());
        reveal_strlit("tab");
        assert("f2"@.len() != "tab"@.len());
        reveal_strlit("space");
        assert("f2"@.len() != "space"@.len());
        reveal_strlit("minus");
        assert("f2"@.len() != "minus"@.len());
        reveal_strlit("equal");
        assert("f2"@.len() != "equal"@.len());
        reveal_strlit("left_bracket");
        assert("f2"@.len() != "left_bracket"@.len());
        reveal_strlit("right_bracket");
        assert("f2"@.len() != "right_bracket"@.len());
        reveal_strlit("backslash");
        assert("f2"@.len() != "backslash"@.len());
        reveal_strlit("semicolon");
        assert("f2"@.len() != "semicolon"@.len());
        reveal_strlit("quote");
        assert("f2"@.len() != "quote"@.len());
        reveal_strlit("grave");
        assert("f2"@.len() != "grave"@.len());
        reveal_strlit("backtick");
        assert("f2"@.len() != "backtick"@.len());
        reveal_strlit("comma");
        assert("f2"@.len() != "comma"@.len());
        reveal_strlit("period");
        assert("f2"@.len() != "period"@.len());
        reveal_strlit("dot");
        assert("f2"@.len() != "dot"@.len());
        reveal_strlit("slash");
        assert("f2"@.len() != "slash"@.len());
        reveal_strlit("caps_lock");
        assert("f2"@.len() != "caps_lock"@.len());
        reveal_strlit("f1");
        assert("f2"@[1] != "f1"@[1]);
    }
    assert(key_usage("f3"@) == Some(0x3Cu16)) by {
        reveal_strlit("f3");
        reveal_strlit("enter");
        assert("f3"@.len() != "enter"@.len());
        reveal_strlit("return");
        assert("f3"@.len() != "return"@.len());
        reveal_strlit("escape");
        assert("f3"@.len() != "escape"@.len());
        reveal_strlit("esc");
        assert("f3"@.len() != "esc"@.len());
        reveal_strlit("backspace");
        assert("f3"@.len() != "backspace"@.len());
        reveal_strlit("tab");
        assert("f3"@.len() != "tab"@.len());
        reveal_strlit("space");
        assert("f3"@.len() != "space"@.len());
        reveal_strlit("minus");
        assert("f3"@.len() != "minus"@.len());
        reveal_strlit("equal");
        assert("f3"@.len() != "equal"@.len());
        reveal_strlit("left_bracket");
        assert("f3"@.len() != "left_bracket"@.len());
        reveal_strlit("right_bracket");
        assert("f3"@.len() != "right_bracket"@.len());
        reveal_strlit("backslash");
        assert("f3"@.len() != "backslash"@.len());
        reveal_strlit("semicolon");
        assert("f3"@.len() != "semicolon"@.len());
        reveal_strlit("quote");
        assert("f3"@.len() != "quote"@.len());
        reveal_strlit("grave");
        assert("f3"@.len() != "grave"@.len());
        reveal_strlit("backtick");
        assert("f3"@.len() != "backtick"@.len());
        reveal_strlit("comma");
        assert("f3"@.len() != "comma"@.len());
        reveal_strlit("period");
        assert("f3"@.len() != "period"@.len());
        reveal_strlit("dot");
        assert("f3"@.len() != "dot"@.len());
        reveal_strlit("slash");
        assert("f3"@.len() != "slash"@.len());
        reveal_strlit("caps_lock");
        assert("f3"@.len() != "caps_lock"@.len());
        reveal_strlit("f1");
        assert("f3"@[1] != "f1"@[1]);
        reveal_strlit("f2");
        assert("f3"@[1] != "f2"@[1]);
    }
    assert(key_usage("f4"@) == Some(0x3Du16)) by {
        reveal_strlit("f4");
        reveal_strlit("enter");
        assert("f4"@.len() != "enter"@.len());
        reveal_strlit("return");
        assert("f4"@.len() != "return"@.len());
        reveal_strlit("escape");
        assert("f4"@.len() != "escape"@.len());
        reveal_strlit("esc");
        assert("f4"@.len() != "esc"@.len());
        reveal_strlit("backspace");
        assert("f4"@.len() != "backspace"@.len());
        reveal_strlit("tab");
        assert("f4"@.len() != "tab"@.len());
        reveal_strlit("space");
        assert("f4"@.len() != "space"@.len());
        reveal_strlit("minus");
        assert("f4"@.len() != "minus"@.len());
        reveal_strlit("equal");
        assert("f4"@.len() != "equal"@.len());
        reveal_strlit("left_bracket");
        assert("f4"@.len() != "left_bracket"@.len());
        reveal_strlit("right_bracket");
        assert("f4"@.len() != "right_bracket"@.len());
        reveal_strlit("backslash");
        assert("f4"@.len() != "backslash"@.len());
        reveal_strlit("semicolon");
        assert("f4"@.len() != "semicolon"@.len());
        reveal_strlit("quote");
        assert("f4"@.len() != "quote"@.len());
        reveal_strlit("grave");
        assert("f4"@.len() != "grave"@.len());
        reveal_strlit("backtick");
        assert("f4"@.len() != "backtick"@.len());
        reveal_strlit("comma");
        assert("f4"@.len() != "comma"@.len());
        reveal_strlit("period");
        assert("f4"@.len() != "period"@.len());
        reveal_strlit("dot");
        assert("f4"@.len() != "dot"@.len());
        reveal_strlit("slash");
        assert("f4"@.len() != "slash"@.len());
        reveal_strlit("caps_lock");
        assert("f4"@.len() != "caps_lock"@.len());
        reveal_strlit("f1");
        assert("f4"@[1] != "f1"@[1]);
        reveal_strlit("f2");
        assert("f4"@[1] != "f2"@[1]);
        reveal_strlit("f3");
        assert("f4"@[1] != "f3"@[1]);
    }
    assert(key_usage("f5"@) == Some(0x3Eu16)) by {
        reveal_strlit("f5");
        reveal_strlit("enter");
        assert("f5"@.len() != "enter"@.len());
        reveal_strlit("return");
        assert("f5"@.len() != "return"@.len());
        reveal_strlit("escape");
        assert("f5"@.len() != "escape"@.len());
        reveal_strlit("esc");
        assert("f5"@.len() != "esc"@.len());
        reveal_strlit("backspace");
        assert("f5"@.len() != "backspace"@.len());
        reveal_strlit("tab");
        assert("f5"@.len() != "tab"@.len());
        reveal_strlit("space");
        assert("f5"@.len() != "space"@.len());
        reveal_strlit("minus");
        assert("f5"@.len() != "minus"@.len());
        reveal_strlit("equal");
        assert("f5"@.len() != "equal"@.len());
        reveal_strlit("left_bracket");
        assert("f5"@.len() != "left_bracket"@.len());
        reveal_strlit("right_bracket");
        assert("f5"@.len() != "right_bracket"@.len());
        reveal_strlit("backslash");
        assert("f5"@.len() != "backslash"@.len());
        reveal_strlit("semicolon");
        assert("f5"@.len() != "semicolon"@.len());
        reveal_strlit("quote");
        assert("f5"@.len() != "quote"@.len());
        reveal_strlit("grave");
        assert("f5"@.len() != "grave"@.len());
        reveal_strlit("backtick");
        assert("f5"@.len() != "backtick"@.len());
        reveal_strlit("comma");
        assert("f5"@.len() != "comma"@.len());
        reveal_strlit("period");
        assert("f5"@.len() != "period"@.len());
        reveal_strlit("dot");
        assert("f5"@.len() != "dot"@.len());
        reveal_strlit("slash");
        assert("f5"@.len() != "slash"@.len());
        reveal_strlit("caps_lock");
        assert("f5"@.len() != "caps_lock"@.len());
        reveal_strlit("f1");
        assert("f5"@[1] != "f1"@[1]);
        reveal_strlit("f2");
        assert("f5"@[1] != "f2"@[1]);
        reveal_strlit("f3");
        assert("f5"@[1] != "f3"@[1]);
        reveal_strlit("f4");
        assert("f5"@[1] != "f4"@[1]);
    }
    assert(key_usage("f6"@) == Some(0x3Fu16)) by {
        reveal_strlit("f6");
        reveal_strlit("enter");
        assert("f6"@.len() != "enter"@.len());
        reveal_strlit("return");
        assert("f6"@.len() != "return"@.len());
        reveal_strlit("escape");
        assert("f6"@.len() != "escape"@.len());
        reveal_strlit("esc");
        assert("f6"@.len() != "esc"@.len());
        reveal_strlit("backspace");
        assert("f6"@.len() != "backspace"@.len());
        reveal_strlit("tab");
        assert("f6"@.len() != "tab"@.len());
        reveal_strlit("space");
        assert("f6"@.len() != "space"@.len());
        reveal_strlit("minus");
        assert("f6"@.len() != "minus"@.len());
        reveal_strlit("equal");
        assert("f6"@.len() != "equal"@.len());
        reveal_strlit("left_bracket");
        assert("f6"@.len() != "left_bracket"@.len());
        reveal_strlit("right_bracket");
        assert("f6"@.len() != "right_bracket"@.len());
        reveal_strlit("backslash");
        assert("f6"@.len() != "backslash"@.len());
        reveal_strlit("semicolon");
        assert("f6"@.len() != "semicolon"@.len());
        reveal_strlit("quote");
        assert("f6"@.len() != "quote"@.len());
        reveal_strlit("grave");
        assert("f6"@.len() != "grave"@.len());
        reveal_strlit("backtick");
        assert("f6"@.len() != "backtick"@.len());
        reveal_strlit("comma");
        assert("f6"@.len() != "comma"@.len());
        reveal_strlit("period");
        assert("f6"@.len() != "period"@.len());
        reveal_strlit("dot");
        assert("f6"@.len() != "dot"@.len());
        reveal_strlit("slash");
        assert("f6"@.len() != "slash"@.len());
        reveal_strlit("caps_lock");
        assert("f6"@.len() != "caps_lock"@.len());
        reveal_strlit("f1");
        assert("f6"@[1] != "f1"@[1]);
        reveal_strlit("f2");
        assert("f6"@[1] != "f2"@[1]);
        reveal_strlit("f3");
        assert("f6"@[1] != "f3"@[1]);
        reveal_strlit("f4");
        assert("f6"@[1] != "f4"@[1]);
        reveal_strlit("f5");
        assert("f6"@[1] != "f5"@[1]);
    }
    assert(key_usage("f7"@) == Some(0x40u16)) by {
        reveal_strlit("f7");
        reveal_strlit("enter");
        assert("f7"@.len() != "enter"@.len());
        reveal_strlit("return");
        assert("f7"@.len() != "return"@.len());
        reveal_strlit("escape");
        assert("f7"@.len() != "escape"@.len());
        reveal_strlit("esc");
        assert("f7"@.len() != "esc"@.len());
        reveal_strlit("backspace");
        assert("f7"@.len() != "backspace"@.len());
        reveal_strlit("tab");
        assert("f7"@.len() != "tab"@.len());
        reveal_strlit("space");
        assert("f7"@.len() != "space"@.len());
        reveal_strlit("minus");
        assert("f7"@.len() != "minus"@.len());
        reveal_strlit("equal");
        assert("f7"@.len() != "equal"@.len());
        reveal_strlit("left_bracket");
        assert("f7"@.len() != "left_bracket"@.len());
        reveal_strlit("right_bracket");
        assert("f7"@.len() != "right_bracket"@.len());
        reveal_strlit("backslash");
        assert("f7"@.len() != "backslash"@.len());
        reveal_strlit("semicolon");
        assert("f7"@.len() != "semicolon"@.len());
        reveal_strlit("quote");
        assert("f7"@.len() != "quote"@.len());
        reveal_strlit("grave");
        assert("f7"@.len() != "grave"@.len());
        reveal_strlit("backtick");
        assert("f7"@.len() != "backtick"@.len());
        reveal_strlit("comma");
        assert("f7"@.len() != "comma"@.len());
        reveal_strlit("period");
        assert("f7"@.len() != "period"@.len());
        reveal_strlit("dot");
        assert("f7"@.len() != "dot"@.len());
        reveal_strlit("slash");
        assert("f7"@.len() != "slash"@.len());
        reveal_strlit("caps_lock");
        assert("f7"@.len() != "caps_lock"@.len());
        reveal_strlit("f1");
        assert("f7"@[1] != "f1"@[1]);
        reveal_strlit("f2");
        assert("f7"@[1] != "f2"@[1]);
        reveal_strlit("f3");
        assert("f7"@[1] != "f3"@[1]);
        reveal_strlit("f4");
        assert("f7"@[1] != "f4"@[1]);
        reveal_strlit("f5");
        assert("f7"@[1] != "f5"@[1]);
        reveal_strlit("f6");
        assert("f7"@[1] != "f6"@[1]);
    }
    assert(key_usage("f8"@) == Some(0x41u16)) by {
        reveal_strlit("f8");
        reveal_strlit("enter");
        assert("f8"@.len() != "enter"@.len());
        reveal_strlit("return");
        assert("f8"@.len() != "return"@.len());
        reveal_strlit("escape");
        assert("f8"@.len() != "escape"@.len());
        reveal_strlit("esc");
        assert("f8"@.len() != "esc"@.len());
        reveal_strlit("backspace");
        assert("f8"@.len() != "backspace"@.len());
        reveal_strlit("tab");
        assert("f8"@.len() != "tab"@.len());
        reveal_strlit("space");
        assert("f8"@.len() != "space"@.len());
        reveal_strlit("minus");
        assert("f8"@.len() != "minus"@.len());
        reveal_strlit("equal");
        assert("f8"@.len() != "equal"@.len());
        reveal_strlit("left_bracket");
        assert("f8"@.len() != "left_bracket"@.len());
        reveal_strlit("right_bracket");
        assert("f8"@.len() != "right_bracket"@.len());
        reveal_strlit("backslash");
        assert("f8"@.len() != "backslash"@.len());
        reveal_strlit("semicolon");
        assert("f8"@.len() != "semicolon"@.len());
        reveal_strlit("quote");
        assert("f8"@.len() != "quote"@.len());
        reveal_strlit("grave");
        assert("f8"@.len() != "grave"@.len());
        reveal_strlit("backtick");
        assert("f8"@.len() != "backtick"@.len());
        reveal_strlit("comma");
        assert("f8"@.len() != "comma"@.len());
        reveal_strlit("period");
        assert("f8"@.len() != "period"@.len());
        reveal_strlit("dot");
        assert("f8"@.len() != "dot"@.len());
        reveal_strlit("slash");
        assert("f8"@.len() != "slash"@.len());
        reveal_strlit("caps_lock");
        assert("f8"@.len() != "caps_lock"@.len());
        reveal_strlit("f1");
        assert("f8"@[1] != "f1"@[1]);
        reveal_strlit("f2");
        assert("f8"@[1] != "f2"@[1]);
        reveal_strlit("f3");
        assert("f8"@[1] != "f3"@[1]);
        reveal_strlit("f4");
        assert("f8"@[1] != "f4"@[1]);
        reveal_strlit("f5");
        assert("f8"@[1] != "f5"@[1]);
        reveal_strlit("f6");
        assert("f8"@[1] != "f6"@[1]);
        reveal_strlit("f7");
        assert("f8"@[1] != "f7"@[1]);
    }
    assert(key_usage("f9"@) == Some(0x42u16)) by {
        reveal_strlit("f9");
        reveal_strlit("enter");
        assert("f9"@.len() != "enter"@.len());
        reveal_strlit("return");
        assert("f9"@.len() != "return"@.len());
        reveal_strlit("escape");
        assert("f9"@.len() != "escape"@.len());
        reveal_strlit("esc");
        assert("f9"@.len() != "esc"@.len());
        reveal_strlit("backspace");
        assert("f9"@.len() != "backspace"@.len());
        reveal_strlit("tab");
        assert("f9"@.len() != "tab"@.len());
        reveal_strlit("space");
        assert("f9"@.len() != "space"@.len());
        reveal_strlit("minus");
        assert("f9"@.len() != "minus"@.len());
        reveal_strlit("equal");
        assert("f9"@.len() != "equal"@.len());
        reveal_strlit("left_bracket");
        assert("f9"@.len() != "left_bracket"@.len());
        reveal_strlit("right_bracket");
        assert("f9"@.len() != "right_bracket"@.len());
        reveal_strlit("backslash");
        assert("f9"@.len() != "backslash"@.len());
        reveal_strlit("semicolon");
        assert("f9"@.len() != "semicolon"@.len());
        reveal_strlit("quote");
        assert("f9"@.len() != "quote"@.len());
        reveal_strlit("grave");
        assert("f9"@.len() != "grave"@.len());
        reveal_strlit("backtick");
        assert("f9"@.len() != "backtick"@.len());
        reveal_strlit("comma");
        assert("f9"@.len() != "comma"@.len());
        reveal_strlit("period");
        assert("f9"@.len() != "period"@.len());
        reveal_strlit("dot");
        assert("f9"@.len() != "dot"@.len());
        reveal_strlit("slash");
        assert("f9"@.len() != "slash"@.len());
        reveal_strlit("caps_lock");
        assert("f9"@.len() != "caps_lock"@.len());
        reveal_strlit("f1");
        assert("f9"@[1] != "f1"@[1]);
        reveal_strlit("f2");
        assert("f9"@[1] != "f2"@[1]);
        reveal_strlit("f3");
        assert("f9"@[1] != "f3"@[1]);
        reveal_strlit("f4");
        assert("f9"@[1] != "f4"@[1]);
        reveal_strlit("f5");
        assert("f9"@[1] != "f5"@[1]);
        reveal_strlit("f6");
        assert("f9"@[1] != "f6"@[1]);
        reveal_strlit("f7");
        assert("f9"@[1] != "f7"@[1]);
        reveal_strlit("f8");
        assert("f9"@[1] != "f8"@[1]);
    }
    assert(key_usage("f10"@) == Some(0x43u16)) by {
        reveal_strlit("f10");
        reveal_strlit("enter");
        assert("f10"@.len() != "enter"@.len());
        reveal_strlit("return");
        assert("f10"@.len() != "return"@.len());
        reveal_strlit("escape");
        assert("f10"@.len() != "escape"@.len());
        reveal_strlit("esc");
        assert("f10"@[0] != "esc"@[0]);
        reveal_strlit("backspace");
        assert("f10"@.len() != "backspace"@.len());
        reveal_strlit("tab");
        assert("f10"@[0] != "tab"@[0]);
        reveal_strlit("space");
        assert("f10"@.len() != "space"@.len());
        reveal_strlit("minus");
        assert("f10"@.len() != "minus"@.len());
        reveal_strlit("equal");
        assert("f10"@.len() != "equal"@.len());
        reveal_strlit("left_bracket");
        assert("f10"@.len() != "left_bracket"@.len());
        reveal_strlit("right_bracket");
        assert("f10"@.len() != "right_bracket"@.len());
        reveal_strlit("backslash");
        assert("f10"@.len() != "backslash"@.len());
        reveal_strlit("semicolon");
        assert("f10"@.len() != "semicolon"@.len());
        reveal_strlit("quote");
        assert("f10"@.len() != "quote"@.len());
        reveal_strlit("grave");
        assert("f10"@.len() != "grave"@.len());
        reveal_strlit("backtick");
        assert("f10"@.len() != "backtick"@.len());
        reveal_strlit("comma");
        assert("f10"@.len() != "comma"@.len());
        reveal_strlit("period");
        assert("f10"@.len() != "period"@.len());
        reveal_strlit("dot");
        assert("f10"@[0] != "dot"@[0]);
        reveal_strlit("slash");
        assert("f10"@.len() != "slash"@.len());
        reveal_strlit("caps_lock");
        assert("f10"@.len() != "caps_lock"@.len());
        reveal_strlit("f1");
        assert("f10"@.len() != "f1"@.len());
        reveal_strlit("f2");
        assert("f10"@.len() != "f2"@.len());
        reveal_strlit("f3");
        assert("f10"@.len() != "f3"@.len());
        reveal_strlit("f4");
        assert("f10"@.len() != "f4"@.len());
        reveal_strlit("f5");
        assert("f10"@.len() != "f5"@.len());
        reveal_strlit("f6");
        assert("f10"@.len() != "f6"@.len());
        reveal_strlit("f7");
        assert("f10"@.len() != "f7"@.len());
        reveal_strlit("f8");
        assert("f10"@.len() != "f8"@.len());
        reveal_strlit("f9");
        assert("f10"@.len() != "f9"@.len());
    }
    assert(key_usage("f11"@) == Some(0x44u16)) by {
        reveal_strlit("f11");
        reveal_strlit("enter");
        assert("f11"@.len() != "enter"@.len());
        reveal_strlit("return");
        assert("f11"@.len() != "return"@.len());
        reveal_strlit("escape");
        assert("f11"@.len() != "escape"@.len());
        reveal_strlit("esc");
        assert("f11"@[0] != "esc"@[0]);
        reveal_strlit("backspace");
        assert("f11"@.len() != "backspace"@.len());
        reveal_strlit("tab");
        assert("f11"@[0] != "tab"@[0]);
        reveal_strlit("space");
        assert("f11"@.len() != "space"@.len());
        reveal_strlit("minus");
        assert("f11"@.len() != "minus"@.len());
        reveal_strlit("equal");
        assert("f11"@.len() != "equal"@.len());
        reveal_strlit("left_bracket");
        assert("f11"@.len() != "left_bracket"@.len());
        reveal_strlit("right_bracket");
        assert("f11"@.len() != "right_bracket"@.len());
        reveal_strlit("backslash");
        assert("f11"@.len() != "backslash"@.len());
        reveal_strlit("semicolon");
        assert("f11"@.len() != "semicolon"@.len());
        reveal_strlit("quote");
        assert("f11"@.len() != "quote"@.len());
        reveal_strlit("grave");
        assert("f11"@.len() != "grave"@.len());
        reveal_strlit("backtick");
        assert("f11"@.len() != "backtick"@.len());
        reveal_strlit("comma");
        assert("f11"@.len() != "comma"@.len());
        reveal_strlit("period");
        assert("f11"@.len() != "period"@.len());
        reveal_strlit("dot");
        assert("f11"@[0] != "dot"@[0]);
        reveal_strlit("slash");
        assert("f11"@.len() != "slash"@.len());
        reveal_strlit("caps_lock");
        assert("f11"@.len() != "caps_lock"@.len());
        reveal_strlit("f1");
        assert("f11"@.len() != "f1"@.len());
        reveal_strlit("f2");
        assert("f11"@.len() != "f2"@.len());
        reveal_strlit("f3");
        assert("f11"@.len() != "f3"@.len());
        reveal_strlit("f4");
        assert("f11"@.len() != "f4"@.len());
        reveal_strlit("f5");
        assert("f11"@.len() != "f5"@.len());
        reveal_strlit("f6");
        assert("f11"@.len() != "f6"@.len());
        reveal_strlit("f7");
        assert("f11"@.len() != "f7"@.len());
        reveal_strlit("f8");
        assert("f11"@.len() != "f8"@.len());
        reveal_strlit("f9");
        assert("f11"@.len() != "f9"@.len());
        reveal_strlit("f10");
        assert("f11"@[2] != "f10"@[2]);
    }
    assert(key_usage("f12"@) == Some(0x45u16)) by {
        reveal_strlit("f12");
        reveal_strlit("enter");
        assert("f12"@.len() != "enter"@.len());
        reveal_strlit("return");
        assert("f12"@.len() != "return"@.len());
        reveal_strlit("escape");
        assert("f12"@.len() != "escape"@.len());
        reveal_strlit("esc");
        assert("f12"@[0] != "esc"@[0]);
        reveal_strlit("backspace");
        assert("f12"@.len() != "backspace"@.len());
        reveal_strlit("tab");
        assert("f12"@[0] != "tab"@[0]);
        reveal_strlit("space");
        assert("f12"@.len() != "space"@.len());
        reveal_strlit("minus");
        assert("f12"@.len() != "minus"@.len());
        reveal_strlit("equal");
        assert("f12"@.len() != "equal"@.len());
        reveal_strlit("left_bracket");
        assert("f12"@.len() != "left_bracket"@.len());
        reveal_strlit("right_bracket");
        assert("f12"@.len() != "right_bracket"@.len());
        reveal_strlit("backslash");
        assert("f12"@.len() != "backslash"@.len());
        reveal_strlit("semicolon");
        assert("f12"@.len() != "semicolon"@.len());
        reveal_strlit("quote");
        assert("f12"@.len() != "quote"@.len());
        reveal_strlit("grave");
        assert("f12"@.len() != "grave"@.len());
        reveal_strlit("backtick");
        assert("f12"@.len() != "backtick"@.len());
        reveal_strlit("comma");
        assert("f12"@.len() != "comma"@.len());
        reveal_strlit("period");
        assert("f12"@.len() != "period"@.len());
        reveal_strlit("dot");
        assert("f12"@[0] != "dot"@[0]);
        reveal_strlit("slash");
        assert("f12"@.len() != "slash"@.len());
        reveal_strlit("caps_lock");
        assert("f12"@.len() != "caps_lock"@.len());
        reveal_strlit("f1");
        assert("f12"@.len() != "f1"@.len());
        reveal_strlit("f2");
        assert("f12"@.len() != "f2"@.len());
        reveal_strlit("f3");
        assert("f12"@.len() != "f3"@.len());
        reveal_strlit("f4");
        assert("f12"@.len() != "f4"@.len());
        reveal_strlit("f5");
        assert("f12"@.len() != "f5"@.len());
        reveal_strlit("f6");
        assert("f12"@.len() != "f6"@.len());
        reveal_strlit("f7");
        assert("f12"@.len() != "f7"@.len());
        reveal_strlit("f8");
        assert("f12"@.len() != "f8"@.len());
        reveal_strlit("f9");
        assert("f12"@.len() != "f9"@.len());
        reveal_strlit("f10");
        assert("f12"@[2] != "f10"@[2]);
        reveal_strlit("f11");
        assert("f12"@[2] != "f11"@[2]);
    }
    assert(key_usage("insert"@) == Some(0x49u16)) by {
        reveal_strlit("insert");
        reveal_strlit("enter");
        assert("insert"@.len() != "enter"@.len());
        reveal_strlit("return");
        assert("insert"@[0] != "return"@[0]);
        reveal_strlit("escape");
        assert("insert"@[0] != "escape"@[0]);
        reveal_strlit("esc");
        assert("insert"@.len() != "esc"@.len());
        reveal_strlit("backspace");
        assert("insert"@.len() != "backspace"@.len());
        reveal_strlit("tab");
        assert("insert"@.len() != "tab"@.len());
        reveal_strlit("space");
        assert("insert"@.len() != "space"@.len());
        reveal_strlit("minus");
        assert("insert"@.len() != "minus"@.len());
        reveal_strlit("equal");
        assert("insert"@.len() != "equal"@.len());
        reveal_strlit("left_bracket");
        assert("insert"@.len() != "left_bracket"@.len());
        reveal_strlit("right_bracket");
        assert("insert"@.len() != "right_bracket"@.len());
        reveal_strlit("backslash");
        assert("insert"@.len() != "backslash"@.len());
        reveal_strlit("semicolon");
        assert("insert"@.len() != "semicolon"@.len());
        reveal_strlit("quote");
        assert("insert"@.len() != "quote"@.len());
        reveal_strlit("grave");
        assert("insert"@.len() != "grave"@.len());
        reveal_strlit("backtick");
        assert("insert"@.len() != "backtick"@.len());
        reveal_strlit("comma");
        assert("insert"@.len() != "comma"@.len());
        reveal_strlit("period");
        assert("insert"@[0] != "period"@[0]);
        reveal_strlit("dot");
        assert("insert"@.len() != "dot"@.len());
        reveal_strlit("slash");
        assert("insert"@.len() != "slash"@.len());
        reveal_strlit("caps_lock");
        assert("insert"@.len() != "caps_lock"@.len());
        reveal_strlit("f1");
        assert("insert"@.len() != "f1"@.len());
        reveal_strlit("f2");
        assert("insert"@.len() != "f2"@.len());
        reveal_strlit("f3");
        assert("insert"@.len() != "f3"@.len());
        reveal_strlit("f4");
        assert("insert"@.len() != "f4"@.len());
        reveal_strlit("f5");
        assert("insert"@.len() != "f5"@.len());
        reveal_strlit("f6");
        assert("insert"@.len() != "f6"@.len());
        reveal_strlit("f7");
        assert("insert"@.len() != "f7"@.len());
        reveal_strlit("f8");
        assert("insert"@.len() != "f8"@.len());
        reveal_strlit("f9");
        assert("insert"@.len() != "f9"@.len());
        reveal_strlit("f10");
        assert("insert"@.len() != "f10"@.len());
        reveal_strlit("f11");
        assert("insert"@.len() != "f11"@.len());
        reveal_strlit("f12");
        assert("insert"@.len() != "f12"@.len());
    }
    assert(key_usage("home"@) == Some(0x4Au16)) by {
        reveal_strlit("home");
        reveal_strlit("enter");
        assert("home"@.len() != "enter"@.len());
        reveal_strlit("return");
        assert("home"@.len() != "return"@.len());
        reveal_strlit("escape");
        assert("home"@.len() != "escape"@.len());
        reveal_strlit("esc");
        assert("home"@.len() != "esc"@.len());
        reveal_strlit("backspace");
        assert("home"@.len() != "backspace"@.len());
        reveal_strlit("tab");
        assert("home"@.len() != "tab"@.len());
        reveal_strlit("space");
        assert("home"@.len() != "space"@.len());
        reveal_strlit("minus");
        assert("home"@.len() != "minus"@.len());
        reveal_strlit("equal");
        assert("home"@.len() != "equal"@.len());
        reveal_strlit("left_bracket");
        assert("home"@.len() != "left_bracket"@.len());
        reveal_strlit("right_bracket");
        assert("home"@.len() != "right_bracket"@.len());
        reveal_strlit("backslash");
        assert("home"@.len() != "backslash"@.len());
        reveal_strlit("semicolon");
        assert("home"@.len() != "semicolon"@.len());
        reveal_strlit("quote");
        assert("home"@.len() != "quote"@.len());
        reveal_strlit("grave");
        assert("home"@.len() != "grave"@.len());
        reveal_strlit("backtick");
        assert("home"@.len() != "backtick"@.len());
        reveal_strlit("comma");
        assert("home"@.len() != "comma"@.len());
        reveal_strlit("period");
        assert("home"@.len() != "period"@.len());
        reveal_strlit("dot");
        assert("home"@.len() != "dot"@.len());
        reveal_strlit("slash");
        assert("home"@.len() != "slash"@.len());
        reveal_strlit("caps_lock");
        assert("home"@.len() != "caps_lock"@.len());
        reveal_strlit("f1");
        assert("home"@.len() != "f1"@.len());
        reveal_strlit("f2");
        assert("home"@.len() != "f2"@.len());
        reveal_strlit("f3");
        assert("home"@.len() != "f3"@.len());
        reveal_strlit("f4");
        assert("home"@.len() != "f4"@.len());
        reveal_strlit("f5");
        assert("home"@.len() != "f5"@.len());
        reveal_strlit("f6");
        assert("home"@.len() != "f6"@.len());
        reveal_strlit("f7");
        assert("home"@.len() != "f7"@.len());
        reveal_strlit("f8");
        assert("home"@.len() != "f8"@.len());
        reveal_strlit("f9");
        assert("home"@.len() != "f9"@.len());
        reveal_strlit("f10");
        assert("home"@.len() != "f10"@.len());
        reveal_strlit("f11");
        assert("home"@.len() != "f11"@.len());
        reveal_strlit("f12");
        assert("home"@.len() != "f12"@.len());
        reveal_strlit("insert");
        assert("home"@.len() != "insert"@.len());
    }
    assert(key_usage("page_up"@) == Some(0x4Bu16)) by {
        reveal_strlit("page_up");
        reveal_strlit("enter");
        assert("page_up"@.len() != "enter"@.len());
        reveal_strlit("return");
        assert("page_up"@.len() != "return"@.len());
        reveal_strlit("escape");
        assert("page_up"@.len() != "escape"@.len());
        reveal_strlit("esc");
        assert("page_up"@.len() != "esc"@.len());
        reveal_strlit("backspace");
        assert("page_up"@.len() != "backspace"@.len());
        reveal_strlit("tab");
        assert("page_up"@.len() != "tab"@.len());
        reveal_strlit("space");
        assert("page_up"@.len() != "space"@.len());
        reveal_strlit("minus");
        assert("page_up"@.len() != "minus"@.len());
        reveal_strlit("equal");
        assert("page_up"@.len() != "equal"@.len());
        reveal_strlit("left_bracket");
        assert("page_up"@.len() != "left_bracket"@.len());
        reveal_strlit("right_bracket");
        assert("page_up"@.len() != "right_bracket"@.len());
        reveal_strlit("backslash");
        assert("page_up"@.len() != "backslash"@.len());
        reveal_strlit("semicolon");
        assert("page_up"@.len() != "semicolon"@.len());
        reveal_strlit("quote");
        assert("page_up"@.len() != "quote"@.len());
        reveal_strlit("grave");
        assert("page_up"@.len() != "grave"@.len());
        reveal_strlit("backtick");
        assert("page_up"@.len() != "backtick"@.len());
        reveal_strlit("comma");
        assert("page_up"@.len() != "comma"@.len());
        reveal_strlit("period");
        assert("page_up"@.len() != "period"@.len());
        reveal_strlit("dot");
        assert("page_up"@.len() != "dot"@.len());
        reveal_strlit("slash");
        assert("page_up"@.len() != "slash"@.len());
        reveal_strlit("caps_lock");
        assert("page_up"@.len() != "caps_lock"@.len());
        reveal_strlit("f1");
        assert("page_up"@.len() != "f1"@.len());
        reveal_strlit("f2");
        assert("page_up"@.len() != "f2"@.len());
        reveal_strlit("f3");
        assert("page_up"@.len() != "f3"@.len());
        reveal_strlit("f4");
        assert("page_up"@.len() != "f4"@.len());
        reveal_strlit("f5");
        assert("page_up"@.len() != "f5"@.len());
        reveal_strlit("f6");
        assert("page_up"@.len() != "f6"@.len());
        reveal_strlit("f7");
        assert("page_up"@.len() != "f7"@.len());
        reveal_strlit("f8");
        assert("page_up"@.len() != "f8"@.len());
        reveal_strlit("f9");
        assert("page_up"@.len() != "f9"@.len());
        reveal_strlit("f10");
        assert("page_up"@.len() != "f10"@.len());
        reveal_strlit("f11");
        assert("page_up"@.len() != "f11"@.len());
        reveal_strlit("f12");
        assert("page_up"@.len() != "f12"@.len());
        reveal_strlit("insert");
        assert("page_up"@.len() != "insert"@.len());
        reveal_strlit("home");
        assert("page_up"@.len() != "home"@.len());
    }
    assert(key_usage("pageup"@) == Some(0x4Bu16)) by {
        reveal_strlit("pageup");
        reveal_strlit("enter");
        assert("pageup"@.len() != "enter"@.len());
        reveal_strlit("return");
        assert("pageup"@[0] != "return"@[0]);
        reveal_strlit("escape");
        assert("pageup"@[0] != "escape"@[0]);
        reveal_strlit("esc");
        assert("pageup"@.len() != "esc"@.len());
        reveal_strlit("backspace");
        assert("pageup"@.len() != "backspace"@.len());
        reveal_strlit("tab");
        assert("pageup"@.len() != "tab"@.len());
        reveal_strlit("space");
        assert("pageup"@.len() != "space"@.len());
        reveal_strlit("minus");
        assert("pageup"@.len() != "minus"@.len());
        reveal_strlit("equal");
        assert("pageup"@.len() != "equal"@.len());
        reveal_strlit("left_bracket");
        assert("pageup"@.len() != "left_bracket"@.len());
        reveal_strlit("right_bracket");
        assert("pageup"@.len() != "right_bracket"@.len());
        reveal_strlit("backslash");
        assert("pageup"@.len() != "backslash"@.len());
        reveal_strlit("semicolon");
        assert("pageup"@.len() != "semicolon"@.len());
        reveal_strlit("quote");
        assert("pageup"@.len() != "quote"@.len());
        reveal_strlit("grave");
        assert("pageup"@.len() != "grave"@.len());
        reveal_strlit("backtick");
        assert("pageup"@.len() != "backtick"@.len());
        reveal_strlit("comma");
        assert("pageup"@.len() != "comma"@.len());
        reveal_strlit("period");
        assert("pageup"@[1] != "period"@[1]);
        reveal_strlit("dot");
        assert("pageup"@.len() != "dot"@.len());
        reveal_strlit("slash");
        assert("pageup"@.len() != "slash"@.len());
        reveal_strlit("caps_lock");
        assert("pageup"@.len() != "caps_lock"@.len());
        reveal_strlit("f1");
        assert("pageup"@.len() != "f1"@.len());
        reveal_strlit("f2");
        assert("pageup"@.len() != "f2"@.len());
        reveal_strlit("f3");
        assert("pageup"@.len() != "f3"@.len());
        reveal_strlit("f4");
        assert("pageup"@.len() != "f4"@.len());
        reveal_strlit("f5");
        assert("pageup"@.len() != "f5"@.len());
        reveal_strlit("f6");
        assert("pageup"@.len() != "f6"@.len());
        reveal_strlit("f7");
        assert("pageup"@.len() != "f7"@.len());
        reveal_strlit("f8");
        assert("pageup"@.len() != "f8"@.len());
        reveal_strlit("f9");
        assert("pageup"@.len() != "f9"@.len());
        reveal_strlit("f10");
        assert("pageup"@.len() != "f10"@.len());
        reveal_strlit("f11");
        assert("pageup"@.len() != "f11"@.len());
        reveal_strlit("f12");
        assert("pageup"@.len() != "f12"@.len());
        reveal_strlit("insert");
        assert("pageup"@[0] != "insert"@[0]);
        reveal_strlit("home");
        assert("pageup"@.len() != "home"@.len());
        reveal_strlit("page_up");
        assert("pageup"@.len() != "page_up"@.len());
    }
    assert(key_usage("delete"@) == Some(0x4Cu16)) by {
        reveal_strlit("delete");
        reveal_strlit("enter");
        assert("delete"@.len() != "enter"@.len());
        reveal_strlit("return");
        assert("delete"@[0] != "return"@[0]);
        reveal_strlit("escape");
        assert("delete"@[0] != "escape"@[0]);
        reveal_strlit("esc");
        assert("delete"@.len() != "esc"@.len());
        reveal_strlit("backspace");
        assert("delete"@.len() != "backspace"@.len());
        reveal_strlit("tab");
        assert("delete"@.len() != "tab"@.len());
        reveal_strlit("space");
        assert("delete"@.len() != "space"@.len());
        reveal_strlit("minus");
        assert("delete"@.len() != "minus"@.len());
        reveal_strlit("equal");
        assert("delete"@.len() != "equal"@.len());
        reveal_strlit("left_bracket");
        assert("delete"@.len() != "left_bracket"@.len());
        reveal_strlit("right_bracket");
        assert("delete"@.len() != "right_bracket"@.len());
        reveal_strlit("backslash");
        assert("delete"@.len() != "backslash"@.len());
        reveal_strlit("semicolon");
        assert("delete"@.len() != "semicolon"@.len());
        reveal_strlit("quote");
        assert("delete"@.len() != "quote"@.len());
        reveal_strlit("grave");
        assert("delete"@.len() != "grave"@.len());
        reveal_strlit("backtick");
        assert("delete"@.len() != "backtick"@.len());
        reveal_strlit("comma");
        assert("delete"@.len() != "comma"@.len());
        reveal_strlit("period");
        assert("delete"@[0] != "period"@[0]);
        reveal_strlit("dot");
        assert("delete"@.len() != "dot"@.len());
        reveal_strlit("slash");
        assert("delete"@.len() != "slash"@.len());
        reveal_strlit("caps_lock");
        assert("delete"@.len() != "caps_lock"@.len());
        reveal_strlit("f1");
        assert("delete"@.len() != "f1"@.len());
        reveal_strlit("f2");
        assert("delete"@.len() != "f2"@.len());
        reveal_strlit("f3");
        assert("delete"@.len() != "f3"@.len());
        reveal_strlit("f4");
        assert("delete"@.len() != "f4"@.len());
        reveal_strlit("f5");
        assert("delete"@.len() != "f5"@.len());
        reveal_strlit("f6");
        assert("delete"@.len() != "f6"@.len());
        reveal_strlit("f7");
        assert("delete"@.len() != "f7"@.len());
        reveal_strlit("f8");
        assert("delete"@.len() != "f8"@.len());
        reveal_strlit("f9");
        assert("delete"@.len() != "f9"@.len());
        reveal_strlit("f10");
        assert("delete"@.len() != "f10"@.len());
        reveal_strlit("f11");
        assert("delete"@.len() != "f11"@.len());
        reveal_strlit("f12");
        assert("delete"@.len() != "f12"@.len());
        reveal_strlit("insert");
        assert("delete"@[0] != "insert"@[0]);
        reveal_strlit("home");
        assert("delete"@.len() != "home"@.len());
        reveal_strlit("page_up");
        assert("delete"@.len() != "page_up"@.len());
        reveal_strlit("pageup");
        assert("delete"@[0] != "pageup"@[0]);
    }
    assert(key_usage("end"@) == Some(0x4Du16)) by {
        reveal_strlit("end");
        reveal_strlit("enter");
        assert("end"@.len() != "enter"@.len());
        reveal_strlit("return");
        assert("end"@.len() != "return"@.len());
        reveal_strlit("escape");
        assert("end"@.len() != "escape"@.len());
        reveal_strlit("esc");
        assert("end"@[1] != "esc"@[1]);
        reveal_strlit("backspace");
        assert("end"@.len() != "backspace"@.len());
        reveal_strlit("tab");
        assert("end"@[0] != "tab"@[0]);
        reveal_strlit("space");
        assert("end"@.len() != "space"@.len());
        reveal_strlit("minus");
        assert("end"@.len() != "minus"@.len());
        reveal_strlit("equal");
        assert("end"@.len() != "equal"@.len());
        reveal_strlit("left_bracket");
        assert("end"@.len() != "left_bracket"@.len());
        reveal_strlit("right_bracket");
        assert("end"@.len() != "right_bracket"@.len());
        reveal_strlit("backslash");
        assert("end"@.len() != "backslash"@.len());
        reveal_strlit("semicolon");
        assert("end"@.len() != "semicolon"@.len());
        reveal_strlit("quote");
        assert("end"@.len() != "quote"@.len());
        reveal_strlit("grave");
        assert("end"@.len() != "grave"@.len());
        reveal_strlit("backtick");
        assert("end"@.len() != "backtick"@.len());
        reveal_strlit("comma");
        assert("end"@.len() != "comma"@.len());
        reveal_strlit("period");
        assert("end"@.len() != "period"@.len());
        reveal_strlit("dot");
        assert("end"@[0] != "dot"@[0]);
        reveal_strlit("slash");
        assert("end"@.len() != "slash"@.len());
        reveal_strlit("caps_lock");
        assert("end"@.len() != "caps_lock"@.len());
        reveal_strlit("f1");
        assert("end"@.len() != "f1"@.len());
        reveal_strlit("f2");
        assert("end"@.len() != "f2"@.len());
        reveal_strlit("f3");
        assert("end"@.len() != "f3"@.len());
        reveal_strlit("f4");
        assert("end"@.len() != "f4"@.len());
        reveal_strlit("f5");
        assert("end"@.len() != "f5"@.len());
        reveal_strlit("f6");
        assert("end"@.len() != "f6"@.len());
        reveal_strlit("f7");
        assert("end"@.len() != "f7"@.len());
        reveal_strlit("f8");
        assert("end"@.len() != "f8"@.len());
        reveal_strlit("f9");
        assert("end"@.len() != "f9"@.len());
        reveal_strlit("f10");
        assert("end"@[0] != "f10"@[0]);
        reveal_strlit("f11");
        assert("end"@[0] != "f11"@[0]);
        reveal_strlit("f12");
        assert("end"@[0] != "f12"@[0]);
        reveal_strlit("insert");
        assert("end"@.len() != "insert"@.len());
        reveal_strlit("home");
        assert("end"@.len() != "home"@.len());
        reveal_strlit("page_up");
        assert("end"@.len() != "page_up"@.len());
        reveal_strlit("pageup");
        assert("end"@.len() != "pageup"@.len());
        reveal_strlit("delete");
        assert("end"@.len() != "delete"@.len());
    }
    assert(key_usage("page_down"@) == Some(0x4Eu16)) by {
        reveal_strlit("page_down");
        reveal_strlit("enter");
        assert("page_down"@.len() != "enter"@.len());
        reveal_strlit("return");
        assert("page_down"@.len() != "return"@.len());
        reveal_strlit("escape");
        assert("page_down"@.len() != "escape"@.len());
        reveal_strlit("esc");
        assert("page_down"@.len() != "esc"@.len());
        reveal_strlit("backspace");
        assert("page_down"@[0] != "backspace"@[0]);
        reveal_strlit("tab");
        assert("page_down"@.len() != "tab"@.len());
        reveal_strlit("space");
        assert("page_down"@.len() != "space"@.len());
        reveal_strlit("minus");
        assert("page_down"@.len() != "minus"@.len());
        reveal_strlit("equal");
        assert("page_down"@.len() != "equal"@.len());
        reveal_strlit("left_bracket");
        assert("page_down"@.len() != "left_bracket"@.len());
        reveal_strlit("right_bracket");
        assert("page_down"@.len() != "right_bracket"@.len());
        reveal_strlit("backslash");
        assert("page_down"@[0] != "backslash"@[0]);
        reveal_strlit("semicolon");
        assert("page_down"@[0] != "semicolon"@[0]);
        reveal_strlit("quote");
        assert("page_down"@.len() != "quote"@.len());
        reveal_strlit("grave");
        assert("page_down"@.len() != "grave"@.len());
        reveal_strlit("backtick");
        assert("page_down"@.len() != "backtick"@.len());
        reveal_strlit("comma");
        assert("page_down"@.len() != "comma"@.len());
        reveal_strlit("period");
        assert("page_down"@.len() != "period"@.len());
        reveal_strlit("dot");
        assert("page_down"@.len() != "dot"@.len());
        reveal_strlit("slash");
        assert("page_down"@.len() != "slash"@.len());
        reveal_strlit("caps_lock");
        assert("page_down"@[0] != "caps_lock"@[0]);
        reveal_strlit("f1");
        assert("page_down"@.len() != "f1"@.len());
        reveal_strlit("f2");
        assert("page_down"@.len() != "f2"@.len());
        reveal_strlit("f3");
        assert("page_down"@.len() != "f3"@.len());
        reveal_strlit("f4");
        assert("page_down"@.len() != "f4"@.len());
        reveal_strlit("f5");
        assert("page_down"@.len() != "f5"@.len());
        reveal_strlit("f6");
        assert("page_down"@.len() != "f6"@.len());
        reveal_strlit("f7");
        assert("page_down"@.len() != "f7"@.len());
        reveal_strlit("f8");
        assert("page_down"@.len() != "f8"@.len());
        reveal_strlit("f9");
        assert("page_down"@.len() != "f9"@.len());
        reveal_strlit("f10");
        assert("page_down"@.len() != "f10"@.len());
        reveal_strlit("f11");
        assert("page_down"@.len() != "f11"@.len());
        reveal_strlit("f12");
        assert("page_down"@.len() != "f12"@.len());
        reveal_strlit("insert");
        assert("page_down"@.len() != "insert"@.len());
        reveal_strlit("home");
        assert("page_down"@.len() != "home"@.len());
        reveal_strlit("page_up");
        assert("page_down"@.len() != "page_up"@.len());
        reveal_strlit("pageup");
        assert("page_down"@.len() != "pageup"@.len());
        reveal_strlit("delete");
        assert("page_down"@.len() != "delete"@.len());
        reveal_strlit("end");
        assert("page_down"@.len() != "end"@.len());
    }
    assert(key_usage("pagedown"@) == Some(0x4Eu16)) by {
        reveal_strlit("pagedown");
        reveal_strlit("enter");
        assert("pagedown"@.len() != "enter"@.len());
        reveal_strlit("return");
        assert("pagedown"@.len() != "return"@.len());
        reveal_strlit("escape");
        assert("pagedown"@.len() != "escape"@.len());
        reveal_strlit("esc");
        assert("pagedown"@.len() != "esc"@.len());
        reveal_strlit("backspace");
        assert("pagedown"@.len() != "backspace"@.len());
        reveal_strlit("tab");
        assert("pagedown"@.len() != "tab"@.len());
        reveal_strlit("space");
        assert("pagedown"@.len() != "space"@.len());
        reveal_strlit("minus");
        assert("pagedown"@.len() != "minus"@.len());
        reveal_strlit("equal");
        assert("pagedown"@.len() != "equal"@.len());
        reveal_strlit("left_bracket");
        assert("pagedown"@.len() != "left_bracket"@.len());
        reveal_strlit("right_bracket");
        assert("pagedown"@.len() != "right_bracket"@.len());
        reveal_strlit("backslash");
        assert("pagedown"@.len() != "backslash"@.len());
        reveal_strlit("semicolon");
        assert("pagedown"@.len() != "semicolon"@.len());
        reveal_strlit("quote");
        assert("pagedown"@.len() != "quote"@.len());
        reveal_strlit("grave");
        assert("pagedown"@.len() != "grave"@.len());
        reveal_strlit("backtick");
        assert("pagedown"@[0] != "backtick"@[0]);
        reveal_strlit("comma");
        assert("pagedown"@.len() != "comma"@.len());
        reveal_strlit("period");
        assert("pagedown"@.len() != "period"@.len());
        reveal_strlit("dot");
        assert("pagedown"@.len() != "dot"@.len());
        reveal_strlit("slash");
        assert("pagedown"@.len() != "slash"@.len());
        reveal_strlit("caps_lock");
        assert("pagedown"@.len() != "caps_lock"@.len());
        reveal_strlit("f1");
        assert("pagedown"@.len() != "f1"@.len());
        reveal_strlit("f2");
        assert("pagedown"@.len() != "f2"@.len());
        reveal_strlit("f3");
        assert("pagedown"@.len() != "f3"@.len());
        reveal_strlit("f4");
        assert("pagedown"@.len() != "f4"@.len());
        reveal_strlit("f5");
        assert("pagedown"@.len() != "f5"@.len());
        reveal_strlit("f6");
        assert("pagedown"@.len() != "f6"@.len());
        reveal_strlit("f7");
        assert("pagedown"@.len() != "f7"@.len());
        reveal_strlit("f8");
        assert("pagedown"@.len() != "f8"@.len());
        reveal_strlit("f9");
        assert("pagedown"@.len() != "f9"@.len());
        reveal_strlit("f10");
        assert("pagedown"@.len() != "f10"@.len());
        reveal_strlit("f11");
        assert("pagedown"@.len() != "f11"@.len());
        reveal_strlit("f12");
        assert("pagedown"@.len() != "f12"@.len());
        reveal_strlit("insert");
        assert("pagedown"@.len() != "insert"@.len());
        reveal_strlit("home");
        assert("pagedown"@.len() != "home"@.len());
        reveal_strlit("page_up");
        assert("pagedown"@.len() != "page_up"@.len());
        reveal_strlit("pageup");
        assert("pagedown"@.len() != "pageup"@.len());
        reveal_strlit("delete");
        assert("pagedown"@.len() != "delete"@.len());
        reveal_strlit("end");
        assert("pagedown"@.len() != "end"@.len());
        reveal_strlit("page_down");
        assert("pagedown"@.len() != "page_down"@.len());
    }
    assert(key_usage("arrow_right"@) == Some(0x4Fu16)) by {
        reveal_strlit("arrow_right");
        reveal_strlit("enter");
        assert("arrow_right"@.len() != "enter"@.len());
        reveal_strlit("return");
        assert("arrow_right"@.len() != "return"@.len());
        reveal_strlit("escape");
        assert("arrow_right"@.len() != "escape"@.len());
        reveal_strlit("esc");
        assert("arrow_right"@.len() != "esc"@.len());
        reveal_strlit("backspace");
        assert("arrow_right"@.len() != "backspace"@.len());
        reveal_strlit("tab");
        assert("arrow_right"@.len() != "tab"@.len());
        reveal_strlit("space");
        assert("arrow_right"@.len() != "space"@.len());
        reveal_strlit("minus");
        assert("arrow_right"@.len() != "minus"@.len());
        reveal_strlit("equal");
        assert("arrow_right"@.len() != "equal"@.len());
        reveal_strlit("left_bracket");
        assert("arrow_right"@.len() != "left_bracket"@.len());
        reveal_strlit("right_bracket");
        assert("arrow_right"@.len() != "right_bracket"@.len());
        reveal_strlit("backslash");
        assert("arrow_right"@.len() != "backslash"@.len());
        reveal_strlit("semicolon");
        assert("arrow_right"@.len() != "semicolon"@.len());
        reveal_strlit("quote");
        assert("arrow_right"@.len() != "quote"@.len());
        reveal_strlit("grave");
        assert("arrow_right"@.len() != "grave"@.len());
        reveal_strlit("backtick");
        assert("arrow_right"@.len() != "backtick"@.len());
        reveal_strlit("comma");
        assert("arrow_right"@.len() != "comma"@.len());
        reveal_strlit("period");
        assert("arrow_right"@.len() != "period"@.len());
        reveal_strlit("dot");
        assert("arrow_right"@.len() != "dot"@.len());
        reveal_strlit("slash");
        assert("arrow_right"@.len() != "slash"@.len());
        reveal_strlit("caps_lock");
        assert("arrow_right"@.len() != "caps_lock"@.len());
        reveal_strlit("f1");
        assert("arrow_right"@.len() != "f1"@.len());
        reveal_strlit("f2");
        assert("arrow_right"@.len() != "f2"@.len());
        reveal_strlit("f3");
        assert("arrow_right"@.len() != "f3"@.len());
        reveal_strlit("f4");
        assert("arrow_right"@.len() != "f4"@.len());
        reveal_strlit("f5");
        assert("arrow_right"@.len() != "f5"@.len());
        reveal_strlit("f6");
        assert("arrow_right"@.len() != "f6"@.len());
        reveal_strlit("f7");
        assert("arrow_right"@.len() != "f7"@.len());
        reveal_strlit("f8");
        assert("arrow_right"@.len() != "f8"@.len());
        reveal_strlit("f9");
        assert("arrow_right"@.len() != "f9"@.len());
        reveal_strlit("f10");
        assert("arrow_right"@.len() != "f10"@.len());
        reveal_strlit("f11");
        assert("arrow_right"@.len() != "f11"@.len());
        reveal_strlit("f12");
        assert("arrow_right"@.len() != "f12"@.len());
        reveal_strlit("insert");
        assert("arrow_right"@.len() != "insert"@.len());
        reveal_strlit("home");
        assert("arrow_right"@.len() != "home"@.len());
        reveal_strlit("page_up");
        assert("arrow_right"@.len() != "page_up"@.len());
        reveal_strlit("pageup");
        assert("arrow_right"@.len() != "pageup"@.len());
        reveal_strlit("delete");
        assert("arrow_right"@.len() != "delete"@.len());
        reveal_strlit("end");
        assert("arrow_right"@.len() != "end"@.len());
        reveal_strlit("page_down");
        assert("arrow_right"@.len() != "page_down"@.len());
        reveal_strlit("pagedown");
        assert("arrow_right"@.len() != "pagedown"@.len());
    }
    assert(key_usage("right"@) == Some(0x4Fu16)) by {
        reveal_strlit("right");
        reveal_strlit("enter");
        assert("right"@[0] != "enter"@[0]);
        reveal_strlit("return");
        assert("right"@.len() != "return"@.len());
        reveal_strlit("escape");
        assert("right"@.len() != "escape"@.len());
        reveal_strlit("esc");
        assert("right"@.len() != "esc"@.len());
        reveal_strlit("backspace");
        assert("right"@.len() != "backspace"@.len());
        reveal_strlit("tab");
        assert("right"@.len() != "tab"@.len());
        reveal_strlit("space");
        assert("right"@[0] != "space"@[0]);
        reveal_strlit("minus");
        assert("right"@[0] != "minus"@[0]);
        reveal_strlit("equal");
        assert("right"@[0] != "equal"@[0]);
        reveal_strlit("left_bracket");
        assert("right"@.len() != "left_bracket"@.len());
        reveal_strlit("right_bracket");
        assert("right"@.len() != "right_bracket"@.len());
        reveal_strlit("backslash");
        assert("right"@.len() != "backslash"@.len());
        reveal_strlit("semicolon");
        assert("right"@.len() != "semicolon"@.len());
        reveal_strlit("quote");
        assert("right"@[0] != "quote"@[0]);
        reveal_strlit("grave");
        assert("right"@[0] != "grave"@[0]);
        reveal_strlit("backtick");
        assert("right"@.len() != "backtick"@.len());
        reveal_strlit("comma");
        assert("right"@[0] != "comma"@[0]);
        reveal_strlit("period");
        assert("right"@.len() != "period"@.len());
        reveal_strlit("dot");
        assert("right"@.len() != "dot"@.len());
        reveal_strlit("slash");
        assert("right"@[0] != "slash"@[0]);
        reveal_strlit("caps_lock");
        assert("right"@.len() != "caps_lock"@.len());
        reveal_strlit("f1");
        assert("right"@.len() != "f1"@.len());
        reveal_strlit("f2");
        assert("right"@.len() != "f2"@.len());
        reveal_strlit("f3");
        assert("right"@.len() != "f3"@.len());
        reveal_strlit("f4");
        assert("right"@.len() != "f4"@.len());
        reveal_strlit("f5");
        assert("right"@.len() != "f5"@.len());
        reveal_strlit("f6");
        assert("right"@.len() != "f6"@.len());
        reveal_strlit("f7");
        assert("right"@.len() != "f7"@.len());
        reveal_strlit("f8");
        assert("right"@.len() != "f8"@.len());
        reveal_strlit("f9");
        assert("right"@.len() != "f9"@.len());
        reveal_strlit("f10");
        assert("right"@.len() != "f10"@.len());
        reveal_strlit("f11");
        assert("right"@.len() != "f11"@.len());
        reveal_strlit("f12");
        assert("right"@.len() != "f12"@.len());
        reveal_strlit("insert");
        assert("right"@.len() != "insert"@.len());
        reveal_strlit("home");
        assert("right"@.len() != "home"@.len());
        reveal_strlit("page_up");
        assert("right"@.len() != "page_up"@.len());
        reveal_strlit("pageup");
        assert("right"@.len() != "pageup"@.len());
        reveal_strlit("delete");
        assert("right"@.len() != "delete"@.len());
        reveal_strlit("end");
        assert("right"@.len() != "end"@.len());
        reveal_strlit("page_down");
        assert("right"@.len() != "page_down"@.len());
        reveal_strlit("pagedown");
        assert("right"@.len() != "pagedown"@.len());
        reveal_strlit("arrow_right");
        assert("right"@.len() != "arrow_right"@.len());
    }
    assert(key_usage("arrow_left"@) == Some(0x50u16)) by {
        reveal_strlit("arrow_left");
        reveal_strlit("enter");
        assert("arrow_left"@.len() != "enter"@.len());
        reveal_strlit("return");
        assert("arrow_left"@.len() != "return"@.len());
        reveal_strlit("escape");
        assert("arrow_left"@.len() != "escape"@.len());
        reveal_strlit("esc");
        assert("arrow_left"@.len() != "esc"@.len());
        reveal_strlit("backspace");
        assert("arrow_left"@.len() != "backspace"@.len());
        reveal_strlit("tab");
        assert("arrow_left"@.len() != "tab"@.len());
        reveal_strlit("space");
        assert("arrow_left"@.len() != "space"@.len());
        reveal_strlit("minus");
        assert("arrow_left"@.len() != "minus"@.len());
        reveal_strlit("equal");
        assert("arrow_left"@.len() != "equal"@.len());
        reveal_strlit("left_bracket");
        assert("arrow_left"@.len() != "left_bracket"@.len());
        reveal_strlit("right_bracket");
        assert("arrow_left"@.len() != "right_bracket"@.len());
        reveal_strlit("backslash");
        assert("arrow_left"@.len() != "backslash"@.len());
        reveal_strlit("semicolon");
        assert("arrow_left"@.len() != "semicolon"@.len());
        reveal_strlit("quote");
        assert("arrow_left"@.len() != "quote"@.len());
        reveal_strlit("grave");
        assert("arrow_left"@.len() != "grave"@.len());
        reveal_strlit("backtick");
        assert("arrow_left"@.len() != "backtick"@.len());
        reveal_strlit("comma");
        assert("arrow_left"@.len() != "comma"@.len());
        reveal_strlit("period");
        assert("arrow_left"@.len() != "period"@.len());
        reveal_strlit("dot");
        assert("arrow_left"@.len() != "dot"@.len());
        reveal_strlit("slash");
        assert("arrow_left"@.len() != "slash"@.len());
        reveal_strlit("caps_lock");
        assert("arrow_left"@.len() != "caps_lock"@.len());
        reveal_strlit("f1");
        assert("arrow_left"@.len() != "f1"@.len());
        reveal_strlit("f2");
        assert("arrow_left"@.len() != "f2"@.len());
        reveal_strlit("f3");
        assert("arrow_left"@.len() != "f3"@.len());
        reveal_strlit("f4");
        assert("arrow_left"@.len() != "f4"@.len());
        reveal_strlit("f5");
        assert("arrow_left"@.len() != "f5"@.len());
        reveal_strlit("f6");
        assert("arrow_left"@.len() != "f6"@.len());
        reveal_strlit("f7");
        assert("arrow_left"@.len() != "f7"@.len());
        reveal_strlit("f8");
        assert("arrow_left"@.len() != "f8"@.len());
        reveal_strlit("f9");
        assert("arrow_left"@.len() != "f9"@.len());
        reveal_strlit("f10");
        assert("arrow_left"@.len() != "f10"@.len());
        reveal_strlit("f11");
        assert("arrow_left"@.len() != "f11"@.len());
        reveal_strlit("f12");
        assert("arrow_left"@.len() != "f12"@.len());
        reveal_strlit("insert");
        assert("arrow_left"@.len() != "insert"@.len());
        reveal_strlit("home");
        assert("arrow_left"@.len() != "home"@.len());
        reveal_strlit("page_up");
        assert("arrow_left"@.len() != "page_up"@.len());
        reveal_strlit("pageup");
        assert("arrow_left"@.len() != "pageup"@.len());
        reveal_strlit("delete");
        assert("arrow_left"@.len() != "delete"@.len());
        reveal_strlit("end");
        assert("arrow_left"@.len() != "end"@.len());
        reveal_strlit("page_down");
        assert("arrow_left"@.len() != "page_down"@.len());
        reveal_strlit("pagedown");
        assert("arrow_left"@.len() != "pagedown"@.len());
        reveal_strlit("arrow_right");
        assert("arrow_left"@.len() != "arrow_right"@.len());
        reveal_strlit("right");
        assert("arrow_left"@.len() != "right"@.len());
    }
    assert(key_usage("left"@) == Some(0x50u16)) by {
        reveal_strlit("left");
        reveal_strlit("enter");
        assert("left"@.len() != "enter"@.len());
        reveal_strlit("return");
        assert("left"@.len() != "return"@.len());
        reveal_strlit("escape");
        assert("left"@.len() != "escape"@.len());
        reveal_strlit("esc");
        assert("left"@.len() != "esc"@.len());
        reveal_strlit("backspace");
        assert("left"@.len() != "backspace"@.len());
        reveal_strlit("tab");
        assert("left"@.len() != "tab"@.len());
        reveal_strlit("space");
        assert("left"@.len() != "space"@.len());
        reveal_strlit("minus");
        assert("left"@.len() != "minus"@.len());
        reveal_strlit("equal");
        assert("left"@.len() != "equal"@.len());
        reveal_strlit("left_bracket");
        assert("left"@.len() != "left_bracket"@.len());
        reveal_strlit("right_bracket");
        assert("left"@.len() != "right_bracket"@.len());
        reveal_strlit("backslash");
        assert("left"@.len() != "backslash"@.len());
        reveal_strlit("semicolon");
        assert("left"@.len() != "semicolon"@.len());
        reveal_strlit("quote");
        assert("left"@.len() != "quote"@.len());
        reveal_strlit("grave");
        assert("left"@.len() != "grave"@.len());
        reveal_strlit("backtick");
        assert("left"@.len() != "backtick"@.len());
        reveal_strlit("comma");
        assert("left"@.len() != "comma"@.len());
        reveal_strlit("period");
        assert("left"@.len() != "period"@.len());
        reveal_strlit("dot");
        assert("left"@.len() != "dot"@.len());
        reveal_strlit("slash");
        assert("left"@.len() != "slash"@.len());
        reveal_strlit("caps_lock");
        assert("left"@.len() != "caps_lock"@.len());
        reveal_strlit("f1");
        assert("left"@.len() != "f1"@.len());
        reveal_strlit("f2");
        assert("left"@.len() != "f2"@.len());
        reveal_strlit("f3");
        assert("left"@.len() != "f3"@.len());
        reveal_strlit("f4");
        assert("left"@.len() != "f4"@.len());
        reveal_strlit("f5");
        assert("left"@.len() != "f5"@.len());
        reveal_strlit("f6");
        assert("left"@.len() != "f6"@.len());
        reveal_strlit("f7");
        assert("left"@.len() != "f7"@.len());
        reveal_strlit("f8");
        assert("left"@.len() != "f8"@.len());
        reveal_strlit("f9");
        assert("left"@.len() != "f9"@.len());
        reveal_strlit("f10");
        assert("left"@.len() != "f10"@.len());
        reveal_strlit("f11");
        assert("left"@.len() != "f11"@.len());
        reveal_strlit("f12");
        assert("left"@.len() != "f12"@.len());
        reveal_strlit("insert");
        assert("left"@.len() != "insert"@.len());
        reveal_strlit("home");
        assert("left"@[0] != "home"@[0]);
        reveal_strlit("page_up");
        assert("left"@.len() != "page_up"@.len());
        reveal_strlit("pageup");
        assert("left"@.len() != "pageup"@.len());
        reveal_strlit("delete");
        assert("left"@.len() != "delete"@.len());
        reveal_strlit("end");
        assert("left"@.len() != "end"@.len());
        reveal_strlit("page_down");
        assert("left"@.len() != "page_down"@.len());
        reveal_strlit("pagedown");
        assert("left"@.len() != "pagedown"@.len());
        reveal_strlit("arrow_right");
        assert("left"@.len() != "arrow_right"@.len());
        reveal_strlit("right");
        assert("left"@.len() != "right"@.len());
        reveal_strlit("arrow_left");
        assert("left"@.len() != "arrow_left"@.len());
    }
    assert(key_usage("arrow_down"@) == Some(0x51u16)) by {
        reveal_strlit("arrow_down");
        reveal_strlit("enter");
        assert("arrow_down"@.len() != "enter"@.len());
        reveal_strlit("return");
        assert("arrow_down"@.len() != "return"@.len());
        reveal_strlit("escape");
        assert("arrow_down"@.len() != "escape"@.len());
        reveal_strlit("esc");
        assert("arrow_down"@.len() != "esc"@.len());
        reveal_strlit("backspace");
        assert("arrow_down"@.len() != "backspace"@.len());
        reveal_strlit("tab");
        assert("arrow_down"@.len() != "tab"@.len());
        reveal_strlit("space");
        assert("arrow_down"@.len() != "space"@.len());
        reveal_strlit("minus");
        assert("arrow_down"@.len() != "minus"@.len());
        reveal_strlit("equal");
        assert("arrow_down"@.len() != "equal"@.len());
        reveal_strlit("left_bracket");
        assert("arrow_down"@.len() != "left_bracket"@.len());
        reveal_strlit("right_bracket");
        assert("arrow_down"@.len() != "right_bracket"@.len());
        reveal_strlit("backslash");
        assert("arrow_down"@.len() != "backslash"@.len());
        reveal_strlit("semicolon");
        assert("arrow_down"@.len() != "semicolon"@.len());
        reveal_strlit("quote");
        assert("arrow_down"@.len() != "quote"@.len());
        reveal_strlit("grave");
        assert("arrow_down"@.len() != "grave"@.len());
        reveal_strlit("backtick");
        assert("arrow_down"@.len() != "backtick"@.len());
        reveal_strlit("comma");
        assert("arrow_down"@.len() != "comma"@.len());
        reveal_strlit("period");
        assert("arrow_down"@.len() != "period"@.len());
        reveal_strlit("dot");
        assert("arrow_down"@.len() != "dot"@.len());
        reveal_strlit("slash");
        assert("arrow_down"@.len() != "slash"@.len());
        reveal_strlit("caps_lock");
        assert("arrow_down"@.len() != "caps_lock"@.len());
        reveal_strlit("f1");
        assert("arrow_down"@.len() != "f1"@.len());
        reveal_strlit("f2");
        assert("arrow_down"@.len() != "f2"@.len());
        reveal_strlit("f3");
        assert("arrow_down"@.len() != "f3"@.len());
        reveal_strlit("f4");
        assert("arrow_down"@.len() != "f4"@.len());
        reveal_strlit("f5");
        assert("arrow_down"@.len() != "f5"@.len());
        reveal_strlit("f6");
        assert("arrow_down"@.len() != "f6"@.len());
        reveal_strlit("f7");
        assert("arrow_down"@.len() != "f7"@.len());
        reveal_strlit("f8");
        assert("arrow_down"@.len() != "f8"@.len());
        reveal_strlit("f9");
        assert("arrow_down"@.len() != "f9"@.len());
        reveal_strlit("f10");
        assert("arrow_down"@.len() != "f10"@.len());
        reveal_strlit("f11");
        assert("arrow_down"@.len() != "f11"@.len());
        reveal_strlit("f12");
        assert("arrow_down"@.len() != "f12"@.len());
        reveal_strlit("insert");
        assert("arrow_down"@.len() != "insert"@.len());
        reveal_strlit("home");
        assert("arrow_down"@.len() != "home"@.len());
        reveal_strlit("page_up");
        assert("arrow_down"@.len() != "page_up"@.len());
        reveal_strlit("pageup");
        assert("arrow_down"@.len() != "pageup"@.len());
        reveal_strlit("delete");
        assert("arrow_down"@.len() != "delete"@.len());
        reveal_strlit("end");
        assert("arrow_down"@.len() != "end"@.len());
        reveal_strlit("page_down");
        assert("arrow_down"@.len() != "page_down"@.len());
        reveal_strlit("pagedown");
        assert("arrow_down"@.len() != "pagedown"@.len());
        reveal_strlit("arrow_right");
        assert("arrow_down"@.len() != "arrow_right"@.len());
        reveal_strlit("right");
        assert("arrow_down"@.len() != "right"@.len());
        reveal_strlit("arrow_left");
        assert("arrow_down"@[6] != "arrow_left"@[6]);
        reveal_strlit("left");
        assert("arrow_down"@.len() != "left"@.len());
    }
    assert(key_usage("down"@) == Some(0x51u16)) by {
        reveal_strlit("down");
        reveal_strlit("enter");
        assert("down"@.len() != "enter"@.len());
        reveal_strlit("return");
        assert("down"@.len() != "return"@.len());
        reveal_strlit("escape");
        assert("down"@.len() != "escape"@.len());
        reveal_strlit("esc");
        assert("down"@.len() != "esc"@.len());
        reveal_strlit("backspace");
        assert("down"@.len() != "backspace"@.len());
        reveal_strlit("tab");
        assert("down"@.len() != "tab"@.len());
        reveal_strlit("space");
        assert("down"@.len() != "space"@.len());
        reveal_strlit("minus");
        assert("down"@.len() != "minus"@.len());
        reveal_strlit("equal");
        assert("down"@.len() != "equal"@.len());
        reveal_strlit("left_bracket");
        assert("down"@.len() != "left_bracket"@.len());
        reveal_strlit("right_bracket");
        assert("down"@.len() != "right_bracket"@.len());
        reveal_strlit("backslash");
        assert("down"@.len() != "backslash"@.len());
        reveal_strlit("semicolon");
        assert("down"@.len() != "semicolon"@.len());
        reveal_strlit("quote");
        assert("down"@.len() != "quote"@.len());
        reveal_strlit("grave");
        assert("down"@.len() != "grave"@.len());
        reveal_strlit("backtick");
        assert("down"@.len() != "backtick"@.len());
        reveal_strlit("comma");
        assert("down"@.len() != "comma"@.len());
        reveal_strlit("period");
        assert("down"@.len() != "period"@.len());
        reveal_strlit("dot");
        assert("down"@.len() != "dot"@.len());
        reveal_strlit("slash");
        assert("down"@.len() != "slash"@.len());
        reveal_strlit("caps_lock");
        assert("down"@.len() != "caps_lock"@.len());
        reveal_strlit("f1");
        assert("down"@.len() != "f1"@.len());
        reveal_strlit("f2");
        assert("down"@.len() != "f2"@.len());
        reveal_strlit("f3");
        assert("down"@.len() != "f3"@.len());
        reveal_strlit("f4");
        assert("down"@.len() != "f4"@.len());
        reveal_strlit("f5");
        assert("down"@.len() != "f5"@.len());
        reveal_strlit("f6");
        assert("down"@.len() != "f6"@.len());
        reveal_strlit("f7");
        assert("down"@.len() != "f7"@.len());
        reveal_strlit("f8");
        assert("down"@.len() != "f8"@.len());
        reveal_strlit("f9");
        assert("down"@.len() != "f9"@.len());
        reveal_strlit("f10");
        assert("down"@.len() != "f10"@.len());
        reveal_strlit("f11");
        assert("down"@.len() != "f11"@.len());
        reveal_strlit("f12");
        assert("down"@.len() != "f12"@.len());
        reveal_strlit("insert");
        assert("down"@.len() != "insert"@.len());
        reveal_strlit("home");
        assert("down"@[0] != "home"@[0]);
        reveal_strlit("page_up");
        assert("down"@.len() != "page_up"@.len());
        reveal_strlit("pageup");
        assert("down"@.len() != "pageup"@.len());
        reveal_strlit("delete");
        assert("down"@.len() != "delete"@.len());
        reveal_strlit("end");
        assert("down"@.len() != "end"@.len());
        reveal_strlit("page_down");
        assert("down"@.len() != "page_down"@.len());
        reveal_strlit("pagedown");
        assert("down"@.len() != "pagedown"@.len());
        reveal_strlit("arrow_right");
        assert("down"@.len() != "arrow_right"@.len());
        reveal_strlit("right");
        assert("down"@.len() != "right"@.len());
        reveal_strlit("arrow_left");
        assert("down"@.len() != "arrow_left"@.len());
        reveal_strlit("left");
        assert("down"@[0] != "left"@[0]);
        reveal_strlit("arrow_down");
        assert("down"@.len() != "arrow_down"@.len());
    }
    assert(key_usage("arrow_up"@) == Some(0x52u16)) by {
        reveal_strlit("arrow_up");
        reveal_strlit("enter");
        assert("arrow_up"@.len() != "enter"@.len());
        reveal_strlit("return");
        assert("arrow_up"@.len() != "return"@.len());
        reveal_strlit("escape");
        assert("arrow_up"@.len() != "escape"@.len());
        reveal_strlit("esc");
        assert("arrow_up"@.len() != "esc"@.len());
        reveal_strlit("backspace");
        assert("arrow_up"@.len() != "backspace"@.len());
        reveal_strlit("tab");
        assert("arrow_up"@.len() != "tab"@.len());
        reveal_strlit("space");
        assert("arrow_up"@.len() != "space"@.len());
        reveal_strlit("minus");
        assert("arrow_up"@.len() != "minus"@.len());
        reveal_strlit("equal");
        assert("arrow_up"@.len() != "equal"@.len());
        reveal_strlit("left_bracket");
        assert("arrow_up"@.len() != "left_bracket"@.len());
        reveal_strlit("right_bracket");
        assert("arrow_up"@.len() != "right_bracket"@.len());
        reveal_strlit("backslash");
        assert("arrow_up"@.len() != "backslash"@.len());
        reveal_strlit("semicolon");
        assert("arrow_up"@.len() != "semicolon"@.len());
        reveal_strlit("quote");
        assert("arrow_up"@.len() != "quote"@.len());
        reveal_strlit("grave");
        assert("arrow_up"@.len() != "grave"@.len());
        reveal_strlit("backtick");
        assert("arrow_up"@[0] != "backtick"@[0]);
        reveal_strlit("comma");
        assert("arrow_up"@.len() != "comma"@.len());
        reveal_strlit("period");
        assert("arrow_up"@.len() != "period"@.len());
        reveal_strlit("dot");
        assert("arrow_up"@.len() != "dot"@.len());
        reveal_strlit("slash");
        assert("arrow_up"@.len() != "slash"@.len());
        reveal_strlit("caps_lock");
        assert("arrow_up"@.len() != "caps_lock"@.len());
        reveal_strlit("f1");
        assert("arrow_up"@.len() != "f1"@.len());
        reveal_strlit("f2");
        assert("arrow_up"@.len() != "f2"@.len());
        reveal_strlit("f3");
        assert("arrow_up"@.len() != "f3"@.len());
        reveal_strlit("f4");
        assert("arrow_up"@.len() != "f4"@.len());
        reveal_strlit("f5");
        assert("arrow_up"@.len() != "f5"@.len());
        reveal_strlit("f6");
        assert("arrow_up"@.len() != "f6"@.len());
        reveal_strlit("f7");
        assert("arrow_up"@.len() != "f7"@.len());
        reveal_strlit("f8");
        assert("arrow_up"@.len() != "f8"@.len());
        reveal_strlit("f9");
        assert("arrow_up"@.len() != "f9"@.len());
        reveal_strlit("f10");
        assert("arrow_up"@.len() != "f10"@.len());
        reveal_strlit("f11");
        assert("arrow_up"@.len() != "f11"@.len());
        reveal_strlit("f12");
        assert("arrow_up"@.len() != "f12"@.len());
        reveal_strlit("insert");
        assert("arrow_up"@.len() != "insert"@.len());
        reveal_strlit("home");
        assert("arrow_up"@.len() != "home"@.len());
        reveal_strlit("page_up");
        assert("arrow_up"@.len() != "page_up"@.len());
        reveal_strlit("pageup");
        assert("arrow_up"@.len() != "pageup"@.len());
        reveal_strlit("delete");
        assert("arrow_up"@.len() != "delete"@.len());
        reveal_strlit("end");
        assert("arrow_up"@.len() != "end"@.len());
        reveal_strlit("page_down");
        assert("arrow_up"@.len() != "page_down"@.len());
        reveal_strlit("pagedown");
        assert("arrow_up"@[0] != "pagedown"@[0]);
        reveal_strlit("arrow_right");
        assert("arrow_up"@.len() != "arrow_right"@.len());
        reveal_strlit("right");
        assert("arrow_up"@.len() != "right"@.len());
        reveal_strlit("arrow_left");
        assert("arrow_up"@.len() != "arrow_left"@.len());
        reveal_strlit("left");
        assert("arrow_up"@.len() != "left"@.len());
        reveal_strlit("arrow_down");
        assert("arrow_up"@.len() != "arrow_down"@.len());
        reveal_strlit("down");
        assert("arrow_up"@.len() != "down"@.len());
    }
    assert(key_usage("up"@) == Some(0x52u16)) by {
        reveal_strlit("up");
        reveal_strlit("enter");
        assert("up"@.len() != "enter"@.len());
        reveal_strlit("return");
        assert("up"@.len() != "return"@.len());
        reveal_strlit("escape");
        assert("up"@.len() != "escape"@.len());
        reveal_strlit("esc");
        assert("up"@.len() != "esc"@.len());
        reveal_strlit("backspace");
        assert("up"@.len() != "backspace"@.len());
        reveal_strlit("tab");
        assert("up"@.len() != "tab"@.len());
        reveal_strlit("space");
        assert("up"@.len() != "space"@.len());
        reveal_strlit("minus");
        assert("up"@.len() != "minus"@.len());
        reveal_strlit("equal");
        assert("up"@.len() != "equal"@.len());
        reveal_strlit("left_bracket");
        assert("up"@.len() != "left_bracket"@.len());
        reveal_strlit("right_bracket");
        assert("up"@.len() != "right_bracket"@.len());
        reveal_strlit("backslash");
        assert("up"@.len() != "backslash"@.len());
        reveal_strlit("semicolon");
        assert("up"@.len() != "semicolon"@.len());
        reveal_strlit("quote");
        assert("up"@.len() != "quote"@.len());
        reveal_strlit("grave");
        assert("up"@.len() != "grave"@.len());
        reveal_strlit("backtick");
        assert("up"@.len() != "backtick"@.len());
        reveal_strlit("comma");
        assert("up"@.len() != "comma"@.len());
        reveal_strlit("period");
        assert("up"@.len() != "period"@.len());
        reveal_strlit("dot");
        assert("up"@.len() != "dot"@.len());
        reveal_strlit("slash");
        assert("up"@.len() != "slash"@.len());
        reveal_strlit("caps_lock");
        assert("up"@.len() != "caps_lock"@.len());
        reveal_strlit("f1");
        assert("up"@[0] != "f1"@[0]);
        reveal_strlit("f2");
        assert("up"@[0] != "f2"@[0]);
        reveal_strlit("f3");
        assert("up"@[0] != "f3"@[0]);
        reveal_strlit("f4");
        assert("up"@[0] != "f4"@[0]);
        reveal_strlit("f5");
        assert("up"@[0] != "f5"@[0]);
        reveal_strlit("f6");
        assert("up"@[0] != "f6"@[0]);
        reveal_strlit("f7");
        assert("up"@[0] != "f7"@[0]);
        reveal_strlit("f8");
        assert("up"@[0] != "f8"@[0]);
        reveal_strlit("f9");
        assert("up"@[0] != "f9"@[0]);
        reveal_strlit("f10");
        assert("up"@.len() != "f10"@.len());
        reveal_strlit("f11");
        assert("up"@.len() != "f11"@.len());
        reveal_strlit("f12");
        assert("up"@.len() != "f12"@.len());
        reveal_strlit("insert");
        assert("up"@.len() != "insert"@.len());
        reveal_strlit("home");
        assert("up"@.len() != "home"@.len());
        reveal_strlit("page_up");
        assert("up"@.len() != "page_up"@.len());
        reveal_strlit("pageup");
        assert("up"@.len() != "pageup"@.len());
        reveal_strlit("delete");
        assert("up"@.len() != "delete"@.len());
        reveal_strlit("end");
        assert("up"@.len() != "end"@.len());
        reveal_strlit("page_down");
        assert("up"@.len() != "page_down"@.len());
        reveal_strlit("pagedown");
        assert("up"@.len() != "pagedown"@.len());
        reveal_strlit("arrow_right");
        assert("up"@.len() != "arrow_right"@.len());
        reveal_strlit("right");
        assert("up"@.len() != "right"@.len());
        reveal_strlit("arrow_left");
        assert("up"@.len() != "arrow_left"@.len());
        reveal_strlit("left");
        assert("up"@.len() != "left"@.len());
        reveal_strlit("arrow_down");
        assert("up"@.len() != "arrow_down"@.len());
        reveal_strlit("down");
        assert("up"@.len() != "down"@.len());
        reveal_strlit("arrow_up");
        assert("up"@.len() != "arrow_up"@.len());
    }
}

fn named_key_usage_exec(k: &[char]) -> (r: Option<u16>)
    ensures
        r == named_key_usage(k@),
{
    if chars_equal(k, &chars_of("enter")) {
        Some(0x28)
    } else if chars_equal(k, &chars_of("return")) {
        Some(0x28)
    } else if chars_equal(k, &chars_of("escape")) {
        Some(0x29)
    } else if chars_equal(k, &chars_of("esc")) {
        Some(0x29)
    } else if chars_equal(k, &chars_of("backspace")) {
        Some(0x2A)
    } else if chars_equal(k, &chars_of("tab")) {
        Some(0x2B)
    } else if chars_equal(k, &chars_of("space")) {
        Some(0x2C)
    } else if chars_equal(k, &chars_of("minus")) {
        Some(0x2D)
    } else if chars_equal(k, &chars_of("equal")) {
        Some(0x2E)
    } else if chars_equal(k, &chars_of("left_bracket")) {
        Some(0x2F)
    } else if chars_equal(k, &chars_of("right_bracket")) {
        Some(0x30)
    } else if chars_equal(k, &chars_of("backslash")) {
        Some(0x31)
    } else if chars_equal(k, &chars_of("semicolon")) {
        Some(0x33)
    } else if chars_equal(k, &chars_of("quote")) {
        Some(0x34)
    } else if chars_equal(k, &chars_of("grave")) {
        Some(0x35)
    } else if chars_equal(k, &chars_of("backtick")) {
        Some(0x35)
    } else if chars_equal(k, &chars_of("comma")) {
        Some(0x36)
    } else if chars_equal(k, &chars_of("period")) {
        Some(0x37)
    } else if chars_equal(k, &chars_of("dot")) {
        Some(0x37)
    } else if chars_equal(k, &chars_of("slash")) {
        Some(0x38)
    } else if chars_equal(k, &chars_of("caps_lock")) {
        Some(0x39)
    } else if chars_equal(k, &chars_of("f1")) {
        Some(0x3A)
    } else if chars_equal(k, &chars_of("f2")) {
        Some(0x3B)
    } else if chars_equal(k, &chars_of("f3")) {
        Some(0x3C)
    } else if chars_equal(k, &chars_of("f4")) {
        Some(0x3D)
    } else if chars_equal(k, &chars_of("f5")) {
        Some(0x3E)
    } else if chars_equal(k, &chars_of("f6")) {
        Some(0x3F)
    } else if chars_equal(k, &chars_of("f7")) {
        Some(0x40)
    } else if chars_equal(k, &chars_of("f8")) {
        Some(0x41)
    } else if chars_equal(k, &chars_of("f9")) {
        Some(0x42)
    } else if chars_equal(k, &chars_of("f10")) {
        Some(0x43)
    } else if chars_equal(k, &chars_of("f11")) {
        Some(0x44)
    } else if chars_equal(k, &chars_of("f12")) {
        Some(0x45)
    } else if chars_equal(k, &chars_of("insert")) {
        Some(0x49)
    } else if chars_equal(k, &chars_of("home")) {
        Some(0x4A)
    } else if chars_equal(k, &chars_of("page_up")) {
        Some(0x4B)
    } else if chars_equal(k, &chars_of("pageup")) {
        Some(0x4B)
    } else if chars_equal(k, &chars_of("delete")) {
        Some(0x4C)
    } else if chars_equal(k, &chars_of("end")) {
        Some(0x4D)
    } else if chars_equal(k, &chars_of("page_down")) {
        Some(0x4E)
    } else if chars_equal(k, &chars_of("pagedown")) {
        Some(0x4E)
    } else if chars_equal(k, &chars_of("arrow_right")) {
        Some(0x4F)
    } else if chars_equal(k, &chars_of("right")) {
        Some(0x4F)
    } else if chars_equal(k, &chars_of("arrow_left")) {
        Some(0x50)
    } else if chars_equal(k, &chars_of("left")) {
        Some(0x50)
    } else if chars_equal(k, &chars_of("arrow_down")) {
        Some(0x51)
    } else if chars_equal(k, &chars_of("down")) {
        Some(0x51)
    } else if chars_equal(k, &chars_of("arrow_up")) {
        Some(0x52)
    } else if chars_equal(k, &chars_of("up")) {
        Some(0x52)
    } else {
        None
    }
}
/// The HID usage id of a key: letters, digits and the named keys.
pub open spec fn key_usage(k: Seq<char>) -> Option<u16> {
    if k.len() == 1 && 'a' <= k[0] && k[0] <= 'z' {
        Some((0x04 + (k[0] as u32 - 'a' as u32)) as u16)
    } else if k.len() == 1 && '1' <= k[0] && k[0] <= '9' {
        Some((0x1E + (k[0] as u32 - '1' as u32)) as u16)
    } else if k.len() == 1 && k[0] == '0' {
        Some(0x27)
    } else {
        named_key_usage(k)
    }
}

/// The HID usage id of the key named `key`, if it is supported.
pub fn key_to_hid(key: &str) -> (r: Option<u16>)
    ensures
        r == key_usage(normalized_key(key@)),
{
    let k = underscored_exec(&lower_chars(&trim_chars(&chars_of(key))));
    if k.len() == 1 {
        let c = k[0];
        if 'a' <= c && c <= 'z' {
            return Some((0x04 + (c as u32 - 'a' as u32)) as u16);
        }
        if '1' <= c && c <= '9' {
            return Some((0x1E + (c as u32 - '1' as u32)) as u16);
        }
        if c == '0' {
            return Some(0x27);
        }
    }
    named_key_usage_exec(&k)
}

/// The HID usage id of a modifier key.
pub open spec fn modifier_usage(m: Seq<char>) -> Option<u16> {
    if m == "control"@ || m == "ctrl"@ {
        Some(0xE0)
    } else if m == "shift"@ {
        Some(0xE1)
    } else if m == "option"@ || m == "alt"@ {
        Some(0xE2)
    } else if m == "command"@ || m == "cmd"@ || m == "meta"@ || m == "super"@ || m == "win"@ || m
        == "windows"@ {
        Some(0xE3)
    } else {
        None
    }
}

pub open spec fn modifier_result(m: Seq<char>) -> Result<u16, Seq<char>> {
    let name = lower_seq(trim(m));
    match modifier_usage(name) {
        Some(u) => Ok(u),
        None => Err("unsupported modifier key: "@ + name),
    }
}

/// The HID usage id of a modifier, named case-insensitively.
pub fn modifier_to_hid(modifier: &str) -> (r: Result<u16, String>)
    ensures
        match r {
            Ok(u) => modifier_result(modifier@) == Ok::<u16, Seq<char>>(u),
            Err(e) => modifier_result(modifier@) == Err::<u16, Seq<char>>(e@),
        },
{
    let name = lower_chars(&trim_chars(&chars_of(modifier)));
    if chars_equal(&name, &chars_of("control")) || chars_equal(&name, &chars_of("ctrl")) {
        Ok(0xE0)
    } else if chars_equal(&name, &chars_of("shift")) {
        Ok(0xE1)
    } else if chars_equal(&name, &chars_of("option")) || chars_equal(&name, &chars_of("alt")) {
        Ok(0xE2)
    } else if chars_equal(&name, &chars_of("command")) || chars_equal(&name, &chars_of("cmd"))
        || chars_equal(&name, &chars_of("meta")) || chars_equal(&name, &chars_of("super"))
        || chars_equal(&name, &chars_of("win")) || chars_equal(&name, &chars_of("windows")) {
        Ok(0xE3)
    } else {
        let mut message = String::from_str("unsupported modifier key: ");
        push_chars(&mut message, &name);
        Err(message)
    }
}

/// A key press or release.
#[derive(Debug, Clone, Copy, PartialEq, Eq)]
pub struct KeyEvent {
    pub hid_usage: u16,
    pub down: bool,
    pub repeat: bool,
}

pub open spec fn press(u: u16) -> KeyEvent {
    KeyEvent { hid_usage: u, down: true, repeat: false }
}

pub open spec fn release(u: u16) -> KeyEvent {
    KeyEvent { hid_usage: u, down: false, repeat: false }
}

/// The events of a shortcut: the modifiers pressed in order, the key pressed
/// and released, and the modifiers released in reverse order.
pub open spec fn shortcut_events(mods: Seq<u16>, key: u16) -> Seq<KeyEvent> {
    mods.map_values(|u: u16| press(u)) + seq![press(key), release(key)] + mods.reverse().map_values(
        |u: u16| release(u),
    )
}

pub open spec fn modifiers_spec(mods: Seq<Seq<char>>) -> Result<Seq<u16>, Seq<char>>
    decreases mods.len(),
{
    if mods.len() == 0 {
        Ok(Seq::empty())
    } else {
        match modifiers_spec(mods.drop_last()) {
            Err(e) => Err(e),
            Ok(us) => match modifier_result(mods.last()) {
                Err(e) => Err(e),
                Ok(u) => Ok(us.push(u)),
            },
        }
    }
}

pub open spec fn hotkey_spec(mods: Seq<Seq<char>>, key: Seq<char>) -> Result<Seq<KeyEvent>, Seq<char>> {
    match modifiers_spec(mods) {
        Err(e) => Err(e),
        Ok(us) => match key_usage(normalized_key(key)) {
            None => Err("unsupported shortcut key: "@ + key),
            Some(k) => Ok(shortcut_events(us, k)),
        },
    }
}

pub open spec fn names_view(v: Seq<String>) -> Seq<Seq<char>> {
    v.map_values(|s: String| s@)
}

/// The key events that play the shortcut `modifiers` + `key`.
pub fn hotkey_events(modifiers: &[String], key: &str) -> (r: Result<Vec<KeyEvent>, String>)
    ensures
        match r {
            Ok(v) => hotkey_spec(names_view(modifiers@), key@) == Ok::<Seq<KeyEvent>, Seq<char>>(v@),
            Err(e) => hotkey_spec(names_view(modifiers@), key@) == Err::<Seq<KeyEvent>, Seq<char>>(e@),
        },
{
    let ghost mv = names_view(modifiers@);
    let mut usages: Vec<u16> = Vec::new();
    let mut i: usize = 0;
    while i < modifiers.len()
        invariant
            i <= modifiers@.len(),
            mv == names_view(modifiers@),
            modifiers_spec(mv.take(i as int)) == Ok::<Seq<u16>, Seq<char>>(usages@),
        decreases modifiers@.len() - i,
    {
        assert(mv.take(i + 1).drop_last() =~= mv.take(i as int));
        match modifier_to_hid(modifiers[i].as_str()) {
            Ok(u) => usages.push(u),
            Err(e) => {
                proof {
                    lemma_modifiers_error_stays(mv, i + 1, e@);
                }
                return Err(e);
            },
        }
        i = i + 1;
    }
    assert(mv.take(modifiers@.len() as int) =~= mv);
    let k = match key_to_hid(key) {
        Some(k) => k,
        None => {
            let mut message = String::from_str("unsupported shortcut key: ");
            message.append(key);
            return Err(message);
        },
    };
    let mut events: Vec<KeyEvent> = Vec::new();
    let mut j: usize = 0;
    while j < usages.len()
        invariant
            j <= usages@.len(),
            events@ == usages@.take(j as int).map_values(|u: u16| press(u)),
        decreases usages@.len() - j,
    {
        events.push(KeyEvent { hid_usage: usages[j], down: true, repeat: false });
        j = j + 1;
        assert(events@ =~= usages@.take(j as int).map_values(|u: u16| press(u)));
    }
    assert(usages@.take(usages@.len() as int) =~= usages@);
    events.push(KeyEvent { hid_usage: k, down: true, repeat: false });
    events.push(KeyEvent { hid_usage: k, down: false, repeat: false });
    let ghost head = events@;
    let mut m: usize = usages.len();
    while m > 0
        invariant
            m <= usages@.len(),
            events@ == head + usages@.reverse().take(usages@.len() - m).map_values(|u: u16| release(u)),
        decreases m,
    {
        events.push(KeyEvent { hid_usage: usages[m - 1], down: false, repeat: false });
        m = m - 1;
        assert(usages@.reverse()[usages@.len() - m - 1] == usages@[m as int]);
        assert(events@ =~= head + usages@.reverse().take(usages@.len() - m).map_values(|u: u16| release(u)));
    }
    assert(usages@.reverse().take(usages@.len() as int) =~= usages@.reverse());
    assert(events@ =~= shortcut_events(usages@, k));
    Ok(events)
}

proof fn lemma_modifiers_error_stays(mods: Seq<Seq<char>>, i: int, e: Seq<char>)
    requires
        0 <= i <= mods.len(),
        modifiers_spec(mods.take(i)) == Err::<Seq<u16>, Seq<char>>(e),
    ensures
        modifiers_spec(mods) == Err::<Seq<u16>, Seq<char>>(e),
    decreases mods.len() - i,
{
    if i < mods.len() {
        assert(mods.take(i + 1).drop_last() =~= mods.take(i));
        lemma_modifiers_error_stays(mods, i + 1, e);
    } else {
        assert(mods.take(i) =~= mods);
    }
}

/// Every key a shortcut presses is released, in the reverse order: the
/// `i`-th event from the end releases what the `i`-th event pressed.
pub proof fn shortcut_releases_in_reverse(mods: Seq<u16>, key: u16, i: int)
    requires
        0 <= i < mods.len() + 1,
    ensures
        ({
            let ev = shortcut_events(mods, key);
            let n = ev.len();
            &&& n == 2 * mods.len() + 2
            &&& ev[i].down && !ev[n - 1 - i].down
            &&& ev[i].hid_usage == ev[n - 1 - i].hid_usage
        }),
{
    let ev = shortcut_events(mods, key);
    let n = ev.len();
    if i < mods.len() {
        assert(ev[i] == press(mods[i]));
        assert(mods.reverse()[mods.len() - 1 - i] == mods[i]);
        assert(ev[n - 1 - i] == release(mods.reverse()[mods.len() - 1 - i]));
    } else {
        assert(ev[i] == press(key));
        assert(ev[n - 1 - i] == release(key));
    }
}

// ---------------------------------------------------------------------------
// External URLs

pub open spec fn scheme_char_ok(i: int, c: char) -> bool {
    if i == 0 {
        is_ascii_alpha(c)
    } else {
        is_ascii_alnum(c) || c == '+' || c == '-' || c == '.'
    }
}

pub open spec fn first_colon(s: Seq<char>) -> Option<int> {
    if exists|i: int| 0 <= i < s.len() && s[i] == ':' {
        Some(choose|i: int| 0 <= i < s.len() && s[i] == ':' && forall|j: int| 0 <= j < i ==> s[j] != ':')
    } else {
        None
    }
}

/// Why `url` cannot be opened, if it cannot: control characters, no scheme,
/// or a scheme that is not a letter followed by letters, digits, `+`, `-`, `.`.
pub open spec fn url_check(url: Seq<char>) -> Result<(), Seq<char>> {
    if exists|i: int| 0 <= i < url.len() && is_control(url[i]) {
        Err("URL contains invalid control characters"@)
    } else {
        match first_colon(url) {
            None => Err("URL is missing a scheme: "@ + url),
            Some(c) => {
                let scheme = url.take(c);
                if scheme.len() == 0 || exists|i: int| 0 <= i < scheme.len() && !scheme_char_ok(i, #[trigger] scheme[i]) {
                    Err("invalid URL scheme: "@ + scheme)
                } else {
                    Ok(())
                }
            },
        }
    }
}

/// Checks that `url` is a URL with a well-formed scheme and no control characters.
pub fn validate_external_url(url: &str) -> (r: Result<(), String>)
    ensures
        match r {
            Ok(_) => url_check(url@) == Ok::<(), Seq<char>>(()),
            Err(e) => url_check(url@) == Err::<(), Seq<char>>(e@),
        },
{
    let s = chars_of(url);
    let mut i: usize = 0;
    while i < s.len()
        invariant
            i <= s@.len(),
            s@ == url@,
            forall|k: int| 0 <= k < i ==> !is_control(s@[k]),
        decreases s@.len() - i,
    {
        let v = s[i] as u32;
        if v <= 0x1F || (0x7F <= v && v <= 0x9F) {
            assert(is_control(url@[i as int]));
            assert(exists|j: int| 0 <= j < url@.len() && is_control(url@[j]));
            return Err(String::from_str("URL contains invalid control characters"));
        }
        i = i + 1;
    }
    let mut c: usize = 0;
    while c < s.len() && s[c] != ':'
        invariant
            c <= s@.len(),
            forall|k: int| 0 <= k < c ==> s@[k] != ':',
        decreases s@.len() - c,
    {
        c = c + 1;
    }
    if c == s.len() {
        let mut message = String::from_str("URL is missing a scheme: ");
        message.append(url);
        return Err(message);
    }
    proof {
        assert(s@[c as int] == ':');
        let f = first_colon(s@);
        assert(f == Some(c as int)) by {
            let w = choose|w: int| 0 <= w < s@.len() && s@[w] == ':' && forall|j: int| 0 <= j < w ==> s@[j] != ':';
            assert(s@[c as int] == ':');
            if w < c {
                assert(s@[w] != ':');
            }
            if w > c {
                assert(s@[c as int] != ':');
            }
        }
    }
    let mut ok = c > 0;
    let mut k: usize = 0;
    while k < c
        invariant
            k <= c < s@.len(),
            ok == (c > 0 && forall|j: int| 0 <= j < k ==> scheme_char_ok(j, s@[j])),
        decreases c - k,
    {
        let ch = s[k];
        let good = if k == 0 {
            ('a' <= ch && ch <= 'z') || ('A' <= ch && ch <= 'Z')
        } else {
            ('a' <= ch && ch <= 'z') || ('A' <= ch && ch <= 'Z') || ('0' <= ch && ch <= '9') || ch
                == '+' || ch == '-' || ch == '.'
        };
        ok = ok && good;
        k = k + 1;
    }
    if !ok {
        let mut scheme: Vec<char> = Vec::new();
        crate::text::extend_range(&mut scheme, &s, 0, c);
        assert(scheme@ =~= s@.take(c as int));
        let mut message = String::from_str("invalid URL scheme: ");
        push_chars(&mut message, &scheme);
        proof {
            if c > 0 {
                let j = choose|j: int| 0 <= j < c && !scheme_char_ok(j, s@[j]);
                assert(!scheme_char_ok(j, s@.take(c as int)[j]));
            }
        }
        return Err(message);
    }
    proof {
        assert forall|j: int| 0 <= j < s@.take(c as int).len() implies scheme_char_ok(j, #[trigger] s@.take(c as int)[j]) by {
            assert(scheme_char_ok(j, s@[j]));
        }
    }
    Ok(())
}

} // verus!
