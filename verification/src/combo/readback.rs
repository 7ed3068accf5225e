//! Reading back what display writes: the text of a combo parses to the
//! combo itself, for every key the syntax can spell.

use vstd::prelude::*;

use super::key::{spec_key_text, spec_parse_named, Key, NamedKey};
use super::modifiers::{join_plus, modifier_words, spec_modifiers_text};
use super::parse::{combo_tokens, spec_parse_combo, spec_parse_key, spec_parse_modifier, spec_parse_modifiers};
use super::{spec_combo_text, KeyCombo, Modifiers};
use crate::text::{ascii_lower, free_of, is_white_space, lemma_split_append_plain, lemma_split_nonempty, lower_seq, split_spec, trim_end, trim_spec, trim_start};

verus! {

/// A character the names of the syntax are made of.
pub open spec fn plain_char(c: char) -> bool {
    ('a' <= c && c <= 'z') || ('0' <= c && c <= '9')
}

/// A name made only of lowercase ASCII letters and digits.
pub open spec fn plain_word(w: Seq<char>) -> bool {
    w.len() > 0 && forall|i: int| 0 <= i < w.len() ==> plain_char(#[trigger] w[i])
}

/// A key whose text the parser reads back as the same key: a named key,
/// or a character other than `+`, whitespace or an ASCII capital.
pub open spec fn spellable(k: Key) -> bool {
    match k {
        Key::Named(_) => true,
        Key::Char(c) => c != '+' && !is_white_space(c) && ascii_lower(c) == c,
        Key::Virtual(_) => false,
    }
}

proof fn lemma_name_space()
    ensures
        plain_word(NamedKey::Space.spec_name()),
        NamedKey::Space.spec_name().len() >= 2,
        spec_parse_named(NamedKey::Space.spec_name()) == Some(NamedKey::Space),
{
    reveal_strlit("space");
    assert("space"@.len() == 5);
    assert(plain_char("space"@[0]));
    assert(plain_char("space"@[1]));
    assert(plain_char("space"@[2]));
    assert(plain_char("space"@[3]));
    assert(plain_char("space"@[4]));
}
proof fn lemma_name_return()
    ensures
        plain_word(NamedKey::Return.spec_name()),
        NamedKey::Return.spec_name().len() >= 2,
        spec_parse_named(NamedKey::Return.spec_name()) == Some(NamedKey::Return),
{
    reveal_strlit("space");
    assert("space"@.len() == 5);
    reveal_strlit("return");
    assert("return"@.len() == 6);
    assert(plain_char("return"@[0]));
    assert(plain_char("return"@[1]));
    assert(plain_char("return"@[2]));
    assert(plain_char("return"@[3]));
    assert(plain_char("return"@[4]));
    assert(plain_char("return"@[5]));
}
proof fn lemma_name_tab()
    ensures
        plain_word(NamedKey::Tab.spec_name()),
        NamedKey::Tab.spec_name().len() >= 2,
        spec_parse_named(NamedKey::Tab.spec_name()) == Some(NamedKey::Tab),
{
    reveal_strlit("space");
    assert("space"@.len() == 5);
    reveal_strlit("return");
    assert("return"@.len() == 6);
    reveal_strlit("enter");
    assert("enter"@.len() == 5);
    reveal_strlit("tab");
    assert("tab"@.len() == 3);
    assert(plain_char("tab"@[0]));
    assert(plain_char("tab"@[1]));
    assert(plain_char("tab"@[2]));
}
proof fn lemma_name_escape()
    ensures
        plain_word(NamedKey::Escape.spec_name()),
        NamedKey::Escape.spec_name().len() >= 2,
        spec_parse_named(NamedKey::Escape.spec_name()) == Some(NamedKey::Escape),
{
    reveal_strlit("space");
    assert("space"@.len() == 5);
    reveal_strlit("return");
    assert("return"@.len() == 6);
    reveal_strlit("enter");
    assert("enter"@.len() == 5);
    reveal_strlit("tab");
    assert("tab"@.len() == 3);
    reveal_strlit("escape");
    assert("escape"@.len() == 6);
    assert(plain_char("escape"@[0]));
    assert(plain_char("escape"@[1]));
    assert(plain_char("escape"@[2]));
    assert(plain_char("escape"@[3]));
    assert(plain_char("escape"@[4]));
    assert(plain_char("escape"@[5]));
}
proof fn lemma_name_delete()
    ensures
        plain_word(NamedKey::Delete.spec_name()),
        NamedKey::Delete.spec_name().len() >= 2,
        spec_parse_named(NamedKey::Delete.spec_name()) == Some(NamedKey::Delete),
{
    reveal_strlit("space");
    assert("space"@.len() == 5);
    reveal_strlit("return");
    assert("return"@.len() == 6);
    reveal_strlit("enter");
    assert("enter"@.len() == 5);
    reveal_strlit("tab");
    assert("tab"@.len() == 3);
    reveal_strlit("escape");
    assert("escape"@.len() == 6);
    reveal_strlit("esc");
    assert("esc"@.len() == 3);
    reveal_strlit("delete");
    assert("delete"@.len() == 6);
    assert(plain_char("delete"@[0]));
    assert(plain_char("delete"@[1]));
    assert(plain_char("delete"@[2]));
    assert(plain_char("delete"@[3]));
    assert(plain_char("delete"@[4]));
    assert(plain_char("delete"@[5]));
}
proof fn lemma_name_backspace()
    ensures
        plain_word(NamedKey::Backspace.spec_name()),
        NamedKey::Backspace.spec_name().len() >= 2,
        spec_parse_named(NamedKey::Backspace.spec_name()) == Some(NamedKey::Backspace),
{
    reveal_strlit("space");
    assert("space"@.len() == 5);
    reveal_strlit("return");
    assert("return"@.len() == 6);
    reveal_strlit("enter");
    assert("enter"@.len() == 5);
    reveal_strlit("tab");
    assert("tab"@.len() == 3);
    reveal_strlit("escape");
    assert("escape"@.len() == 6);
    reveal_strlit("esc");
    assert("esc"@.len() == 3);
    reveal_strlit("delete");
    assert("delete"@.len() == 6);
    reveal_strlit("del");
    assert("del"@.len() == 3);
    reveal_strlit("backspace");
    assert("backspace"@.len() == 9);
    assert(plain_char("backspace"@[0]));
    assert(plain_char("backspace"@[1]));
    assert(plain_char("backspace"@[2]));
    assert(plain_char("backspace"@[3]));
    assert(plain_char("backspace"@[4]));
    assert(plain_char("backspace"@[5]));
    assert(plain_char("backspace"@[6]));
    assert(plain_char("backspace"@[7]));
    assert(plain_char("backspace"@[8]));
}
proof fn lemma_name_help()
    ensures
        plain_word(NamedKey::Help.spec_name()),
        NamedKey::Help.spec_name().len() >= 2,
        spec_parse_named(NamedKey::Help.spec_name()) == Some(NamedKey::Help),
{
    reveal_strlit("space");
    assert("space"@.len() == 5);
    reveal_strlit("return");
    assert("return"@.len() == 6);
    reveal_strlit("enter");
    assert("enter"@.len() == 5);
    reveal_strlit("tab");
    assert("tab"@.len() == 3);
    reveal_strlit("escape");
    assert("escape"@.len() == 6);
    reveal_strlit("esc");
    assert("esc"@.len() == 3);
    reveal_strlit("delete");
    assert("delete"@.len() == 6);
    reveal_strlit("del");
    assert("del"@.len() == 3);
    reveal_strlit("backspace");
    assert("backspace"@.len() == 9);
    reveal_strlit("help");
    assert("help"@.len() == 4);
    assert(plain_char("help"@[0]));
    assert(plain_char("help"@[1]));
    assert(plain_char("help"@[2]));
    assert(plain_char("help"@[3]));
}
proof fn lemma_name_insert()
    ensures
        plain_word(NamedKey::Insert.spec_name()),
        NamedKey::Insert.spec_name().len() >= 2,
        spec_parse_named(NamedKey::Insert.spec_name()) == Some(NamedKey::Insert),
{
    reveal_strlit("space");
    assert("space"@.len() == 5);
    reveal_strlit("return");
    assert("return"@.len() == 6);
    reveal_strlit("enter");
    assert("enter"@.len() == 5);
    reveal_strlit("tab");
    assert("tab"@.len() == 3);
    reveal_strlit("escape");
    assert("escape"@.len() == 6);
    reveal_strlit("esc");
    assert("esc"@.len() == 3);
    reveal_strlit("delete");
    assert("delete"@.len() == 6);
    reveal_strlit("del");
    assert("del"@.len() == 3);
    reveal_strlit("backspace");
    assert("backspace"@.len() == 9);
    reveal_strlit("help");
    assert("help"@.len() == 4);
    reveal_strlit("insert");
    assert("insert"@.len() == 6);
    assert(plain_char("insert"@[0]));
    assert(plain_char("insert"@[1]));
    assert(plain_char("insert"@[2]));
    assert(plain_char("insert"@[3]));
    assert(plain_char("insert"@[4]));
    assert(plain_char("insert"@[5]));
}
proof fn lemma_name_f1()
    ensures
        plain_word(NamedKey::F1.spec_name()),
        NamedKey::F1.spec_name().len() >= 2,
        spec_parse_named(NamedKey::F1.spec_name()) == Some(NamedKey::F1),
{
    reveal_strlit("space");
    assert("space"@.len() == 5);
    reveal_strlit("return");
    assert("return"@.len() == 6);
    reveal_strlit("enter");
    assert("enter"@.len() == 5);
    reveal_strlit("tab");
    assert("tab"@.len() == 3);
    reveal_strlit("escape");
    assert("escape"@.len() == 6);
    reveal_strlit("esc");
    assert("esc"@.len() == 3);
    reveal_strlit("delete");
    assert("delete"@.len() == 6);
    reveal_strlit("del");
    assert("del"@.len() == 3);
    reveal_strlit("backspace");
    assert("backspace"@.len() == 9);
    reveal_strlit("help");
    assert("help"@.len() == 4);
    reveal_strlit("insert");
    assert("insert"@.len() == 6);
    reveal_strlit("ins");
    assert("ins"@.len() == 3);
    reveal_strlit("f1");
    assert("f1"@.len() == 2);
    assert(plain_char("f1"@[0]));
    assert(plain_char("f1"@[1]));
}
proof fn lemma_name_f2()
    ensures
        plain_word(NamedKey::F2.spec_name()),
        NamedKey::F2.spec_name().len() >= 2,
        spec_parse_named(NamedKey::F2.spec_name()) == Some(NamedKey::F2),
{
    reveal_strlit("space");
    assert("space"@.len() == 5);
    reveal_strlit("return");
    assert("return"@.len() == 6);
    reveal_strlit("enter");
    assert("enter"@.len() == 5);
    reveal_strlit("tab");
    assert("tab"@.len() == 3);
    reveal_strlit("escape");
    assert("escape"@.len() == 6);
    reveal_strlit("esc");
    assert("esc"@.len() == 3);
    reveal_strlit("delete");
    assert("delete"@.len() == 6);
    reveal_strlit("del");
    assert("del"@.len() == 3);
    reveal_strlit("backspace");
    assert("backspace"@.len() == 9);
    reveal_strlit("help");
    assert("help"@.len() == 4);
    reveal_strlit("insert");
    assert("insert"@.len() == 6);
    reveal_strlit("ins");
    assert("ins"@.len() == 3);
    reveal_strlit("f1");
    assert("f1"@.len() == 2);
    reveal_strlit("f2");
    assert("f2"@.len() == 2);
    assert(plain_char("f2"@[0]));
    assert(plain_char("f2"@[1]));
}
proof fn lemma_name_f3()
    ensures
        plain_word(NamedKey::F3.spec_name()),
        NamedKey::F3.spec_name().len() >= 2,
        spec_parse_named(NamedKey::F3.spec_name()) == Some(NamedKey::F3),
{
    reveal_strlit("space");
    assert("space"@.len() == 5);
    reveal_strlit("return");
    assert("return"@.len() == 6);
    reveal_strlit("enter");
    assert("enter"@.len() == 5);
    reveal_strlit("tab");
    assert("tab"@.len() == 3);
    reveal_strlit("escape");
    assert("escape"@.len() == 6);
    reveal_strlit("esc");
    assert("esc"@.len() == 3);
    reveal_strlit("delete");
    assert("delete"@.len() == 6);
    reveal_strlit("del");
    assert("del"@.len() == 3);
    reveal_strlit("backspace");
    assert("backspace"@.len() == 9);
    reveal_strlit("help");
    assert("help"@.len() == 4);
    reveal_strlit("insert");
    assert("insert"@.len() == 6);
    reveal_strlit("ins");
    assert("ins"@.len() == 3);
    reveal_strlit("f1");
    assert("f1"@.len() == 2);
    reveal_strlit("f2");
    assert("f2"@.len() == 2);
    reveal_strlit("f3");
    assert("f3"@.len() == 2);
    assert(plain_char("f3"@[0]));
    assert(plain_char("f3"@[1]));
}
proof fn lemma_name_f4()
    ensures
        plain_word(NamedKey::F4.spec_name()),
        NamedKey::F4.spec_name().len() >= 2,
        spec_parse_named(NamedKey::F4.spec_name()) == Some(NamedKey::F4),
{
    reveal_strlit("space");
    assert("space"@.len() == 5);
    reveal_strlit("return");
    assert("return"@.len() == 6);
    reveal_strlit("enter");
    assert("enter"@.len() == 5);
    reveal_strlit("tab");
    assert("tab"@.len() == 3);
    reveal_strlit("escape");
    assert("escape"@.len() == 6);
    reveal_strlit("esc");
    assert("esc"@.len() == 3);
    reveal_strlit("delete");
    assert("delete"@.len() == 6);
    reveal_strlit("del");
    assert("del"@.len() == 3);
    reveal_strlit("backspace");
    assert("backspace"@.len() == 9);
    reveal_strlit("help");
    assert("help"@.len() == 4);
    reveal_strlit("insert");
    assert("insert"@.len() == 6);
    reveal_strlit("ins");
    assert("ins"@.len() == 3);
    reveal_strlit("f1");
    assert("f1"@.len() == 2);
    reveal_strlit("f2");
    assert("f2"@.len() == 2);
    reveal_strlit("f3");
    assert("f3"@.len() == 2);
    reveal_strlit("f4");
    assert("f4"@.len() == 2);
    assert(plain_char("f4"@[0]));
    assert(plain_char("f4"@[1]));
}
proof fn lemma_name_f5()
    ensures
        plain_word(NamedKey::F5.spec_name()),
        NamedKey::F5.spec_name().len() >= 2,
        spec_parse_named(NamedKey::F5.spec_name()) == Some(NamedKey::F5),
{
    reveal_strlit("space");
    assert("space"@.len() == 5);
    reveal_strlit("return");
    assert("return"@.len() == 6);
    reveal_strlit("enter");
    assert("enter"@.len() == 5);
    reveal_strlit("tab");
    assert("tab"@.len() == 3);
    reveal_strlit("escape");
    assert("escape"@.len() == 6);
    reveal_strlit("esc");
    assert("esc"@.len() == 3);
    reveal_strlit("delete");
    assert("delete"@.len() == 6);
    reveal_strlit("del");
    assert("del"@.len() == 3);
    reveal_strlit("backspace");
    assert("backspace"@.len() == 9);
    reveal_strlit("help");
    assert("help"@.len() == 4);
    reveal_strlit("insert");
    assert("insert"@.len() == 6);
    reveal_strlit("ins");
    assert("ins"@.len() == 3);
    reveal_strlit("f1");
    assert("f1"@.len() == 2);
    reveal_strlit("f2");
    assert("f2"@.len() == 2);
    reveal_strlit("f3");
    assert("f3"@.len() == 2);
    reveal_strlit("f4");
    assert("f4"@.len() == 2);
    reveal_strlit("f5");
    assert("f5"@.len() == 2);
    assert(plain_char("f5"@[0]));
    assert(plain_char("f5"@[1]));
}
proof fn lemma_name_f6()
    ensures
        plain_word(NamedKey::F6.spec_name()),
        NamedKey::F6.spec_name().len() >= 2,
        spec_parse_named(NamedKey::F6.spec_name()) == Some(NamedKey::F6),
{
    reveal_strlit("space");
    assert("space"@.len() == 5);
    reveal_strlit("return");
    assert("return"@.len() == 6);
    reveal_strlit("enter");
    assert("enter"@.len() == 5);
    reveal_strlit("tab");
    assert("tab"@.len() == 3);
    reveal_strlit("escape");
    assert("escape"@.len() == 6);
    reveal_strlit("esc");
    assert("esc"@.len() == 3);
    reveal_strlit("delete");
    assert("delete"@.len() == 6);
    reveal_strlit("del");
    assert("del"@.len() == 3);
    reveal_strlit("backspace");
    assert("backspace"@.len() == 9);
    reveal_strlit("help");
    assert("help"@.len() == 4);
    reveal_strlit("insert");
    assert("insert"@.len() == 6);
    reveal_strlit("ins");
    assert("ins"@.len() == 3);
    reveal_strlit("f1");
    assert("f1"@.len() == 2);
    reveal_strlit("f2");
    assert("f2"@.len() == 2);
    reveal_strlit("f3");
    assert("f3"@.len() == 2);
    reveal_strlit("f4");
    assert("f4"@.len() == 2);
    reveal_strlit("f5");
    assert("f5"@.len() == 2);
    reveal_strlit("f6");
    assert("f6"@.len() == 2);
    assert(plain_char("f6"@[0]));
    assert(plain_char("f6"@[1]));
}
proof fn lemma_name_f7()
    ensures
        plain_word(NamedKey::F7.spec_name()),
        NamedKey::F7.spec_name().len() >= 2,
        spec_parse_named(NamedKey::F7.spec_name()) == Some(NamedKey::F7),
{
    reveal_strlit("space");
    assert("space"@.len() == 5);
    reveal_strlit("return");
    assert("return"@.len() == 6);
    reveal_strlit("enter");
    assert("enter"@.len() == 5);
    reveal_strlit("tab");
    assert("tab"@.len() == 3);
    reveal_strlit("escape");
    assert("escape"@.len() == 6);
    reveal_strlit("esc");
    assert("esc"@.len() == 3);
    reveal_strlit("delete");
    assert("delete"@.len() == 6);
    reveal_strlit("del");
    assert("del"@.len() == 3);
    reveal_strlit("backspace");
    assert("backspace"@.len() == 9);
    reveal_strlit("help");
    assert("help"@.len() == 4);
    reveal_strlit("insert");
    assert("insert"@.len() == 6);
    reveal_strlit("ins");
    assert("ins"@.len() == 3);
    reveal_strlit("f1");
    assert("f1"@.len() == 2);
    reveal_strlit("f2");
    assert("f2"@.len() == 2);
    reveal_strlit("f3");
    assert("f3"@.len() == 2);
    reveal_strlit("f4");
    assert("f4"@.len() == 2);
    reveal_strlit("f5");
    assert("f5"@.len() == 2);
    reveal_strlit("f6");
    assert("f6"@.len() == 2);
    reveal_strlit("f7");
    assert("f7"@.len() == 2);
    assert(plain_char("f7"@[0]));
    assert(plain_char("f7"@[1]));
}
proof fn lemma_name_f8()
    ensures
        plain_word(NamedKey::F8.spec_name()),
        NamedKey::F8.spec_name().len() >= 2,
        spec_parse_named(NamedKey::F8.spec_name()) == Some(NamedKey::F8),
{
    reveal_strlit("space");
    assert("space"@.len() == 5);
    reveal_strlit("return");
    assert("return"@.len() == 6);
    reveal_strlit("enter");
    assert("enter"@.len() == 5);
    reveal_strlit("tab");
    assert("tab"@.len() == 3);
    reveal_strlit("escape");
    assert("escape"@.len() == 6);
    reveal_strlit("esc");
    assert("esc"@.len() == 3);
    reveal_strlit("delete");
    assert("delete"@.len() == 6);
    reveal_strlit("del");
    assert("del"@.len() == 3);
    reveal_strlit("backspace");
    assert("backspace"@.len() == 9);
    reveal_strlit("help");
    assert("help"@.len() == 4);
    reveal_strlit("insert");
    assert("insert"@.len() == 6);
    reveal_strlit("ins");
    assert("ins"@.len() == 3);
    reveal_strlit("f1");
    assert("f1"@.len() == 2);
    reveal_strlit("f2");
    assert("f2"@.len() == 2);
    reveal_strlit("f3");
    assert("f3"@.len() == 2);
    reveal_strlit("f4");
    assert("f4"@.len() == 2);
    reveal_strlit("f5");
    assert("f5"@.len() == 2);
    reveal_strlit("f6");
    assert("f6"@.len() == 2);
    reveal_strlit("f7");
    assert("f7"@.len() == 2);
    reveal_strlit("f8");
    assert("f8"@.len() == 2);
    assert(plain_char("f8"@[0]));
    assert(plain_char("f8"@[1]));
}
proof fn lemma_name_f9()
    ensures
        plain_word(NamedKey::F9.spec_name()),
        NamedKey::F9.spec_name().len() >= 2,
        spec_parse_named(NamedKey::F9.spec_name()) == Some(NamedKey::F9),
{
    reveal_strlit("space");
    assert("space"@.len() == 5);
    reveal_strlit("return");
    assert("return"@.len() == 6);
    reveal_strlit("enter");
    assert("enter"@.len() == 5);
    reveal_strlit("tab");
    assert("tab"@.len() == 3);
    reveal_strlit("escape");
    assert("escape"@.len() == 6);
    reveal_strlit("esc");
    assert("esc"@.len() == 3);
    reveal_strlit("delete");
    assert("delete"@.len() == 6);
    reveal_strlit("del");
    assert("del"@.len() == 3);
    reveal_strlit("backspace");
    assert("backspace"@.len() == 9);
    reveal_strlit("help");
    assert("help"@.len() == 4);
    reveal_strlit("insert");
    assert("insert"@.len() == 6);
    reveal_strlit("ins");
    assert("ins"@.len() == 3);
    reveal_strlit("f1");
    assert("f1"@.len() == 2);
    reveal_strlit("f2");
    assert("f2"@.len() == 2);
    reveal_strlit("f3");
    assert("f3"@.len() == 2);
    reveal_strlit("f4");
    assert("f4"@.len() == 2);
    reveal_strlit("f5");
    assert("f5"@.len() == 2);
    reveal_strlit("f6");
    assert("f6"@.len() == 2);
    reveal_strlit("f7");
    assert("f7"@.len() == 2);
    reveal_strlit("f8");
    assert("f8"@.len() == 2);
    reveal_strlit("f9");
    assert("f9"@.len() == 2);
    assert(plain_char("f9"@[0]));
    assert(plain_char("f9"@[1]));
}
proof fn lemma_name_f10()
    ensures
        plain_word(NamedKey::F10.spec_name()),
        NamedKey::F10.spec_name().len() >= 2,
        spec_parse_named(NamedKey::F10.spec_name()) == Some(NamedKey::F10),
{
    reveal_strlit("space");
    assert("space"@.len() == 5);
    reveal_strlit("return");
    assert("return"@.len() == 6);
    reveal_strlit("enter");
    assert("enter"@.len() == 5);
    reveal_strlit("tab");
    assert("tab"@.len() == 3);
    reveal_strlit("escape");
    assert("escape"@.len() == 6);
    reveal_strlit("esc");
    assert("esc"@.len() == 3);
    reveal_strlit("delete");
    assert("delete"@.len() == 6);
    reveal_strlit("del");
    assert("del"@.len() == 3);
    reveal_strlit("backspace");
    assert("backspace"@.len() == 9);
    reveal_strlit("help");
    assert("help"@.len() == 4);
    reveal_strlit("insert");
    assert("insert"@.len() == 6);
    reveal_strlit("ins");
    assert("ins"@.len() == 3);
    reveal_strlit("f1");
    assert("f1"@.len() == 2);
    reveal_strlit("f2");
    assert("f2"@.len() == 2);
    reveal_strlit("f3");
    assert("f3"@.len() == 2);
    reveal_strlit("f4");
    assert("f4"@.len() == 2);
    reveal_strlit("f5");
    assert("f5"@.len() == 2);
    reveal_strlit("f6");
    assert("f6"@.len() == 2);
    reveal_strlit("f7");
    assert("f7"@.len() == 2);
    reveal_strlit("f8");
    assert("f8"@.len() == 2);
    reveal_strlit("f9");
    assert("f9"@.len() == 2);
    reveal_strlit("f10");
    assert("f10"@.len() == 3);
    assert(plain_char("f10"@[0]));
    assert(plain_char("f10"@[1]));
    assert(plain_char("f10"@[2]));
}
proof fn lemma_name_f11()
    ensures
        plain_word(NamedKey::F11.spec_name()),
        NamedKey::F11.spec_name().len() >= 2,
        spec_parse_named(NamedKey::F11.spec_name()) == Some(NamedKey::F11),
{
    reveal_strlit("space");
    assert("space"@.len() == 5);
    reveal_strlit("return");
    assert("return"@.len() == 6);
    reveal_strlit("enter");
    assert("enter"@.len() == 5);
    reveal_strlit("tab");
    assert("tab"@.len() == 3);
    reveal_strlit("escape");
    assert("escape"@.len() == 6);
    reveal_strlit("esc");
    assert("esc"@.len() == 3);
    reveal_strlit("delete");
    assert("delete"@.len() == 6);
    reveal_strlit("del");
    assert("del"@.len() == 3);
    reveal_strlit("backspace");
    assert("backspace"@.len() == 9);
    reveal_strlit("help");
    assert("help"@.len() == 4);
    reveal_strlit("insert");
    assert("insert"@.len() == 6);
    reveal_strlit("ins");
    assert("ins"@.len() == 3);
    reveal_strlit("f1");
    assert("f1"@.len() == 2);
    reveal_strlit("f2");
    assert("f2"@.len() == 2);
    reveal_strlit("f3");
    assert("f3"@.len() == 2);
    reveal_strlit("f4");
    assert("f4"@.len() == 2);
    reveal_strlit("f5");
    assert("f5"@.len() == 2);
    reveal_strlit("f6");
    assert("f6"@.len() == 2);
    reveal_strlit("f7");
    assert("f7"@.len() == 2);
    reveal_strlit("f8");
    assert("f8"@.len() == 2);
    reveal_strlit("f9");
    assert("f9"@.len() == 2);
    reveal_strlit("f10");
    assert("f10"@.len() == 3);
    reveal_strlit("f11");
    assert("f11"@.len() == 3);
    assert(plain_char("f11"@[0]));
    assert(plain_char("f11"@[1]));
    assert(plain_char("f11"@[2]));
}
proof fn lemma_name_f12()
    ensures
        plain_word(NamedKey::F12.spec_name()),
        NamedKey::F12.spec_name().len() >= 2,
        spec_parse_named(NamedKey::F12.spec_name()) == Some(NamedKey::F12),
{
    reveal_strlit("space");
    assert("space"@.len() == 5);
    reveal_strlit("return");
    assert("return"@.len() == 6);
    reveal_strlit("enter");
    assert("enter"@.len() == 5);
    reveal_strlit("tab");
    assert("tab"@.len() == 3);
    reveal_strlit("escape");
    assert("escape"@.len() == 6);
    reveal_strlit("esc");
    assert("esc"@.len() == 3);
    reveal_strlit("delete");
    assert("delete"@.len() == 6);
    reveal_strlit("del");
    assert("del"@.len() == 3);
    reveal_strlit("backspace");
    assert("backspace"@.len() == 9);
    reveal_strlit("help");
    assert("help"@.len() == 4);
    reveal_strlit("insert");
    assert("insert"@.len() == 6);
    reveal_strlit("ins");
    assert("ins"@.len() == 3);
    reveal_strlit("f1");
    assert("f1"@.len() == 2);
    reveal_strlit("f2");
    assert("f2"@.len() == 2);
    reveal_strlit("f3");
    assert("f3"@.len() == 2);
    reveal_strlit("f4");
    assert("f4"@.len() == 2);
    reveal_strlit("f5");
    assert("f5"@.len() == 2);
    reveal_strlit("f6");
    assert("f6"@.len() == 2);
    reveal_strlit("f7");
    assert("f7"@.len() == 2);
    reveal_strlit("f8");
    assert("f8"@.len() == 2);
    reveal_strlit("f9");
    assert("f9"@.len() == 2);
    reveal_strlit("f10");
    assert("f10"@.len() == 3);
    reveal_strlit("f11");
    assert("f11"@.len() == 3);
    reveal_strlit("f12");
    assert("f12"@.len() == 3);
    assert(plain_char("f12"@[0]));
    assert(plain_char("f12"@[1]));
    assert(plain_char("f12"@[2]));
}
proof fn lemma_name_f13()
    ensures
        plain_word(NamedKey::F13.spec_name()),
        NamedKey::F13.spec_name().len() >= 2,
        spec_parse_named(NamedKey::F13.spec_name()) == Some(NamedKey::F13),
{
    reveal_strlit("space");
    assert("space"@.len() == 5);
    reveal_strlit("return");
    assert("return"@.len() == 6);
    reveal_strlit("enter");
    assert("enter"@.len() == 5);
    reveal_strlit("tab");
    assert("tab"@.len() == 3);
    reveal_strlit("escape");
    assert("escape"@.len() == 6);
    reveal_strlit("esc");
    assert("esc"@.len() == 3);
    reveal_strlit("delete");
    assert("delete"@.len() == 6);
    reveal_strlit("del");
    assert("del"@.len() == 3);
    reveal_strlit("backspace");
    assert("backspace"@.len() == 9);
    reveal_strlit("help");
    assert("help"@.len() == 4);
    reveal_strlit("insert");
    assert("insert"@.len() == 6);
    reveal_strlit("ins");
    assert("ins"@.len() == 3);
    reveal_strlit("f1");
    assert("f1"@.len() == 2);
    reveal_strlit("f2");
    assert("f2"@.len() == 2);
    reveal_strlit("f3");
    assert("f3"@.len() == 2);
    reveal_strlit("f4");
    assert("f4"@.len() == 2);
    reveal_strlit("f5");
    assert("f5"@.len() == 2);
    reveal_strlit("f6");
    assert("f6"@.len() == 2);
    reveal_strlit("f7");
    assert("f7"@.len() == 2);
    reveal_strlit("f8");
    assert("f8"@.len() == 2);
    reveal_strlit("f9");
    assert("f9"@.len() == 2);
    reveal_strlit("f10");
    assert("f10"@.len() == 3);
    reveal_strlit("f11");
    assert("f11"@.len() == 3);
    reveal_strlit("f12");
    assert("f12"@.len() == 3);
    reveal_strlit("f13");
    assert("f13"@.len() == 3);
    assert(plain_char("f13"@[0]));
    assert(plain_char("f13"@[1]));
    assert(plain_char("f13"@[2]));
}
proof fn lemma_name_f14()
    ensures
        plain_word(NamedKey::F14.spec_name()),
        NamedKey::F14.spec_name().len() >= 2,
        spec_parse_named(NamedKey::F14.spec_name()) == Some(NamedKey::F14),
{
    reveal_strlit("space");
    assert("space"@.len() == 5);
    reveal_strlit("return");
    assert("return"@.len() == 6);
    reveal_strlit("enter");
    assert("enter"@.len() == 5);
    reveal_strlit("tab");
    assert("tab"@.len() == 3);
    reveal_strlit("escape");
    assert("escape"@.len() == 6);
    reveal_strlit("esc");
    assert("esc"@.len() == 3);
    reveal_strlit("delete");
    assert("delete"@.len() == 6);
    reveal_strlit("del");
    assert("del"@.len() == 3);
    reveal_strlit("backspace");
    assert("backspace"@.len() == 9);
    reveal_strlit("help");
    assert("help"@.len() == 4);
    reveal_strlit("insert");
    assert("insert"@.len() == 6);
    reveal_strlit("ins");
    assert("ins"@.len() == 3);
    reveal_strlit("f1");
    assert("f1"@.len() == 2);
    reveal_strlit("f2");
    assert("f2"@.len() == 2);
    reveal_strlit("f3");
    assert("f3"@.len() == 2);
    reveal_strlit("f4");
    assert("f4"@.len() == 2);
    reveal_strlit("f5");
    assert("f5"@.len() == 2);
    reveal_strlit("f6");
    assert("f6"@.len() == 2);
    reveal_strlit("f7");
    assert("f7"@.len() == 2);
    reveal_strlit("f8");
    assert("f8"@.len() == 2);
    reveal_strlit("f9");
    assert("f9"@.len() == 2);
    reveal_strlit("f10");
    assert("f10"@.len() == 3);
    reveal_strlit("f11");
    assert("f11"@.len() == 3);
    reveal_strlit("f12");
    assert("f12"@.len() == 3);
    reveal_strlit("f13");
    assert("f13"@.len() == 3);
    reveal_strlit("f14");
    assert("f14"@.len() == 3);
    assert(plain_char("f14"@[0]));
    assert(plain_char("f14"@[1]));
    assert(plain_char("f14"@[2]));
}
proof fn lemma_name_f15()
    ensures
        plain_word(NamedKey::F15.spec_name()),
        NamedKey::F15.spec_name().len() >= 2,
        spec_parse_named(NamedKey::F15.spec_name()) == Some(NamedKey::F15),
{
    reveal_strlit("space");
    assert("space"@.len() == 5);
    reveal_strlit("return");
    assert("return"@.len() == 6);
    reveal_strlit("enter");
    assert("enter"@.len() == 5);
    reveal_strlit("tab");
    assert("tab"@.len() == 3);
    reveal_strlit("escape");
    assert("escape"@.len() == 6);
    reveal_strlit("esc");
    assert("esc"@.len() == 3);
    reveal_strlit("delete");
    assert("delete"@.len() == 6);
    reveal_strlit("del");
    assert("del"@.len() == 3);
    reveal_strlit("backspace");
    assert("backspace"@.len() == 9);
    reveal_strlit("help");
    assert("help"@.len() == 4);
    reveal_strlit("insert");
    assert("insert"@.len() == 6);
    reveal_strlit("ins");
    assert("ins"@.len() == 3);
    reveal_strlit("f1");
    assert("f1"@.len() == 2);
    reveal_strlit("f2");
    assert("f2"@.len() == 2);
    reveal_strlit("f3");
    assert("f3"@.len() == 2);
    reveal_strlit("f4");
    assert("f4"@.len() == 2);
    reveal_strlit("f5");
    assert("f5"@.len() == 2);
    reveal_strlit("f6");
    assert("f6"@.len() == 2);
    reveal_strlit("f7");
    assert("f7"@.len() == 2);
    reveal_strlit("f8");
    assert("f8"@.len() == 2);
    reveal_strlit("f9");
    assert("f9"@.len() == 2);
    reveal_strlit("f10");
    assert("f10"@.len() == 3);
    reveal_strlit("f11");
    assert("f11"@.len() == 3);
    reveal_strlit("f12");
    assert("f12"@.len() == 3);
    reveal_strlit("f13");
    assert("f13"@.len() == 3);
    reveal_strlit("f14");
    assert("f14"@.len() == 3);
    reveal_strlit("f15");
    assert("f15"@.len() == 3);
    assert(plain_char("f15"@[0]));
    assert(plain_char("f15"@[1]));
    assert(plain_char("f15"@[2]));
}
proof fn lemma_name_f16()
    ensures
        plain_word(NamedKey::F16.spec_name()),
        NamedKey::F16.spec_name().len() >= 2,
        spec_parse_named(NamedKey::F16.spec_name()) == Some(NamedKey::F16),
{
    reveal_strlit("space");
    assert("space"@.len() == 5);
    reveal_strlit("return");
    assert("return"@.len() == 6);
    reveal_strlit("enter");
    assert("enter"@.len() == 5);
    reveal_strlit("tab");
    assert("tab"@.len() == 3);
    reveal_strlit("escape");
    assert("escape"@.len() == 6);
    reveal_strlit("esc");
    assert("esc"@.len() == 3);
    reveal_strlit("delete");
    assert("delete"@.len() == 6);
    reveal_strlit("del");
    assert("del"@.len() == 3);
    reveal_strlit("backspace");
    assert("backspace"@.len() == 9);
    reveal_strlit("help");
    assert("help"@.len() == 4);
    reveal_strlit("insert");
    assert("insert"@.len() == 6);
    reveal_strlit("ins");
    assert("ins"@.len() == 3);
    reveal_strlit("f1");
    assert("f1"@.len() == 2);
    reveal_strlit("f2");
    assert("f2"@.len() == 2);
    reveal_strlit("f3");
    assert("f3"@.len() == 2);
    reveal_strlit("f4");
    assert("f4"@.len() == 2);
    reveal_strlit("f5");
    assert("f5"@.len() == 2);
    reveal_strlit("f6");
    assert("f6"@.len() == 2);
    reveal_strlit("f7");
    assert("f7"@.len() == 2);
    reveal_strlit("f8");
    assert("f8"@.len() == 2);
    reveal_strlit("f9");
    assert("f9"@.len() == 2);
    reveal_strlit("f10");
    assert("f10"@.len() == 3);
    reveal_strlit("f11");
    assert("f11"@.len() == 3);
    reveal_strlit("f12");
    assert("f12"@.len() == 3);
    reveal_strlit("f13");
    assert("f13"@.len() == 3);
    reveal_strlit("f14");
    assert("f14"@.len() == 3);
    reveal_strlit("f15");
    assert("f15"@.len() == 3);
    reveal_strlit("f16");
    assert("f16"@.len() == 3);
    assert(plain_char("f16"@[0]));
    assert(plain_char("f16"@[1]));
    assert(plain_char("f16"@[2]));
}
proof fn lemma_name_f17()
    ensures
        plain_word(NamedKey::F17.spec_name()),
        NamedKey::F17.spec_name().len() >= 2,
        spec_parse_named(NamedKey::F17.spec_name()) == Some(NamedKey::F17),
{
    reveal_strlit("space");
    assert("space"@.len() == 5);
    reveal_strlit("return");
    assert("return"@.len() == 6);
    reveal_strlit("enter");
    assert("enter"@.len() == 5);
    reveal_strlit("tab");
    assert("tab"@.len() == 3);
    reveal_strlit("escape");
    assert("escape"@.len() == 6);
    reveal_strlit("esc");
    assert("esc"@.len() == 3);
    reveal_strlit("delete");
    assert("delete"@.len() == 6);
    reveal_strlit("del");
    assert("del"@.len() == 3);
    reveal_strlit("backspace");
    assert("backspace"@.len() == 9);
    reveal_strlit("help");
    assert("help"@.len() == 4);
    reveal_strlit("insert");
    assert("insert"@.len() == 6);
    reveal_strlit("ins");
    assert("ins"@.len() == 3);
    reveal_strlit("f1");
    assert("f1"@.len() == 2);
    reveal_strlit("f2");
    assert("f2"@.len() == 2);
    reveal_strlit("f3");
    assert("f3"@.len() == 2);
    reveal_strlit("f4");
    assert("f4"@.len() == 2);
    reveal_strlit("f5");
    assert("f5"@.len() == 2);
    reveal_strlit("f6");
    assert("f6"@.len() == 2);
    reveal_strlit("f7");
    assert("f7"@.len() == 2);
    reveal_strlit("f8");
    assert("f8"@.len() == 2);
    reveal_strlit("f9");
    assert("f9"@.len() == 2);
    reveal_strlit("f10");
    assert("f10"@.len() == 3);
    reveal_strlit("f11");
    assert("f11"@.len() == 3);
    reveal_strlit("f12");
    assert("f12"@.len() == 3);
    reveal_strlit("f13");
    assert("f13"@.len() == 3);
    reveal_strlit("f14");
    assert("f14"@.len() == 3);
    reveal_strlit("f15");
    assert("f15"@.len() == 3);
    reveal_strlit("f16");
    assert("f16"@.len() == 3);
    reveal_strlit("f17");
    assert("f17"@.len() == 3);
    assert(plain_char("f17"@[0]));
    assert(plain_char("f17"@[1]));
    assert(plain_char("f17"@[2]));
}
proof fn lemma_name_f18()
    ensures
        plain_word(NamedKey::F18.spec_name()),
        NamedKey::F18.spec_name().len() >= 2,
        spec_parse_named(NamedKey::F18.spec_name()) == Some(NamedKey::F18),
{
    reveal_strlit("space");
    assert("space"@.len() == 5);
    reveal_strlit("return");
    assert("return"@.len() == 6);
    reveal_strlit("enter");
    assert("enter"@.len() == 5);
    reveal_strlit("tab");
    assert("tab"@.len() == 3);
    reveal_strlit("escape");
    assert("escape"@.len() == 6);
    reveal_strlit("esc");
    assert("esc"@.len() == 3);
    reveal_strlit("delete");
    assert("delete"@.len() == 6);
    reveal_strlit("del");
    assert("del"@.len() == 3);
    reveal_strlit("backspace");
    assert("backspace"@.len() == 9);
    reveal_strlit("help");
    assert("help"@.len() == 4);
    reveal_strlit("insert");
    assert("insert"@.len() == 6);
    reveal_strlit("ins");
    assert("ins"@.len() == 3);
    reveal_strlit("f1");
    assert("f1"@.len() == 2);
    reveal_strlit("f2");
    assert("f2"@.len() == 2);
    reveal_strlit("f3");
    assert("f3"@.len() == 2);
    reveal_strlit("f4");
    assert("f4"@.len() == 2);
    reveal_strlit("f5");
    assert("f5"@.len() == 2);
    reveal_strlit("f6");
    assert("f6"@.len() == 2);
    reveal_strlit("f7");
    assert("f7"@.len() == 2);
    reveal_strlit("f8");
    assert("f8"@.len() == 2);
    reveal_strlit("f9");
    assert("f9"@.len() == 2);
    reveal_strlit("f10");
    assert("f10"@.len() == 3);
    reveal_strlit("f11");
    assert("f11"@.len() == 3);
    reveal_strlit("f12");
    assert("f12"@.len() == 3);
    reveal_strlit("f13");
    assert("f13"@.len() == 3);
    reveal_strlit("f14");
    assert("f14"@.len() == 3);
    reveal_strlit("f15");
    assert("f15"@.len() == 3);
    reveal_strlit("f16");
    assert("f16"@.len() == 3);
    reveal_strlit("f17");
    assert("f17"@.len() == 3);
    reveal_strlit("f18");
    assert("f18"@.len() == 3);
    assert(plain_char("f18"@[0]));
    assert(plain_char("f18"@[1]));
    assert(plain_char("f18"@[2]));
}
proof fn lemma_name_f19()
    ensures
        plain_word(NamedKey::F19.spec_name()),
        NamedKey::F19.spec_name().len() >= 2,
        spec_parse_named(NamedKey::F19.spec_name()) == Some(NamedKey::F19),
{
    reveal_strlit("space");
    assert("space"@.len() == 5);
    reveal_strlit("return");
    assert("return"@.len() == 6);
    reveal_strlit("enter");
    assert("enter"@.len() == 5);
    reveal_strlit("tab");
    assert("tab"@.len() == 3);
    reveal_strlit("escape");
    assert("escape"@.len() == 6);
    reveal_strlit("esc");
    assert("esc"@.len() == 3);
    reveal_strlit("delete");
    assert("delete"@.len() == 6);
    reveal_strlit("del");
    assert("del"@.len() == 3);
    reveal_strlit("backspace");
    assert("backspace"@.len() == 9);
    reveal_strlit("help");
    assert("help"@.len() == 4);
    reveal_strlit("insert");
    assert("insert"@.len() == 6);
    reveal_strlit("ins");
    assert("ins"@.len() == 3);
    reveal_strlit("f1");
    assert("f1"@.len() == 2);
    reveal_strlit("f2");
    assert("f2"@.len() == 2);
    reveal_strlit("f3");
    assert("f3"@.len() == 2);
    reveal_strlit("f4");
    assert("f4"@.len() == 2);
    reveal_strlit("f5");
    assert("f5"@.len() == 2);
    reveal_strlit("f6");
    assert("f6"@.len() == 2);
    reveal_strlit("f7");
    assert("f7"@.len() == 2);
    reveal_strlit("f8");
    assert("f8"@.len() == 2);
    reveal_strlit("f9");
    assert("f9"@.len() == 2);
    reveal_strlit("f10");
    assert("f10"@.len() == 3);
    reveal_strlit("f11");
    assert("f11"@.len() == 3);
    reveal_strlit("f12");
    assert("f12"@.len() == 3);
    reveal_strlit("f13");
    assert("f13"@.len() == 3);
    reveal_strlit("f14");
    assert("f14"@.len() == 3);
    reveal_strlit("f15");
    assert("f15"@.len() == 3);
    reveal_strlit("f16");
    assert("f16"@.len() == 3);
    reveal_strlit("f17");
    assert("f17"@.len() == 3);
    reveal_strlit("f18");
    assert("f18"@.len() == 3);
    reveal_strlit("f19");
    assert("f19"@.len() == 3);
    assert(plain_char("f19"@[0]));
    assert(plain_char("f19"@[1]));
    assert(plain_char("f19"@[2]));
}
proof fn lemma_name_f20()
    ensures
        plain_word(NamedKey::F20.spec_name()),
        NamedKey::F20.spec_name().len() >= 2,
        spec_parse_named(NamedKey::F20.spec_name()) == Some(NamedKey::F20),
{
    reveal_strlit("space");
    assert("space"@.len() == 5);
    reveal_strlit("return");
    assert("return"@.len() == 6);
    reveal_strlit("enter");
    assert("enter"@.len() == 5);
    reveal_strlit("tab");
    assert("tab"@.len() == 3);
    reveal_strlit("escape");
    assert("escape"@.len() == 6);
    reveal_strlit("esc");
    assert("esc"@.len() == 3);
    reveal_strlit("delete");
    assert("delete"@.len() == 6);
    reveal_strlit("del");
    assert("del"@.len() == 3);
    reveal_strlit("backspace");
    assert("backspace"@.len() == 9);
    reveal_strlit("help");
    assert("help"@.len() == 4);
    reveal_strlit("insert");
    assert("insert"@.len() == 6);
    reveal_strlit("ins");
    assert("ins"@.len() == 3);
    reveal_strlit("f1");
    assert("f1"@.len() == 2);
    reveal_strlit("f2");
    assert("f2"@.len() == 2);
    reveal_strlit("f3");
    assert("f3"@.len() == 2);
    reveal_strlit("f4");
    assert("f4"@.len() == 2);
    reveal_strlit("f5");
    assert("f5"@.len() == 2);
    reveal_strlit("f6");
    assert("f6"@.len() == 2);
    reveal_strlit("f7");
    assert("f7"@.len() == 2);
    reveal_strlit("f8");
    assert("f8"@.len() == 2);
    reveal_strlit("f9");
    assert("f9"@.len() == 2);
    reveal_strlit("f10");
    assert("f10"@.len() == 3);
    reveal_strlit("f11");
    assert("f11"@.len() == 3);
    reveal_strlit("f12");
    assert("f12"@.len() == 3);
    reveal_strlit("f13");
    assert("f13"@.len() == 3);
    reveal_strlit("f14");
    assert("f14"@.len() == 3);
    reveal_strlit("f15");
    assert("f15"@.len() == 3);
    reveal_strlit("f16");
    assert("f16"@.len() == 3);
    reveal_strlit("f17");
    assert("f17"@.len() == 3);
    reveal_strlit("f18");
    assert("f18"@.len() == 3);
    reveal_strlit("f19");
    assert("f19"@.len() == 3);
    reveal_strlit("f20");
    assert("f20"@.len() == 3);
    assert(plain_char("f20"@[0]));
    assert(plain_char("f20"@[1]));
    assert(plain_char("f20"@[2]));
}
proof fn lemma_name_up()
    ensures
        plain_word(NamedKey::Up.spec_name()),
        NamedKey::Up.spec_name().len() >= 2,
        spec_parse_named(NamedKey::Up.spec_name()) == Some(NamedKey::Up),
{
    reveal_strlit("space");
    assert("space"@.len() == 5);
    reveal_strlit("return");
    assert("return"@.len() == 6);
    reveal_strlit("enter");
    assert("enter"@.len() == 5);
    reveal_strlit("tab");
    assert("tab"@.len() == 3);
    reveal_strlit("escape");
    assert("escape"@.len() == 6);
    reveal_strlit("esc");
    assert("esc"@.len() == 3);
    reveal_strlit("delete");
    assert("delete"@.len() == 6);
    reveal_strlit("del");
    assert("del"@.len() == 3);
    reveal_strlit("backspace");
    assert("backspace"@.len() == 9);
    reveal_strlit("help");
    assert("help"@.len() == 4);
    reveal_strlit("insert");
    assert("insert"@.len() == 6);
    reveal_strlit("ins");
    assert("ins"@.len() == 3);
    reveal_strlit("f1");
    assert("f1"@.len() == 2);
    reveal_strlit("f2");
    assert("f2"@.len() == 2);
    reveal_strlit("f3");
    assert("f3"@.len() == 2);
    reveal_strlit("f4");
    assert("f4"@.len() == 2);
    reveal_strlit("f5");
    assert("f5"@.len() == 2);
    reveal_strlit("f6");
    assert("f6"@.len() == 2);
    reveal_strlit("f7");
    assert("f7"@.len() == 2);
    reveal_strlit("f8");
    assert("f8"@.len() == 2);
    reveal_strlit("f9");
    assert("f9"@.len() == 2);
    reveal_strlit("f10");
    assert("f10"@.len() == 3);
    reveal_strlit("f11");
    assert("f11"@.len() == 3);
    reveal_strlit("f12");
    assert("f12"@.len() == 3);
    reveal_strlit("f13");
    assert("f13"@.len() == 3);
    reveal_strlit("f14");
    assert("f14"@.len() == 3);
    reveal_strlit("f15");
    assert("f15"@.len() == 3);
    reveal_strlit("f16");
    assert("f16"@.len() == 3);
    reveal_strlit("f17");
    assert("f17"@.len() == 3);
    reveal_strlit("f18");
    assert("f18"@.len() == 3);
    reveal_strlit("f19");
    assert("f19"@.len() == 3);
    reveal_strlit("f20");
    assert("f20"@.len() == 3);
    reveal_strlit("up");
    assert("up"@.len() == 2);
    assert(plain_char("up"@[0]));
    assert(plain_char("up"@[1]));
}
proof fn lemma_name_down()
    ensures
        plain_word(NamedKey::Down.spec_name()),
        NamedKey::Down.spec_name().len() >= 2,
        spec_parse_named(NamedKey::Down.spec_name()) == Some(NamedKey::Down),
{
    reveal_strlit("space");
    assert("space"@.len() == 5);
    reveal_strlit("return");
    assert("return"@.len() == 6);
    reveal_strlit("enter");
    assert("enter"@.len() == 5);
    reveal_strlit("tab");
    assert("tab"@.len() == 3);
    reveal_strlit("escape");
    assert("escape"@.len() == 6);
    reveal_strlit("esc");
    assert("esc"@.len() == 3);
    reveal_strlit("delete");
    assert("delete"@.len() == 6);
    reveal_strlit("del");
    assert("del"@.len() == 3);
    reveal_strlit("backspace");
    assert("backspace"@.len() == 9);
    reveal_strlit("help");
    assert("help"@.len() == 4);
    reveal_strlit("insert");
    assert("insert"@.len() == 6);
    reveal_strlit("ins");
    assert("ins"@.len() == 3);
    reveal_strlit("f1");
    assert("f1"@.len() == 2);
    reveal_strlit("f2");
    assert("f2"@.len() == 2);
    reveal_strlit("f3");
    assert("f3"@.len() == 2);
    reveal_strlit("f4");
    assert("f4"@.len() == 2);
    reveal_strlit("f5");
    assert("f5"@.len() == 2);
    reveal_strlit("f6");
    assert("f6"@.len() == 2);
    reveal_strlit("f7");
    assert("f7"@.len() == 2);
    reveal_strlit("f8");
    assert("f8"@.len() == 2);
    reveal_strlit("f9");
    assert("f9"@.len() == 2);
    reveal_strlit("f10");
    assert("f10"@.len() == 3);
    reveal_strlit("f11");
    assert("f11"@.len() == 3);
    reveal_strlit("f12");
    assert("f12"@.len() == 3);
    reveal_strlit("f13");
    assert("f13"@.len() == 3);
    reveal_strlit("f14");
    assert("f14"@.len() == 3);
    reveal_strlit("f15");
    assert("f15"@.len() == 3);
    reveal_strlit("f16");
    assert("f16"@.len() == 3);
    reveal_strlit("f17");
    assert("f17"@.len() == 3);
    reveal_strlit("f18");
    assert("f18"@.len() == 3);
    reveal_strlit("f19");
    assert("f19"@.len() == 3);
    reveal_strlit("f20");
    assert("f20"@.len() == 3);
    reveal_strlit("up");
    assert("up"@.len() == 2);
    reveal_strlit("down");
    assert("down"@.len() == 4);
    assert(plain_char("down"@[0]));
    assert(plain_char("down"@[1]));
    assert(plain_char("down"@[2]));
    assert(plain_char("down"@[3]));
}
proof fn lemma_name_left()
    ensures
        plain_word(NamedKey::Left.spec_name()),
        NamedKey::Left.spec_name().len() >= 2,
        spec_parse_named(NamedKey::Left.spec_name()) == Some(NamedKey::Left),
{
    reveal_strlit("space");
    assert("space"@.len() == 5);
    reveal_strlit("return");
    assert("return"@.len() == 6);
    reveal_strlit("enter");
    assert("enter"@.len() == 5);
    reveal_strlit("tab");
    assert("tab"@.len() == 3);
    reveal_strlit("escape");
    assert("escape"@.len() == 6);
    reveal_strlit("esc");
    assert("esc"@.len() == 3);
    reveal_strlit("delete");
    assert("delete"@.len() == 6);
    reveal_strlit("del");
    assert("del"@.len() == 3);
    reveal_strlit("backspace");
    assert("backspace"@.len() == 9);
    reveal_strlit("help");
    assert("help"@.len() == 4);
    reveal_strlit("insert");
    assert("insert"@.len() == 6);
    reveal_strlit("ins");
    assert("ins"@.len() == 3);
    reveal_strlit("f1");
    assert("f1"@.len() == 2);
    reveal_strlit("f2");
    assert("f2"@.len() == 2);
    reveal_strlit("f3");
    assert("f3"@.len() == 2);
    reveal_strlit("f4");
    assert("f4"@.len() == 2);
    reveal_strlit("f5");
    assert("f5"@.len() == 2);
    reveal_strlit("f6");
    assert("f6"@.len() == 2);
    reveal_strlit("f7");
    assert("f7"@.len() == 2);
    reveal_strlit("f8");
    assert("f8"@.len() == 2);
    reveal_strlit("f9");
    assert("f9"@.len() == 2);
    reveal_strlit("f10");
    assert("f10"@.len() == 3);
    reveal_strlit("f11");
    assert("f11"@.len() == 3);
    reveal_strlit("f12");
    assert("f12"@.len() == 3);
    reveal_strlit("f13");
    assert("f13"@.len() == 3);
    reveal_strlit("f14");
    assert("f14"@.len() == 3);
    reveal_strlit("f15");
    assert("f15"@.len() == 3);
    reveal_strlit("f16");
    assert("f16"@.len() == 3);
    reveal_strlit("f17");
    assert("f17"@.len() == 3);
    reveal_strlit("f18");
    assert("f18"@.len() == 3);
    reveal_strlit("f19");
    assert("f19"@.len() == 3);
    reveal_strlit("f20");
    assert("f20"@.len() == 3);
    reveal_strlit("up");
    assert("up"@.len() == 2);
    reveal_strlit("down");
    assert("down"@.len() == 4);
    reveal_strlit("left");
    assert("left"@.len() == 4);
    assert(plain_char("left"@[0]));
    assert(plain_char("left"@[1]));
    assert(plain_char("left"@[2]));
    assert(plain_char("left"@[3]));
}
proof fn lemma_name_right()
    ensures
        plain_word(NamedKey::Right.spec_name()),
        NamedKey::Right.spec_name().len() >= 2,
        spec_parse_named(NamedKey::Right.spec_name()) == Some(NamedKey::Right),
{
    reveal_strlit("space");
    assert("space"@.len() == 5);
    reveal_strlit("return");
    assert("return"@.len() == 6);
    reveal_strlit("enter");
    assert("enter"@.len() == 5);
    reveal_strlit("tab");
    assert("tab"@.len() == 3);
    reveal_strlit("escape");
    assert("escape"@.len() == 6);
    reveal_strlit("esc");
    assert("esc"@.len() == 3);
    reveal_strlit("delete");
    assert("delete"@.len() == 6);
    reveal_strlit("del");
    assert("del"@.len() == 3);
    reveal_strlit("backspace");
    assert("backspace"@.len() == 9);
    reveal_strlit("help");
    assert("help"@.len() == 4);
    reveal_strlit("insert");
    assert("insert"@.len() == 6);
    reveal_strlit("ins");
    assert("ins"@.len() == 3);
    reveal_strlit("f1");
    assert("f1"@.len() == 2);
    reveal_strlit("f2");
    assert("f2"@.len() == 2);
    reveal_strlit("f3");
    assert("f3"@.len() == 2);
    reveal_strlit("f4");
    assert("f4"@.len() == 2);
    reveal_strlit("f5");
    assert("f5"@.len() == 2);
    reveal_strlit("f6");
    assert("f6"@.len() == 2);
    reveal_strlit("f7");
    assert("f7"@.len() == 2);
    reveal_strlit("f8");
    assert("f8"@.len() == 2);
    reveal_strlit("f9");
    assert("f9"@.len() == 2);
    reveal_strlit("f10");
    assert("f10"@.len() == 3);
    reveal_strlit("f11");
    assert("f11"@.len() == 3);
    reveal_strlit("f12");
    assert("f12"@.len() == 3);
    reveal_strlit("f13");
    assert("f13"@.len() == 3);
    reveal_strlit("f14");
    assert("f14"@.len() == 3);
    reveal_strlit("f15");
    assert("f15"@.len() == 3);
    reveal_strlit("f16");
    assert("f16"@.len() == 3);
    reveal_strlit("f17");
    assert("f17"@.len() == 3);
    reveal_strlit("f18");
    assert("f18"@.len() == 3);
    reveal_strlit("f19");
    assert("f19"@.len() == 3);
    reveal_strlit("f20");
    assert("f20"@.len() == 3);
    reveal_strlit("up");
    assert("up"@.len() == 2);
    reveal_strlit("down");
    assert("down"@.len() == 4);
    reveal_strlit("left");
    assert("left"@.len() == 4);
    reveal_strlit("right");
    assert("right"@.len() == 5);
    assert(plain_char("right"@[0]));
    assert(plain_char("right"@[1]));
    assert(plain_char("right"@[2]));
    assert(plain_char("right"@[3]));
    assert(plain_char("right"@[4]));
}
proof fn lemma_name_pageup()
    ensures
        plain_word(NamedKey::PageUp.spec_name()),
        NamedKey::PageUp.spec_name().len() >= 2,
        spec_parse_named(NamedKey::PageUp.spec_name()) == Some(NamedKey::PageUp),
{
    reveal_strlit("space");
    assert("space"@.len() == 5);
    reveal_strlit("return");
    assert("return"@.len() == 6);
    reveal_strlit("enter");
    assert("enter"@.len() == 5);
    reveal_strlit("tab");
    assert("tab"@.len() == 3);
    reveal_strlit("escape");
    assert("escape"@.len() == 6);
    reveal_strlit("esc");
    assert("esc"@.len() == 3);
    reveal_strlit("delete");
    assert("delete"@.len() == 6);
    reveal_strlit("del");
    assert("del"@.len() == 3);
    reveal_strlit("backspace");
    assert("backspace"@.len() == 9);
    reveal_strlit("help");
    assert("help"@.len() == 4);
    reveal_strlit("insert");
    assert("insert"@.len() == 6);
    reveal_strlit("ins");
    assert("ins"@.len() == 3);
    reveal_strlit("f1");
    assert("f1"@.len() == 2);
    reveal_strlit("f2");
    assert("f2"@.len() == 2);
    reveal_strlit("f3");
    assert("f3"@.len() == 2);
    reveal_strlit("f4");
    assert("f4"@.len() == 2);
    reveal_strlit("f5");
    assert("f5"@.len() == 2);
    reveal_strlit("f6");
    assert("f6"@.len() == 2);
    reveal_strlit("f7");
    assert("f7"@.len() == 2);
    reveal_strlit("f8");
    assert("f8"@.len() == 2);
    reveal_strlit("f9");
    assert("f9"@.len() == 2);
    reveal_strlit("f10");
    assert("f10"@.len() == 3);
    reveal_strlit("f11");
    assert("f11"@.len() == 3);
    reveal_strlit("f12");
    assert("f12"@.len() == 3);
    reveal_strlit("f13");
    assert("f13"@.len() == 3);
    reveal_strlit("f14");
    assert("f14"@.len() == 3);
    reveal_strlit("f15");
    assert("f15"@.len() == 3);
    reveal_strlit("f16");
    assert("f16"@.len() == 3);
    reveal_strlit("f17");
    assert("f17"@.len() == 3);
    reveal_strlit("f18");
    assert("f18"@.len() == 3);
    reveal_strlit("f19");
    assert("f19"@.len() == 3);
    reveal_strlit("f20");
    assert("f20"@.len() == 3);
    reveal_strlit("up");
    assert("up"@.len() == 2);
    reveal_strlit("down");
    assert("down"@.len() == 4);
    reveal_strlit("left");
    assert("left"@.len() == 4);
    reveal_strlit("right");
    assert("right"@.len() == 5);
    reveal_strlit("pageup");
    assert("pageup"@.len() == 6);
    assert(plain_char("pageup"@[0]));
    assert(plain_char("pageup"@[1]));
    assert(plain_char("pageup"@[2]));
    assert(plain_char("pageup"@[3]));
    assert(plain_char("pageup"@[4]));
    assert(plain_char("pageup"@[5]));
}
proof fn lemma_name_pagedown()
    ensures
        plain_word(NamedKey::PageDown.spec_name()),
        NamedKey::PageDown.spec_name().len() >= 2,
        spec_parse_named(NamedKey::PageDown.spec_name()) == Some(NamedKey::PageDown),
{
    reveal_strlit("space");
    assert("space"@.len() == 5);
    reveal_strlit("return");
    assert("return"@.len() == 6);
    reveal_strlit("enter");
    assert("enter"@.len() == 5);
    reveal_strlit("tab");
    assert("tab"@.len() == 3);
    reveal_strlit("escape");
    assert("escape"@.len() == 6);
    reveal_strlit("esc");
    assert("esc"@.len() == 3);
    reveal_strlit("delete");
    assert("delete"@.len() == 6);
    reveal_strlit("del");
    assert("del"@.len() == 3);
    reveal_strlit("backspace");
    assert("backspace"@.len() == 9);
    reveal_strlit("help");
    assert("help"@.len() == 4);
    reveal_strlit("insert");
    assert("insert"@.len() == 6);
    reveal_strlit("ins");
    assert("ins"@.len() == 3);
    reveal_strlit("f1");
    assert("f1"@.len() == 2);
    reveal_strlit("f2");
    assert("f2"@.len() == 2);
    reveal_strlit("f3");
    assert("f3"@.len() == 2);
    reveal_strlit("f4");
    assert("f4"@.len() == 2);
    reveal_strlit("f5");
    assert("f5"@.len() == 2);
    reveal_strlit("f6");
    assert("f6"@.len() == 2);
    reveal_strlit("f7");
    assert("f7"@.len() == 2);
    reveal_strlit("f8");
    assert("f8"@.len() == 2);
    reveal_strlit("f9");
    assert("f9"@.len() == 2);
    reveal_strlit("f10");
    assert("f10"@.len() == 3);
    reveal_strlit("f11");
    assert("f11"@.len() == 3);
    reveal_strlit("f12");
    assert("f12"@.len() == 3);
    reveal_strlit("f13");
    assert("f13"@.len() == 3);
    reveal_strlit("f14");
    assert("f14"@.len() == 3);
    reveal_strlit("f15");
    assert("f15"@.len() == 3);
    reveal_strlit("f16");
    assert("f16"@.len() == 3);
    reveal_strlit("f17");
    assert("f17"@.len() == 3);
    reveal_strlit("f18");
    assert("f18"@.len() == 3);
    reveal_strlit("f19");
    assert("f19"@.len() == 3);
    reveal_strlit("f20");
    assert("f20"@.len() == 3);
    reveal_strlit("up");
    assert("up"@.len() == 2);
    reveal_strlit("down");
    assert("down"@.len() == 4);
    reveal_strlit("left");
    assert("left"@.len() == 4);
    reveal_strlit("right");
    assert("right"@.len() == 5);
    reveal_strlit("pageup");
    assert("pageup"@.len() == 6);
    reveal_strlit("pagedown");
    assert("pagedown"@.len() == 8);
    assert(plain_char("pagedown"@[0]));
    assert(plain_char("pagedown"@[1]));
    assert(plain_char("pagedown"@[2]));
    assert(plain_char("pagedown"@[3]));
    assert(plain_char("pagedown"@[4]));
    assert(plain_char("pagedown"@[5]));
    assert(plain_char("pagedown"@[6]));
    assert(plain_char("pagedown"@[7]));
}
proof fn lemma_name_home()
    ensures
        plain_word(NamedKey::Home.spec_name()),
        NamedKey::Home.spec_name().len() >= 2,
        spec_parse_named(NamedKey::Home.spec_name()) == Some(NamedKey::Home),
{
    reveal_strlit("space");
    assert("space"@.len() == 5);
    reveal_strlit("return");
    assert("return"@.len() == 6);
    reveal_strlit("enter");
    assert("enter"@.len() == 5);
    reveal_strlit("tab");
    assert("tab"@.len() == 3);
    reveal_strlit("escape");
    assert("escape"@.len() == 6);
    reveal_strlit("esc");
    assert("esc"@.len() == 3);
    reveal_strlit("delete");
    assert("delete"@.len() == 6);
    reveal_strlit("del");
    assert("del"@.len() == 3);
    reveal_strlit("backspace");
    assert("backspace"@.len() == 9);
    reveal_strlit("help");
    assert("help"@.len() == 4);
    reveal_strlit("insert");
    assert("insert"@.len() == 6);
    reveal_strlit("ins");
    assert("ins"@.len() == 3);
    reveal_strlit("f1");
    assert("f1"@.len() == 2);
    reveal_strlit("f2");
    assert("f2"@.len() == 2);
    reveal_strlit("f3");
    assert("f3"@.len() == 2);
    reveal_strlit("f4");
    assert("f4"@.len() == 2);
    reveal_strlit("f5");
    assert("f5"@.len() == 2);
    reveal_strlit("f6");
    assert("f6"@.len() == 2);
    reveal_strlit("f7");
    assert("f7"@.len() == 2);
    reveal_strlit("f8");
    assert("f8"@.len() == 2);
    reveal_strlit("f9");
    assert("f9"@.len() == 2);
    reveal_strlit("f10");
    assert("f10"@.len() == 3);
    reveal_strlit("f11");
    assert("f11"@.len() == 3);
    reveal_strlit("f12");
    assert("f12"@.len() == 3);
    reveal_strlit("f13");
    assert("f13"@.len() == 3);
    reveal_strlit("f14");
    assert("f14"@.len() == 3);
    reveal_strlit("f15");
    assert("f15"@.len() == 3);
    reveal_strlit("f16");
    assert("f16"@.len() == 3);
    reveal_strlit("f17");
    assert("f17"@.len() == 3);
    reveal_strlit("f18");
    assert("f18"@.len() == 3);
    reveal_strlit("f19");
    assert("f19"@.len() == 3);
    reveal_strlit("f20");
    assert("f20"@.len() == 3);
    reveal_strlit("up");
    assert("up"@.len() == 2);
    reveal_strlit("down");
    assert("down"@.len() == 4);
    reveal_strlit("left");
    assert("left"@.len() == 4);
    reveal_strlit("right");
    assert("right"@.len() == 5);
    reveal_strlit("pageup");
    assert("pageup"@.len() == 6);
    reveal_strlit("pagedown");
    assert("pagedown"@.len() == 8);
    reveal_strlit("home");
    assert("home"@.len() == 4);
    assert(plain_char("home"@[0]));
    assert(plain_char("home"@[1]));
    assert(plain_char("home"@[2]));
    assert(plain_char("home"@[3]));
}
proof fn lemma_name_end()
    ensures
        plain_word(NamedKey::End.spec_name()),
        NamedKey::End.spec_name().len() >= 2,
        spec_parse_named(NamedKey::End.spec_name()) == Some(NamedKey::End),
{
    reveal_strlit("space");
    assert("space"@.len() == 5);
    reveal_strlit("return");
    assert("return"@.len() == 6);
    reveal_strlit("enter");
    assert("enter"@.len() == 5);
    reveal_strlit("tab");
    assert("tab"@.len() == 3);
    reveal_strlit("escape");
    assert("escape"@.len() == 6);
    reveal_strlit("esc");
    assert("esc"@.len() == 3);
    reveal_strlit("delete");
    assert("delete"@.len() == 6);
    reveal_strlit("del");
    assert("del"@.len() == 3);
    reveal_strlit("backspace");
    assert("backspace"@.len() == 9);
    reveal_strlit("help");
    assert("help"@.len() == 4);
    reveal_strlit("insert");
    assert("insert"@.len() == 6);
    reveal_strlit("ins");
    assert("ins"@.len() == 3);
    reveal_strlit("f1");
    assert("f1"@.len() == 2);
    reveal_strlit("f2");
    assert("f2"@.len() == 2);
    reveal_strlit("f3");
    assert("f3"@.len() == 2);
    reveal_strlit("f4");
    assert("f4"@.len() == 2);
    reveal_strlit("f5");
    assert("f5"@.len() == 2);
    reveal_strlit("f6");
    assert("f6"@.len() == 2);
    reveal_strlit("f7");
    assert("f7"@.len() == 2);
    reveal_strlit("f8");
    assert("f8"@.len() == 2);
    reveal_strlit("f9");
    assert("f9"@.len() == 2);
    reveal_strlit("f10");
    assert("f10"@.len() == 3);
    reveal_strlit("f11");
    assert("f11"@.len() == 3);
    reveal_strlit("f12");
    assert("f12"@.len() == 3);
    reveal_strlit("f13");
    assert("f13"@.len() == 3);
    reveal_strlit("f14");
    assert("f14"@.len() == 3);
    reveal_strlit("f15");
    assert("f15"@.len() == 3);
    reveal_strlit("f16");
    assert("f16"@.len() == 3);
    reveal_strlit("f17");
    assert("f17"@.len() == 3);
    reveal_strlit("f18");
    assert("f18"@.len() == 3);
    reveal_strlit("f19");
    assert("f19"@.len() == 3);
    reveal_strlit("f20");
    assert("f20"@.len() == 3);
    reveal_strlit("up");
    assert("up"@.len() == 2);
    reveal_strlit("down");
    assert("down"@.len() == 4);
    reveal_strlit("left");
    assert("left"@.len() == 4);
    reveal_strlit("right");
    assert("right"@.len() == 5);
    reveal_strlit("pageup");
    assert("pageup"@.len() == 6);
    reveal_strlit("pagedown");
    assert("pagedown"@.len() == 8);
    reveal_strlit("home");
    assert("home"@.len() == 4);
    reveal_strlit("end");
    assert("end"@.len() == 3);
    assert(plain_char("end"@[0]));
    assert(plain_char("end"@[1]));
    assert(plain_char("end"@[2]));
}

proof fn lemma_named_key_names(n: NamedKey)
    ensures
        plain_word(n.spec_name()),
        n.spec_name().len() >= 2,
        spec_parse_named(n.spec_name()) == Some(n),
{
    match n {
        NamedKey::Space => lemma_name_space(),
        NamedKey::Return => lemma_name_return(),
        NamedKey::Tab => lemma_name_tab(),
        NamedKey::Escape => lemma_name_escape(),
        NamedKey::Delete => lemma_name_delete(),
        NamedKey::Backspace => lemma_name_backspace(),
        NamedKey::Help => lemma_name_help(),
        NamedKey::Insert => lemma_name_insert(),
        NamedKey::F1 => lemma_name_f1(),
        NamedKey::F2 => lemma_name_f2(),
        NamedKey::F3 => lemma_name_f3(),
        NamedKey::F4 => lemma_name_f4(),
        NamedKey::F5 => lemma_name_f5(),
        NamedKey::F6 => lemma_name_f6(),
        NamedKey::F7 => lemma_name_f7(),
        NamedKey::F8 => lemma_name_f8(),
        NamedKey::F9 => lemma_name_f9(),
        NamedKey::F10 => lemma_name_f10(),
        NamedKey::F11 => lemma_name_f11(),
        NamedKey::F12 => lemma_name_f12(),
        NamedKey::F13 => lemma_name_f13(),
        NamedKey::F14 => lemma_name_f14(),
        NamedKey::F15 => lemma_name_f15(),
        NamedKey::F16 => lemma_name_f16(),
        NamedKey::F17 => lemma_name_f17(),
        NamedKey::F18 => lemma_name_f18(),
        NamedKey::F19 => lemma_name_f19(),
        NamedKey::F20 => lemma_name_f20(),
        NamedKey::Up => lemma_name_up(),
        NamedKey::Down => lemma_name_down(),
        NamedKey::Left => lemma_name_left(),
        NamedKey::Right => lemma_name_right(),
        NamedKey::PageUp => lemma_name_pageup(),
        NamedKey::PageDown => lemma_name_pagedown(),
        NamedKey::Home => lemma_name_home(),
        NamedKey::End => lemma_name_end(),
    }
}

proof fn lemma_no_named_single_char(c: char)
    ensures
        spec_parse_named(seq![c]) is None,
{
    assert(seq![c].len() == 1);
    assert(seq![c] != "space"@) by {
        reveal_strlit("space");
        assert("space"@.len() == 5);
    }
    assert(seq![c] != "return"@) by {
        reveal_strlit("return");
        assert("return"@.len() == 6);
    }
    assert(seq![c] != "enter"@) by {
        reveal_strlit("enter");
        assert("enter"@.len() == 5);
    }
    assert(seq![c] != "tab"@) by {
        reveal_strlit("tab");
        assert("tab"@.len() == 3);
    }
    assert(seq![c] != "escape"@) by {
        reveal_strlit("escape");
        assert("escape"@.len() == 6);
    }
    assert(seq![c] != "esc"@) by {
        reveal_strlit("esc");
        assert("esc"@.len() == 3);
    }
    assert(seq![c] != "delete"@) by {
        reveal_strlit("delete");
        assert("delete"@.len() == 6);
    }
    assert(seq![c] != "del"@) by {
        reveal_strlit("del");
        assert("del"@.len() == 3);
    }
    assert(seq![c] != "backspace"@) by {
        reveal_strlit("backspace");
        assert("backspace"@.len() == 9);
    }
    assert(seq![c] != "help"@) by {
        reveal_strlit("help");
        assert("help"@.len() == 4);
    }
    assert(seq![c] != "insert"@) by {
        reveal_strlit("insert");
        assert("insert"@.len() == 6);
    }
    assert(seq![c] != "ins"@) by {
        reveal_strlit("ins");
        assert("ins"@.len() == 3);
    }
    assert(seq![c] != "f1"@) by {
        reveal_strlit("f1");
        assert("f1"@.len() == 2);
    }
    assert(seq![c] != "f2"@) by {
        reveal_strlit("f2");
        assert("f2"@.len() == 2);
    }
    assert(seq![c] != "f3"@) by {
        reveal_strlit("f3");
        assert("f3"@.len() == 2);
    }
    assert(seq![c] != "f4"@) by {
        reveal_strlit("f4");
        assert("f4"@.len() == 2);
    }
    assert(seq![c] != "f5"@) by {
        reveal_strlit("f5");
        assert("f5"@.len() == 2);
    }
    assert(seq![c] != "f6"@) by {
        reveal_strlit("f6");
        assert("f6"@.len() == 2);
    }
    assert(seq![c] != "f7"@) by {
        reveal_strlit("f7");
        assert("f7"@.len() == 2);
    }
    assert(seq![c] != "f8"@) by {
        reveal_strlit("f8");
        assert("f8"@.len() == 2);
    }
    assert(seq![c] != "f9"@) by {
        reveal_strlit("f9");
        assert("f9"@.len() == 2);
    }
    assert(seq![c] != "f10"@) by {
        reveal_strlit("f10");
        assert("f10"@.len() == 3);
    }
    assert(seq![c] != "f11"@) by {
        reveal_strlit("f11");
        assert("f11"@.len() == 3);
    }
    assert(seq![c] != "f12"@) by {
        reveal_strlit("f12");
        assert("f12"@.len() == 3);
    }
    assert(seq![c] != "f13"@) by {
        reveal_strlit("f13");
        assert("f13"@.len() == 3);
    }
    assert(seq![c] != "f14"@) by {
        reveal_strlit("f14");
        assert("f14"@.len() == 3);
    }
    assert(seq![c] != "f15"@) by {
        reveal_strlit("f15");
        assert("f15"@.len() == 3);
    }
    assert(seq![c] != "f16"@) by {
        reveal_strlit("f16");
        assert("f16"@.len() == 3);
    }
    assert(seq![c] != "f17"@) by {
        reveal_strlit("f17");
        assert("f17"@.len() == 3);
    }
    assert(seq![c] != "f18"@) by {
        reveal_strlit("f18");
        assert("f18"@.len() == 3);
    }
    assert(seq![c] != "f19"@) by {
        reveal_strlit("f19");
        assert("f19"@.len() == 3);
    }
    assert(seq![c] != "f20"@) by {
        reveal_strlit("f20");
        assert("f20"@.len() == 3);
    }
    assert(seq![c] != "up"@) by {
        reveal_strlit("up");
        assert("up"@.len() == 2);
    }
    assert(seq![c] != "down"@) by {
        reveal_strlit("down");
        assert("down"@.len() == 4);
    }
    assert(seq![c] != "left"@) by {
        reveal_strlit("left");
        assert("left"@.len() == 4);
    }
    assert(seq![c] != "right"@) by {
        reveal_strlit("right");
        assert("right"@.len() == 5);
    }
    assert(seq![c] != "pageup"@) by {
        reveal_strlit("pageup");
        assert("pageup"@.len() == 6);
    }
    assert(seq![c] != "pagedown"@) by {
        reveal_strlit("pagedown");
        assert("pagedown"@.len() == 8);
    }
    assert(seq![c] != "home"@) by {
        reveal_strlit("home");
        assert("home"@.len() == 4);
    }
    assert(seq![c] != "end"@) by {
        reveal_strlit("end");
        assert("end"@.len() == 3);
    }
}

/// A part of the text: not empty, no `+` in it, and no whitespace at
/// either end.
pub open spec fn clean_part(p: Seq<char>) -> bool {
    &&& p.len() > 0
    &&& forall|i: int| 0 <= i < p.len() ==> #[trigger] p[i] != '+'
    &&& !is_white_space(p[0])
    &&& !is_white_space(p.last())
}

proof fn lemma_plain_is_clean(w: Seq<char>)
    requires
        plain_word(w),
    ensures
        clean_part(w),
        lower_seq(w) == w,
{
    assert(plain_char(w[0]));
    assert(plain_char(w[w.len() - 1]));
    assert forall|i: int| 0 <= i < w.len() implies #[trigger] w[i] != '+' by {
        assert(plain_char(w[i]));
    }
    assert forall|i: int| 0 <= i < w.len() implies #[trigger] lower_seq(w)[i] == w[i] by {
        assert(plain_char(w[i]));
    }
    assert(lower_seq(w) =~= w);
}

/// Pieces free of `+`, joined with `+`, split back into themselves.
pub(crate) proof fn lemma_split_join(parts: Seq<Seq<char>>)
    requires
        parts.len() >= 1,
        forall|k: int| 0 <= k < parts.len() ==> free_of(#[trigger] parts[k], '+'),
    ensures
        split_spec(join_plus(parts), '+') == parts,
    decreases parts.len(),
{
    let last = parts.last();
    assert(free_of(parts[parts.len() - 1], '+'));
    if parts.len() == 1 {
        let e = Seq::<char>::empty();
        lemma_split_append_plain(e, last, '+');
        assert(e + last =~= last);
        assert(split_spec(e, '+') =~= seq![e]);
        assert(split_spec(join_plus(parts), '+') =~= parts);
    } else {
        let init = parts.drop_last();
        assert forall|k: int| 0 <= k < init.len() implies free_of(#[trigger] init[k], '+') by {
            assert(init[k] == parts[k]);
        }
        lemma_split_join(init);
        let a = join_plus(init) + seq!['+'];
        assert(a.drop_last() =~= join_plus(init));
        assert(a.last() == '+');
        assert(split_spec(a, '+') == split_spec(join_plus(init), '+').push(Seq::<char>::empty()));
        lemma_split_append_plain(a, last, '+');
        assert(join_plus(parts) == a + last);
        assert(Seq::<char>::empty() + last =~= last);
        assert(split_spec(join_plus(parts), '+') =~= parts);
    }
}

proof fn lemma_join_ends(parts: Seq<Seq<char>>)
    requires
        parts.len() >= 1,
        forall|k: int| 0 <= k < parts.len() ==> clean_part(#[trigger] parts[k]),
    ensures
        join_plus(parts).len() > 0,
        join_plus(parts)[0] == parts[0][0],
        join_plus(parts).last() == parts.last().last(),
    decreases parts.len(),
{
    assert(clean_part(parts[0]));
    assert(clean_part(parts[parts.len() - 1]));
    if parts.len() > 1 {
        let init = parts.drop_last();
        assert forall|k: int| 0 <= k < init.len() implies clean_part(#[trigger] init[k]) by {
            assert(init[k] == parts[k]);
        }
        lemma_join_ends(init);
        assert(init[0] == parts[0]);
    }
}

proof fn lemma_clean_trims_to_itself(p: Seq<char>)
    requires
        p.len() > 0,
        !is_white_space(p[0]),
        !is_white_space(p.last()),
    ensures
        trim_spec(p) == p,
{
    assert(trim_start(p) == p);
    assert(trim_end(p) == p);
}

/// The parts the text of a combo is joined from: the modifier names in
/// display order, then the key.
pub open spec fn combo_parts(c: KeyCombo) -> Seq<Seq<char>> {
    modifier_words(c.modifiers).push(spec_key_text(c.key))
}

proof fn lemma_words_plain(m: Modifiers)
    ensures
        forall|k: int| 0 <= k < modifier_words(m).len() ==> plain_word(#[trigger] modifier_words(m)[k]),
        modifier_words(m).len() == 0 <==> m == Modifiers::none(),
{
    reveal_strlit("ctrl");
    reveal_strlit("opt");
    reveal_strlit("shift");
    reveal_strlit("cmd");
    reveal_strlit("fn");
    let w = modifier_words(m);
    assert forall|k: int| 0 <= k < w.len() implies plain_word(#[trigger] w[k]) by {
        assert(w[k] == "ctrl"@ || w[k] == "opt"@ || w[k] == "shift"@ || w[k] == "cmd"@ || w[k] == "fn"@);
    }
}

proof fn lemma_words_parse(m: Modifiers)
    ensures
        spec_parse_modifiers(modifier_words(m)) == Ok::<Modifiers, super::parse::ParseFailure>(m),
{
    reveal_strlit("ctrl");
    reveal_strlit("opt");
    reveal_strlit("shift");
    reveal_strlit("cmd");
    reveal_strlit("fn");
    reveal_strlit("command");
    reveal_strlit("alt");
    reveal_strlit("option");
    reveal_strlit("control");
    reveal_strlit("globe");
    let none = Modifiers::none();
    lemma_plain_is_clean("ctrl"@);
    lemma_plain_is_clean("opt"@);
    lemma_plain_is_clean("shift"@);
    lemma_plain_is_clean("cmd"@);
    lemma_plain_is_clean("fn"@);
    assert(spec_parse_modifier("ctrl"@) == Ok::<Modifiers, super::parse::ParseFailure>(Modifiers { ctrl: true, ..none }));
    assert(spec_parse_modifier("opt"@) == Ok::<Modifiers, super::parse::ParseFailure>(Modifiers { opt: true, ..none }));
    assert(spec_parse_modifier("shift"@) == Ok::<Modifiers, super::parse::ParseFailure>(Modifiers { shift: true, ..none }));
    assert(spec_parse_modifier("cmd"@) == Ok::<Modifiers, super::parse::ParseFailure>(Modifiers { cmd: true, ..none }));
    assert(spec_parse_modifier("fn"@) == Ok::<Modifiers, super::parse::ParseFailure>(Modifiers { fn_key: true, ..none }));
    let w0 = Seq::<Seq<char>>::empty();
    let m0 = none;
    assert(spec_parse_modifiers(w0) == Ok::<Modifiers, super::parse::ParseFailure>(m0));
    let w1 = if m.ctrl { w0.push("ctrl"@) } else { w0 };
    let m1 = Modifiers { ctrl: m.ctrl, ..none };
    assert(w1.len() > 0 ==> w1.drop_last() =~= w0);
    assert(spec_parse_modifiers(w1) == Ok::<Modifiers, super::parse::ParseFailure>(m1));
    let w2 = if m.opt { w1.push("opt"@) } else { w1 };
    let m2 = Modifiers { opt: m.opt, ..m1 };
    assert(m.opt ==> w2.drop_last() =~= w1);
    assert(spec_parse_modifiers(w2) == Ok::<Modifiers, super::parse::ParseFailure>(m2));
    let w3 = if m.shift { w2.push("shift"@) } else { w2 };
    let m3 = Modifiers { shift: m.shift, ..m2 };
    assert(m.shift ==> w3.drop_last() =~= w2);
    assert(spec_parse_modifiers(w3) == Ok::<Modifiers, super::parse::ParseFailure>(m3));
    let w4 = if m.cmd { w3.push("cmd"@) } else { w3 };
    let m4 = Modifiers { cmd: m.cmd, ..m3 };
    assert(m.cmd ==> w4.drop_last() =~= w3);
    assert(spec_parse_modifiers(w4) == Ok::<Modifiers, super::parse::ParseFailure>(m4));
    let w5 = if m.fn_key { w4.push("fn"@) } else { w4 };
    let m5 = Modifiers { fn_key: m.fn_key, ..m4 };
    assert(m.fn_key ==> w5.drop_last() =~= w4);
    assert(spec_parse_modifiers(w5) == Ok::<Modifiers, super::parse::ParseFailure>(m5));
    assert(w5 =~= modifier_words(m));
    assert(m5 == m);
}

proof fn lemma_key_parses(k: Key)
    requires
        spellable(k),
    ensures
        clean_part(spec_key_text(k)),
        spec_parse_key(spec_key_text(k)) == Ok::<Key, super::parse::ParseFailure>(k),
{
    match k {
        Key::Named(n) => {
            lemma_named_key_names(n);
            lemma_plain_is_clean(n.spec_name());
        },
        Key::Char(c) => {
            lemma_no_named_single_char(c);
            assert(lower_seq(seq![c]) =~= seq![ascii_lower(c)]);
        },
        Key::Virtual(_) => {},
    }
}

/// The text of a combo parses back to the combo: display writes the
/// modifier names and the key joined with `+`, and parse reads exactly
/// that, for every combo whose key the syntax can spell. A virtual key
/// (`vk42`), `+`, whitespace and ASCII capitals have no spelling that
/// reads back: the parser lowercases.
pub proof fn law_parse_reads_back_display(c: KeyCombo)
    requires
        spellable(c.key),
    ensures
        spec_parse_combo(spec_combo_text(c)) == Ok::<KeyCombo, super::parse::ParseFailure>(c),
{
    let words = modifier_words(c.modifiers);
    let parts = combo_parts(c);
    lemma_words_plain(c.modifiers);
    lemma_words_parse(c.modifiers);
    lemma_key_parses(c.key);
    assert forall|k: int| 0 <= k < parts.len() implies clean_part(#[trigger] parts[k]) by {
        if k < words.len() {
            assert(parts[k] == words[k]);
            assert(plain_word(words[k]));
            lemma_plain_is_clean(words[k]);
        } else {
            assert(parts[k] == spec_key_text(c.key));
        }
    }
    let text = join_plus(parts);
    if words.len() == 0 {
        assert(parts =~= seq![spec_key_text(c.key)]);
        assert(text == spec_key_text(c.key));
    } else {
        assert(parts.drop_last() =~= words);
        assert(text == spec_modifiers_text(c.modifiers) + seq!['+'] + spec_key_text(c.key));
    }
    assert(text == spec_combo_text(c));
    lemma_clean_join_tokens(parts);
    let tokens = combo_tokens(text);
    assert(tokens.drop_last() =~= words);
    assert(!(exists|i: int| 0 <= i < tokens.len() && #[trigger] tokens[i].len() == 0));
}

} // verus!

verus! {

proof fn lemma_lower_char_facts(c: char)
    ensures
        is_white_space(ascii_lower(c)) == is_white_space(c),
        (ascii_lower(c) == '+') == (c == '+'),
        ascii_lower(ascii_lower(c)) == ascii_lower(c),
{
}

proof fn lemma_lower_idempotent(s: Seq<char>)
    ensures
        lower_seq(lower_seq(s)) == lower_seq(s),
{
    assert forall|i: int| 0 <= i < s.len() implies #[trigger] lower_seq(lower_seq(s))[i] == lower_seq(s)[i] by {
        lemma_lower_char_facts(s[i]);
    }
    assert(lower_seq(lower_seq(s)) =~= lower_seq(s));
}

proof fn lemma_trim_start_lower(s: Seq<char>)
    ensures
        trim_start(lower_seq(s)) == lower_seq(trim_start(s)),
    decreases s.len(),
{
    if s.len() > 0 {
        lemma_lower_char_facts(s[0]);
        assert(lower_seq(s)[0] == ascii_lower(s[0]));
        assert(lower_seq(s).drop_first() =~= lower_seq(s.drop_first()));
        lemma_trim_start_lower(s.drop_first());
    } else {
        assert(lower_seq(s) =~= s);
    }
}

proof fn lemma_trim_end_lower(s: Seq<char>)
    ensures
        trim_end(lower_seq(s)) == lower_seq(trim_end(s)),
    decreases s.len(),
{
    if s.len() > 0 {
        lemma_lower_char_facts(s.last());
        assert(lower_seq(s).last() == ascii_lower(s.last()));
        assert(lower_seq(s).drop_last() =~= lower_seq(s.drop_last()));
        lemma_trim_end_lower(s.drop_last());
    } else {
        assert(lower_seq(s) =~= s);
    }
}

proof fn lemma_trim_lower(s: Seq<char>)
    ensures
        trim_spec(lower_seq(s)) == lower_seq(trim_spec(s)),
{
    lemma_trim_start_lower(s);
    lemma_trim_end_lower(trim_start(s));
}

proof fn lemma_split_lower(s: Seq<char>)
    ensures
        split_spec(lower_seq(s), '+') == split_spec(s, '+').map_values(|p: Seq<char>| lower_seq(p)),
    decreases s.len(),
{
    lemma_split_nonempty(s, '+');
    if s.len() == 0 {
        assert(lower_seq(s) =~= s);
        assert(lower_seq(Seq::<char>::empty()) =~= Seq::<char>::empty());
        assert(split_spec(s, '+').map_values(|p: Seq<char>| lower_seq(p)) =~= seq![Seq::<char>::empty()]);
    } else {
        let t = s.drop_last();
        lemma_split_lower(t);
        lemma_split_nonempty(t, '+');
        lemma_lower_char_facts(s.last());
        assert(lower_seq(s).drop_last() =~= lower_seq(t));
        assert(lower_seq(s).last() == ascii_lower(s.last()));
        let prev = split_spec(t, '+');
        if s.last() == '+' {
            assert(lower_seq(Seq::<char>::empty()) =~= Seq::<char>::empty());
            assert(split_spec(lower_seq(s), '+') =~= split_spec(s, '+').map_values(|p: Seq<char>| lower_seq(p)));
        } else {
            assert(lower_seq(prev.last().push(s.last())) =~= lower_seq(prev.last()).push(ascii_lower(s.last())));
            assert(split_spec(lower_seq(s), '+') =~= split_spec(s, '+').map_values(|p: Seq<char>| lower_seq(p)));
        }
    }
}

proof fn lemma_tokens_lower(raw: Seq<char>)
    ensures
        combo_tokens(lower_seq(raw)) == combo_tokens(raw).map_values(|t: Seq<char>| lower_seq(t)),
{
    lemma_split_lower(raw);
    let a = combo_tokens(lower_seq(raw));
    let b = combo_tokens(raw).map_values(|t: Seq<char>| lower_seq(t));
    assert forall|i: int| 0 <= i < a.len() implies #[trigger] a[i] == b[i] by {
        lemma_trim_lower(split_spec(raw, '+')[i]);
    }
    assert(a =~= b);
}

proof fn lemma_modifiers_lower(ts: Seq<Seq<char>>)
    ensures
        spec_parse_modifiers(ts.map_values(|t: Seq<char>| lower_seq(t))) is Ok == spec_parse_modifiers(ts) is Ok,
        spec_parse_modifiers(ts) is Ok ==> spec_parse_modifiers(ts.map_values(|t: Seq<char>| lower_seq(t)))
            == spec_parse_modifiers(ts),
    decreases ts.len(),
{
    let ls = ts.map_values(|t: Seq<char>| lower_seq(t));
    if ts.len() > 0 {
        lemma_modifiers_lower(ts.drop_last());
        assert(ls.drop_last() =~= ts.drop_last().map_values(|t: Seq<char>| lower_seq(t)));
        assert(ls.last() == lower_seq(ts.last()));
        lemma_lower_idempotent(ts.last());
    }
}

proof fn lemma_key_lower(t: Seq<char>)
    ensures
        spec_parse_key(lower_seq(t)) is Ok == spec_parse_key(t) is Ok,
        spec_parse_key(t) is Ok ==> spec_parse_key(lower_seq(t)) == spec_parse_key(t),
{
    lemma_lower_idempotent(t);
    if t.len() == 1 {
        lemma_lower_char_facts(t[0]);
        assert(lower_seq(t)[0] == ascii_lower(t[0]));
    }
}

/// Parsing ignores ASCII case: a text and its ASCII-lowercased form
/// parse to the same combo, and one fails exactly when the other does
/// (an error quotes the token as written).
pub proof fn law_parse_ignores_ascii_case(s: Seq<char>)
    ensures
        spec_parse_combo(lower_seq(s)) is Ok == spec_parse_combo(s) is Ok,
        spec_parse_combo(s) is Ok ==> spec_parse_combo(lower_seq(s)) == spec_parse_combo(s),
{
    let raw = trim_spec(s);
    lemma_trim_lower(s);
    assert(trim_spec(lower_seq(s)) == lower_seq(raw));
    lemma_tokens_lower(raw);
    let tokens = combo_tokens(raw);
    let lt = combo_tokens(lower_seq(raw));
    assert(lt == tokens.map_values(|t: Seq<char>| lower_seq(t)));
    assert(lower_seq(raw).len() == raw.len());
    assert((exists|i: int| 0 <= i < lt.len() && #[trigger] lt[i].len() == 0) == (exists|i: int|
        0 <= i < tokens.len() && #[trigger] tokens[i].len() == 0)) by {
        if exists|i: int| 0 <= i < lt.len() && #[trigger] lt[i].len() == 0 {
            let i = choose|i: int| 0 <= i < lt.len() && #[trigger] lt[i].len() == 0;
            assert(tokens[i].len() == 0);
        }
        if exists|i: int| 0 <= i < tokens.len() && #[trigger] tokens[i].len() == 0 {
            let i = choose|i: int| 0 <= i < tokens.len() && #[trigger] tokens[i].len() == 0;
            assert(lt[i].len() == 0);
        }
    }
    if tokens.len() > 0 {
        assert(lt.drop_last() =~= tokens.drop_last().map_values(|t: Seq<char>| lower_seq(t)));
        assert(lt.last() == lower_seq(tokens.last()));
        lemma_modifiers_lower(tokens.drop_last());
        lemma_key_lower(tokens.last());
    }
    lemma_split_nonempty(raw, '+');
}

} // verus!

verus! {

/// Whether some token of `ts` names a modifier that holds `pick`.
pub open spec fn some_token_holds(ts: Seq<Seq<char>>, pick: spec_fn(Modifiers) -> bool) -> bool {
    exists|i: int| 0 <= i < ts.len() && (#[trigger] spec_parse_modifier(ts[i])) is Ok && pick(
        spec_parse_modifier(ts[i])->Ok_0,
    )
}

pub(crate) proof fn lemma_modifiers_meaning(ts: Seq<Seq<char>>)
    ensures
        spec_parse_modifiers(ts) is Ok <==> forall|i: int| 0 <= i < ts.len() ==> (#[trigger] spec_parse_modifier(ts[i])) is Ok,
        spec_parse_modifiers(ts) is Ok ==> {
            let m = spec_parse_modifiers(ts)->Ok_0;
            &&& m.cmd == some_token_holds(ts, |x: Modifiers| x.cmd)
            &&& m.opt == some_token_holds(ts, |x: Modifiers| x.opt)
            &&& m.ctrl == some_token_holds(ts, |x: Modifiers| x.ctrl)
            &&& m.shift == some_token_holds(ts, |x: Modifiers| x.shift)
            &&& m.fn_key == some_token_holds(ts, |x: Modifiers| x.fn_key)
        },
    decreases ts.len(),
{
    if ts.len() > 0 {
        let init = ts.drop_last();
        lemma_modifiers_meaning(init);
        assert forall|i: int| 0 <= i < init.len() implies #[trigger] init[i] == ts[i] by {}
        if forall|i: int| 0 <= i < ts.len() ==> (#[trigger] spec_parse_modifier(ts[i])) is Ok {
            assert forall|i: int| 0 <= i < init.len() implies (#[trigger] spec_parse_modifier(init[i])) is Ok by {
                assert(spec_parse_modifier(ts[i]) is Ok);
            }
            assert(spec_parse_modifier(ts[ts.len() - 1]) is Ok);
        }
        if spec_parse_modifiers(ts) is Ok {
            assert forall|i: int| 0 <= i < ts.len() implies (#[trigger] spec_parse_modifier(ts[i])) is Ok by {
                if i < init.len() {
                    assert(spec_parse_modifier(init[i]) is Ok);
                }
            }
            let last = ts.len() - 1;
            let picks = seq![
                |x: Modifiers| x.cmd,
                |x: Modifiers| x.opt,
                |x: Modifiers| x.ctrl,
                |x: Modifiers| x.shift,
                |x: Modifiers| x.fn_key,
            ];
            assert forall|p: spec_fn(Modifiers) -> bool| #![auto] picks.contains(p) implies some_token_holds(ts, p) == (
            some_token_holds(init, p) || p(spec_parse_modifier(ts[last])->Ok_0)) by {
                if some_token_holds(init, p) {
                    let i = choose|i: int|
                        0 <= i < init.len() && (#[trigger] spec_parse_modifier(init[i])) is Ok && p(
                            spec_parse_modifier(init[i])->Ok_0,
                        );
                    assert(spec_parse_modifier(ts[i]) == spec_parse_modifier(init[i]));
                }
                if p(spec_parse_modifier(ts[last])->Ok_0) {
                    assert(spec_parse_modifier(ts[last]) is Ok);
                }
                if some_token_holds(ts, p) {
                    let i = choose|i: int|
                        0 <= i < ts.len() && (#[trigger] spec_parse_modifier(ts[i])) is Ok && p(
                            spec_parse_modifier(ts[i])->Ok_0,
                        );
                    if i < last {
                        assert(spec_parse_modifier(init[i]) == spec_parse_modifier(ts[i]));
                    }
                }
            }
            assert(picks.contains(picks[0]));
            assert(picks.contains(picks[1]));
            assert(picks.contains(picks[2]));
            assert(picks.contains(picks[3]));
            assert(picks.contains(picks[4]));
        }
    }
}

/// Exchange the tokens at `i` and `j`.
pub open spec fn swapped(ts: Seq<Seq<char>>, i: int, j: int) -> Seq<Seq<char>> {
    ts.update(i, ts[j]).update(j, ts[i])
}

proof fn lemma_swap_holds(ts: Seq<Seq<char>>, i: int, j: int, p: spec_fn(Modifiers) -> bool)
    requires
        0 <= i < ts.len(),
        0 <= j < ts.len(),
    ensures
        some_token_holds(swapped(ts, i, j), p) == some_token_holds(ts, p),
{
    let us = swapped(ts, i, j);
    if some_token_holds(ts, p) {
        let k = choose|k: int| 0 <= k < ts.len() && (#[trigger] spec_parse_modifier(ts[k])) is Ok && p(spec_parse_modifier(ts[k])->Ok_0);
        let k2 = if k == i { j } else if k == j { i } else { k };
        assert(us[k2] == ts[k]);
        assert(spec_parse_modifier(us[k2]) is Ok);
    }
    if some_token_holds(us, p) {
        let k = choose|k: int| 0 <= k < us.len() && (#[trigger] spec_parse_modifier(us[k])) is Ok && p(spec_parse_modifier(us[k])->Ok_0);
        let k2 = if k == i { j } else if k == j { i } else { k };
        assert(ts[k2] == us[k]);
        assert(spec_parse_modifier(ts[k2]) is Ok);
    }
}

/// The order of modifier names does not matter: exchanging two of them
/// parses to the same modifiers (`shift+cmd` is `cmd+shift`).
pub proof fn law_modifier_order_is_irrelevant(ts: Seq<Seq<char>>, i: int, j: int)
    requires
        0 <= i < ts.len(),
        0 <= j < ts.len(),
    ensures
        spec_parse_modifiers(swapped(ts, i, j)) is Ok == spec_parse_modifiers(ts) is Ok,
        spec_parse_modifiers(ts) is Ok ==> spec_parse_modifiers(swapped(ts, i, j)) == spec_parse_modifiers(ts),
{
    let us = swapped(ts, i, j);
    lemma_modifiers_meaning(ts);
    lemma_modifiers_meaning(us);
    assert(us.len() == ts.len());
    assert((forall|k: int| 0 <= k < us.len() ==> (#[trigger] spec_parse_modifier(us[k])) is Ok) == (forall|k: int|
        0 <= k < ts.len() ==> (#[trigger] spec_parse_modifier(ts[k])) is Ok)) by {
        if forall|k: int| 0 <= k < ts.len() ==> (#[trigger] spec_parse_modifier(ts[k])) is Ok {
            assert forall|k: int| 0 <= k < us.len() implies (#[trigger] spec_parse_modifier(us[k])) is Ok by {
                let k2 = if k == i { j } else if k == j { i } else { k };
                assert(us[k] == ts[k2]);
                assert(spec_parse_modifier(ts[k2]) is Ok);
            }
        }
        if forall|k: int| 0 <= k < us.len() ==> (#[trigger] spec_parse_modifier(us[k])) is Ok {
            assert forall|k: int| 0 <= k < ts.len() implies (#[trigger] spec_parse_modifier(ts[k])) is Ok by {
                let k2 = if k == i { j } else if k == j { i } else { k };
                assert(ts[k] == us[k2]);
                assert(spec_parse_modifier(us[k2]) is Ok);
            }
        }
    }
    lemma_swap_holds(ts, i, j, |x: Modifiers| x.cmd);
    lemma_swap_holds(ts, i, j, |x: Modifiers| x.opt);
    lemma_swap_holds(ts, i, j, |x: Modifiers| x.ctrl);
    lemma_swap_holds(ts, i, j, |x: Modifiers| x.shift);
    lemma_swap_holds(ts, i, j, |x: Modifiers| x.fn_key);
}


/// Clean parts joined with `+` come back as the tokens of the text.
proof fn lemma_clean_join_tokens(parts: Seq<Seq<char>>)
    requires
        parts.len() >= 1,
        forall|k: int| 0 <= k < parts.len() ==> clean_part(#[trigger] parts[k]),
    ensures
        trim_spec(join_plus(parts)) == join_plus(parts),
        join_plus(parts).len() > 0,
        combo_tokens(join_plus(parts)) == parts,
{
    let text = join_plus(parts);
    lemma_join_ends(parts);
    assert(clean_part(parts[0]));
    assert(clean_part(parts[parts.len() - 1]));
    lemma_clean_trims_to_itself(text);
    assert forall|k: int| 0 <= k < parts.len() implies free_of(#[trigger] parts[k], '+') by {
        assert(clean_part(parts[k]));
    }
    lemma_split_join(parts);
    let tokens = combo_tokens(text);
    assert forall|k: int| 0 <= k < parts.len() implies #[trigger] tokens[k] == parts[k] by {
        assert(clean_part(parts[k]));
        lemma_clean_trims_to_itself(parts[k]);
    }
    assert(tokens =~= parts);
}

} // verus!
