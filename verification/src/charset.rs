//! The character classes and the set assembled from them.

use vstd::prelude::*;
use vstd::string::*;

use crate::settings::{PasswordGeneratorSettings, SpecialCharacterUsage};

verus! {

/// The lowercase letters.
pub const LETTERS_L: &'static str = "abcdefghijklmnopqrstuvwxyz";

/// The uppercase letters.
pub const LETTERS_U: &'static str = "ABCDEFGHIJKLMNOPQRSTUVWXYZ";

/// The decimal digits.
pub const NUMBERS: &'static str = "0123456789";

/// The small pool of special characters.
pub const SIMPLE_SPECIAL_CHARS: &'static str = ".!?_-";

/// The extended pool of special characters.
pub const ALL_SPECIAL_CHARS: &'static str = ".!?_-#,;:+*~=&";

/// The pool of special characters that `usage` selects.
pub open spec fn special_chars(usage: SpecialCharacterUsage) -> Seq<char> {
    match usage {
        SpecialCharacterUsage::Off => Seq::empty(),
        SpecialCharacterUsage::Simple => SIMPLE_SPECIAL_CHARS@,
        SpecialCharacterUsage::All => ALL_SPECIAL_CHARS@,
    }
}

/// `class` where `enabled`, else nothing.
pub open spec fn class_if(enabled: bool, class: Seq<char>) -> Seq<char> {
    if enabled {
        class
    } else {
        Seq::empty()
    }
}

/// The character set that `settings` describes: the enabled classes one after
/// another, lowercase letters first, then uppercase letters, digits and the
/// selected special characters. Nothing is removed and nothing reordered.
pub open spec fn standard_charset(settings: PasswordGeneratorSettings) -> Seq<char> {
    class_if(settings.use_lowercase_letters, LETTERS_L@)
        + class_if(settings.use_uppercase_letters, LETTERS_U@)
        + class_if(settings.use_numbers, NUMBERS@)
        + special_chars(settings.special_character_usage)
}

impl PasswordGeneratorSettings {
    /// Whether at least one character class takes part in the assembled set.
    pub open spec fn any_class_enabled(self) -> bool {
        ||| self.use_lowercase_letters
        ||| self.use_uppercase_letters
        ||| self.use_numbers
        ||| self.special_character_usage != SpecialCharacterUsage::Off
    }

    /// Assembles the character set of these settings.
    pub fn charset(&self) -> (chars: String)
        ensures
            chars@ == standard_charset(*self),
    {
        let mut chars = String::new();
        if self.use_lowercase_letters {
            chars.append(LETTERS_L);
        }
        if self.use_uppercase_letters {
            chars.append(LETTERS_U);
        }
        if self.use_numbers {
            chars.append(NUMBERS);
        }
        match self.special_character_usage {
            SpecialCharacterUsage::Off => {},
            SpecialCharacterUsage::Simple => chars.append(SIMPLE_SPECIAL_CHARS),
            SpecialCharacterUsage::All => chars.append(ALL_SPECIAL_CHARS),
        }
        chars
    }
}

/// The five classes hold exactly the characters that their names promise, in
/// this order.
pub proof fn lemma_class_contents()
    ensures
        LETTERS_L@ == seq![
            'a', 'b', 'c', 'd', 'e', 'f', 'g', 'h', 'i', 'j', 'k', 'l', 'm',
            'n', 'o', 'p', 'q', 'r', 's', 't', 'u', 'v', 'w', 'x', 'y', 'z',
        ],
        LETTERS_U@ == seq![
            'A', 'B', 'C', 'D', 'E', 'F', 'G', 'H', 'I', 'J', 'K', 'L', 'M',
            'N', 'O', 'P', 'Q', 'R', 'S', 'T', 'U', 'V', 'W', 'X', 'Y', 'Z',
        ],
        NUMBERS@ == seq!['0', '1', '2', '3', '4', '5', '6', '7', '8', '9'],
        SIMPLE_SPECIAL_CHARS@ == seq!['.', '!', '?', '_', '-'],
        ALL_SPECIAL_CHARS@ == seq![
            '.', '!', '?', '_', '-', '#', ',', ';', ':', '+', '*', '~', '=', '&',
        ],
{
    reveal_strlit("abcdefghijklmnopqrstuvwxyz");
    reveal_strlit("ABCDEFGHIJKLMNOPQRSTUVWXYZ");
    reveal_strlit("0123456789");
    reveal_strlit(".!?_-");
    reveal_strlit(".!?_-#,;:+*~=&");
}

/// The small pool of special characters has five members, the extended pool
/// fourteen, and the extended pool begins with the small one: every character
/// of the small pool is in the extended pool.
pub proof fn lemma_simple_pool_starts_all_pool()
    ensures
        special_chars(SpecialCharacterUsage::Off).len() == 0,
        special_chars(SpecialCharacterUsage::Simple).len() == 5,
        special_chars(SpecialCharacterUsage::All).len() == 14,
        special_chars(SpecialCharacterUsage::Simple) == special_chars(
            SpecialCharacterUsage::All,
        ).subrange(0, 5),
        forall|c: char|
            special_chars(SpecialCharacterUsage::Simple).contains(c) ==> special_chars(
                SpecialCharacterUsage::All,
            ).contains(c),
{
    lemma_class_contents();
    let simple = special_chars(SpecialCharacterUsage::Simple);
    let all = special_chars(SpecialCharacterUsage::All);
    assert(simple =~= all.subrange(0, 5));
    assert forall|c: char| simple.contains(c) implies all.contains(c) by {
        let i = choose|i: int| 0 <= i < simple.len() && simple[i] == c;
        assert(all[i] == c);
    }
}

/// The assembled set is as long as its enabled classes together: 26 for each
/// case of letters, 10 for the digits, and the size of the selected pool.
pub proof fn lemma_standard_charset_len(settings: PasswordGeneratorSettings)
    ensures
        standard_charset(settings).len() == (if settings.use_lowercase_letters {
            26int
        } else {
            0
        }) + (if settings.use_uppercase_letters {
            26int
        } else {
            0
        }) + (if settings.use_numbers {
            10int
        } else {
            0
        }) + special_chars(settings.special_character_usage).len(),
        standard_charset(settings).len() <= 76,
{
    lemma_class_contents();
    lemma_simple_pool_starts_all_pool();
}

/// Every character of the assembled set is an ASCII character, so the set
/// takes one byte for each of its characters.
pub proof fn lemma_standard_charset_is_ascii(settings: PasswordGeneratorSettings)
    ensures
        vstd::utf8::is_ascii_chars(standard_charset(settings)),
{
    lemma_class_contents();
    let chars = standard_charset(settings);
    assert forall|i: int| 0 <= i < chars.len() implies '\0' <= #[trigger] chars[i] <= '\u{7f}' by {
        lemma_standard_charset_additive(settings);
        assert(chars.contains(chars[i]));
    }
}

/// The assembled set is empty exactly when no class is enabled.
pub proof fn lemma_standard_charset_empty_iff_no_class(settings: PasswordGeneratorSettings)
    ensures
        standard_charset(settings).len() > 0 <==> settings.any_class_enabled(),
        !settings.any_class_enabled() ==> standard_charset(settings) == Seq::<char>::empty(),
{
    lemma_standard_charset_len(settings);
    lemma_simple_pool_starts_all_pool();
}

/// Assembly is additive and keeps the order of the classes: a class that is
/// switched on contributes all of its characters, at the place that the
/// classes before it leave, and the classes that are switched off
/// contribute nothing. With the digits alone the set is exactly the digits.
pub proof fn lemma_standard_charset_additive(settings: PasswordGeneratorSettings)
    ensures
        settings.use_lowercase_letters ==> LETTERS_L@.is_prefix_of(standard_charset(settings)),
        !settings.use_lowercase_letters && settings.use_uppercase_letters
            ==> LETTERS_U@.is_prefix_of(standard_charset(settings)),
        special_chars(settings.special_character_usage).is_suffix_of(standard_charset(settings)),
        !settings.use_lowercase_letters && !settings.use_uppercase_letters && settings.use_numbers
            && settings.special_character_usage == SpecialCharacterUsage::Off
            ==> standard_charset(settings) == NUMBERS@,
        forall|c: char| #[trigger]
            standard_charset(settings).contains(c) <==> {
                ||| settings.use_lowercase_letters && LETTERS_L@.contains(c)
                ||| settings.use_uppercase_letters && LETTERS_U@.contains(c)
                ||| settings.use_numbers && NUMBERS@.contains(c)
                ||| special_chars(settings.special_character_usage).contains(c)
            },
{
    let lower = class_if(settings.use_lowercase_letters, LETTERS_L@);
    let upper = class_if(settings.use_uppercase_letters, LETTERS_U@);
    let digits = class_if(settings.use_numbers, NUMBERS@);
    let special = special_chars(settings.special_character_usage);
    let all = standard_charset(settings);
    assert(all == lower + upper + digits + special);
    assert(all =~= lower + (upper + digits + special));
    assert(all.subrange(0, lower.len() as int) =~= lower);
    assert((upper + digits + special).subrange(0, upper.len() as int) =~= upper);
    assert(all.subrange(all.len() - special.len(), all.len() as int) =~= special);
    if !settings.use_lowercase_letters && !settings.use_uppercase_letters && settings.use_numbers
        && settings.special_character_usage == SpecialCharacterUsage::Off {
        assert(all =~= NUMBERS@);
    }
    assert forall|c: char| #[trigger]
        all.contains(c) <==> (lower.contains(c) || upper.contains(c) || digits.contains(c)
            || special.contains(c)) by {
        vstd::seq_lib::lemma_seq_concat_contains_all_elements(lower, upper, c);
        vstd::seq_lib::lemma_seq_concat_contains_all_elements(lower + upper, digits, c);
        vstd::seq_lib::lemma_seq_concat_contains_all_elements(lower + upper + digits, special, c);
    }
}

} // verus!
