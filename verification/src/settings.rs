//! The configuration record of the generator.

use vstd::prelude::*;

verus! {

/// Which pool of special characters is appended to the character set.
#[derive(Clone, Copy, Debug, PartialEq, Eq, Structural)]
pub enum SpecialCharacterUsage {
    /// No special characters.
    Off,
    /// The small pool.
    Simple,
    /// The extended pool, which starts with the small one.
    All,
}

/// What a password is made of and how long it is.
///
/// Every combination of fields is legal. With all classes switched off and no
/// custom character set in use, the effective character set is empty and
/// generation fails.
#[derive(Clone, Copy, Debug)]
pub struct PasswordGeneratorSettings {
    /// Draw from the generator's custom character set instead of the
    /// assembled one.
    pub use_custom_charset: bool,
    pub use_lowercase_letters: bool,
    pub use_uppercase_letters: bool,
    pub use_numbers: bool,
    pub special_character_usage: SpecialCharacterUsage,
    /// Number of characters to produce.
    pub pw_length: usize,
}

impl Default for PasswordGeneratorSettings {
    /// Letters of both cases and digits, no special characters, eight
    /// characters long.
    fn default() -> (settings: Self)
        ensures
            settings == Self::default_settings(),
    {
        PasswordGeneratorSettings {
            use_custom_charset: false,
            use_lowercase_letters: true,
            use_uppercase_letters: true,
            use_numbers: true,
            special_character_usage: SpecialCharacterUsage::Off,
            pw_length: 8,
        }
    }
}

impl PasswordGeneratorSettings {
    /// The settings that a generator starts with: letters of both cases and
    /// digits, no special characters, eight characters, no custom set.
    pub open spec fn default_settings() -> Self {
        PasswordGeneratorSettings {
            use_custom_charset: false,
            use_lowercase_letters: true,
            use_uppercase_letters: true,
            use_numbers: true,
            special_character_usage: SpecialCharacterUsage::Off,
            pw_length: 8,
        }
    }

    /// Builds a settings record from its six fields, without validation.
    pub fn new(
        use_custom_charset: bool,
        use_lowercase_letters: bool,
        use_uppercase_letters: bool,
        use_numbers: bool,
        special_character_usage: SpecialCharacterUsage,
        length: usize,
    ) -> (settings: Self)
        ensures
            settings == (PasswordGeneratorSettings {
                use_custom_charset,
                use_lowercase_letters,
                use_uppercase_letters,
                use_numbers,
                special_character_usage,
                pw_length: length,
            }),
    {
        PasswordGeneratorSettings {
            use_custom_charset,
            use_lowercase_letters,
            use_uppercase_letters,
            use_numbers,
            special_character_usage,
            pw_length: length,
        }
    }
}

} // verus!
