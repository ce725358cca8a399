//! The generator: settings, an optional custom character set, and the
//! generation of one password.

use vstd::prelude::*;
use vstd::string::*;

use crate::charset::{
    lemma_standard_charset_empty_iff_no_class, lemma_standard_charset_is_ascii,
    lemma_standard_charset_len, standard_charset,
};
use crate::draw::{draw_chars, drawn_from, password_from_draws};
use crate::settings::{PasswordGeneratorSettings, SpecialCharacterUsage};

verus! {

/// Generates passwords according to its settings.
///
/// The settings and the custom character set may be changed freely between
/// two passwords. The assembled character set is kept from the last
/// generation, and is assembled anew before it is used again.
pub struct PasswordGenerator {
    pub settings: PasswordGeneratorSettings,
    /// The character set to draw from where the settings ask for a custom one.
    /// `None` and the empty string are told apart, though neither can serve.
    pub custom_charset: Option<String>,
    /// The character set assembled from the settings when a password was last
    /// asked for. It is overwritten before it is read, so what is stored here
    /// has no influence on the next password.
    pub charset: Option<String>,
}

/// Whether `password` is `length` characters long and made of members of
/// `charset` alone.
pub open spec fn is_password(password: Seq<char>, charset: Seq<char>, length: nat) -> bool {
    password.len() == length && drawn_from(password, charset)
}

impl Default for PasswordGenerator {
    /// A generator with the default settings and no custom character set.
    fn default() -> (generator: Self)
        ensures
            generator.settings == PasswordGeneratorSettings::default_settings(),
            generator.custom_charset is None,
            generator.charset is None,
    {
        PasswordGenerator {
            settings: PasswordGeneratorSettings::default(),
            custom_charset: None,
            charset: None,
        }
    }
}

impl PasswordGenerator {
    /// The character set that the next password is drawn from: the custom one
    /// where the settings ask for it, which may be missing, and else the set
    /// assembled from the settings.
    pub open spec fn effective_charset(self) -> Option<Seq<char>> {
        if self.settings.use_custom_charset {
            match self.custom_charset {
                Some(chars) => Some(chars@),
                None => None,
            }
        } else {
            Some(standard_charset(self.settings))
        }
    }

    /// Whether a password can be generated: there is an effective character
    /// set and it is not empty.
    pub open spec fn can_generate(self) -> bool {
        self.effective_charset() matches Some(chars) && chars.len() > 0
    }

    /// Whether `result` is a possible outcome of generating a password in
    /// this state: a password of the length that the settings ask for, over
    /// the effective character set, where one can be generated, and the
    /// error where none can.
    pub open spec fn generates(self, result: Result<String, ()>) -> bool {
        match result {
            Ok(password) => self.can_generate() && is_password(
                password@,
                self.effective_charset().unwrap(),
                self.settings.pw_length as nat,
            ),
            Err(_) => !self.can_generate(),
        }
    }

    /// A generator with the given settings and no custom character set.
    pub fn from_settings(settings: PasswordGeneratorSettings) -> (generator: Self)
        ensures
            generator.settings == settings,
            generator.custom_charset is None,
            generator.charset is None,
    {
        PasswordGenerator { settings, custom_charset: None, charset: None }
    }

    /// Replaces the custom character set; `None` removes it.
    pub fn set_custom_chars(&mut self, custom_chars: Option<String>)
        ensures
            final(self).custom_charset == custom_chars,
            final(self).settings == old(self).settings,
            final(self).charset == old(self).charset,
    {
        self.custom_charset = custom_chars;
    }

    /// Assembles the character set of the current settings, keeps it, and
    /// returns the number of its characters.
    pub fn update_available_chars(&mut self) -> (count: usize)
        ensures
            final(self).settings == old(self).settings,
            final(self).custom_charset == old(self).custom_charset,
            final(self).charset matches Some(chars) && chars@ == standard_charset(old(self).settings),
            count == standard_charset(old(self).settings).len(),
    {
        let available_chars = self.settings.charset();
        let chars = available_chars.as_str();
        proof {
            lemma_standard_charset_is_ascii(self.settings);
            lemma_standard_charset_len(self.settings);
            is_ascii_spec_bytes(chars);
            assert(chars.spec_bytes().len() == chars@.len());
        }
        let count = chars.len();
        self.charset = Some(available_chars);
        count
    }

    /// Generates one password.
    ///
    /// The character set of the settings is assembled and kept, whichever set
    /// is then drawn from. The password has as many characters as the settings
    /// ask for, each drawn on its own from the effective character set; the
    /// first character drawn stands last. Fails, with nothing generated,
    /// exactly when the settings ask for a custom character set and none was
    /// given, or the effective character set is empty.
    pub fn generate(&mut self) -> (result: Result<String, ()>)
        ensures
            final(self).settings == old(self).settings,
            final(self).custom_charset == old(self).custom_charset,
            final(self).charset matches Some(chars) && chars@ == standard_charset(old(self).settings),
            old(self).generates(result),
    {
        self.update_available_chars();
        let charset = if self.settings.use_custom_charset {
            match &self.custom_charset {
                Some(charset) => charset,
                None => return Err(()),
            }
        } else {
            match &self.charset {
                Some(charset) => charset,
                None => return Err(()),
            }
        };
        match draw_chars(charset.as_str(), self.settings.pw_length) {
            Ok(draws) => {
                let password = password_from_draws(&draws);
                proof {
                    lemma_reverse_keeps_members(draws@, charset@);
                }
                Ok(password)
            },
            Err(_) => Err(()),
        }
    }
}

/// With the assembled set in use and at least one class enabled, every
/// outcome of a generation is a password of the length asked for, made of
/// characters of the assembled set.
pub proof fn lemma_enabled_class_gives_password(
    generator: PasswordGenerator,
    result: Result<String, ()>,
)
    requires
        generator.generates(result),
        !generator.settings.use_custom_charset,
        generator.settings.any_class_enabled(),
    ensures
        result matches Ok(password) && password@.len() == generator.settings.pw_length
            && drawn_from(password@, standard_charset(generator.settings)),
{
    lemma_standard_charset_empty_iff_no_class(generator.settings);
}

/// With a custom set in use that is not empty, every outcome of a generation
/// is a password of the length asked for, made of characters of the custom
/// set, whatever the classes are set to.
pub proof fn lemma_custom_charset_gives_password(
    generator: PasswordGenerator,
    custom: String,
    result: Result<String, ()>,
)
    requires
        generator.generates(result),
        generator.settings.use_custom_charset,
        generator.custom_charset == Some(custom),
        custom@.len() > 0,
    ensures
        result matches Ok(password) && password@.len() == generator.settings.pw_length
            && drawn_from(password@, custom@),
{
}

/// With the assembled set in use and every class switched off, generation
/// fails, whatever the length.
pub proof fn lemma_no_class_fails(generator: PasswordGenerator, result: Result<String, ()>)
    requires
        generator.generates(result),
        !generator.settings.use_custom_charset,
        !generator.settings.use_lowercase_letters,
        !generator.settings.use_uppercase_letters,
        !generator.settings.use_numbers,
        generator.settings.special_character_usage == SpecialCharacterUsage::Off,
    ensures
        result is Err,
{
    lemma_standard_charset_empty_iff_no_class(generator.settings);
}

/// With a custom set in use and none given, generation fails, also where
/// classes are enabled.
pub proof fn lemma_missing_custom_charset_fails(
    generator: PasswordGenerator,
    result: Result<String, ()>,
)
    requires
        generator.generates(result),
        generator.settings.use_custom_charset,
        generator.custom_charset is None,
    ensures
        result is Err,
{
}

/// With a custom set in use that is empty, generation fails as it does
/// without one.
pub proof fn lemma_empty_custom_charset_fails(
    generator: PasswordGenerator,
    custom: String,
    result: Result<String, ()>,
)
    requires
        generator.generates(result),
        generator.settings.use_custom_charset,
        generator.custom_charset == Some(custom),
        custom@.len() == 0,
    ensures
        result is Err,
{
}

/// Where a password can be generated and the length asked for is zero, the
/// outcome is the empty password and no error.
pub proof fn lemma_zero_length_gives_empty_password(
    generator: PasswordGenerator,
    result: Result<String, ()>,
)
    requires
        generator.generates(result),
        generator.can_generate(),
        generator.settings.pw_length == 0,
    ensures
        result matches Ok(password) && password@ == Seq::<char>::empty(),
{
    assert(result->Ok_0@ =~= Seq::<char>::empty());
}

/// Whether a password can be generated does not depend on the length asked
/// for.
pub proof fn lemma_length_does_not_decide(generator: PasswordGenerator, length: usize)
    ensures
        (PasswordGenerator {
            settings: PasswordGeneratorSettings { pw_length: length, ..generator.settings },
            ..generator
        }).can_generate() == generator.can_generate(),
{
    let settings = PasswordGeneratorSettings { pw_length: length, ..generator.settings };
    assert(standard_charset(settings) == standard_charset(generator.settings));
}

/// Turning a sequence round changes neither its length nor where its members
/// come from.
pub proof fn lemma_reverse_keeps_members(chars: Seq<char>, charset: Seq<char>)
    requires
        drawn_from(chars, charset),
    ensures
        chars.reverse().len() == chars.len(),
        drawn_from(chars.reverse(), charset),
{
    assert forall|i: int| 0 <= i < chars.reverse().len() implies charset.contains(
        #[trigger] chars.reverse()[i],
    ) by {
        assert(chars.reverse()[i] == chars[chars.len() - 1 - i]);
    }
}

} // verus!
