use password_generator::{PasswordGenerator, PasswordGeneratorSettings, SpecialCharacterUsage};

#[test]
fn default_settings_enable_letters_and_digits() {
    let settings = PasswordGeneratorSettings::default();
    assert!(!settings.use_custom_charset);
    assert!(settings.use_lowercase_letters);
    assert!(settings.use_uppercase_letters);
    assert!(settings.use_numbers);
    assert_eq!(settings.special_character_usage, SpecialCharacterUsage::Off);
    assert_eq!(settings.pw_length, 8);
}

#[test]
fn new_keeps_every_field() {
    let settings =
        PasswordGeneratorSettings::new(true, false, true, false, SpecialCharacterUsage::Simple, 17);
    assert!(settings.use_custom_charset);
    assert!(!settings.use_lowercase_letters);
    assert!(settings.use_uppercase_letters);
    assert!(!settings.use_numbers);
    assert_eq!(settings.special_character_usage, SpecialCharacterUsage::Simple);
    assert_eq!(settings.pw_length, 17);

    let other =
        PasswordGeneratorSettings::new(false, true, false, true, SpecialCharacterUsage::All, 0);
    assert!(!other.use_custom_charset);
    assert!(other.use_lowercase_letters);
    assert!(!other.use_uppercase_letters);
    assert!(other.use_numbers);
    assert_eq!(other.special_character_usage, SpecialCharacterUsage::All);
    assert_eq!(other.pw_length, 0);
}

#[test]
fn new_does_not_validate() {
    let settings = PasswordGeneratorSettings::new(
        false,
        false,
        false,
        false,
        SpecialCharacterUsage::Off,
        usize::MAX,
    );
    assert_eq!(settings.pw_length, usize::MAX);
    assert_eq!(settings.charset(), "");
}

#[test]
fn default_generator_has_default_settings_and_no_charsets() {
    let generator = PasswordGenerator::default();
    assert!(!generator.settings.use_custom_charset);
    assert!(generator.settings.use_lowercase_letters);
    assert!(generator.settings.use_uppercase_letters);
    assert!(generator.settings.use_numbers);
    assert_eq!(generator.settings.special_character_usage, SpecialCharacterUsage::Off);
    assert_eq!(generator.settings.pw_length, 8);
    assert_eq!(generator.custom_charset, None);
    assert_eq!(generator.charset, None);
}

#[test]
fn from_settings_keeps_settings_and_has_no_charsets() {
    let settings =
        PasswordGeneratorSettings::new(true, true, false, true, SpecialCharacterUsage::All, 21);
    let generator = PasswordGenerator::from_settings(settings);
    assert!(generator.settings.use_custom_charset);
    assert!(generator.settings.use_lowercase_letters);
    assert!(!generator.settings.use_uppercase_letters);
    assert!(generator.settings.use_numbers);
    assert_eq!(generator.settings.special_character_usage, SpecialCharacterUsage::All);
    assert_eq!(generator.settings.pw_length, 21);
    assert_eq!(generator.custom_charset, None);
    assert_eq!(generator.charset, None);
}

#[test]
fn set_custom_chars_replaces_and_clears() {
    let mut generator = PasswordGenerator::default();
    generator.set_custom_chars(Some(String::from("abc")));
    assert_eq!(generator.custom_charset, Some(String::from("abc")));
    generator.set_custom_chars(Some(String::from("")));
    assert_eq!(generator.custom_charset, Some(String::new()));
    generator.set_custom_chars(None);
    assert_eq!(generator.custom_charset, None);
    assert_eq!(generator.settings.pw_length, 8);
    assert_eq!(generator.charset, None);
}
