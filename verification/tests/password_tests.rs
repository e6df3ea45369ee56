use fortify::password::{generate_password, PasswordConfig};

#[test]
fn test_password_length() {
    let config = PasswordConfig { length: 20, ..Default::default() };
    let password = generate_password(&config);
    assert_eq!(password.len(), 20);
}

#[test]
fn test_password_charset() {
    let config = PasswordConfig {
        length: 100,
        uppercase: false,
        lowercase: true,
        numbers: false,
        symbols: false,
    };
    let password = generate_password(&config);
    assert!(password.chars().all(|c| c.is_lowercase()));
}

#[test]
fn numbers_only_password_is_all_digits() {
    let config = PasswordConfig {
        length: 10,
        uppercase: false,
        lowercase: false,
        numbers: true,
        symbols: false,
    };
    let password = generate_password(&config);
    assert_eq!(password.len(), 10);
    assert!(password.chars().all(|c| c.is_ascii_digit()));
}

#[test]
fn enabled_categories_bound_every_character() {
    let config = PasswordConfig {
        length: 64,
        uppercase: true,
        lowercase: false,
        numbers: false,
        symbols: true,
    };
    let allowed = "ABCDEFGHIJKLMNOPQRSTUVWXYZ!@#$%^&*()_+-=[]{}|;:,.<>?";
    let password = generate_password(&config);
    assert_eq!(password.len(), 64);
    assert!(password.chars().all(|c| allowed.contains(c)));
}

#[test]
fn all_categories_disabled_reports_the_error_indicator() {
    let config = PasswordConfig {
        length: 12,
        uppercase: false,
        lowercase: false,
        numbers: false,
        symbols: false,
    };
    let result = generate_password(&config);
    assert_eq!(result, "Error: No character set selected.");
}

#[test]
fn zero_length_password_is_empty() {
    let config = PasswordConfig { length: 0, ..Default::default() };
    assert_eq!(generate_password(&config), "");
}

#[test]
fn default_config_is_sixteen_with_all_categories() {
    let config = PasswordConfig::default();
    assert_eq!(config.length, 16);
    assert!(config.uppercase && config.lowercase && config.numbers && config.symbols);
    assert_eq!(generate_password(&config).len(), 16);
}
