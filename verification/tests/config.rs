use git_profile_core::config::UpdatePolicy;
use git_profile_core::error::ErrorKind;
use git_profile_core::AppConfig;

#[test]
fn defaults_of_a_first_start() {
    let config = AppConfig::with_defaults("Documents/GitProfileManager".to_string());
    assert_eq!(
        config,
        AppConfig {
            profiles_dir: "Documents/GitProfileManager".to_string(),
            theme: "system".to_string(),
            backup_enabled: true,
            auto_backup_interval: 60,
        }
    );
}

#[test]
fn the_policy_follows_the_settings() {
    let mut config = AppConfig::with_defaults("profiles".to_string());
    assert_eq!(
        config.update_policy("profiles/backups".to_string()),
        UpdatePolicy { backup_enabled: true, backup_dir: "profiles/backups".to_string() }
    );
    config.backup_enabled = false;
    assert_eq!(
        config.update_policy("elsewhere".to_string()),
        UpdatePolicy { backup_enabled: false, backup_dir: "elsewhere".to_string() }
    );
}

#[test]
fn every_kind_of_error_has_its_message() {
    assert_eq!(ErrorKind::Io.message(), "file could not be read or written");
    assert_eq!(ErrorKind::Encoding.message(), "data is not valid base64 or UTF-8");
    assert_eq!(ErrorKind::Format.message(), "text is not a well-formed envelope");
    assert_eq!(ErrorKind::Crypto.message(), "encryption or decryption failed");
    assert_eq!(ErrorKind::Backup.message(), "backup could not be made");
    assert_eq!(ErrorKind::Lock.message(), "key store lock is unavailable");
}
