//! The application's settings, and the policy that an update is run under.

use vstd::prelude::*;

verus! {

/// The settings of the application.
#[derive(Debug, PartialEq, Eq)]
pub struct AppConfig {
    /// The directory that holds the profiles.
    pub profiles_dir: String,
    /// The name of the colour theme.
    pub theme: String,
    /// Whether a changed file is copied before it is overwritten.
    pub backup_enabled: bool,
    /// The time between two automatic backups, in minutes.
    pub auto_backup_interval: u32,
}

/// What an `AppConfig` holds.
pub struct AppSettings {
    pub profiles_dir: Seq<char>,
    pub theme: Seq<char>,
    pub backup_enabled: bool,
    pub auto_backup_interval: u32,
}

impl View for AppConfig {
    type V = AppSettings;

    open spec fn view(&self) -> AppSettings {
        AppSettings {
            profiles_dir: self.profiles_dir@,
            theme: self.theme@,
            backup_enabled: self.backup_enabled,
            auto_backup_interval: self.auto_backup_interval,
        }
    }
}

/// How one update treats the file's earlier content.
#[derive(Debug, PartialEq, Eq)]
pub struct UpdatePolicy {
    /// Whether a changed file is copied before it is overwritten.
    pub backup_enabled: bool,
    /// The directory that takes the copies.
    pub backup_dir: String,
}

impl AppConfig {
    /// The settings of a first start, with the profiles in the given
    /// directory: the theme of the system, backups on, one every hour.
    pub fn with_defaults(profiles_dir: String) -> (config: AppConfig)
        ensures
            config@ == (AppSettings {
                profiles_dir: profiles_dir@,
                theme: "system"@,
                backup_enabled: true,
                auto_backup_interval: 60,
            }),
    {
        AppConfig {
            profiles_dir,
            theme: "system".to_owned(),
            backup_enabled: true,
            auto_backup_interval: 60,
        }
    }

    /// The policy for an update whose copies go to the given directory.
    pub fn update_policy(&self, backup_dir: String) -> (policy: UpdatePolicy)
        ensures
            policy.backup_enabled == self.backup_enabled,
            policy.backup_dir@ == backup_dir@,
    {
        UpdatePolicy { backup_enabled: self.backup_enabled, backup_dir }
    }
}

} // verus!
