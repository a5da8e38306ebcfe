//! The application configuration object: constructed once at process start
//! from the configuration file and passed by reference to every component
//! that needs it. Validation rejects a configuration with any required
//! value left blank.

use vstd::prelude::*;
use crate::strings::{is_blank, is_blank_spec};

verus! {

/// Command-line arguments: the configuration file path and whether to
/// initialize the database instead of serving.
#[derive(Clone, Debug)]
pub struct Args {
    pub file_path: String,
    pub init_db: bool,
}

#[derive(Clone, Debug)]
pub struct ServerConfig {
    pub log_level: String,
    pub host: String,
}

#[derive(Clone, Debug)]
pub struct AssetsConfig {
    pub path: String,
}

#[derive(Clone, Debug)]
pub struct SqliteConfig {
    pub filename: String,
}

#[derive(Clone, Debug)]
pub struct DatabaseConfig {
    pub sqlite: SqliteConfig,
}

#[derive(Clone, Debug)]
pub struct SmtpConfig {
    pub server_host: String,
    pub server_port: u16,
    pub server_starttls: bool,
    pub auth_user: String,
    pub auth_password: String,
}

#[derive(Clone, Debug)]
pub struct IdentityConfig {
    pub from_name: String,
    pub from_email: String,
}

#[derive(Clone, Debug)]
pub struct EmailConfig {
    pub smtp: SmtpConfig,
    pub identity: IdentityConfig,
}

#[derive(Clone, Debug)]
pub struct SiteConfig {
    pub name: String,
    pub admin_emails: Vec<String>,
    pub site_url: String,
}

#[derive(Clone, Debug)]
pub struct Config {
    pub server: ServerConfig,
    pub assets: AssetsConfig,
    pub database: DatabaseConfig,
    pub email: EmailConfig,
    pub site: SiteConfig,
}

/// The first configuration value found missing, in validation order.
#[derive(Clone, Copy, Debug, PartialEq, Eq, Structural)]
pub enum ConfigError {
    EmptyLogLevel,
    EmptyHost,
    EmptyAssetsPath,
    EmptyDatabaseFile,
    EmptySmtpHost,
    EmptySmtpUser,
    EmptySmtpPassword,
    EmptyFromName,
    EmptyFromEmail,
    EmptySiteName,
    NoAdminEmails,
    EmptySiteUrl,
}

impl ConfigError {
    /// The message reported for the missing value.
    pub fn message(&self) -> (r: String)
        ensures
            self is EmptyLogLevel ==> r@ == "server.log_level is empty"@,
            self is EmptyHost ==> r@ == "server.host is empty"@,
            self is EmptyAssetsPath ==> r@ == "assets.path is empty"@,
            self is EmptyDatabaseFile ==> r@ == "database.sqlite.filename is empty"@,
            self is EmptySmtpHost ==> r@ == "email.smtp.server_host is empty"@,
            self is EmptySmtpUser ==> r@ == "email.smtp.auth_user is empty"@,
            self is EmptySmtpPassword ==> r@ == "email.smtp.auth_password is empty"@,
            self is EmptyFromName ==> r@ == "email.identity.from_name is empty"@,
            self is EmptyFromEmail ==> r@ == "email.identity.from_email is empty"@,
            self is EmptySiteName ==> r@ == "site.name is empty"@,
            self is NoAdminEmails ==> r@ == "site.admin_emails is empty"@,
            self is EmptySiteUrl ==> r@ == "site.site_url is empty"@,
    {
        match self {
            ConfigError::EmptyLogLevel => "server.log_level is empty".to_owned(),
            ConfigError::EmptyHost => "server.host is empty".to_owned(),
            ConfigError::EmptyAssetsPath => "assets.path is empty".to_owned(),
            ConfigError::EmptyDatabaseFile => "database.sqlite.filename is empty".to_owned(),
            ConfigError::EmptySmtpHost => "email.smtp.server_host is empty".to_owned(),
            ConfigError::EmptySmtpUser => "email.smtp.auth_user is empty".to_owned(),
            ConfigError::EmptySmtpPassword => "email.smtp.auth_password is empty".to_owned(),
            ConfigError::EmptyFromName => "email.identity.from_name is empty".to_owned(),
            ConfigError::EmptyFromEmail => "email.identity.from_email is empty".to_owned(),
            ConfigError::EmptySiteName => "site.name is empty".to_owned(),
            ConfigError::NoAdminEmails => "site.admin_emails is empty".to_owned(),
            ConfigError::EmptySiteUrl => "site.site_url is empty".to_owned(),
        }
    }
}

/// The error with which validation rejects the configuration: the first
/// blank required value in validation order, or `None` when all are present.
pub open spec fn config_error_spec(c: Config) -> Option<ConfigError> {
    if is_blank_spec(c.server.log_level@) {
        Some(ConfigError::EmptyLogLevel)
    } else if is_blank_spec(c.server.host@) {
        Some(ConfigError::EmptyHost)
    } else if is_blank_spec(c.assets.path@) {
        Some(ConfigError::EmptyAssetsPath)
    } else if is_blank_spec(c.database.sqlite.filename@) {
        Some(ConfigError::EmptyDatabaseFile)
    } else if is_blank_spec(c.email.smtp.server_host@) {
        Some(ConfigError::EmptySmtpHost)
    } else if is_blank_spec(c.email.smtp.auth_user@) {
        Some(ConfigError::EmptySmtpUser)
    } else if is_blank_spec(c.email.smtp.auth_password@) {
        Some(ConfigError::EmptySmtpPassword)
    } else if is_blank_spec(c.email.identity.from_name@) {
        Some(ConfigError::EmptyFromName)
    } else if is_blank_spec(c.email.identity.from_email@) {
        Some(ConfigError::EmptyFromEmail)
    } else if is_blank_spec(c.site.name@) {
        Some(ConfigError::EmptySiteName)
    } else if c.site.admin_emails@.len() == 0 {
        Some(ConfigError::NoAdminEmails)
    } else if is_blank_spec(c.site.site_url@) {
        Some(ConfigError::EmptySiteUrl)
    } else {
        None
    }
}

impl Config {
    /// Checks every required configuration value, reporting the first one
    /// that is blank.
    pub fn validate(&self) -> (r: Result<(), ConfigError>)
        ensures
            match r {
                Ok(()) => config_error_spec(*self) is None,
                Err(e) => config_error_spec(*self) == Some(e),
            },
    {
        if is_blank(self.server.log_level.as_str()) {
            return Err(ConfigError::EmptyLogLevel);
        }
        if is_blank(self.server.host.as_str()) {
            return Err(ConfigError::EmptyHost);
        }
        if is_blank(self.assets.path.as_str()) {
            return Err(ConfigError::EmptyAssetsPath);
        }
        if is_blank(self.database.sqlite.filename.as_str()) {
            return Err(ConfigError::EmptyDatabaseFile);
        }
        if is_blank(self.email.smtp.server_host.as_str()) {
            return Err(ConfigError::EmptySmtpHost);
        }
        if is_blank(self.email.smtp.auth_user.as_str()) {
            return Err(ConfigError::EmptySmtpUser);
        }
        if is_blank(self.email.smtp.auth_password.as_str()) {
            return Err(ConfigError::EmptySmtpPassword);
        }
        if is_blank(self.email.identity.from_name.as_str()) {
            return Err(ConfigError::EmptyFromName);
        }
        if is_blank(self.email.identity.from_email.as_str()) {
            return Err(ConfigError::EmptyFromEmail);
        }
        if is_blank(self.site.name.as_str()) {
            return Err(ConfigError::EmptySiteName);
        }
        if self.site.admin_emails.len() == 0 {
            return Err(ConfigError::NoAdminEmails);
        }
        if is_blank(self.site.site_url.as_str()) {
            return Err(ConfigError::EmptySiteUrl);
        }
        Ok(())
    }
}

} // verus!
