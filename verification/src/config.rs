//! The configuration of the indicator and the rules by which a configuration
//! file is accepted or rejected.
//!
//! Reading the file and decoding its YAML are the host's part. It reports
//! what it found as a [`ConfigFile`]; [`Config::load`] decides from that.

use vstd::prelude::*;
use vstd::string::*;

verus! {

/// Where to reach GitLab, and the credential to present.
#[derive(Debug, Clone, PartialEq, Eq)]
pub struct GitLabConfig {
    pub url: String,
    pub access_token: String,
}

/// Settings of the indicator itself.
#[derive(Debug, Clone, PartialEq, Eq)]
pub struct AppConfig {
    /// Seconds between two automatic refreshes.
    pub refresh_interval: u64,
}

/// The whole configuration file.
#[derive(Debug, Clone, PartialEq, Eq)]
pub struct Config {
    pub gitlab: GitLabConfig,
    pub app: AppConfig,
}

/// What a [`Config`] holds.
pub struct ConfigModel {
    pub url: Seq<char>,
    pub access_token: Seq<char>,
    pub refresh_interval: u64,
}

impl View for Config {
    type V = ConfigModel;

    open spec fn view(&self) -> ConfigModel {
        ConfigModel {
            url: self.gitlab.url@,
            access_token: self.gitlab.access_token@,
            refresh_interval: self.app.refresh_interval,
        }
    }
}

/// What the host found when it read and decoded the configuration file.
#[derive(Debug, PartialEq, Eq)]
pub enum ConfigFile {
    /// There is no such file.
    Missing,
    /// The file is there, but its contents could not be read as text.
    Unreadable,
    /// The text is no YAML document of the expected shape.
    Malformed,
    /// The document, decoded.
    Parsed(Config),
}

/// What a [`ConfigFile`] holds.
pub enum ConfigFileModel {
    Missing,
    Unreadable,
    Malformed,
    Parsed(ConfigModel),
}

impl View for ConfigFile {
    type V = ConfigFileModel;

    open spec fn view(&self) -> ConfigFileModel {
        match self {
            ConfigFile::Missing => ConfigFileModel::Missing,
            ConfigFile::Unreadable => ConfigFileModel::Unreadable,
            ConfigFile::Malformed => ConfigFileModel::Malformed,
            ConfigFile::Parsed(config) => ConfigFileModel::Parsed(config@),
        }
    }
}

/// Why no configuration could be loaded.
#[derive(Debug, PartialEq, Eq)]
pub enum ConfigError {
    /// The file does not exist.
    NotFound { path: String },
    /// The file could not be decoded into a configuration.
    ParseError { message: String },
    /// The access token is empty or still the placeholder of the template.
    InvalidToken,
    /// The GitLab address is empty.
    InvalidUrl,
}

/// What a [`ConfigError`] holds.
pub enum ConfigErrorModel {
    NotFound { path: Seq<char> },
    ParseError { message: Seq<char> },
    InvalidToken,
    InvalidUrl,
}

impl View for ConfigError {
    type V = ConfigErrorModel;

    open spec fn view(&self) -> ConfigErrorModel {
        match self {
            ConfigError::NotFound { path } => ConfigErrorModel::NotFound { path: path@ },
            ConfigError::ParseError { message } => ConfigErrorModel::ParseError {
                message: message@,
            },
            ConfigError::InvalidToken => ConfigErrorModel::InvalidToken,
            ConfigError::InvalidUrl => ConfigErrorModel::InvalidUrl,
        }
    }
}

/// The result of loading, by its contents.
pub open spec fn loaded_view(result: Result<Config, ConfigError>) -> Result<
    ConfigModel,
    ConfigErrorModel,
> {
    match result {
        Ok(config) => Ok(config@),
        Err(error) => Err(error@),
    }
}

/// The access token that the configuration template ships with.
pub open spec fn placeholder_token() -> Seq<char> {
    "your-token-here"@
}

/// Whether an access token has been set: it is neither empty nor the
/// placeholder.
pub open spec fn token_is_set(token: Seq<char>) -> bool {
    token.len() > 0 && token != placeholder_token()
}

/// Whether a configuration can be used: its token is set and its address is
/// not empty.
pub open spec fn is_valid(config: ConfigModel) -> bool {
    token_is_set(config.access_token) && config.url.len() > 0
}

/// What loading yields for the file at `path`. An unset token is reported
/// before an empty address.
pub open spec fn load_spec(path: Seq<char>, file: ConfigFileModel) -> Result<
    ConfigModel,
    ConfigErrorModel,
> {
    match file {
        ConfigFileModel::Missing => Err(ConfigErrorModel::NotFound { path }),
        ConfigFileModel::Unreadable => Err(
            ConfigErrorModel::ParseError { message: "Failed to read config file: "@ + path },
        ),
        ConfigFileModel::Malformed => Err(
            ConfigErrorModel::ParseError { message: "Failed to parse YAML configuration"@ },
        ),
        ConfigFileModel::Parsed(config) => if !token_is_set(config.access_token) {
            Err(ConfigErrorModel::InvalidToken)
        } else if config.url.len() == 0 {
            Err(ConfigErrorModel::InvalidUrl)
        } else {
            Ok(config)
        },
    }
}

/// The text shown for a configuration error.
pub open spec fn describe_spec(error: ConfigErrorModel) -> Seq<char> {
    match error {
        ConfigErrorModel::NotFound { path } => "Configuration file '"@ + path
            + "' not found. Please copy config.yaml.example to config.yaml and customize it"@,
        ConfigErrorModel::ParseError { message } => message,
        ConfigErrorModel::InvalidToken => "Please set a valid GitLab access token in config.yaml"@,
        ConfigErrorModel::InvalidUrl => "Please set a valid GitLab URL in config.yaml"@,
    }
}

/// A decoded file loads exactly when its configuration is valid, and then
/// loading yields that configuration unchanged. No other file loads.
pub proof fn lemma_load_succeeds_iff_valid(path: Seq<char>, file: ConfigFileModel)
    ensures
        load_spec(path, file) is Ok <==> match file {
            ConfigFileModel::Parsed(config) => is_valid(config),
            _ => false,
        },
        load_spec(path, file) matches Ok(loaded) ==> file == ConfigFileModel::Parsed(loaded),
{
}

impl ConfigError {
    /// The text shown for this error.
    pub fn describe(&self) -> (text: String)
        ensures
            text@ == describe_spec(self@),
    {
        match self {
            ConfigError::NotFound { path } => {
                let mut text = String::from_str("Configuration file '");
                text.append(path.as_str());
                text.append(
                    "' not found. Please copy config.yaml.example to config.yaml and customize it",
                );
                text
            },
            ConfigError::ParseError { message } => message.clone(),
            ConfigError::InvalidToken => String::from_str(
                "Please set a valid GitLab access token in config.yaml",
            ),
            ConfigError::InvalidUrl => String::from_str(
                "Please set a valid GitLab URL in config.yaml",
            ),
        }
    }
}

impl Config {
    /// Accepts or rejects what the host found at `path`.
    pub fn load(path: &str, file: ConfigFile) -> (result: Result<Config, ConfigError>)
        ensures
            loaded_view(result) == load_spec(path@, file@),
    {
        match file {
            ConfigFile::Missing => Err(ConfigError::NotFound { path: String::from_str(path) }),
            ConfigFile::Unreadable => {
                let mut message = String::from_str("Failed to read config file: ");
                message.append(path);
                Err(ConfigError::ParseError { message })
            },
            ConfigFile::Malformed => Err(
                ConfigError::ParseError {
                    message: String::from_str("Failed to parse YAML configuration"),
                },
            ),
            ConfigFile::Parsed(config) => {
                let placeholder = String::from_str("your-token-here");
                if config.gitlab.access_token == placeholder
                    || config.gitlab.access_token.as_str().is_empty() {
                    Err(ConfigError::InvalidToken)
                } else if config.gitlab.url.as_str().is_empty() {
                    Err(ConfigError::InvalidUrl)
                } else {
                    Ok(config)
                }
            },
        }
    }

    /// The file that is read when no other is named.
    pub fn default_path() -> (path: &'static str)
        ensures
            path@ == "config.yaml"@,
    {
        "config.yaml"
    }
}

} // verus!
