//! The configuration of the service, and the document it is read from.

use vstd::prelude::*;
use vstd::string::StringExecFns;
use crate::config_updaters::update_config_to_the_latest_version;
use crate::config_updaters::updated;
use crate::config_updaters::LATEST_CONFIG_VERSION;

verus! {

/// The settings that the service runs with.
pub struct Config {
    /// The version of the format that the settings were written in.
    pub config_format_version: String,
    /// The root under which each server gets its working directory.
    pub working_directiries_path: String,
    /// The directory that holds the server's executable and resources.
    pub dedicated_server_dir: String,
    /// The port on which the matchmaker listens.
    pub matchmaker_port: u16,
    /// The network interface on which the matchmaker and its servers listen.
    pub network_interface: String,
}

/// A `Config` over plain text.
pub struct ConfigView {
    pub config_format_version: Seq<char>,
    pub working_directiries_path: Seq<char>,
    pub dedicated_server_dir: Seq<char>,
    pub matchmaker_port: u16,
    pub network_interface: Seq<char>,
}

impl View for Config {
    type V = ConfigView;

    open spec fn view(&self) -> ConfigView {
        ConfigView {
            config_format_version: self.config_format_version@,
            working_directiries_path: self.working_directiries_path@,
            dedicated_server_dir: self.dedicated_server_dir@,
            matchmaker_port: self.matchmaker_port,
            network_interface: self.network_interface@,
        }
    }
}

/// The settings as a configuration file holds them: a setting that the file
/// does not have is `None`.
pub struct ConfigDocument {
    pub config_format_version: Option<String>,
    pub working_directiries_path: Option<String>,
    pub dedicated_server_dir: Option<String>,
    pub matchmaker_port: Option<u16>,
    pub network_interface: Option<String>,
}

/// A `ConfigDocument` over plain text.
pub struct ConfigDocumentView {
    pub config_format_version: Option<Seq<char>>,
    pub working_directiries_path: Option<Seq<char>>,
    pub dedicated_server_dir: Option<Seq<char>>,
    pub matchmaker_port: Option<u16>,
    pub network_interface: Option<Seq<char>>,
}

/// The text of a setting, if it is there.
pub open spec fn text_of(setting: Option<String>) -> Option<Seq<char>> {
    match setting {
        Some(text) => Some(text@),
        None => None,
    }
}

impl View for ConfigDocument {
    type V = ConfigDocumentView;

    open spec fn view(&self) -> ConfigDocumentView {
        ConfigDocumentView {
            config_format_version: text_of(self.config_format_version),
            working_directiries_path: text_of(self.working_directiries_path),
            dedicated_server_dir: text_of(self.dedicated_server_dir),
            matchmaker_port: self.matchmaker_port,
            network_interface: text_of(self.network_interface),
        }
    }
}

/// Why a document gives no configuration.
#[derive(Debug)]
pub enum ConfigError {
    /// The document names a version of the format that is not known.
    UnknownVersion(String),
    /// The document lacks the setting of this name.
    MissingField(String),
}

/// A `ConfigError` over plain text.
pub enum ConfigErrorView {
    UnknownVersion(Seq<char>),
    MissingField(Seq<char>),
}

impl View for ConfigError {
    type V = ConfigErrorView;

    open spec fn view(&self) -> ConfigErrorView {
        match self {
            ConfigError::UnknownVersion(version) => ConfigErrorView::UnknownVersion(version@),
            ConfigError::MissingField(name) => ConfigErrorView::MissingField(name@),
        }
    }
}

/// What a user is told about an error.
pub open spec fn error_message(error: ConfigErrorView) -> Seq<char> {
    match error {
        ConfigErrorView::UnknownVersion(version) => "unknown config format version "@ + version,
        ConfigErrorView::MissingField(name) => "missing field "@ + name,
    }
}

impl ConfigError {
    /// Writes what a user is told about the error.
    pub fn message(&self) -> (text: String)
        ensures
            text@ == error_message(self@),
    {
        match self {
            ConfigError::UnknownVersion(version) => {
                let mut text = "unknown config format version ".to_owned();
                text.append(version.as_str());
                text
            },
            ConfigError::MissingField(name) => {
                let mut text = "missing field ".to_owned();
                text.append(name.as_str());
                text
            },
        }
    }
}

/// The configuration that a new installation starts with.
pub open spec fn default_config() -> ConfigView {
    ConfigView {
        config_format_version: LATEST_CONFIG_VERSION@,
        working_directiries_path: "instances"@,
        dedicated_server_dir: "."@,
        matchmaker_port: 14736,
        network_interface: "0.0.0.0"@,
    }
}

/// The configuration that a document in the newest format spells, or the
/// name of the first setting that it lacks.
pub open spec fn completed(document: ConfigDocumentView) -> Result<ConfigView, ConfigErrorView> {
    if document.config_format_version is None {
        Err(ConfigErrorView::MissingField("config_format_version"@))
    } else if document.working_directiries_path is None {
        Err(ConfigErrorView::MissingField("working_directiries_path"@))
    } else if document.dedicated_server_dir is None {
        Err(ConfigErrorView::MissingField("dedicated_server_dir"@))
    } else if document.matchmaker_port is None {
        Err(ConfigErrorView::MissingField("matchmaker_port"@))
    } else if document.network_interface is None {
        Err(ConfigErrorView::MissingField("network_interface"@))
    } else {
        Ok(
            ConfigView {
                config_format_version: document.config_format_version->0,
                working_directiries_path: document.working_directiries_path->0,
                dedicated_server_dir: document.dedicated_server_dir->0,
                matchmaker_port: document.matchmaker_port->0,
                network_interface: document.network_interface->0,
            },
        )
    }
}

/// The configuration that a document spells once it is brought to the newest
/// format, or why it spells none.
pub open spec fn configured(document: ConfigDocumentView) -> Result<ConfigView, ConfigErrorView> {
    match updated(document) {
        Ok(newest) => completed(newest),
        Err(error) => Err(error),
    }
}

/// Builds the configuration that a new installation starts with.
pub fn generate_default_config() -> (config: Config)
    ensures
        config@ == default_config(),
{
    Config {
        config_format_version: LATEST_CONFIG_VERSION.to_owned(),
        working_directiries_path: "instances".to_owned(),
        dedicated_server_dir: ".".to_owned(),
        matchmaker_port: 14736,
        network_interface: "0.0.0.0".to_owned(),
    }
}

fn missing(name: &str) -> (result: Result<Config, ConfigError>)
    ensures
        result matches Err(error) && error@ == ConfigErrorView::MissingField(name@),
{
    Err(ConfigError::MissingField(name.to_owned()))
}

/// Brings a document to the newest format and reads the configuration from
/// it.
pub fn read_config(document: ConfigDocument) -> (result: Result<Config, ConfigError>)
    ensures
        match configured(document@) {
            Ok(config) => result matches Ok(read) && read@ == config,
            Err(error) => result matches Err(found) && found@ == error,
        },
{
    let newest = match update_config_to_the_latest_version(document) {
        Ok(newest) => newest,
        Err(error) => {
            return Err(error);
        },
    };
    let config_format_version = match newest.config_format_version {
        Some(text) => text,
        None => {
            return missing("config_format_version");
        },
    };
    let working_directiries_path = match newest.working_directiries_path {
        Some(text) => text,
        None => {
            return missing("working_directiries_path");
        },
    };
    let dedicated_server_dir = match newest.dedicated_server_dir {
        Some(text) => text,
        None => {
            return missing("dedicated_server_dir");
        },
    };
    let matchmaker_port = match newest.matchmaker_port {
        Some(port) => port,
        None => {
            return missing("matchmaker_port");
        },
    };
    let network_interface = match newest.network_interface {
        Some(text) => text,
        None => {
            return missing("network_interface");
        },
    };
    Ok(
        Config {
            config_format_version,
            working_directiries_path,
            dedicated_server_dir,
            matchmaker_port,
            network_interface,
        },
    )
}

} // verus!
