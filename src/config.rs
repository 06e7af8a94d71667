//! Bar configuration, as read from its file, and the checks made on it.
use vstd::prelude::*;

use crate::error::Error;
use crate::protocol::{Body, BodyView, Header, Signal, DEFAULT_VERSION};

verus! {

/// The version requirement type of the `semver` crate, carried opaquely.
#[verifier::external_type_specification]
#[verifier::external_body]
pub struct ExVersionReq(semver::VersionReq);

/// The version type of the `semver` crate, carried opaquely.
#[verifier::external_type_specification]
#[verifier::external_body]
pub struct ExVersion(semver::Version);

/// Relies on `semver::VersionReq::matches`, which tells whether a version
/// satisfies a requirement.
pub assume_specification[ semver::VersionReq::matches ](
    req: &semver::VersionReq,
    version: &semver::Version,
) -> bool;

/// Relies on `semver::Version::new`, which builds a version from its three
/// numbers.
pub assume_specification[ semver::Version::new ](
    major: u64,
    minor: u64,
    patch: u64,
) -> semver::Version;

/// Major version of this program, checked against configured requirements.
pub const VERSION_MAJOR: u64 = 0;

/// Minor version of this program.
pub const VERSION_MINOR: u64 = 8;

/// Patch version of this program.
pub const VERSION_PATCH: u64 = 0;

/// A configured refresh interval, as a duration.
#[derive(Clone, Copy, Debug, PartialEq, Eq, Structural)]
pub enum IntervalSetting {
    /// A duration of `secs` seconds and `nanos` nanoseconds.
    Duration { secs: u64, nanos: u32 },
    /// A value that is negative, not finite, or too large for a duration.
    Unrepresentable,
}

/// Block configuration.
#[derive(Clone, Debug)]
pub struct TomlBlock {
    /// Command to execute to configure body at `immediate` scope
    pub command: Option<String>,
    /// String prefixing `full_text`
    pub prefix: Option<String>,
    /// String appended to `full_text`
    pub postfix: Option<String>,
    /// Interval at which to refresh the block
    pub interval: Option<IntervalSetting>,
    /// Operating system signal to refresh the block when received
    pub signal: Option<Signal>,
    /// Body configured at `local` scope
    pub body: Body,
}

/// Bar configuration.
#[derive(Debug)]
pub struct TomlBar {
    /// Directory that block commands run in, relative to the configuration
    /// file's directory
    pub command_dir: Option<String>,
    /// Versions of this program that the configuration supports
    pub smolbar_version: semver::VersionReq,
    /// Configured [`Header`]
    pub header: Header,
    /// [`Body`] configured at `global` scope
    pub body: Body,
    /// The bar's configured blocks
    pub blocks: Vec<TomlBlock>,
}

/// Everything the bar needs from its configuration.
#[derive(Debug)]
pub struct Config {
    /// Path of the configuration file
    pub path: String,
    /// Path to execute block commands in
    pub command_dir: String,
    /// The configuration itself
    pub toml: TomlBar,
}

/// Why a configuration cannot be used.
#[derive(Clone, Copy, Debug, PartialEq, Eq, Structural)]
pub enum ConfigError {
    /// The running version does not satisfy `smolbar_version`.
    UnsupportedVersion,
}

/// A configuration that passed its checks.
#[derive(Debug)]
pub struct CheckedConfig {
    /// The configuration, completed
    pub toml: TomlBar,
    /// The header asks for a protocol version other than the one the
    /// protocol requires.
    pub header_version_mismatch: bool,
}

/// The global body with its full text set, empty where it was not
/// configured, so that prefixes and postfixes apply to it.
pub open spec fn completed_global_body(b: BodyView) -> BodyView {
    BodyView {
        full_text: match b.full_text {
            Some(t) => Some(t),
            None => Some(Seq::empty()),
        },
        ..b
    }
}

/// What checking a parsed configuration gives, where `version_ok` tells
/// whether the running version satisfies its requirement.
pub open spec fn check_spec(t: TomlBar, version_ok: bool, r: Result<CheckedConfig, ConfigError>) -> bool {
    if version_ok {
        match r {
            Ok(c) => {
                &&& c.toml.body@ == completed_global_body(t.body@)
                &&& c.toml.header == t.header
                &&& c.toml.blocks == t.blocks
                &&& c.toml.command_dir == t.command_dir
                &&& c.toml.smolbar_version == t.smolbar_version
                &&& c.header_version_mismatch == (t.header.version != DEFAULT_VERSION)
            },
            Err(_) => false,
        }
    } else {
        r == Err::<CheckedConfig, ConfigError>(ConfigError::UnsupportedVersion)
    }
}

impl TomlBar {
    /// The version of this program.
    pub fn current_smolbar_version() -> semver::Version {
        semver::Version::new(VERSION_MAJOR, VERSION_MINOR, VERSION_PATCH)
    }

    /// Completes a parsed configuration, given whether the running version
    /// satisfies its `smolbar_version` requirement.
    pub fn check_with(self, version_ok: bool) -> (r: Result<CheckedConfig, ConfigError>)
        ensures
            check_spec(self, version_ok, r),
    {
        if !version_ok {
            return Err(ConfigError::UnsupportedVersion);
        }
        let mismatch = self.header.version != DEFAULT_VERSION;
        let mut toml = self;
        if toml.body.full_text.is_none() {
            toml.body.full_text = Some(String::new());
        }
        Ok(CheckedConfig { toml, header_version_mismatch: mismatch })
    }

    /// Completes a parsed configuration after checking its version
    /// requirement against the running version.
    pub fn check(self) -> (r: Result<CheckedConfig, ConfigError>)
        ensures
            check_spec(self, r is Ok, r),
    {
        let current = TomlBar::current_smolbar_version();
        let ok = self.smolbar_version.matches(&current);
        self.check_with(ok)
    }
}

/// Where the configuration file is looked for.
#[derive(Clone, Copy, Debug, PartialEq, Eq, Structural)]
pub enum ConfigSource {
    /// The path given on the command line.
    Flag,
    /// `smolbar/config.toml` under `$XDG_CONFIG_HOME`.
    XdgConfigHome,
    /// `.config/smolbar/config.toml` under `$HOME`.
    Home,
}

/// Chooses where to look for the configuration: the path given on the
/// command line, else under `$XDG_CONFIG_HOME`, else under `$HOME`; with
/// none of them there is no configuration.
pub fn config_source(flag_given: bool, xdg_set: bool, home_set: bool) -> (r: Result<ConfigSource, Error>)
    ensures
        flag_given ==> r == Ok::<ConfigSource, Error>(ConfigSource::Flag),
        !flag_given && xdg_set ==> r == Ok::<ConfigSource, Error>(ConfigSource::XdgConfigHome),
        !flag_given && !xdg_set && home_set ==> r == Ok::<ConfigSource, Error>(ConfigSource::Home),
        !flag_given && !xdg_set && !home_set ==> r matches Err(Error::NoConfig),
{
    if flag_given {
        Ok(ConfigSource::Flag)
    } else if xdg_set {
        Ok(ConfigSource::XdgConfigHome)
    } else if home_set {
        Ok(ConfigSource::Home)
    } else {
        Err(Error::NoConfig)
    }
}

} // verus!
