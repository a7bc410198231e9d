//! The persisted settings record, its built-in default, and how the
//! effective settings follow from the command line, the file and the default.
use vstd::prelude::*;

use crate::command::{Action, LightLocation, Options};

verus! {

/// Port of the lights controller in the default configuration.
pub const DEFAULT_CONTROLLER_PORT: u16 = 23;

/// Port the devices are served on in the default configuration.
pub const DEFAULT_THING_PORT: u16 = 8888;

/// An IP address: four octets, or the 128 bits of a version 6 address.
#[derive(Clone, Copy, Debug, PartialEq, Eq, Structural)]
pub enum IpAddress {
    V4(u8, u8, u8, u8),
    V6(u128),
}

/// An IP address with a port.
#[derive(Clone, Copy, Debug, PartialEq, Eq, Structural)]
pub struct SocketAddress {
    pub ip: IpAddress,
    pub port: u16,
}

impl SocketAddress {
    pub fn new(ip: IpAddress, port: u16) -> (r: SocketAddress)
        ensures
            r.ip == ip,
            r.port == port,
    {
        SocketAddress { ip, port }
    }
}

/// The settings read from a configuration file.
#[derive(Clone, Copy, Debug, PartialEq, Eq, Structural)]
pub struct Configuration {
    /// Address of the lights controller on the local network.
    pub address: SocketAddress,
    /// Port the devices are served on.
    pub thing_port: u16,
}

impl Configuration {
    /// The built-in configuration: the controller on the local host, port
    /// 23, and devices served on port 8888.
    pub open spec fn spec_default() -> Configuration {
        Configuration {
            address: SocketAddress { ip: IpAddress::V4(127, 0, 0, 1), port: DEFAULT_CONTROLLER_PORT },
            thing_port: DEFAULT_THING_PORT,
        }
    }
}

impl Default for Configuration {
    /// The built-in configuration; it reads nothing.
    fn default() -> (r: Configuration)
        ensures
            r == Configuration::spec_default(),
    {
        Configuration {
            address: SocketAddress::new(IpAddress::V4(127, 0, 0, 1), DEFAULT_CONTROLLER_PORT),
            thing_port: DEFAULT_THING_PORT,
        }
    }
}

/// Why a configuration file could not be used.
#[derive(Clone, Copy, Debug, PartialEq, Eq, Structural)]
pub enum ConfigErrorKind {
    /// There is no file at the path.
    NotFound,
    /// The file exists but could not be read.
    Unreadable,
    /// The file was read but does not hold a configuration.
    Malformed,
}

/// A configuration file that could not be used, with a message for the
/// operator.
#[derive(Clone, Debug)]
pub struct ConfigError {
    pub kind: ConfigErrorKind,
    pub message: String,
}

/// The settings a run works with, after the command line, the configuration
/// file and the defaults have been merged.
#[derive(Clone, Copy, Debug, PartialEq, Eq, Structural)]
pub struct EffectiveSettings {
    pub address: SocketAddress,
    pub port: u16,
    pub light_location: LightLocation,
    pub action: Action,
}

/// The settings that `options` and `configuration` give: a value on the
/// command line wins over the one of the configuration.
pub open spec fn spec_resolve(options: Options, configuration: Configuration) -> EffectiveSettings {
    EffectiveSettings {
        address: match options.address {
            Some(a) => a,
            None => configuration.address,
        },
        port: match options.thing_port {
            Some(p) => p,
            None => configuration.thing_port,
        },
        light_location: options.light_location,
        action: options.action,
    }
}

/// Merges the command line over a configuration.
pub fn resolve(options: &Options, configuration: &Configuration) -> (r: EffectiveSettings)
    ensures
        r == spec_resolve(*options, *configuration),
{
    let address = match options.address {
        Some(a) => a,
        None => configuration.address,
    };
    let port = match options.thing_port {
        Some(p) => p,
        None => configuration.thing_port,
    };
    EffectiveSettings {
        address,
        port,
        light_location: options.light_location,
        action: options.action,
    }
}

/// The configuration a run uses, from what loading the file gave (`None`
/// where no file was asked for).
pub open spec fn spec_selected(loaded: Option<Result<Configuration, ConfigError>>) -> Result<
    Configuration,
    ConfigError,
> {
    match loaded {
        None => Ok(Configuration::spec_default()),
        Some(res) => res,
    }
}

/// The configuration a run uses: with no file asked for, the built-in one;
/// with a file, what loading it gave, a failure included (there is no
/// falling back to the default).
pub fn select_configuration(loaded: Option<Result<Configuration, ConfigError>>) -> (r: Result<
    Configuration,
    ConfigError,
>)
    ensures
        r == spec_selected(loaded),
{
    match loaded {
        None => Ok(Configuration::default()),
        Some(res) => res,
    }
}

/// A value given on the command line always wins over the configuration, and
/// the configuration wins where the command line is silent.
pub proof fn lemma_command_line_wins(options: Options, configuration: Configuration)
    ensures
        options.address matches Some(a) ==> spec_resolve(options, configuration).address == a,
        options.address is None ==> spec_resolve(options, configuration).address
            == configuration.address,
        options.thing_port matches Some(p) ==> spec_resolve(options, configuration).port == p,
        options.thing_port is None ==> spec_resolve(options, configuration).port
            == configuration.thing_port,
{
}

} // verus!
