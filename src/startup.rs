//! What a run sets up before it serves anything: the effective settings and
//! the devices, or the configuration error that stops it.
use vstd::prelude::*;

use crate::command::{LightLocation, Options, LOCATION_COUNT};
use crate::config::{
    resolve, select_configuration, spec_resolve, spec_selected, ConfigError, Configuration,
    EffectiveSettings,
};
use crate::thing::{make_lights, Light};

verus! {

/// Everything a run serves: the settings it works with and the devices.
#[derive(Clone, Debug)]
pub struct Plan {
    pub settings: EffectiveSettings,
    pub lights: Vec<Light>,
}

/// Sets a run up from the command line and from what loading the
/// configuration file gave (`None` where no file was asked for). Where the
/// file could not be used, its error is returned and no device is built.
pub fn plan(options: &Options, loaded: Option<Result<Configuration, ConfigError>>) -> (r: Result<
    Plan,
    ConfigError,
>)
    ensures
        match spec_selected(loaded) {
            Ok(c) => r matches Ok(p) && p.settings == spec_resolve(*options, c)
                && p.lights@.len() == LOCATION_COUNT as nat && forall|i: int|
                0 <= i < LOCATION_COUNT ==> #[trigger] p.lights@[i].describes(
                    p.settings.address,
                    LightLocation::spec_from_ordinal(i as nat),
                ),
            Err(e) => r == Err::<Plan, ConfigError>(e),
        },
{
    match select_configuration(loaded) {
        Ok(configuration) => {
            let settings = resolve(options, &configuration);
            let lights = make_lights(settings.address);
            Ok(Plan { settings, lights })
        },
        Err(e) => Err(e),
    }
}

} // verus!
