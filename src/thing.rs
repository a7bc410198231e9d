//! The devices exposed for the lights: one per location, each with a single
//! writable boolean `pulse` property whose writes are forwarded to the
//! lights controller.
use vstd::prelude::*;
use vstd::string::*;

use crate::command::{Action, LightLocation, LOCATION_COUNT};
use crate::config::SocketAddress;

verus! {

/// The decimal digit for `d` (below ten).
pub open spec fn digit(d: nat) -> char {
    if d == 0 {
        '0'
    } else if d == 1 {
        '1'
    } else if d == 2 {
        '2'
    } else if d == 3 {
        '3'
    } else if d == 4 {
        '4'
    } else if d == 5 {
        '5'
    } else if d == 6 {
        '6'
    } else if d == 7 {
        '7'
    } else if d == 8 {
        '8'
    } else {
        '9'
    }
}

/// The decimal form of `n`, without leading zeros.
pub open spec fn decimal_text(n: nat) -> Seq<char>
    decreases n,
{
    if n < 10 {
        seq![digit(n)]
    } else {
        decimal_text(n / 10).push(digit(n % 10))
    }
}

/// The identifier of the device of a location.
pub open spec fn light_id(l: LightLocation) -> Seq<char> {
    "urn:dev:ops:light-"@ + decimal_text(l.spec_ordinal())
}

fn digit_str(d: u8) -> (r: &'static str)
    requires
        d < 10,
    ensures
        r@ == seq![digit(d as nat)],
{
    match d {
        0 => {
            proof { reveal_strlit("0"); }
            "0"
        },
        1 => {
            proof { reveal_strlit("1"); }
            "1"
        },
        2 => {
            proof { reveal_strlit("2"); }
            "2"
        },
        3 => {
            proof { reveal_strlit("3"); }
            "3"
        },
        4 => {
            proof { reveal_strlit("4"); }
            "4"
        },
        5 => {
            proof { reveal_strlit("5"); }
            "5"
        },
        6 => {
            proof { reveal_strlit("6"); }
            "6"
        },
        7 => {
            proof { reveal_strlit("7"); }
            "7"
        },
        8 => {
            proof { reveal_strlit("8"); }
            "8"
        },
        _ => {
            proof { reveal_strlit("9"); }
            "9"
        },
    }
}

/// The decimal form of `n`.
pub fn decimal(n: u8) -> (r: String)
    ensures
        r@ == decimal_text(n as nat),
{
    if n < 10 {
        digit_str(n).to_owned()
    } else if n < 100 {
        let mut s = digit_str(n / 10).to_owned();
        s.append(digit_str(n % 10));
        assert(decimal_text((n / 10) as nat) == seq![digit((n / 10) as nat)]);
        assert(s@ =~= decimal_text(n as nat));
        s
    } else {
        let mut s = digit_str(n / 100).to_owned();
        s.append(digit_str((n / 10) % 10));
        s.append(digit_str(n % 10));
        assert((n / 10) / 10 == n / 100);
        assert(decimal_text((n / 100) as nat) == seq![digit((n / 100) as nat)]);
        assert(decimal_text((n / 10) as nat) == decimal_text((n / 100) as nat).push(
            digit(((n / 10) % 10) as nat),
        ));
        assert(s@ =~= decimal_text(n as nat));
        s
    }
}

/// Why a value could not be forwarded to the lights controller.
#[derive(Clone, Copy, Debug, PartialEq, Eq, Structural)]
pub enum ForwardError {
    /// The controller could not be reached, or did not take the signal.
    NotDelivered,
}

impl ForwardError {
    /// A message for the client whose write failed.
    pub fn message(&self) -> (r: &'static str)
        ensures
            r@ == "The light controller did not take the value"@,
    {
        match self {
            ForwardError::NotDelivered => "The light controller did not take the value",
        }
    }
}

/// One signal for the lights controller: what to do, to which light, with
/// which value, and where the controller is.
#[derive(Clone, Copy, Debug, PartialEq, Eq, Structural)]
pub struct Transmission {
    pub action: Action,
    pub light_location: LightLocation,
    pub value: bool,
    pub address: SocketAddress,
}

/// Relays a write of a device's `pulse` property to the lights controller.
#[derive(Clone, Copy, Debug, PartialEq, Eq, Structural)]
pub struct OnPulseValueForwarder {
    pub address: SocketAddress,
    pub light_location: LightLocation,
}

impl OnPulseValueForwarder {
    pub fn new(address: SocketAddress, light_location: LightLocation) -> (r: OnPulseValueForwarder)
        ensures
            r.address == address,
            r.light_location == light_location,
    {
        OnPulseValueForwarder { address, light_location }
    }

    /// The signal that a write of `value` sends: a pulse for this
    /// forwarder's light, to its controller.
    pub fn transmission(&self, value: bool) -> (r: Transmission)
        ensures
            r == (Transmission {
                action: Action::Pulse,
                light_location: self.light_location,
                value,
                address: self.address,
            }),
    {
        Transmission {
            action: Action::Pulse,
            light_location: self.light_location,
            value,
            address: self.address,
        }
    }

    /// The answer to a write of `value` once its signal was handed to the
    /// controller: the value itself where it was delivered, else the failure.
    pub fn set_value(&self, value: bool, delivery: Result<(), ForwardError>) -> (r: Result<
        bool,
        ForwardError,
    >)
        ensures
            r == match delivery {
                Ok(()) => Ok::<bool, ForwardError>(value),
                Err(e) => Err(e),
            },
    {
        match delivery {
            Ok(()) => Ok(value),
            Err(e) => Err(e),
        }
    }
}

/// The description of a device's `pulse` property.
#[derive(Clone, Debug)]
pub struct PulseProperty {
    pub name: String,
    pub semantic_type: String,
    pub title: String,
    pub value_type: String,
    pub description: String,
    pub initial_value: bool,
}

impl PulseProperty {
    /// A writable boolean named `pulse`, off at first.
    pub open spec fn wf(&self) -> bool {
        &&& self.name@ == "pulse"@
        &&& self.semantic_type@ == "OnOffProperty"@
        &&& self.title@ == "On/Off"@
        &&& self.value_type@ == "boolean"@
        &&& self.description@ == "Whether the lamp is turned on"@
        &&& !self.initial_value
    }

    pub fn new() -> (r: PulseProperty)
        ensures
            r.wf(),
    {
        PulseProperty {
            name: "pulse".to_owned(),
            semantic_type: "OnOffProperty".to_owned(),
            title: "On/Off".to_owned(),
            value_type: "boolean".to_owned(),
            description: "Whether the lamp is turned on".to_owned(),
            initial_value: false,
        }
    }
}

/// The device of one light.
#[derive(Clone, Debug)]
pub struct Light {
    /// Unique identifier, a URI.
    pub id: String,
    /// Display title: the location's canonical text.
    pub title: String,
    /// Type tags.
    pub types: Vec<String>,
    /// The only property.
    pub pulse: PulseProperty,
    /// Where writes of `pulse` go.
    pub forwarder: OnPulseValueForwarder,
}

impl Light {
    /// This is the device of location `l`, forwarding to `address`.
    pub open spec fn describes(&self, address: SocketAddress, l: LightLocation) -> bool {
        &&& self.id@ == light_id(l)
        &&& self.title@ == l.name()
        &&& self.types@.len() == 1
        &&& self.types@[0]@ == "Light"@
        &&& self.pulse.wf()
        &&& self.forwarder == OnPulseValueForwarder { address, light_location: l }
    }
}

/// The device of location `light_location`, whose pulse writes are
/// forwarded to `address`.
pub fn make_light(address: SocketAddress, light_location: LightLocation) -> (r: Light)
    ensures
        r.describes(address, light_location),
{
    let mut id = "urn:dev:ops:light-".to_owned();
    let n = decimal(light_location.ordinal());
    id.append(n.as_str());
    let mut types: Vec<String> = Vec::new();
    types.push("Light".to_owned());
    Light {
        id,
        title: light_location.to_string(),
        types,
        pulse: PulseProperty::new(),
        forwarder: OnPulseValueForwarder::new(address, light_location),
    }
}

/// The devices of all the lights, one per location in declaration order.
pub fn make_lights(address: SocketAddress) -> (r: Vec<Light>)
    ensures
        r@.len() == LOCATION_COUNT as nat,
        forall|i: int|
            0 <= i < LOCATION_COUNT ==> #[trigger] r@[i].describes(
                address,
                LightLocation::spec_from_ordinal(i as nat),
            ),
{
    let mut lights: Vec<Light> = Vec::new();
    let mut i: u8 = 0;
    while i < LOCATION_COUNT
        invariant
            i <= LOCATION_COUNT,
            lights@.len() == i as nat,
            forall|j: int|
                0 <= j < i ==> #[trigger] lights@[j].describes(
                    address,
                    LightLocation::spec_from_ordinal(j as nat),
                ),
        decreases LOCATION_COUNT - i,
    {
        lights.push(make_light(address, LightLocation::from_ordinal(i)));
        i = i + 1;
    }
    lights
}

proof fn lemma_small_decimal_injective(i: nat, j: nat)
    requires
        i < LOCATION_COUNT,
        j < LOCATION_COUNT,
        decimal_text(i) == decimal_text(j),
    ensures
        i == j,
{
    assert(decimal_text(1) == seq![digit(1)]);
    assert(decimal_text(10) =~= seq![digit(1), digit(0)]);
    if i < 10 && j < 10 {
        assert(decimal_text(i)[0] == digit(i));
        assert(decimal_text(j)[0] == digit(j));
    } else if i < 10 {
        assert(decimal_text(i).len() == 1);
    } else if j < 10 {
        assert(decimal_text(j).len() == 1);
    }
}

/// Devices of different locations have different identifiers.
pub proof fn lemma_light_ids_distinct(a: LightLocation, b: LightLocation)
    requires
        a != b,
    ensures
        light_id(a) != light_id(b),
{
    let prefix = "urn:dev:ops:light-"@;
    if light_id(a) == light_id(b) {
        assert(light_id(a).subrange(prefix.len() as int, light_id(a).len() as int)
            =~= decimal_text(a.spec_ordinal()));
        assert(light_id(b).subrange(prefix.len() as int, light_id(b).len() as int)
            =~= decimal_text(b.spec_ordinal()));
        lemma_small_decimal_injective(a.spec_ordinal(), b.spec_ordinal());
    }
}

/// The device set has one device per location, in declaration order: the
/// device at position `i` is titled with the `i`-th location and has
/// identifier `urn:dev:ops:light-i`, and no two devices share an identifier.
pub proof fn lemma_light_set(lights: Seq<Light>, address: SocketAddress)
    requires
        lights.len() == LOCATION_COUNT as nat,
        forall|i: int|
            0 <= i < LOCATION_COUNT ==> #[trigger] lights[i].describes(
                address,
                LightLocation::spec_from_ordinal(i as nat),
            ),
    ensures
        forall|i: int|
            0 <= i < LOCATION_COUNT ==> #[trigger] lights[i].id@ == "urn:dev:ops:light-"@
                + decimal_text(i as nat),
        forall|i: int, j: int|
            0 <= i < LOCATION_COUNT && 0 <= j < LOCATION_COUNT && i != j ==> #[trigger] lights[i].id@
                != #[trigger] lights[j].id@,
{
    assert forall|i: int| 0 <= i < LOCATION_COUNT implies #[trigger] lights[i].id@
        == "urn:dev:ops:light-"@ + decimal_text(i as nat) by {
        assert(lights[i].describes(address, LightLocation::spec_from_ordinal(i as nat)));
    }
    assert forall|i: int, j: int|
        0 <= i < LOCATION_COUNT && 0 <= j < LOCATION_COUNT && i != j implies #[trigger] lights[i].id@
        != #[trigger] lights[j].id@ by {
        let a = LightLocation::spec_from_ordinal(i as nat);
        let b = LightLocation::spec_from_ordinal(j as nat);
        assert(lights[i].describes(address, a));
        assert(lights[j].describes(address, b));
        lemma_light_ids_distinct(a, b);
    }
}

} // verus!
