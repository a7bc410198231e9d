//! The closed vocabularies of the command surface: where a light is and what
//! to do with it, each with a canonical text form that parses back.
use vstd::prelude::*;
use vstd::string::*;

use crate::config::SocketAddress;

verus! {

/// Number of light locations in the house.
pub const LOCATION_COUNT: u8 = 11;

/// Why a text could not be read as a location or an action; each variant
/// carries the offending text.
#[derive(Clone, Debug)]
pub enum ParseError {
    UnknownRoom(String),
    UnknownAction(String),
}

impl ParseError {
    /// The prefix of the message for each kind of failure.
    pub open spec fn spec_prefix(&self) -> Seq<char> {
        match self {
            ParseError::UnknownRoom(_) => "Unknown room: "@,
            ParseError::UnknownAction(_) => "Unknown light action: "@,
        }
    }

    /// The text that was rejected.
    pub open spec fn spec_input(&self) -> Seq<char> {
        match self {
            ParseError::UnknownRoom(s) => s@,
            ParseError::UnknownAction(s) => s@,
        }
    }

    /// The text that was rejected.
    pub fn input(&self) -> (r: &String)
        ensures
            r@ == self.spec_input(),
    {
        match self {
            ParseError::UnknownRoom(s) => s,
            ParseError::UnknownAction(s) => s,
        }
    }

    /// A message for the operator, naming the rejected text.
    pub fn message(&self) -> (r: String)
        ensures
            r@ == self.spec_prefix() + self.spec_input(),
    {
        let mut m = match self {
            ParseError::UnknownRoom(_) => "Unknown room: ".to_owned(),
            ParseError::UnknownAction(_) => "Unknown light action: ".to_owned(),
        };
        m.append(self.input().as_str());
        m
    }
}

/// The rooms of the house that have a controllable light, in declaration
/// order; a location's ordinal is its position in that order.
#[derive(Clone, Copy, Debug, PartialEq, Eq, Structural)]
pub enum LightLocation {
    Laundry,
    Bathroom,
    Hall,
    LivingRoom,
    SittingRoom,
    DiningTable,
    KitchenIsland,
    Kitchen,
    ParentBathroom,
    ParentBedroom,
    ParentBed,
}

impl LightLocation {
    /// Position of the location in declaration order.
    pub open spec fn spec_ordinal(self) -> nat {
        match self {
            LightLocation::Laundry => 0,
            LightLocation::Bathroom => 1,
            LightLocation::Hall => 2,
            LightLocation::LivingRoom => 3,
            LightLocation::SittingRoom => 4,
            LightLocation::DiningTable => 5,
            LightLocation::KitchenIsland => 6,
            LightLocation::Kitchen => 7,
            LightLocation::ParentBathroom => 8,
            LightLocation::ParentBedroom => 9,
            LightLocation::ParentBed => 10,
        }
    }

    /// The location at a position in declaration order (below the count).
    pub open spec fn spec_from_ordinal(i: nat) -> LightLocation {
        if i == 0 {
            LightLocation::Laundry
        } else if i == 1 {
            LightLocation::Bathroom
        } else if i == 2 {
            LightLocation::Hall
        } else if i == 3 {
            LightLocation::LivingRoom
        } else if i == 4 {
            LightLocation::SittingRoom
        } else if i == 5 {
            LightLocation::DiningTable
        } else if i == 6 {
            LightLocation::KitchenIsland
        } else if i == 7 {
            LightLocation::Kitchen
        } else if i == 8 {
            LightLocation::ParentBathroom
        } else if i == 9 {
            LightLocation::ParentBedroom
        } else {
            LightLocation::ParentBed
        }
    }

    /// The canonical text form, used for display and for parsing.
    pub open spec fn name(self) -> Seq<char> {
        match self {
            LightLocation::Laundry => "Laundry"@,
            LightLocation::Bathroom => "Bathroom"@,
            LightLocation::Hall => "Hall"@,
            LightLocation::LivingRoom => "LivingRoom"@,
            LightLocation::SittingRoom => "SittingRoom"@,
            LightLocation::DiningTable => "DiningTable"@,
            LightLocation::KitchenIsland => "KitchenIsland"@,
            LightLocation::Kitchen => "Kitchen"@,
            LightLocation::ParentBathroom => "ParentBathroom"@,
            LightLocation::ParentBedroom => "ParentBedroom"@,
            LightLocation::ParentBed => "ParentBed"@,
        }
    }

    /// The location whose canonical text is `s`, if any.
    pub open spec fn named(s: Seq<char>) -> Option<LightLocation> {
        if s == "Laundry"@ {
            Some(LightLocation::Laundry)
        } else if s == "Bathroom"@ {
            Some(LightLocation::Bathroom)
        } else if s == "Hall"@ {
            Some(LightLocation::Hall)
        } else if s == "LivingRoom"@ {
            Some(LightLocation::LivingRoom)
        } else if s == "SittingRoom"@ {
            Some(LightLocation::SittingRoom)
        } else if s == "DiningTable"@ {
            Some(LightLocation::DiningTable)
        } else if s == "KitchenIsland"@ {
            Some(LightLocation::KitchenIsland)
        } else if s == "Kitchen"@ {
            Some(LightLocation::Kitchen)
        } else if s == "ParentBathroom"@ {
            Some(LightLocation::ParentBathroom)
        } else if s == "ParentBedroom"@ {
            Some(LightLocation::ParentBedroom)
        } else if s == "ParentBed"@ {
            Some(LightLocation::ParentBed)
        } else {
            None
        }
    }

    /// Position of the location in declaration order.
    pub fn ordinal(&self) -> (r: u8)
        ensures
            r as nat == self.spec_ordinal(),
            r < LOCATION_COUNT,
    {
        match self {
            LightLocation::Laundry => 0,
            LightLocation::Bathroom => 1,
            LightLocation::Hall => 2,
            LightLocation::LivingRoom => 3,
            LightLocation::SittingRoom => 4,
            LightLocation::DiningTable => 5,
            LightLocation::KitchenIsland => 6,
            LightLocation::Kitchen => 7,
            LightLocation::ParentBathroom => 8,
            LightLocation::ParentBedroom => 9,
            LightLocation::ParentBed => 10,
        }
    }

    /// The location at position `i` in declaration order.
    pub fn from_ordinal(i: u8) -> (r: LightLocation)
        requires
            i < LOCATION_COUNT,
        ensures
            r == Self::spec_from_ordinal(i as nat),
            r.spec_ordinal() == i as nat,
    {
        match i {
            0 => LightLocation::Laundry,
            1 => LightLocation::Bathroom,
            2 => LightLocation::Hall,
            3 => LightLocation::LivingRoom,
            4 => LightLocation::SittingRoom,
            5 => LightLocation::DiningTable,
            6 => LightLocation::KitchenIsland,
            7 => LightLocation::Kitchen,
            8 => LightLocation::ParentBathroom,
            9 => LightLocation::ParentBedroom,
            _ => LightLocation::ParentBed,
        }
    }

    /// The canonical text form.
    pub fn as_str(&self) -> (r: &'static str)
        ensures
            r@ == self.name(),
    {
        match self {
            LightLocation::Laundry => "Laundry",
            LightLocation::Bathroom => "Bathroom",
            LightLocation::Hall => "Hall",
            LightLocation::LivingRoom => "LivingRoom",
            LightLocation::SittingRoom => "SittingRoom",
            LightLocation::DiningTable => "DiningTable",
            LightLocation::KitchenIsland => "KitchenIsland",
            LightLocation::Kitchen => "Kitchen",
            LightLocation::ParentBathroom => "ParentBathroom",
            LightLocation::ParentBedroom => "ParentBedroom",
            LightLocation::ParentBed => "ParentBed",
        }
    }

    /// The canonical text form, as an owned string.
    pub fn to_string(&self) -> (r: String)
        ensures
            r@ == self.name(),
    {
        self.as_str().to_owned()
    }

    /// Reads a location from its canonical text; any other text is an
    /// unknown room, reported with the text itself.
    pub fn parse(s: &str) -> (r: Result<LightLocation, ParseError>)
        ensures
            match Self::named(s@) {
                Some(l) => r == Ok::<LightLocation, ParseError>(l),
                None => r matches Err(ParseError::UnknownRoom(t)) && t@ == s@,
            },
    {
        let t = s.to_owned();
        if t == "Laundry".to_owned() {
            Ok(LightLocation::Laundry)
        } else if t == "Bathroom".to_owned() {
            Ok(LightLocation::Bathroom)
        } else if t == "Hall".to_owned() {
            Ok(LightLocation::Hall)
        } else if t == "LivingRoom".to_owned() {
            Ok(LightLocation::LivingRoom)
        } else if t == "SittingRoom".to_owned() {
            Ok(LightLocation::SittingRoom)
        } else if t == "DiningTable".to_owned() {
            Ok(LightLocation::DiningTable)
        } else if t == "KitchenIsland".to_owned() {
            Ok(LightLocation::KitchenIsland)
        } else if t == "Kitchen".to_owned() {
            Ok(LightLocation::Kitchen)
        } else if t == "ParentBathroom".to_owned() {
            Ok(LightLocation::ParentBathroom)
        } else if t == "ParentBedroom".to_owned() {
            Ok(LightLocation::ParentBedroom)
        } else if t == "ParentBed".to_owned() {
            Ok(LightLocation::ParentBed)
        } else {
            Err(ParseError::UnknownRoom(t))
        }
    }

    /// The canonical text of every location, once each, in declaration order.
    pub fn all() -> (r: Vec<&'static str>)
        ensures
            r@.len() == LOCATION_COUNT as nat,
            forall|i: int|
                0 <= i < LOCATION_COUNT ==> #[trigger] r@[i]@ == Self::spec_from_ordinal(
                    i as nat,
                ).name(),
    {
        let mut v: Vec<&'static str> = Vec::new();
        let mut i: u8 = 0;
        while i < LOCATION_COUNT
            invariant
                i <= LOCATION_COUNT,
                v@.len() == i as nat,
                forall|j: int|
                    0 <= j < i ==> #[trigger] v@[j]@ == Self::spec_from_ordinal(j as nat).name(),
            decreases LOCATION_COUNT - i,
        {
            v.push(Self::from_ordinal(i).as_str());
            i = i + 1;
        }
        v
    }
}

/// What is sent to a light. The vocabulary is meant to grow; today it holds
/// a single pulse.
#[derive(Clone, Copy, Debug, PartialEq, Eq, Structural)]
pub enum Action {
    Pulse,
}

impl Action {
    /// The canonical text form, used for display and for parsing.
    pub open spec fn name(self) -> Seq<char> {
        match self {
            Action::Pulse => "Pulse"@,
        }
    }

    /// The action whose canonical text is `s`, if any.
    pub open spec fn named(s: Seq<char>) -> Option<Action> {
        if s == "Pulse"@ {
            Some(Action::Pulse)
        } else {
            None
        }
    }

    /// The canonical text form.
    pub fn as_str(&self) -> (r: &'static str)
        ensures
            r@ == self.name(),
    {
        match self {
            Action::Pulse => "Pulse",
        }
    }

    /// The canonical text form, as an owned string.
    pub fn to_string(&self) -> (r: String)
        ensures
            r@ == self.name(),
    {
        self.as_str().to_owned()
    }

    /// Reads an action from its canonical text; any other text is an unknown
    /// light action, reported with the text itself.
    pub fn parse(s: &str) -> (r: Result<Action, ParseError>)
        ensures
            match Self::named(s@) {
                Some(a) => r == Ok::<Action, ParseError>(a),
                None => r matches Err(ParseError::UnknownAction(t)) && t@ == s@,
            },
    {
        let t = s.to_owned();
        if t == "Pulse".to_owned() {
            Ok(Action::Pulse)
        } else {
            Err(ParseError::UnknownAction(t))
        }
    }

    /// The canonical text of every action, once each, in declaration order.
    pub fn all() -> (r: Vec<&'static str>)
        ensures
            r@.len() == 1,
            r@[0]@ == Action::Pulse.name(),
    {
        let mut v: Vec<&'static str> = Vec::new();
        v.push(Action::Pulse.as_str());
        v
    }
}

/// What the operator asked for on the command line, with the location and
/// action already resolved to their defaults where they were not given.
#[derive(Clone, Copy, Debug, PartialEq, Eq, Structural)]
pub struct Options {
    /// Address of the lights controller; overrides the configuration file.
    pub address: Option<SocketAddress>,
    /// Light to control.
    pub light_location: LightLocation,
    /// Kind of signal to send to the light.
    pub action: Action,
    /// Port the devices are served on; overrides the configuration file.
    pub thing_port: Option<u16>,
}

impl Options {
    /// Builds the options from what was given; a missing location is the
    /// living room and a missing action is a pulse.
    pub fn new(
        address: Option<SocketAddress>,
        light_location: Option<LightLocation>,
        action: Option<Action>,
        thing_port: Option<u16>,
    ) -> (r: Options)
        ensures
            r.address == address,
            r.thing_port == thing_port,
            r.light_location == match light_location {
                Some(l) => l,
                None => LightLocation::LivingRoom,
            },
            r.action == match action {
                Some(a) => a,
                None => Action::Pulse,
            },
    {
        let light_location = match light_location {
            Some(l) => l,
            None => LightLocation::LivingRoom,
        };
        let action = match action {
            Some(a) => a,
            None => Action::Pulse,
        };
        Options { address, light_location, action, thing_port }
    }
}

/// Parsing the canonical text of any location gives that location back.
pub proof fn lemma_location_round_trip(l: LightLocation)
    ensures
        LightLocation::named(l.name()) == Some(l),
{
    reveal_strlit("Laundry");
    reveal_strlit("Bathroom");
    reveal_strlit("Hall");
    reveal_strlit("LivingRoom");
    reveal_strlit("SittingRoom");
    reveal_strlit("DiningTable");
    reveal_strlit("KitchenIsland");
    reveal_strlit("Kitchen");
    reveal_strlit("ParentBathroom");
    reveal_strlit("ParentBedroom");
    reveal_strlit("ParentBed");
    match l {
        LightLocation::Laundry => {},
        LightLocation::Bathroom => {
            assert("Bathroom"@.len() != "Laundry"@.len());
        },
        LightLocation::Hall => {
            assert("Hall"@.len() != "Laundry"@.len());
            assert("Hall"@.len() != "Bathroom"@.len());
        },
        LightLocation::LivingRoom => {
            assert("LivingRoom"@.len() != "Laundry"@.len());
            assert("LivingRoom"@.len() != "Bathroom"@.len());
            assert("LivingRoom"@.len() != "Hall"@.len());
        },
        LightLocation::SittingRoom => {
            assert("SittingRoom"@.len() != "Laundry"@.len());
            assert("SittingRoom"@.len() != "Bathroom"@.len());
            assert("SittingRoom"@.len() != "Hall"@.len());
            assert("SittingRoom"@.len() != "LivingRoom"@.len());
        },
        LightLocation::DiningTable => {
            assert("DiningTable"@.len() != "Laundry"@.len());
            assert("DiningTable"@.len() != "Bathroom"@.len());
            assert("DiningTable"@.len() != "Hall"@.len());
            assert("DiningTable"@.len() != "LivingRoom"@.len());
            assert("DiningTable"@[0] != "SittingRoom"@[0]);
        },
        LightLocation::KitchenIsland => {
            assert("KitchenIsland"@.len() != "Laundry"@.len());
            assert("KitchenIsland"@.len() != "Bathroom"@.len());
            assert("KitchenIsland"@.len() != "Hall"@.len());
            assert("KitchenIsland"@.len() != "LivingRoom"@.len());
            assert("KitchenIsland"@.len() != "SittingRoom"@.len());
            assert("KitchenIsland"@.len() != "DiningTable"@.len());
        },
        LightLocation::Kitchen => {
            assert("Kitchen"@[0] != "Laundry"@[0]);
            assert("Kitchen"@.len() != "Bathroom"@.len());
            assert("Kitchen"@.len() != "Hall"@.len());
            assert("Kitchen"@.len() != "LivingRoom"@.len());
            assert("Kitchen"@.len() != "SittingRoom"@.len());
            assert("Kitchen"@.len() != "DiningTable"@.len());
            assert("Kitchen"@.len() != "KitchenIsland"@.len());
        },
        LightLocation::ParentBathroom => {
            assert("ParentBathroom"@.len() != "Laundry"@.len());
            assert("ParentBathroom"@.len() != "Bathroom"@.len());
            assert("ParentBathroom"@.len() != "Hall"@.len());
            assert("ParentBathroom"@.len() != "LivingRoom"@.len());
            assert("ParentBathroom"@.len() != "SittingRoom"@.len());
            assert("ParentBathroom"@.len() != "DiningTable"@.len());
            assert("ParentBathroom"@.len() != "KitchenIsland"@.len());
            assert("ParentBathroom"@.len() != "Kitchen"@.len());
        },
        LightLocation::ParentBedroom => {
            assert("ParentBedroom"@.len() != "Laundry"@.len());
            assert("ParentBedroom"@.len() != "Bathroom"@.len());
            assert("ParentBedroom"@.len() != "Hall"@.len());
            assert("ParentBedroom"@.len() != "LivingRoom"@.len());
            assert("ParentBedroom"@.len() != "SittingRoom"@.len());
            assert("ParentBedroom"@.len() != "DiningTable"@.len());
            assert("ParentBedroom"@[0] != "KitchenIsland"@[0]);
            assert("ParentBedroom"@.len() != "Kitchen"@.len());
            assert("ParentBedroom"@.len() != "ParentBathroom"@.len());
        },
        LightLocation::ParentBed => {
            assert("ParentBed"@.len() != "Laundry"@.len());
            assert("ParentBed"@.len() != "Bathroom"@.len());
            assert("ParentBed"@.len() != "Hall"@.len());
            assert("ParentBed"@.len() != "LivingRoom"@.len());
            assert("ParentBed"@.len() != "SittingRoom"@.len());
            assert("ParentBed"@.len() != "DiningTable"@.len());
            assert("ParentBed"@.len() != "KitchenIsland"@.len());
            assert("ParentBed"@.len() != "Kitchen"@.len());
            assert("ParentBed"@.len() != "ParentBathroom"@.len());
            assert("ParentBed"@.len() != "ParentBedroom"@.len());
        },
    }
}

/// Two different locations never share a canonical text.
pub proof fn lemma_location_names_distinct(a: LightLocation, b: LightLocation)
    requires
        a != b,
    ensures
        a.name() != b.name(),
{
    lemma_location_round_trip(a);
    lemma_location_round_trip(b);
}

/// Parsing the canonical text of any action gives that action back.
pub proof fn lemma_action_round_trip(a: Action)
    ensures
        Action::named(a.name()) == Some(a),
{
}

} // verus!
