use lights_controller::command::{Action, LightLocation, Options, ParseError, LOCATION_COUNT};

const NAMES: [&str; 11] = [
    "Laundry",
    "Bathroom",
    "Hall",
    "LivingRoom",
    "SittingRoom",
    "DiningTable",
    "KitchenIsland",
    "Kitchen",
    "ParentBathroom",
    "ParentBedroom",
    "ParentBed",
];

#[test]
fn every_location_parses_back_from_its_text() {
    for i in 0..LOCATION_COUNT {
        let l = LightLocation::from_ordinal(i);
        let text = l.to_string();
        assert_eq!(LightLocation::parse(&text).unwrap(), l);
        assert_eq!(l.as_str(), text.as_str());
        assert_eq!(l.ordinal(), i);
    }
}

#[test]
fn location_texts_are_pairwise_distinct() {
    let all = LightLocation::all();
    for i in 0..all.len() {
        for j in 0..all.len() {
            if i != j {
                assert_ne!(all[i], all[j]);
            }
        }
    }
}

#[test]
fn all_locations_listed_in_declaration_order() {
    assert_eq!(LightLocation::all(), NAMES.to_vec());
    assert_eq!(LightLocation::from_ordinal(0), LightLocation::Laundry);
    assert_eq!(LightLocation::from_ordinal(3), LightLocation::LivingRoom);
    assert_eq!(LightLocation::from_ordinal(10), LightLocation::ParentBed);
    assert_eq!(LightLocation::KitchenIsland.ordinal(), 6);
}

#[test]
fn unknown_room_is_rejected_with_its_text() {
    match LightLocation::parse("NotARoom") {
        Err(ParseError::UnknownRoom(t)) => assert_eq!(t, "NotARoom"),
        other => panic!("unexpected {:?}", other),
    }
    let e = LightLocation::parse("NotARoom").unwrap_err();
    assert_eq!(e.input(), "NotARoom");
    assert_eq!(e.message(), "Unknown room: NotARoom");
}

#[test]
fn parsing_is_exact() {
    assert!(LightLocation::parse("kitchen").is_err());
    assert!(LightLocation::parse("Kitchen ").is_err());
    assert!(LightLocation::parse("").is_err());
    assert_eq!(LightLocation::parse("Kitchen").unwrap(), LightLocation::Kitchen);
    assert_eq!(LightLocation::parse("KitchenIsland").unwrap(), LightLocation::KitchenIsland);
}

#[test]
fn action_round_trip_and_list() {
    assert_eq!(Action::parse(&Action::Pulse.to_string()).unwrap(), Action::Pulse);
    assert_eq!(Action::Pulse.as_str(), "Pulse");
    assert_eq!(Action::all(), vec!["Pulse"]);
}

#[test]
fn unknown_action_is_rejected_with_its_text() {
    let e = Action::parse("Blink").unwrap_err();
    assert!(matches!(&e, ParseError::UnknownAction(t) if t == "Blink"));
    assert_eq!(e.message(), "Unknown light action: Blink");
}

#[test]
fn options_default_to_living_room_and_pulse() {
    let o = Options::new(None, None, None, None);
    assert_eq!(o.light_location, LightLocation::LivingRoom);
    assert_eq!(o.action, Action::Pulse);
    assert_eq!(o.address, None);
    assert_eq!(o.thing_port, None);
    let o = Options::new(None, Some(LightLocation::Hall), Some(Action::Pulse), Some(7000));
    assert_eq!(o.light_location, LightLocation::Hall);
    assert_eq!(o.thing_port, Some(7000));
}
