use lights_controller::command::{Action, LightLocation};
use lights_controller::config::{IpAddress, SocketAddress};
use lights_controller::thing::{
    decimal, make_light, make_lights, ForwardError, OnPulseValueForwarder,
};

fn controller() -> SocketAddress {
    SocketAddress::new(IpAddress::V4(127, 0, 0, 1), 23)
}

#[test]
fn eleven_devices_with_distinct_ids_in_order() {
    let lights = make_lights(controller());
    assert_eq!(lights.len(), 11);
    for (i, light) in lights.iter().enumerate() {
        assert_eq!(light.id, format!("urn:dev:ops:light-{}", i));
        assert_eq!(light.title, LightLocation::all()[i]);
        assert_eq!(light.forwarder.light_location, LightLocation::from_ordinal(i as u8));
        assert_eq!(light.forwarder.address, controller());
    }
    for i in 0..lights.len() {
        for j in (i + 1)..lights.len() {
            assert_ne!(lights[i].id, lights[j].id);
        }
    }
    assert_eq!(lights[10].id, "urn:dev:ops:light-10");
}

#[test]
fn device_has_one_pulse_property() {
    let light = make_light(controller(), LightLocation::DiningTable);
    assert_eq!(light.id, "urn:dev:ops:light-5");
    assert_eq!(light.title, "DiningTable");
    assert_eq!(light.types, vec!["Light".to_string()]);
    assert_eq!(light.pulse.name, "pulse");
    assert_eq!(light.pulse.semantic_type, "OnOffProperty");
    assert_eq!(light.pulse.title, "On/Off");
    assert_eq!(light.pulse.value_type, "boolean");
    assert_eq!(light.pulse.description, "Whether the lamp is turned on");
    assert!(!light.pulse.initial_value);
}

#[test]
fn pulse_write_is_echoed_when_delivered() {
    let f = OnPulseValueForwarder::new(controller(), LightLocation::Hall);
    let t = f.transmission(true);
    assert_eq!(t.action, Action::Pulse);
    assert_eq!(t.light_location, LightLocation::Hall);
    assert!(t.value);
    assert_eq!(t.address, controller());
    assert_eq!(f.set_value(true, Ok(())), Ok(true));
    assert_eq!(f.set_value(false, Ok(())), Ok(false));
}

#[test]
fn undelivered_pulse_is_a_failure() {
    let f = OnPulseValueForwarder::new(controller(), LightLocation::Kitchen);
    let r = f.set_value(true, Err(ForwardError::NotDelivered));
    assert_eq!(r, Err(ForwardError::NotDelivered));
    assert_eq!(
        ForwardError::NotDelivered.message(),
        "The light controller did not take the value"
    );
}

#[test]
fn decimal_forms() {
    assert_eq!(decimal(0), "0");
    assert_eq!(decimal(7), "7");
    assert_eq!(decimal(10), "10");
    assert_eq!(decimal(42), "42");
    assert_eq!(decimal(100), "100");
    assert_eq!(decimal(255), "255");
}
