use lights_controller::command::{Action, LightLocation, Options};
use lights_controller::config::{
    resolve, select_configuration, ConfigError, ConfigErrorKind, Configuration, IpAddress,
    SocketAddress,
};
use lights_controller::startup::plan;

fn file_configuration() -> Configuration {
    Configuration {
        address: SocketAddress::new(IpAddress::V4(10, 0, 0, 5), 23),
        thing_port: 9000,
    }
}

#[test]
fn default_configuration() {
    let c = Configuration::default();
    assert_eq!(c.address, SocketAddress::new(IpAddress::V4(127, 0, 0, 1), 23));
    assert_eq!(c.thing_port, 8888);
}

#[test]
fn file_values_used_without_overrides() {
    let options = Options::new(None, None, None, None);
    let s = resolve(&options, &file_configuration());
    assert_eq!(s.address, SocketAddress::new(IpAddress::V4(10, 0, 0, 5), 23));
    assert_eq!(s.port, 9000);
    assert_eq!(s.light_location, LightLocation::LivingRoom);
    assert_eq!(s.action, Action::Pulse);
}

#[test]
fn command_line_port_wins_over_file() {
    let options = Options::new(None, None, None, Some(7000));
    let p = plan(&options, Some(Ok(file_configuration()))).unwrap();
    assert_eq!(p.settings.port, 7000);
    assert_eq!(p.settings.address, SocketAddress::new(IpAddress::V4(10, 0, 0, 5), 23));
}

#[test]
fn command_line_address_wins_over_file() {
    let a = SocketAddress::new(IpAddress::V6(1), 4242);
    let options = Options::new(Some(a), None, None, None);
    let s = resolve(&options, &file_configuration());
    assert_eq!(s.address, a);
    assert_eq!(s.port, 9000);
}

#[test]
fn no_file_uses_default() {
    let c = select_configuration(None).unwrap();
    assert_eq!(c, Configuration::default());
    let p = plan(&Options::new(None, None, None, None), None).unwrap();
    assert_eq!(p.settings.address, SocketAddress::new(IpAddress::V4(127, 0, 0, 1), 23));
    assert_eq!(p.settings.port, 8888);
}

#[test]
fn file_plan_uses_file_values() {
    let p = plan(&Options::new(None, None, None, None), Some(Ok(file_configuration()))).unwrap();
    assert_eq!(p.settings.address, SocketAddress::new(IpAddress::V4(10, 0, 0, 5), 23));
    assert_eq!(p.settings.port, 9000);
    assert_eq!(p.lights.len(), 11);
}

#[test]
fn missing_file_stops_startup() {
    let e = ConfigError {
        kind: ConfigErrorKind::NotFound,
        message: "no such file".to_string(),
    };
    let r = plan(&Options::new(None, None, None, Some(7000)), Some(Err(e)));
    match r {
        Err(e) => {
            assert_eq!(e.kind, ConfigErrorKind::NotFound);
            assert_eq!(e.message, "no such file");
        }
        Ok(p) => panic!("unexpected plan {:?}", p),
    }
}

#[test]
fn malformed_file_is_not_replaced_by_default() {
    let e = ConfigError {
        kind: ConfigErrorKind::Malformed,
        message: "bad data".to_string(),
    };
    let r = select_configuration(Some(Err(e)));
    assert_eq!(r.unwrap_err().kind, ConfigErrorKind::Malformed);
}
