use soundscape::osc::{route_osc, OscArg, OscEvent, OscMessage, OscPacket};

fn message(addr: &str, args: Option<Vec<OscArg>>) -> OscPacket {
    OscPacket::Message(OscMessage { addr: addr.to_string(), args })
}

#[test]
fn routes_master_alive() {
    let p = message("/MasterAlive", Some(vec![OscArg::Long(420)]));
    assert_eq!(route_osc(&p), OscEvent::MasterAlive(420));
}

#[test]
fn master_alive_requires_a_long() {
    assert_eq!(route_osc(&message("/MasterAlive", Some(vec![OscArg::Int(420)]))), OscEvent::NoAction);
    assert_eq!(route_osc(&message("/MasterAlive", Some(vec![]))), OscEvent::NoAction);
    assert_eq!(route_osc(&message("/MasterAlive", None)), OscEvent::NoAction);
}

#[test]
fn routes_scene_change() {
    let p = message("/ChangeScene", Some(vec![OscArg::Int(3), OscArg::Long(2000)]));
    assert_eq!(route_osc(&p), OscEvent::SceneChange(3, 2000));
}

#[test]
fn scene_change_requires_int_then_long() {
    assert_eq!(
        route_osc(&message("/ChangeScene", Some(vec![OscArg::Long(3), OscArg::Long(2000)]))),
        OscEvent::NoAction
    );
    assert_eq!(
        route_osc(&message("/ChangeScene", Some(vec![OscArg::Int(3)]))),
        OscEvent::NoAction
    );
    assert_eq!(route_osc(&message("/ChangeScene", None)), OscEvent::NoAction);
}

#[test]
fn routes_refresh_background() {
    assert_eq!(route_osc(&message("/RefreshBackground", None)), OscEvent::RefreshBackground);
}

#[test]
fn routes_volume_floats() {
    assert_eq!(route_osc(&message("/volume", Some(vec![OscArg::Float]))), OscEvent::Volume);
    assert_eq!(route_osc(&message("/volume", Some(vec![OscArg::Double]))), OscEvent::Volume);
    assert_eq!(route_osc(&message("/volume", Some(vec![OscArg::Int(3)]))), OscEvent::NoAction);
    assert_eq!(route_osc(&message("/volume", None)), OscEvent::NoAction);
}

#[test]
fn unknown_addresses_and_bundles_do_nothing() {
    assert_eq!(route_osc(&message("/Nothing", Some(vec![OscArg::Long(1)]))), OscEvent::NoAction);
    assert_eq!(route_osc(&OscPacket::Bundle), OscEvent::NoAction);
}
