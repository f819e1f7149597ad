//! Routing of decoded control messages to engine events.
//!
//! The wire codec is a collaborator's concern: the engine consumes messages
//! already decoded into address and argument lists, and only the argument
//! shapes that the protocol reads are distinguished here.

use vstd::prelude::*;

verus! {

/// One decoded message argument, as far as the protocol cares: the integer
/// payloads it reads, the floating-point tags it recognises but ignores, and
/// everything else.
#[derive(Debug, Clone, Copy, PartialEq, Eq, Structural)]
pub enum OscArg {
    Int(i32),
    Long(i64),
    Float,
    Double,
    Other,
}

/// A decoded message: an address and, possibly, arguments.
#[derive(Debug, Clone, PartialEq)]
pub struct OscMessage {
    pub addr: String,
    pub args: Option<Vec<OscArg>>,
}

/// A decoded packet: a single message, or a bundle (which the protocol does
/// not route).
#[derive(Debug, Clone, PartialEq)]
pub enum OscPacket {
    Message(OscMessage),
    Bundle,
}

/// What a control packet asks of the engine.
#[derive(Debug, Clone, Copy, PartialEq, Eq, Structural)]
pub enum OscEvent {
    /// A legacy volume message; recognised but ignored by the engine.
    Volume,
    /// The master's liveness heartbeat carrying its elapsed milliseconds.
    MasterAlive(i64),
    /// A scene change: scene index and the tick at which to load it.
    SceneChange(usize, i64),
    /// Reload the background scene.
    RefreshBackground,
    NoAction,
}

/// Routing of a `/volume` argument list: any leading float or double counts.
pub open spec fn spec_route_volume(args: Option<Vec<OscArg>>) -> OscEvent {
    match args {
        Some(arguments) => {
            if arguments@.len() == 0 {
                OscEvent::NoAction
            } else {
                match arguments@[0] {
                    OscArg::Float => OscEvent::Volume,
                    OscArg::Double => OscEvent::Volume,
                    _ => OscEvent::NoAction,
                }
            }
        },
        None => OscEvent::NoAction,
    }
}

/// Routing of a `/MasterAlive` argument list: one leading long is the
/// master's clock.
pub open spec fn spec_route_master_alive(args: Option<Vec<OscArg>>) -> OscEvent {
    match args {
        Some(arguments) => {
            if arguments@.len() == 0 {
                OscEvent::NoAction
            } else {
                match arguments@[0] {
                    OscArg::Long(time) => OscEvent::MasterAlive(time),
                    _ => OscEvent::NoAction,
                }
            }
        },
        None => OscEvent::NoAction,
    }
}

/// Routing of a `/ChangeScene` argument list: a leading int (the scene
/// index) and long (the tick), both required.
pub open spec fn spec_route_change_scene(args: Option<Vec<OscArg>>) -> OscEvent {
    match args {
        Some(arguments) => {
            if arguments@.len() < 2 {
                OscEvent::NoAction
            } else {
                match (arguments@[0], arguments@[1]) {
                    (OscArg::Int(index), OscArg::Long(delta)) => OscEvent::SceneChange(
                        index as usize,
                        delta,
                    ),
                    _ => OscEvent::NoAction,
                }
            }
        },
        None => OscEvent::NoAction,
    }
}

/// The routing table: which event each decoded packet raises.
pub open spec fn spec_route_osc(packet: OscPacket) -> OscEvent {
    match packet {
        OscPacket::Message(m) => {
            if m.addr@ == "/volume"@ {
                spec_route_volume(m.args)
            } else if m.addr@ == "/MasterAlive"@ {
                spec_route_master_alive(m.args)
            } else if m.addr@ == "/ChangeScene"@ {
                spec_route_change_scene(m.args)
            } else if m.addr@ == "/RefreshBackground"@ {
                OscEvent::RefreshBackground
            } else {
                OscEvent::NoAction
            }
        },
        OscPacket::Bundle => OscEvent::NoAction,
    }
}

/// Routes one decoded packet to the engine event it asks for; anything the
/// protocol does not know yields `NoAction`.
pub fn route_osc(packet: &OscPacket) -> (r: OscEvent)
    ensures
        r == spec_route_osc(*packet),
{
    match packet {
        OscPacket::Message(message) => {
            if message.addr == "/volume".to_owned() {
                match &message.args {
                    Some(arguments) => {
                        if arguments.len() == 0 {
                            OscEvent::NoAction
                        } else {
                            match arguments[0] {
                                OscArg::Float => OscEvent::Volume,
                                OscArg::Double => OscEvent::Volume,
                                _ => OscEvent::NoAction,
                            }
                        }
                    },
                    None => OscEvent::NoAction,
                }
            } else if message.addr == "/MasterAlive".to_owned() {
                match &message.args {
                    Some(arguments) => {
                        if arguments.len() == 0 {
                            OscEvent::NoAction
                        } else {
                            match arguments[0] {
                                OscArg::Long(time) => OscEvent::MasterAlive(time),
                                _ => OscEvent::NoAction,
                            }
                        }
                    },
                    None => OscEvent::NoAction,
                }
            } else if message.addr == "/ChangeScene".to_owned() {
                match &message.args {
                    Some(arguments) => {
                        if arguments.len() < 2 {
                            OscEvent::NoAction
                        } else {
                            match (arguments[0], arguments[1]) {
                                (OscArg::Int(index), OscArg::Long(delta)) => OscEvent::SceneChange(
                                    index as usize,
                                    delta,
                                ),
                                _ => OscEvent::NoAction,
                            }
                        }
                    },
                    None => OscEvent::NoAction,
                }
            } else if message.addr == "/RefreshBackground".to_owned() {
                OscEvent::RefreshBackground
            } else {
                OscEvent::NoAction
            }
        },
        OscPacket::Bundle => OscEvent::NoAction,
    }
}

} // verus!
