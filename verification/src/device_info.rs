//! Device information providers: polymorphic resolvers from a
//! (room, device name) pair to a rendered status line, with an owning
//! (snapshot) variant and a borrowing (live view) variant.

use vstd::prelude::*;

use crate::devices::{
    socket_state_label, socket_state_seq, thermometer_state_label, thermometer_state_seq,
    SmartSocket, SmartThermometer, SocketState,
};
use crate::text::str_eq;

verus! {

/// The error a provider returns when it has no information about the
/// named device.
#[derive(Debug, PartialEq, Eq, Structural, Clone, Copy)]
pub enum DeviceInfoError {
    NotFound,
}

/// A capability resolving a device's human-readable status. `resolve_spec`
/// says which string (or error) an implementation answers with;
/// `device_info` must return exactly that.
pub trait DeviceInfoProvider {
    spec fn resolve_spec(&self, room: Seq<char>, device_name: Seq<char>) -> Result<
        Seq<char>,
        DeviceInfoError,
    >;

    fn device_info(&self, room: &str, device_name: &str) -> (r: Result<String, DeviceInfoError>)
        ensures
            (match r {
                Ok(s) => self.resolve_spec(room@, device_name@) == Ok::<_, DeviceInfoError>(s@),
                Err(e) => self.resolve_spec(room@, device_name@) == Err::<Seq<char>, _>(e),
            }),
    ;
}

/// The sentence the owning provider emits on a match.
pub open spec fn owning_info_seq(room: Seq<char>, name: Seq<char>, st: SocketState) -> Seq<
    char,
> {
    "In room "@ + room + ", the socket named "@ + name + " is "@ + socket_state_seq(st)
}

/// An information provider owning a private snapshot of a socket. It
/// never goes stale because it is a copy, and it knows nothing of rooms
/// beyond echoing the caller's room name.
pub struct OwningDeviceInfoProvider {
    pub socket: SmartSocket,
}

impl DeviceInfoProvider for OwningDeviceInfoProvider {
    open spec fn resolve_spec(&self, room: Seq<char>, device_name: Seq<char>) -> Result<
        Seq<char>,
        DeviceInfoError,
    > {
        if device_name == self.socket.name@ {
            Ok(owning_info_seq(room, device_name, self.socket.state))
        } else {
            Err(DeviceInfoError::NotFound)
        }
    }

    fn device_info(&self, room: &str, device_name: &str) -> (r: Result<String, DeviceInfoError>) {
        if str_eq(self.socket.name.as_str(), device_name) {
            let mut s = "In room ".to_owned();
            s.append(room);
            s.append(", the socket named ");
            s.append(device_name);
            s.append(" is ");
            s.append(socket_state_label(&self.socket.state));
            proof {
                assert(s@ =~= owning_info_seq(room@, device_name@, self.socket.state));
            }
            Ok(s)
        } else {
            Err(DeviceInfoError::NotFound)
        }
    }
}

/// The sentence the borrowing provider emits when the socket matches.
pub open spec fn borrowed_socket_info_seq(
    room: Seq<char>,
    name: Seq<char>,
    st: SocketState,
) -> Seq<char> {
    "Room: "@ + room + ", Device: SmartSocket named "@ + name + ", State: "@
        + socket_state_seq(st)
}

/// The sentence the borrowing provider emits when the thermometer matches.
pub open spec fn borrowed_thermo_info_seq(
    room: Seq<char>,
    name: Seq<char>,
    st: crate::devices::ThermometerState,
) -> Seq<char> {
    "Room: "@ + room + ", Device: SmartThermometer named "@ + name + ", State: "@
        + thermometer_state_seq(st)
}

/// An information provider holding shared read access to a live socket
/// and thermometer; it reflects whatever state is currently committed.
/// The socket is checked first, then the thermometer.
pub struct BorrowingDeviceInfoProvider<'a, 'b> {
    pub socket: &'a SmartSocket,
    pub thermo: &'b SmartThermometer,
}

impl<'a, 'b> DeviceInfoProvider for BorrowingDeviceInfoProvider<'a, 'b> {
    open spec fn resolve_spec(&self, room: Seq<char>, device_name: Seq<char>) -> Result<
        Seq<char>,
        DeviceInfoError,
    > {
        if device_name == self.socket.name@ {
            Ok(borrowed_socket_info_seq(room, device_name, self.socket.state))
        } else if device_name == self.thermo.name@ {
            Ok(borrowed_thermo_info_seq(room, device_name, self.thermo.state))
        } else {
            Err(DeviceInfoError::NotFound)
        }
    }

    fn device_info(&self, room: &str, device_name: &str) -> (r: Result<String, DeviceInfoError>) {
        if str_eq(device_name, self.socket.name.as_str()) {
            let mut s = "Room: ".to_owned();
            s.append(room);
            s.append(", Device: SmartSocket named ");
            s.append(device_name);
            s.append(", State: ");
            s.append(socket_state_label(&self.socket.state));
            proof {
                assert(s@ =~= borrowed_socket_info_seq(room@, device_name@, self.socket.state));
            }
            Ok(s)
        } else if str_eq(device_name, self.thermo.name.as_str()) {
            let mut s = "Room: ".to_owned();
            s.append(room);
            s.append(", Device: SmartThermometer named ");
            s.append(device_name);
            s.append(", State: ");
            let label = thermometer_state_label(&self.thermo.state);
            s.append(label.as_str());
            proof {
                assert(s@ =~= borrowed_thermo_info_seq(room@, device_name@, self.thermo.state));
            }
            Ok(s)
        } else {
            Err(DeviceInfoError::NotFound)
        }
    }
}

/// Law: for every room and device name, the owning provider resolves a
/// name matching its socket to exactly the sentence over the socket's
/// current state, and any other name to `NotFound`.
pub proof fn lemma_owning_provider_exact(
    p: OwningDeviceInfoProvider,
    room: Seq<char>,
    device_name: Seq<char>,
)
    ensures
        device_name == p.socket.name@ ==> p.resolve_spec(room, device_name) == Ok::<
            _,
            DeviceInfoError,
        >(owning_info_seq(room, device_name, p.socket.state)),
        device_name != p.socket.name@ ==> p.resolve_spec(room, device_name) == Err::<
            Seq<char>,
            _,
        >(DeviceInfoError::NotFound),
{
}

/// Law: when a name matches the borrowed socket's or the borrowed
/// thermometer's name, the borrowing provider resolves it — a matching
/// query never comes back `NotFound` — and an unrelated name always
/// resolves to `NotFound`.
pub proof fn lemma_borrowing_provider_matches<'a, 'b>(
    p: BorrowingDeviceInfoProvider<'a, 'b>,
    room: Seq<char>,
    device_name: Seq<char>,
)
    ensures
        device_name == p.socket.name@ || device_name == p.thermo.name@
            ==> p.resolve_spec(room, device_name) is Ok,
        device_name == p.socket.name@ ==> p.resolve_spec(room, device_name) == Ok::<
            _,
            DeviceInfoError,
        >(borrowed_socket_info_seq(room, device_name, p.socket.state)),
        device_name != p.socket.name@ && device_name == p.thermo.name@ ==> p.resolve_spec(
            room,
            device_name,
        ) == Ok::<_, DeviceInfoError>(
            borrowed_thermo_info_seq(room, device_name, p.thermo.state),
        ),
        device_name != p.socket.name@ && device_name != p.thermo.name@
            ==> p.resolve_spec(room, device_name) == Err::<Seq<char>, _>(
            DeviceInfoError::NotFound,
        ),
{
}

} // verus!
