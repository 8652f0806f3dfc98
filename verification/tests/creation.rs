use smart_home::device_info::{
    BorrowingDeviceInfoProvider, DeviceInfoProvider, OwningDeviceInfoProvider,
};
use smart_home::devices::{Celsius, SmartSocket, SmartThermometer, SocketState, ThermometerState};

#[test]
fn test_smart_socket_creation() {
    let socket = SmartSocket {
        name: "TestSocket".to_string(),
        state: SocketState::On,
        power_consumption: 100,
    };
    assert_eq!(socket.name, "TestSocket");
    assert_eq!(socket.state, SocketState::On);
}

#[test]
fn test_smart_thermometer_creation() {
    let thermo = SmartThermometer {
        name: "TestThermo".to_string(),
        state: ThermometerState::Temperature(Celsius { tenths: 230 }),
    };
    assert_eq!(thermo.name, "TestThermo");
    match thermo.state {
        ThermometerState::Temperature(t) => assert_eq!(t, Celsius { tenths: 230 }),
        _ => panic!("Unexpected state for the thermometer"),
    }
}

#[test]
fn test_owning_device_info_provider() {
    let socket = SmartSocket {
        name: "SocketInRoom".to_string(),
        state: SocketState::On,
        power_consumption: 100,
    };
    let provider = OwningDeviceInfoProvider { socket };
    let info = provider.device_info("LivingRoom", "SocketInRoom").unwrap();
    assert_eq!(
        info,
        "In room LivingRoom, the socket named SocketInRoom is On"
    );
}

#[test]
fn test_borrowing_device_info_provider() {
    let socket = SmartSocket {
        name: "SocketInKitchen".to_string(),
        state: SocketState::Off,
        power_consumption: 0,
    };
    let thermo = SmartThermometer {
        name: "ThermoInKitchen".to_string(),
        state: ThermometerState::Temperature(Celsius { tenths: 200 }),
    };
    let provider = BorrowingDeviceInfoProvider {
        socket: &socket,
        thermo: &thermo,
    };
    let socket_info = provider.device_info("Kitchen", "SocketInKitchen").unwrap();
    assert_eq!(
        socket_info,
        "Room: Kitchen, Device: SmartSocket named SocketInKitchen, State: Off"
    );
    let thermo_info = provider.device_info("Kitchen", "ThermoInKitchen").unwrap();
    assert_eq!(
        thermo_info,
        "Room: Kitchen, Device: SmartThermometer named ThermoInKitchen, State: Temperature(20.0)"
    );
}

#[test]
fn test_default_socket() {
    let socket = SmartSocket::default();
    assert_eq!(socket.name, "TestSocket");
    assert_eq!(socket.state, SocketState::Off);
    assert_eq!(socket.power_consumption, 0);
}
