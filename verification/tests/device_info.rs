use smart_home::device_info::{
    BorrowingDeviceInfoProvider, DeviceInfoError, DeviceInfoProvider, OwningDeviceInfoProvider,
};
use smart_home::devices::{Celsius, SmartSocket, SmartThermometer, SocketState, ThermometerState};

#[test]
fn test_owning_device_info_provider_socket() {
    let socket = SmartSocket {
        name: "Socket1".to_string(),
        state: SocketState::On,
        power_consumption: 100,
    };
    let provider = OwningDeviceInfoProvider { socket };
    let info = provider.device_info("LivingRoom", "Socket1").unwrap();
    assert_eq!(info, "In room LivingRoom, the socket named Socket1 is On");
}

#[test]
fn test_owning_device_info_provider_no_info() {
    let socket = SmartSocket {
        name: "Socket1".to_string(),
        state: SocketState::On,
        power_consumption: 100,
    };
    let provider = OwningDeviceInfoProvider { socket };
    let info = provider.device_info("LivingRoom", "Socket2");
    assert_eq!(info, Err(DeviceInfoError::NotFound));
}

#[test]
fn test_borrowing_device_info_provider_socket() {
    let socket = SmartSocket {
        name: "Socket1".to_string(),
        state: SocketState::On,
        power_consumption: 100,
    };
    let thermo = SmartThermometer {
        name: "Thermo1".to_string(),
        state: ThermometerState::Temperature(Celsius { tenths: 220 }),
    };
    let provider = BorrowingDeviceInfoProvider {
        socket: &socket,
        thermo: &thermo,
    };
    let info = provider.device_info("LivingRoom", "Socket1").unwrap();
    assert_eq!(
        info,
        "Room: LivingRoom, Device: SmartSocket named Socket1, State: On"
    );
}

#[test]
fn test_borrowing_device_info_provider_thermo() {
    let socket = SmartSocket {
        name: "Socket1".to_string(),
        state: SocketState::On,
        power_consumption: 100,
    };
    let thermo = SmartThermometer {
        name: "Thermo1".to_string(),
        state: ThermometerState::Temperature(Celsius { tenths: 220 }),
    };
    let provider = BorrowingDeviceInfoProvider {
        socket: &socket,
        thermo: &thermo,
    };
    let info = provider.device_info("LivingRoom", "Thermo1").unwrap();
    assert_eq!(
        info,
        "Room: LivingRoom, Device: SmartThermometer named Thermo1, State: Temperature(22.0)"
    );
}

#[test]
fn test_borrowing_provider_unrelated_name() {
    let socket = SmartSocket {
        name: "Socket1".to_string(),
        state: SocketState::Off,
        power_consumption: 0,
    };
    let thermo = SmartThermometer {
        name: "Thermo1".to_string(),
        state: ThermometerState::Off,
    };
    let provider = BorrowingDeviceInfoProvider {
        socket: &socket,
        thermo: &thermo,
    };
    assert_eq!(
        provider.device_info("LivingRoom", "Lamp"),
        Err(DeviceInfoError::NotFound)
    );
    assert!(provider.device_info("LivingRoom", "Socket1").is_ok());
    assert!(provider.device_info("LivingRoom", "Thermo1").is_ok());
}

#[test]
fn test_borrowing_provider_thermometer_off() {
    let socket = SmartSocket {
        name: "S".to_string(),
        state: SocketState::Off,
        power_consumption: 0,
    };
    let thermo = SmartThermometer {
        name: "T".to_string(),
        state: ThermometerState::Off,
    };
    let provider = BorrowingDeviceInfoProvider {
        socket: &socket,
        thermo: &thermo,
    };
    let info = provider.device_info("Hall", "T").unwrap();
    assert_eq!(info, "Room: Hall, Device: SmartThermometer named T, State: Off");
}
