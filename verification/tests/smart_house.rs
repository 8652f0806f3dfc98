use smart_home::device_info::{BorrowingDeviceInfoProvider, OwningDeviceInfoProvider};
use smart_home::devices::{
    Celsius, Device, SmartSocket, SmartThermometer, SocketState, ThermometerState,
};
use smart_home::smart_house::{Room, SmartHouse};

#[test]
fn test_add_remove_room() {
    let mut house = SmartHouse::new("HouseName", Vec::new());
    let room = Room::new("Living Room", Vec::new());
    house.add_room(room);
    assert_eq!(house.list_rooms(), vec!["Living Room"]);
    house.remove_room("Living Room");
    assert_eq!(house.list_rooms().len(), 0);
}

#[test]
fn test_add_remove_device() {
    let mut room = Room::new("Bedroom", Vec::new());
    let device = Device::SmartSocket(SmartSocket {
        name: "Socket1".to_string(),
        state: SocketState::On,
        power_consumption: 100,
    });
    room.add_device(device);
    assert_eq!(room.list_devices(), vec!["Socket1"]);
    room.remove_device("Socket1");
    assert_eq!(room.list_devices().len(), 0);
}

#[test]
fn test_smart_house_creation() {
    let house = SmartHouse::new("MyHouse", Vec::new());
    assert_eq!(house.name, "MyHouse");
    assert_eq!(house.rooms.len(), 0);
}

#[test]
fn test_get_rooms() {
    let room1 = Room {
        name: "LivingRoom".to_string(),
        devices: Vec::new(),
    };
    let room2 = Room {
        name: "Kitchen".to_string(),
        devices: Vec::new(),
    };
    let house = SmartHouse::new("MyHouse", vec![room1, room2]);
    let rooms = house.get_rooms();
    assert_eq!(rooms, vec!["LivingRoom", "Kitchen"]);
}

#[test]
fn test_devices_in_room() {
    let socket = SmartSocket {
        name: "Socket1".to_string(),
        state: SocketState::On,
        power_consumption: 100,
    };
    let room = Room {
        name: "LivingRoom".to_string(),
        devices: vec![Device::SmartSocket(socket)],
    };
    let house = SmartHouse::new("MyHouse", vec![room]);
    let devices = house.devices("LivingRoom");
    assert_eq!(devices, Some(vec!["Socket1".to_string()]));
}

#[test]
fn test_smart_house_report() {
    let socket = SmartSocket {
        name: "Socket1".to_string(),
        state: SocketState::On,
        power_consumption: 100,
    };
    let thermo = SmartThermometer {
        name: "Thermo1".to_string(),
        state: ThermometerState::Temperature(Celsius { tenths: 220 }),
    };
    let room = Room {
        name: "LivingRoom".to_string(),
        devices: vec![
            Device::SmartSocket(socket.clone()),
            Device::SmartThermometer(thermo.clone()),
        ],
    };
    let house = SmartHouse::new("MyHouse", vec![room]);

    let provider = BorrowingDeviceInfoProvider {
        socket: &socket,
        thermo: &thermo,
    };
    let report = house.create_report(&provider);
    assert!(report.contains("Socket1"));
    assert!(report.contains("Thermo1"));
    assert!(!report.contains("Error:"));
}

#[test]
fn test_smart_house_report_generation() {
    let socket = SmartSocket {
        name: "SocketInRoom".to_string(),
        state: SocketState::On,
        power_consumption: 100,
    };
    let room = Room {
        name: "LivingRoom".to_string(),
        devices: vec![Device::SmartSocket(socket.clone())],
    };
    let house = SmartHouse {
        name: "MyHome".to_string(),
        rooms: vec![room],
    };

    let provider = OwningDeviceInfoProvider { socket };
    let report = house.create_report(&provider);
    assert_eq!(
        report,
        "Room: LivingRoom, Device: SocketInRoom, Info: In room LivingRoom, the socket named SocketInRoom is On\n"
    );
    assert!(!report.contains("Error:"));
}

#[test]
fn test_report_home_end_to_end() {
    let socket = SmartSocket {
        name: "S1".to_string(),
        state: SocketState::On,
        power_consumption: 100,
    };
    let room = Room {
        name: "Living Room".to_string(),
        devices: vec![Device::SmartSocket(socket.clone())],
    };
    let house = SmartHouse::new("Home", vec![room]);
    let provider = OwningDeviceInfoProvider { socket };
    let report = house.create_report(&provider);
    assert_eq!(
        report,
        "Room: Living Room, Device: S1, Info: In room Living Room, the socket named S1 is On\n"
    );
}

#[test]
fn test_report_line_count_and_idempotence() {
    let socket = SmartSocket {
        name: "Socket1".to_string(),
        state: SocketState::Off,
        power_consumption: 0,
    };
    let thermo = SmartThermometer {
        name: "Thermo1".to_string(),
        state: ThermometerState::Off,
    };
    let room1 = Room {
        name: "LivingRoom".to_string(),
        devices: vec![
            Device::SmartSocket(socket.clone()),
            Device::SmartThermometer(thermo.clone()),
        ],
    };
    let room2 = Room {
        name: "Kitchen".to_string(),
        devices: vec![Device::SmartSocket(SmartSocket {
            name: "Lamp".to_string(),
            state: SocketState::Off,
            power_consumption: 0,
        })],
    };
    let house = SmartHouse::new("MyHouse", vec![room1, room2]);
    let provider = BorrowingDeviceInfoProvider {
        socket: &socket,
        thermo: &thermo,
    };
    let report = house.create_report(&provider);
    assert_eq!(report.lines().count(), 3);
    let report_again = house.create_report(&provider);
    assert_eq!(report, report_again);
}

#[test]
fn test_report_error_marker_inline() {
    let shown = SmartSocket {
        name: "Known".to_string(),
        state: SocketState::On,
        power_consumption: 100,
    };
    let room = Room {
        name: "Hall".to_string(),
        devices: vec![Device::SmartSocket(SmartSocket {
            name: "Stranger".to_string(),
            state: SocketState::Off,
            power_consumption: 0,
        })],
    };
    let house = SmartHouse::new("H", vec![room]);
    let provider = OwningDeviceInfoProvider { socket: shown };
    let report = house.create_report(&provider);
    assert_eq!(
        report,
        "Room: Hall, Device: Stranger, Info: Error: NotFound\n"
    );
}

#[test]
fn test_get_room_mut_renames_devices() {
    let mut house = SmartHouse::new(
        "H",
        vec![
            Room {
                name: "A".to_string(),
                devices: Vec::new(),
            },
            Room {
                name: "B".to_string(),
                devices: Vec::new(),
            },
        ],
    );
    assert!(house.get_room_mut("C").is_none());
    let room = house.get_room_mut("B").unwrap();
    room.add_device(Device::SmartSocket(SmartSocket {
        name: "New".to_string(),
        state: SocketState::Off,
        power_consumption: 0,
    }));
    assert_eq!(house.devices("B"), Some(vec!["New".to_string()]));
    assert_eq!(house.devices("A"), Some(Vec::new()));
}
