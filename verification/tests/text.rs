use smart_home::devices::{thermometer_state_label, Celsius, ThermometerState};
use smart_home::text::{str_eq, tenths_string, trim, u64_string};

#[test]
fn test_u64_rendering() {
    assert_eq!(u64_string(0), "0");
    assert_eq!(u64_string(7), "7");
    assert_eq!(u64_string(100), "100");
    assert_eq!(u64_string(u64::MAX), "18446744073709551615");
}

#[test]
fn test_tenths_rendering() {
    assert_eq!(tenths_string(0), "0.0");
    assert_eq!(tenths_string(225), "22.5");
    assert_eq!(tenths_string(220), "22.0");
    assert_eq!(tenths_string(-35), "-3.5");
    assert_eq!(tenths_string(-5), "-0.5");
}

#[test]
fn test_thermometer_labels() {
    assert_eq!(thermometer_state_label(&ThermometerState::Off), "Off");
    assert_eq!(
        thermometer_state_label(&ThermometerState::Temperature(Celsius { tenths: 220 })),
        "Temperature(22.0)"
    );
}

#[test]
fn test_trim_matches_std() {
    for s in ["", "   ", "on", "  on", "on  ", "\t status \n", "a b", "\u{2003}x\u{A0}"] {
        assert_eq!(trim(s), s.trim());
    }
}

#[test]
fn test_str_eq_matches_std() {
    assert!(str_eq("", ""));
    assert!(str_eq("status", "status"));
    assert!(!str_eq("status", "statut"));
    assert!(!str_eq("on", "only"));
    assert!(str_eq("héllo", "héllo"));
    assert!(!str_eq("héllo", "hello"));
}
