use bmw_toolbox_lib::domain::bmw::Bmw;
use bmw_toolbox_lib::domain::{Manufacturer, Vehicle, VehiclePlatform};

#[test]
fn bmw_reports_expected_platforms() {
    let bmw = Bmw;
    assert_eq!(bmw.name(), "BMW");
    assert!(bmw.platforms().contains(&"F-Series"));
}

#[test]
fn bmw_platforms_are_f_then_e_series() {
    assert_eq!(Bmw.platforms(), &["F-Series", "E-Series"]);
}

#[test]
fn vehicle_carries_its_platform() {
    let platform = VehiclePlatform { manufacturer: "BMW", name: "F-Series", protocol: "UDS" };
    let vehicle = Vehicle { vin: "WBAF12345LC000001".to_string(), platform: platform.clone() };
    assert_eq!(vehicle.platform.name, "F-Series");
    assert_eq!(vehicle.vin.len(), 17);
}

#[test]
fn greeting_names_the_caller() {
    assert_eq!(
        bmw_toolbox_lib::greet("Ana"),
        "Hello, Ana! You've been greeted from Rust!"
    );
}
