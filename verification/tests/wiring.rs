use bmw_toolbox_lib::command_bus::{Command, CommandBus};
use bmw_toolbox_lib::db;
use bmw_toolbox_lib::transport::mock::MockTransport;
use bmw_toolbox_lib::transport::Transport;

struct RegisterVehicleCommand {
    vin: String,
    platform: String,
}

impl Command for RegisterVehicleCommand {
    type Output = i64;
}

#[test]
fn command_bus_dispatch_persists_through_in_memory_sqlite() {
    let conn = db::open_and_migrate(":memory:").result.expect("migrations should apply cleanly");

    let mut bus = CommandBus::new();
    let conn = std::sync::Mutex::new(conn);
    bus.register::<RegisterVehicleCommand, _>(move |cmd| {
        let conn = conn.lock().unwrap();
        conn.execute(
            "INSERT INTO vehicles (vin, platform) VALUES (?1, ?2)",
            [cmd.vin.as_str(), cmd.platform.as_str()],
        )
        .expect("insert should succeed");
        conn.last_insert_rowid()
    });

    let id = bus
        .dispatch(RegisterVehicleCommand {
            vin: "WBA00000000000000".to_string(),
            platform: "F-Series".to_string(),
        })
        .expect("dispatch should find the registered handler");

    assert_eq!(id, 1);
}

#[test]
fn mock_transport_requires_explicit_connect_before_use() {
    let mut transport = MockTransport::new();
    assert!(!transport.is_connected());
    transport.connect().unwrap();
    assert!(transport.is_connected());
}
