use sp105e::commands::{GATT_CHARACTERISTIC_UUID, GATT_SERVICE_UUID};
use sp105e::gatt::GattIds;

#[test]
fn identifiers_of_the_controller() {
    assert_eq!(
        GattIds::sp105e(),
        Some(GattIds {
            service: 0x0000ffe0_0000_1000_8000_00805f9b34fb,
            characteristic: 0x0000ffe1_0000_1000_8000_00805f9b34fb,
        })
    );
    assert_eq!(GATT_SERVICE_UUID, "0000ffe0-0000-1000-8000-00805f9b34fb");
    assert_eq!(GATT_CHARACTERISTIC_UUID, "0000ffe1-0000-1000-8000-00805f9b34fb");
}

#[test]
fn identifiers_are_read_from_text() {
    let ids = GattIds::parse(
        "a1a2a3a4-b1b2-c1c2-d1d2-d3d4d5d6d7d8",
        "A1A2A3A4B1B2C1C2D1D2D3D4D5D6D7D9",
    )
    .unwrap();
    assert_eq!(ids.service, 0xa1a2a3a4_b1b2_c1c2_d1d2_d3d4d5d6d7d8);
    assert_eq!(ids.characteristic, 0xa1a2a3a4_b1b2_c1c2_d1d2_d3d4d5d6d7d9);
}

#[test]
fn identifiers_that_are_no_uuid_are_refused() {
    assert_eq!(GattIds::parse("ffe0", GATT_CHARACTERISTIC_UUID), None);
    assert_eq!(GattIds::parse(GATT_SERVICE_UUID, ""), None);
    assert_eq!(GattIds::parse(GATT_SERVICE_UUID, "0000ffe1-0000-1000-8000-00805f9b34fg"), None);
    assert_eq!(GattIds::from_parsed(Some(1), None), None);
    assert_eq!(GattIds::from_parsed(None, Some(2)), None);
    assert_eq!(
        GattIds::from_parsed(Some(1), Some(2)),
        Some(GattIds { service: 1, characteristic: 2 })
    );
}
