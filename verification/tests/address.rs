use sp105e::address::MacAddress;

#[test]
fn address_is_read_from_text() {
    assert_eq!(
        MacAddress::parse("69:96:06:04:0C:B1"),
        Some(MacAddress([0x69, 0x96, 0x06, 0x04, 0x0C, 0xB1]))
    );
    assert_eq!(
        MacAddress::parse("01:23:45:67:89:ab").unwrap().bytes(),
        [0x01, 0x23, 0x45, 0x67, 0x89, 0xAB]
    );
    assert_eq!(MacAddress::parse("0:0:0:0:0:0"), Some(MacAddress([0; 6])));
}

#[test]
fn address_that_is_none_is_refused() {
    assert_eq!(MacAddress::parse(""), None);
    assert_eq!(MacAddress::parse("69:96:06:04:0C"), None);
    assert_eq!(MacAddress::parse("69:96:06:04:0C:B1:00"), None);
    assert_eq!(MacAddress::parse("69:96:06:04:0C:G1"), None);
    assert_eq!(MacAddress::parse("69-96-06-04-0C-B1"), None);
    assert_eq!(MacAddress::parse("100:96:06:04:0C:B1"), None);
}
