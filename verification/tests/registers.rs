use temp_sensor::mcp9808::{Address, Error, MCP9808};
use temp_sensor::registers::device_id::DevInfoReg;
use temp_sensor::registers::manuf_id::ManufInfo;
use temp_sensor::registers::register::{Register, RegisterPointer};
use temp_sensor::registers::resolution::{Resolution, TempRes};

#[test]
fn pointer_values_match_the_register_map() {
    assert_eq!(RegisterPointer::Config.as_u8(), 0x01);
    assert_eq!(RegisterPointer::TempUpper.as_u8(), 0x02);
    assert_eq!(RegisterPointer::TempLower.as_u8(), 0x03);
    assert_eq!(RegisterPointer::TempCritical.as_u8(), 0x04);
    assert_eq!(RegisterPointer::TempAmbient.as_u8(), 0x05);
    assert_eq!(RegisterPointer::ManufId.as_u8(), 0x06);
    assert_eq!(RegisterPointer::DeviceId.as_u8(), 0x07);
    assert_eq!(RegisterPointer::Resolution.as_u8(), 0x08);
}

#[test]
fn read_only_classification() {
    assert!(RegisterPointer::TempAmbient.is_read_only());
    assert!(RegisterPointer::ManufId.is_read_only());
    assert!(RegisterPointer::DeviceId.is_read_only());
    assert!(!RegisterPointer::Config.is_read_only());
    assert!(!RegisterPointer::TempUpper.is_read_only());
    assert!(!RegisterPointer::TempLower.is_read_only());
    assert!(!RegisterPointer::TempCritical.is_read_only());
    assert!(!RegisterPointer::Resolution.is_read_only());
}

#[test]
fn register_buffer_accessors() {
    let mut reg = Register::new(RegisterPointer::Config, 2);
    assert_eq!(reg.get_ptr(), 0x01);
    assert_eq!(reg.get_len(), 2);
    assert_eq!(reg.get_msb(), 0);
    assert_eq!(reg.get_lsb(), 0);

    reg.set_msb(0xAB);
    reg.set_lsb(0xCD);
    assert_eq!(reg.get_msb(), 0xAB);
    assert_eq!(reg.get_lsb(), 0xCD);
    assert_eq!(reg.get_buf(), vec![0xAB, 0xCD]);

    reg.set_buf([0x12, 0x34]);
    assert_eq!(reg.get_buf(), vec![0x12, 0x34]);

    let one = Register::new(RegisterPointer::Resolution, 1);
    assert_eq!(one.get_buf(), vec![0x00]);
}

#[test]
fn bit_accessors_cross_the_byte_boundary() {
    let mut reg = Register::new(RegisterPointer::Config, 2);
    // Bits 0..8 live in the least significant byte.
    reg.set_bit(0, true);
    assert!(reg.get_bit(0));
    assert_eq!(reg.get_lsb(), 0x01);
    // Bit 8 crosses into the most significant byte.
    reg.set_bit(8, true);
    assert!(reg.get_bit(8));
    assert_eq!(reg.get_msb(), 0x01);
    reg.set_bit(8, false);
    assert!(!reg.get_bit(8));
    assert_eq!(reg.get_msb(), 0x00);
    reg.set_bit(15, true);
    assert_eq!(reg.get_msb(), 0x80);
    assert!(reg.get_bit(0));
    reg.set_bit(0, false);
    assert!(!reg.get_bit(0));
    assert_eq!(reg.get_lsb(), 0x00);
}

#[test]
fn u16_reinterpretation_takes_buffer_position_zero_as_low_byte() {
    let mut reg = Register::new(RegisterPointer::ManufId, 2);
    reg.set_buf([0x54, 0x00]);
    assert_eq!(reg.as_u16(), 0x0054);
    reg.set_buf([0x00, 0x54]);
    assert_eq!(reg.as_u16(), 0x5400);

    reg.from_u16(0xBEEF);
    assert_eq!(reg.get_msb(), 0xEF);
    assert_eq!(reg.get_lsb(), 0xBE);
    assert_eq!(reg.as_u16(), 0xBEEF);
}

#[test]
fn read_request_rejects_length_zero() {
    let reg = Register::new(RegisterPointer::Config, 0);
    assert!(matches!(
        reg.read_request::<u8>(),
        Err(Error::InvalidRegisterLength)
    ));
}

#[test]
fn read_request_rejects_length_three() {
    let reg = Register::new(RegisterPointer::Config, 3);
    assert!(matches!(
        reg.read_request::<u8>(),
        Err(Error::InvalidRegisterLength)
    ));
}

#[test]
fn read_request_yields_pointer_and_length() {
    let reg = Register::new(RegisterPointer::TempAmbient, 2);
    assert!(matches!(reg.read_request::<u8>(), Ok((0x05, 2))));
}

#[test]
fn write_frame_rejects_length_zero_and_three() {
    let zero = Register::new(RegisterPointer::Config, 0);
    assert!(matches!(
        zero.write_frame::<u8>(),
        Err(Error::InvalidRegisterLength)
    ));
    let three = Register::new(RegisterPointer::Config, 3);
    assert!(matches!(
        three.write_frame::<u8>(),
        Err(Error::InvalidRegisterLength)
    ));
}

#[test]
fn write_frame_rejects_read_only_pointers_regardless_of_payload() {
    for payload in [[0x00, 0x00], [0xFF, 0xFF], [0x12, 0x34]] {
        let mut dev = Register::new(RegisterPointer::DeviceId, 2);
        dev.set_buf(payload);
        assert!(matches!(
            dev.write_frame::<u8>(),
            Err(Error::ReadOnlyRegister)
        ));

        let mut man = Register::new(RegisterPointer::ManufId, 2);
        man.set_buf(payload);
        assert!(matches!(
            man.write_frame::<u8>(),
            Err(Error::ReadOnlyRegister)
        ));

        let mut amb = Register::new(RegisterPointer::TempAmbient, 2);
        amb.set_buf(payload);
        assert!(matches!(
            amb.write_frame::<u8>(),
            Err(Error::ReadOnlyRegister)
        ));
    }
}

#[test]
fn write_frame_is_pointer_then_payload() {
    let mut reg = Register::new(RegisterPointer::TempUpper, 2);
    reg.set_buf([0x12, 0x34]);
    assert_eq!(reg.write_frame::<u8>().unwrap(), vec![0x02, 0x12, 0x34]);

    let mut one = Register::new(RegisterPointer::Resolution, 1);
    one.set_msb(0x03);
    assert_eq!(one.write_frame::<u8>().unwrap(), vec![0x08, 0x03]);
}

#[test]
fn device_info_reads_id_and_revision() {
    let mut dev = DevInfoReg::new();
    assert_eq!(dev.get_device_id(), 0x00);
    assert!(!dev.is_valid_device());
    dev.reg.set_buf([0x04, 0x01]);
    assert_eq!(dev.get_device_id(), 0x04);
    assert_eq!(dev.get_device_rev(), 0x01);
    assert!(dev.is_valid_device());
    dev.reg.set_msb(0x05);
    assert!(!dev.is_valid_device());
}

#[test]
fn manufacturer_check_uses_the_fixed_reinterpretation() {
    let mut man = ManufInfo::new();
    assert!(!man.is_valid_manuf());
    // Valid exactly when the 16-bit reinterpretation — buffer position 0 as
    // the low byte — equals 0x0054.
    man.reg.set_buf([0x54, 0x00]);
    assert_eq!(man.get_manuf_id(), 0x0054);
    assert!(man.is_valid_manuf());
    // The device sends the id most-significant-byte first, which this
    // reinterpretation reads as 0x5400: deliberately not a match.
    man.reg.set_buf([0x00, 0x54]);
    assert_eq!(man.get_manuf_id(), 0x5400);
    assert!(!man.is_valid_manuf());
}

#[test]
fn resolution_register_round_trip() {
    let mut res = Resolution::new();
    assert_eq!(res.reg.get_ptr(), 0x08);
    assert_eq!(res.reg.get_len(), 1);
    assert_eq!(res.get_resolution(), TempRes::Deg_0_5C);
    res.set_resolution(TempRes::Deg_0_0625C);
    assert_eq!(res.reg.get_msb(), 0x03);
    assert_eq!(res.get_resolution(), TempRes::Deg_0_0625C);
    res.set_resolution(TempRes::Deg_0_125C);
    assert_eq!(res.get_resolution(), TempRes::Deg_0_125C);
}

#[test]
fn resolution_codes_decode_from_low_two_bits() {
    assert_eq!(TempRes::from(0x00), TempRes::Deg_0_5C);
    assert_eq!(TempRes::from(0x01), TempRes::Deg_0_25C);
    assert_eq!(TempRes::from(0x02), TempRes::Deg_0_125C);
    assert_eq!(TempRes::from(0x03), TempRes::Deg_0_0625C);
    // The rest of the byte is ignored.
    assert_eq!(TempRes::from(0xFC), TempRes::Deg_0_5C);
    assert_eq!(TempRes::from(0xFF), TempRes::Deg_0_0625C);
}

#[test]
fn addresses_pack_the_three_configurable_bits() {
    assert_eq!(Address::Default.as_u8(), 0x18);
    assert_eq!(
        Address::Alternate {
            bit2: false,
            bit1: false,
            bit0: false
        }
        .as_u8(),
        0x18
    );
    assert_eq!(
        Address::Alternate {
            bit2: true,
            bit1: false,
            bit0: true
        }
        .as_u8(),
        0x1D
    );
    assert_eq!(
        Address::Alternate {
            bit2: true,
            bit1: true,
            bit0: true
        }
        .as_u8(),
        0x1F
    );
}

#[test]
fn endpoint_holds_and_rebinds_its_address() {
    let mut sensor = MCP9808::new(Address::Default);
    assert_eq!(sensor.get_address(), 0x18);
    sensor.set_address(Address::Alternate {
        bit2: true,
        bit1: false,
        bit0: false,
    });
    assert_eq!(sensor.get_address(), 0x1C);
}
