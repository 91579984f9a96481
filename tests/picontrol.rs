use picontrol::control::{
    bit_value_reply, bit_value_request, check_ioctl, check_read, check_write, copy_buffer,
    device_list_reply, grow_buffer, variable_access, variable_reply, variable_request,
    variable_write, VariableAccess, VariableWrite, LARGE_BUFFER_SIZE, SMALL_BUFFER_SIZE,
};
use picontrol::modules::{module_status, ModuleStatus};
use picontrol::picontrol::{DEVICE_INFO_SIZE, REV_PI_DEV_CNT_MAX, VALUE_SIZE, VARIABLE_SIZE};
use picontrol::{
    decode_value, get_module_name, is_module_connected, num_to_bytes, ControlError,
    CstrToStrError, RevPiControl, SDeviceInfo, SPIValue, SPIVariable,
};

#[test]
fn picontrol_constants() {
    assert_eq!(&picontrol::picontrol::PICONTROL_DEVICE, b"/dev/piControl0\0");
}

#[test]
fn encode_widths_and_lengths() {
    assert_eq!(num_to_bytes(0x1234, 8).unwrap(), vec![0x34]);
    assert_eq!(num_to_bytes(4660, 16).unwrap(), vec![0x34, 0x12]);
    assert_eq!(
        num_to_bytes(0x0102_0304, 32).unwrap(),
        vec![0x04, 0x03, 0x02, 0x01]
    );
    assert_eq!(
        num_to_bytes(0x0102_0304_0506_0708, 64).unwrap(),
        vec![8, 7, 6, 5, 4, 3, 2, 1]
    );
    for w in [8usize, 16, 32, 64] {
        assert_eq!(num_to_bytes(u64::MAX, w).unwrap().len(), w / 8);
    }
}

#[test]
fn encode_unsupported_width() {
    assert_eq!(num_to_bytes(1, 24), Err(ControlError::InvalidSize(24)));
    assert_eq!(num_to_bytes(1, 0), Err(ControlError::InvalidSize(0)));
}

#[test]
fn decode_little_endian() {
    assert_eq!(decode_value(&[0x34, 0x12]), Ok(0x1234));
    assert_eq!(decode_value(&[0x34, 0x12]), Ok(4660));
    assert_eq!(decode_value(&[0xff]), Ok(255));
    assert_eq!(decode_value(&[0x04, 0x03, 0x02, 0x01]), Ok(0x0102_0304));
    assert_eq!(decode_value(&[1, 2, 3]), Err(ControlError::InvalidLength(3)));
    assert_eq!(decode_value(&[]), Err(ControlError::InvalidLength(0)));
}

#[test]
fn round_trip_keeps_low_bits() {
    let v: u64 = 0xdead_beef_cafe;
    assert_eq!(decode_value(&num_to_bytes(v, 8).unwrap()), Ok(0xfe));
    assert_eq!(decode_value(&num_to_bytes(v, 16).unwrap()), Ok(0xcafe));
    assert_eq!(decode_value(&num_to_bytes(v, 32).unwrap()), Ok(0xbeef_cafe));
    assert_eq!(num_to_bytes(4660, 16).unwrap(), vec![0x34, 0x12]);
}

#[test]
fn normalize_folds_bit_index() {
    let mut v = SPIValue { i16uAddress: 10, i8uBit: 19, i8uValue: 1 };
    v.normalize();
    assert_eq!(v, SPIValue { i16uAddress: 12, i8uBit: 3, i8uValue: 1 });
    let mut w = SPIValue { i16uAddress: 7, i8uBit: 5, i8uValue: 0 };
    w.normalize();
    assert_eq!(w, SPIValue { i16uAddress: 7, i8uBit: 5, i8uValue: 0 });
}

#[test]
fn unopened_handle_is_not_connected() {
    let c: RevPiControl<u32> = RevPiControl::new();
    assert!(!c.is_open());
    assert_eq!(c.handle().err(), Some(ControlError::NotConnected));
    assert_eq!(c.path(), "/dev/piControl0");
    let d: RevPiControl<u32> = RevPiControl::new_at("/tmp/image.bin");
    assert_eq!(d.path(), "/tmp/image.bin");
    assert_eq!(d.open_target(), Some("/tmp/image.bin"));
}

#[test]
fn open_twice_keeps_one_descriptor() {
    let mut c: RevPiControl<u32> = RevPiControl::new();
    assert_eq!(c.open_target(), Some("/dev/piControl0"));
    c.attach(7);
    assert_eq!(c.open_target(), None);
    assert_eq!(c.handle(), Ok(&7));
    c.close();
    assert!(!c.is_open());
    c.close();
    assert_eq!(c.handle().err(), Some(ControlError::NotConnected));
}

fn device_buffer(slots: usize) -> Vec<u8> {
    let mut buf = vec![0u8; slots * DEVICE_INFO_SIZE];
    for slot in 0..slots {
        let at = slot * DEVICE_INFO_SIZE;
        buf[at] = 30 + slot as u8;
        buf[at + 8] = 95;
        buf[at + 12] = 1;
        buf[at + 14] = 2;
        buf[at + 28] = 11;
        buf[at + 39] = 1;
    }
    buf
}

#[test]
fn device_list_truncated_to_count() {
    let buf = device_buffer(10);
    let list = device_list_reply(Ok(2), 0, &buf).unwrap();
    assert_eq!(list.len(), 2);
    assert_eq!(list[0].i8uAddress, 30);
    assert_eq!(list[1].i8uAddress, 31);
    assert_eq!(list[1].i16uModuleType, 95);
    assert_eq!(list[1].i16uSW_Major, 1);
    assert_eq!(list[1].i16uSW_Minor, 2);
    assert_eq!(list[1].i16uInputOffset, 11);
    assert_eq!(list[1].i8uActive, 1);
}

#[test]
fn device_list_errors() {
    let buf = device_buffer(REV_PI_DEV_CNT_MAX);
    assert_eq!(device_list_reply(Ok(-1), 5, &buf), Err(ControlError::Sys(5)));
    assert_eq!(device_list_reply(Err(19), 5, &buf), Err(ControlError::Sys(19)));
    assert_eq!(
        device_list_reply(Ok(65), 0, &buf),
        Err(ControlError::DeviceCountOutOfRange(65))
    );
    assert_eq!(device_list_reply(Ok(0), 0, &buf), Ok(vec![]));
}

#[test]
fn device_record_layout() {
    let mut buf = vec![0u8; DEVICE_INFO_SIZE + 3];
    buf[3] = 9;
    buf[3 + 4] = 0x78;
    buf[3 + 5] = 0x56;
    buf[3 + 6] = 0x34;
    buf[3 + 7] = 0x12;
    buf[3 + 8] = 0x01;
    buf[3 + 9] = 0x80;
    buf[3 + 38] = 4;
    let d = SDeviceInfo::from_le_bytes(&buf, 3);
    assert_eq!(d.i8uAddress, 9);
    assert_eq!(d.i32uSerialnumber, 0x1234_5678);
    assert_eq!(d.i16uModuleType, 0x8001);
    assert_eq!(d.i8uModuleState, 4);
    assert_eq!(d.i8uActive, 0);
}

#[test]
fn unsupported_bit_length_is_reported() {
    let mut var = SPIVariable::with_name("Counter");
    var.i16uAddress = 100;
    var.i16uLength = 24;
    assert_eq!(
        variable_access(&var),
        Err(ControlError::UnsupportedBitLength(24))
    );
    assert_eq!(
        variable_write(&var, 5),
        Err(ControlError::UnsupportedBitLength(24))
    );
}

#[test]
fn sixteen_bit_variable_scenario() {
    let mut var = SPIVariable::with_name("Speed");
    var.i16uAddress = 100;
    var.i16uLength = 16;
    assert_eq!(
        variable_access(&var),
        Ok(VariableAccess::Bytes { address: 100, size: 2 })
    );
    let data = check_read(2, vec![0x34, 0x12]).unwrap();
    assert_eq!(decode_value(&data), Ok(0x1234));
    assert_eq!(
        variable_write(&var, 4660),
        Ok(VariableWrite::Bytes { address: 100, data: vec![0x34, 0x12] })
    );
}

#[test]
fn one_bit_variable_access() {
    let mut var = SPIVariable::with_name("Led");
    var.i16uAddress = 10;
    var.i8uBit = 3;
    var.i16uLength = 1;
    assert_eq!(
        variable_access(&var),
        Ok(VariableAccess::Bit(SPIValue { i16uAddress: 10, i8uBit: 3, i8uValue: 0 }))
    );
    assert_eq!(
        variable_write(&var, 0x101),
        Ok(VariableWrite::Bit(SPIValue { i16uAddress: 10, i8uBit: 3, i8uValue: 1 }))
    );
}

// A stand-in for the driver's bit requests on a process image.
fn driver_bit(image: &mut [u8], request: &[u8], set: bool) -> Vec<u8> {
    let address = request[0] as usize + 256 * request[1] as usize;
    let bit = request[2];
    let mut reply = request.to_vec();
    if set {
        if request[3] != 0 {
            image[address] |= 1 << bit;
        } else {
            image[address] &= !(1 << bit);
        }
    } else {
        reply[3] = (image[address] >> bit) & 1;
    }
    reply
}

#[test]
fn bit_set_then_read_back() {
    let mut image = vec![0u8; 64];
    for wanted in [1u8, 0u8] {
        let mut set = SPIValue { i16uAddress: 10, i8uBit: 3, i8uValue: wanted };
        let req = bit_value_request(&mut set);
        assert_eq!(req, vec![10, 0, 3, wanted]);
        let reply = driver_bit(&mut image, &req, true);
        assert_eq!(bit_value_reply(Ok(0), 0, &reply, &mut set), Ok(true));

        let mut get = SPIValue { i16uAddress: 10, i8uBit: 3, i8uValue: 0xff };
        let req = bit_value_request(&mut get);
        let reply = driver_bit(&mut image, &req, false);
        assert_eq!(bit_value_reply(Ok(0), 0, &reply, &mut get), Ok(true));
        assert_eq!(get.i8uValue, wanted);
    }
    assert_eq!(image[10], 0);
}

#[test]
fn bit_request_folds_index() {
    let mut v = SPIValue { i16uAddress: 10, i8uBit: 11, i8uValue: 1 };
    let req = bit_value_request(&mut v);
    assert_eq!(req, vec![11, 0, 3, 1]);
    assert_eq!(v.i16uAddress, 11);
    assert_eq!(v.i8uBit, 3);
}

#[test]
fn bit_reply_failure_keeps_value() {
    let mut v = SPIValue { i16uAddress: 4, i8uBit: 1, i8uValue: 0 };
    let reply = [4u8, 0, 1, 1];
    assert_eq!(bit_value_reply(Ok(-1), 22, &reply, &mut v), Err(ControlError::Sys(22)));
    assert_eq!(v, SPIValue { i16uAddress: 4, i8uBit: 1, i8uValue: 0 });
    assert_eq!(reply.len(), VALUE_SIZE);
}

#[test]
fn short_read_fails() {
    assert_eq!(
        check_read(8, vec![1, 2, 3]),
        Err(ControlError::ShortRead { expected: 8, actual: 3 })
    );
    assert_eq!(check_read(3, vec![1, 2, 3]), Ok(vec![1, 2, 3]));
}

#[test]
fn short_write_fails() {
    assert_eq!(check_write(4, 4), Ok(true));
    assert_eq!(
        check_write(4, 1),
        Err(ControlError::ShortWrite { expected: 4, actual: 1 })
    );
}

#[test]
fn ioctl_outcomes() {
    assert_eq!(check_ioctl(Ok(3), 0), Ok(3));
    assert_eq!(check_ioctl(Ok(-1), 2), Err(ControlError::Sys(2)));
    assert_eq!(check_ioctl(Err(25), 2), Err(ControlError::Sys(25)));
}

#[test]
fn variable_lookup_request_and_reply() {
    let req = variable_request("Input_1").unwrap();
    assert_eq!(req.len(), VARIABLE_SIZE);
    assert_eq!(&req[..7], b"Input_1");
    assert!(req[7..].iter().all(|&b| b == 0));
    let long = "abcdefghijklmnopqrstuvwxyz012345";
    assert_eq!(variable_request(long), Err(ControlError::NameTooLong(32)));
    assert!(variable_request(&long[..31]).is_ok());

    let mut reply = req.clone();
    reply[32] = 0x2c;
    reply[33] = 0x01;
    reply[34] = 6;
    reply[36] = 16;
    let v = variable_reply(Ok(0), 0, &reply).unwrap();
    assert_eq!(v.i16uAddress, 300);
    assert_eq!(v.i8uBit, 6);
    assert_eq!(v.i16uLength, 16);
    assert_eq!(v.name(), Ok("Input_1"));
    assert_eq!(variable_reply(Ok(-1), 2, &reply), Err(ControlError::Sys(2)));
}

#[test]
fn variable_name_errors() {
    let full = SPIVariable {
        strVarName: [b'a'; 32],
        i16uAddress: 0,
        i8uBit: 0,
        i16uLength: 0,
    };
    assert_eq!(full.name(), Err(CstrToStrError::FromBytesWithNul));
    let mut bad = full;
    bad.strVarName[0] = 0xff;
    bad.strVarName[1] = 0;
    assert_eq!(bad.name(), Err(CstrToStrError::Utf8));
    let empty = SPIVariable::with_name("");
    assert_eq!(empty.name(), Ok(""));
}

#[test]
fn module_names() {
    assert_eq!(get_module_name(95), "RevPi Core");
    assert_eq!(get_module_name(95 | 0x8000), "RevPi Core");
    assert_eq!(get_module_name(103), "RevPi AIO");
    assert_eq!(get_module_name(24577), "ModbusTCP Slave Adapter");
    assert_eq!(get_module_name(24580), "ModbusRTU Master Adapter");
    assert_eq!(get_module_name(81), "Gateway SercosIII");
    assert_eq!(get_module_name(12345), "unknown moduletype");
}

#[test]
fn module_connection() {
    assert!(is_module_connected(0x8000 | 95));
    assert!(!is_module_connected(95));
    let mut d = SDeviceInfo::from_le_bytes(&device_buffer(1), 0);
    assert_eq!(module_status(&d), ModuleStatus::Present);
    d.i8uActive = 0;
    assert_eq!(module_status(&d), ModuleStatus::NotConfigured);
    d.i16uModuleType = 0x8000 | 95;
    assert_eq!(module_status(&d), ModuleStatus::NotPresent);
}

#[test]
fn copy_buffer_growth() {
    let mut b = copy_buffer();
    assert_eq!(b.len(), SMALL_BUFFER_SIZE);
    grow_buffer(&mut b, 100);
    assert_eq!(b.len(), 256);
    grow_buffer(&mut b, 256);
    assert_eq!(b.len(), 512);
    assert!(b.iter().all(|&x| x == 0));
    let mut big = vec![0u8; LARGE_BUFFER_SIZE];
    grow_buffer(&mut big, LARGE_BUFFER_SIZE);
    assert_eq!(big.len(), LARGE_BUFFER_SIZE);
}
