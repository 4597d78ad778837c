use gpib::encode_sad;
use gpib::Device;
use gpib::EoS;
use gpib::EoSModeFlags;
use gpib::Error;
use gpib::OpenRequest;
use gpib::OpenStep;
use gpib::ReadStep;
use gpib::WriteStep;

#[test]
fn encode_sad_none_is_zero() {
    assert_eq!(encode_sad(None), 0);
}

#[test]
fn encode_sad_some_is_biased() {
    assert_eq!(encode_sad(Some(0)), 0x60);
    assert_eq!(encode_sad(Some(5)), 0x65);
    assert_eq!(encode_sad(Some(30)), 0x7E);
}

#[test]
fn no_eos_policy_encodes_to_zero() {
    let request = OpenRequest::new(0, 22, None, 20, false, None);
    assert_eq!(request.eosmode, 0);
}

#[test]
fn open_sentinel_is_never_a_device() {
    assert!(matches!(Device::open_step(-1), OpenStep::QueryLastError));
    assert_eq!(Device::open_failed(9), Error::CreateFailed(9));
}

#[test]
fn open_valid_descriptor_is_bound_to_it() {
    match Device::open_step(5) {
        OpenStep::Opened(device) => assert_eq!(device.descriptor, 5),
        OpenStep::QueryLastError => panic!("descriptor 5 must open a device"),
    }
}

#[test]
fn successful_write_makes_no_error_query() {
    let device = match Device::open_step(3) {
        OpenStep::Opened(device) => device,
        OpenStep::QueryLastError => panic!("descriptor 3 must open a device"),
    };
    assert!(matches!(device.write_step(0x0000), WriteStep::Accepted));
    assert!(matches!(device.write_step(0x0001), WriteStep::Accepted));
}

#[test]
fn successful_read_queries_and_returns_the_count() {
    let device = match Device::open_step(3) {
        OpenStep::Opened(device) => device,
        OpenStep::QueryLastError => panic!("descriptor 3 must open a device"),
    };
    assert!(matches!(device.read_step(0x0000), ReadStep::QueryTransferCount));
    assert_eq!(device.read_received(12, 20), Ok(12));
    assert_eq!(device.read_received(0, 20), Ok(0));
    assert_eq!(device.read_received(20, 20), Ok(20));
}

#[test]
fn error_bit_always_yields_the_typed_error() {
    let device = match Device::open_step(3) {
        OpenStep::Opened(device) => device,
        OpenStep::QueryLastError => panic!("descriptor 3 must open a device"),
    };
    assert!(matches!(device.write_step(0x8000), WriteStep::QueryLastError));
    assert!(matches!(device.write_step(0x8001), WriteStep::QueryLastError));
    assert!(matches!(device.read_step(0x8000), ReadStep::QueryLastError));
    assert!(matches!(device.read_step(0x8001), ReadStep::QueryLastError));
    assert!(matches!(device.write_step(0x0001), WriteStep::Accepted));
    assert!(matches!(device.read_step(0x0001), ReadStep::QueryTransferCount));
    assert_eq!(device.write_failed(3), Error::WriteFailed(3));
    assert_eq!(device.read_failed(4), Error::ReadFailed(4));
}

#[test]
fn id_hp3457_mocked() {
    // open(board 0, pad 22, no sad, timo 20, eoi asserted, REOS | '\n')
    let request = OpenRequest::new(
        0,
        22,
        None,
        20,
        true,
        Some(EoS::new(
            EoSModeFlags {
                reos: true,
                xeos: false,
                bin: false,
            },
            b'\n',
        )),
    );
    assert_eq!(request.board_index, 0);
    assert_eq!(request.pad, 22);
    assert_eq!(request.sad, 0);
    assert_eq!(request.timo, 20);
    assert_eq!(request.send_eoi, 1);
    assert_eq!(request.eosmode, 0x40A);

    // the driver answers the open call with descriptor 5
    let device = match Device::open_step(5) {
        OpenStep::Opened(device) => device,
        OpenStep::QueryLastError => panic!("descriptor 5 must open a device"),
    };
    assert_eq!(device.descriptor, 5);

    // write(b"ID?") answered with status 0x0000: accepted, no error query
    let command: &[u8] = b"ID?";
    assert_eq!(command.len(), 3);
    assert!(matches!(device.write_step(0x0000), WriteStep::Accepted));

    // read into a 20-byte buffer answered with status 0x0000 and count 12:
    // only the first 12 bytes of the buffer are meaningful
    let buffer: [u8; 20] = [0; 20];
    assert!(matches!(device.read_step(0x0000), ReadStep::QueryTransferCount));
    let received = device.read_received(12, buffer.len());
    assert_eq!(received, Ok(12));
    let count = received.unwrap();
    assert!(count >= 0 && (count as usize) <= buffer.len());
}

#[test]
fn open_failure_scenario() {
    // the driver answers the open call with the sentinel and last-error 9
    match Device::open_step(-1) {
        OpenStep::Opened(_) => panic!("the sentinel descriptor must not open a device"),
        OpenStep::QueryLastError => {
            assert_eq!(Device::open_failed(9), Error::CreateFailed(9));
        }
    }
}

#[test]
fn error_carries_the_driver_code() {
    assert_eq!(Error::CreateFailed(9).code(), 9);
    assert_eq!(Error::WriteFailed(3).code(), 3);
    assert_eq!(Error::ReadFailed(-7).code(), -7);
}

#[test]
fn error_messages_name_the_operation() {
    assert_eq!(
        Error::CreateFailed(1).message(),
        "Failed to create device descriptor"
    );
    assert_eq!(Error::WriteFailed(1).message(), "Failed to write to device");
    assert_eq!(Error::ReadFailed(1).message(), "Failed to read from device");
}
