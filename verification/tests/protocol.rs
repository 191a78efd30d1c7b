use embedded_hal::i2c::ErrorKind;
use i2c_slave::sim::{BusEvent, SimError, SimI2cSlave};
use i2c_slave::{I2cSlave, Request, Status};

#[test]
fn write_exact_complete() {
    let mut dev = SimI2cSlave::new(vec![BusEvent::MasterWrite(vec![0x11, 0x22, 0x33])]);
    assert_eq!(dev.try_listen(), Ok(Request::Write(3)));
    let mut buf = [0u8; 3];
    assert_eq!(dev.try_respond_to_write(&mut buf), Ok(Status::Complete));
    assert_eq!(buf, [0x11, 0x22, 0x33]);
}

#[test]
fn general_call_exact_complete() {
    let mut dev = SimI2cSlave::new(vec![BusEvent::MasterGeneralCall(vec![0xA0, 0xA1])]);
    assert_eq!(dev.try_listen(), Ok(Request::GeneralCall(2)));
    let mut buf = [0u8; 2];
    assert_eq!(dev.try_respond_to_general_call(&mut buf), Ok(Status::Complete));
    assert_eq!(buf, [0xA0, 0xA1]);
}

#[test]
fn write_excess_incomplete() {
    let mut dev = SimI2cSlave::new(vec![BusEvent::MasterWrite(vec![1, 2, 3, 4, 5])]);
    assert_eq!(dev.try_listen(), Ok(Request::Write(5)));
    let mut buf = [0u8; 3];
    assert_eq!(dev.try_respond_to_write(&mut buf), Ok(Status::Incomplete));
    assert_eq!(buf, [1, 2, 3]);
}

#[test]
fn general_call_excess_incomplete() {
    let mut dev = SimI2cSlave::new(vec![BusEvent::MasterGeneralCall(vec![7, 8, 9])]);
    assert_eq!(dev.try_listen(), Ok(Request::GeneralCall(3)));
    let mut buf = [0u8; 2];
    assert_eq!(dev.try_respond_to_general_call(&mut buf), Ok(Status::Incomplete));
    assert_eq!(buf, [7, 8]);
}

#[test]
fn write_short_partial() {
    let mut dev = SimI2cSlave::new(vec![BusEvent::MasterWrite(vec![0x55, 0x66])]);
    assert_eq!(dev.try_listen(), Ok(Request::Write(2)));
    let mut buf = [0xAAu8; 4];
    assert_eq!(dev.try_respond_to_write(&mut buf), Ok(Status::PartialRequest(2)));
    assert_eq!(buf, [0x55, 0x66, 0xAA, 0xAA]);
}

#[test]
fn empty_write_into_empty_buffer_complete() {
    let mut dev = SimI2cSlave::new(vec![BusEvent::MasterWrite(vec![])]);
    assert_eq!(dev.try_listen(), Ok(Request::Write(0)));
    let mut buf = [0u8; 0];
    assert_eq!(dev.try_respond_to_write(&mut buf), Ok(Status::Complete));
}

#[test]
fn empty_write_into_buffer_partial_zero() {
    let mut dev = SimI2cSlave::new(vec![BusEvent::MasterWrite(vec![])]);
    assert_eq!(dev.try_listen(), Ok(Request::Write(0)));
    let mut buf = [0x77u8; 2];
    assert_eq!(dev.try_respond_to_write(&mut buf), Ok(Status::PartialRequest(0)));
    assert_eq!(buf, [0x77, 0x77]);
}

#[test]
fn respond_without_listen_rejected() {
    let mut dev = SimI2cSlave::new(vec![BusEvent::MasterWrite(vec![1])]);
    let mut buf = [0x42u8; 2];
    assert_eq!(dev.try_respond_to_write(&mut buf), Err(SimError::OutOfOrder));
    assert_eq!(buf, [0x42, 0x42]);
    assert_eq!(dev.try_respond_to_general_call(&mut buf), Err(SimError::OutOfOrder));
    assert_eq!(dev.try_respond_to_read(&buf), Err(SimError::OutOfOrder));
    // the device still serves the scripted request afterwards
    assert_eq!(dev.try_listen(), Ok(Request::Write(1)));
    let mut one = [0u8; 1];
    assert_eq!(dev.try_respond_to_write(&mut one), Ok(Status::Complete));
    assert_eq!(one, [1]);
}

#[test]
fn respond_wrong_kind_rejected() {
    let mut dev = SimI2cSlave::new(vec![BusEvent::MasterRead(2)]);
    assert_eq!(dev.try_listen(), Ok(Request::Read));
    let mut buf = [0u8; 2];
    // a pending read never answers a write or general-call response
    assert_eq!(dev.try_respond_to_write(&mut buf), Err(SimError::OutOfOrder));
    assert_eq!(dev.try_respond_to_general_call(&mut buf), Err(SimError::OutOfOrder));
    // the matching response still succeeds afterwards
    assert_eq!(dev.try_respond_to_read(&buf), Ok(Status::Complete));
}

#[test]
fn general_call_never_misclassified() {
    let mut dev = SimI2cSlave::new(vec![BusEvent::MasterGeneralCall(vec![1, 2, 3, 4])]);
    let req = dev.try_listen().unwrap();
    assert_eq!(req, Request::GeneralCall(4));
    assert!(!matches!(req, Request::Write(_)));
    assert!(!matches!(req, Request::Read));
    // and a general call is not answerable as a plain write
    let mut buf = [0u8; 4];
    assert_eq!(dev.try_respond_to_write(&mut buf), Err(SimError::OutOfOrder));
    assert_eq!(dev.try_respond_to_general_call(&mut buf), Ok(Status::Complete));
    assert_eq!(buf, [1, 2, 3, 4]);
}

#[test]
fn listen_while_pending_rejected() {
    let mut dev = SimI2cSlave::new(vec![
        BusEvent::MasterWrite(vec![9]),
        BusEvent::MasterRead(1),
    ]);
    assert_eq!(dev.try_listen(), Ok(Request::Write(1)));
    assert_eq!(dev.try_listen(), Err(SimError::OutOfOrder));
    let mut buf = [0u8; 1];
    assert_eq!(dev.try_respond_to_write(&mut buf), Ok(Status::Complete));
    assert_eq!(dev.try_listen(), Ok(Request::Read));
}

#[test]
fn read_attempt_past_buffer_incomplete() {
    let mut dev = SimI2cSlave::new(vec![BusEvent::MasterRead(5)]);
    assert_eq!(dev.try_listen(), Ok(Request::Read));
    let buf = [0x10u8, 0x20, 0x30];
    assert_eq!(dev.try_respond_to_read(&buf), Ok(Status::Incomplete));
}

#[test]
fn read_exact_complete() {
    let mut dev = SimI2cSlave::new(vec![BusEvent::MasterRead(3)]);
    assert_eq!(dev.try_listen(), Ok(Request::Read));
    let buf = [0x10u8, 0x20, 0x30];
    assert_eq!(dev.try_respond_to_read(&buf), Ok(Status::Complete));
}

#[test]
fn early_terminated_read_complete() {
    // the master stops after one byte: nothing offered was truncated
    let mut dev = SimI2cSlave::new(vec![BusEvent::MasterRead(1)]);
    assert_eq!(dev.try_listen(), Ok(Request::Read));
    let buf = [0x10u8, 0x20, 0x30];
    assert_eq!(dev.try_respond_to_read(&buf), Ok(Status::Complete));
}

#[test]
fn write_read_transaction() {
    let mut dev = SimI2cSlave::new(vec![
        BusEvent::MasterWriteRead(vec![0x0F]),
        BusEvent::MasterRead(2),
    ]);
    assert_eq!(dev.try_listen(), Ok(Request::WriteRead(1)));
    let mut buf = [0u8; 1];
    // a write-then-read is answered by the write response
    assert_eq!(dev.try_respond_to_write(&mut buf), Ok(Status::Complete));
    assert_eq!(buf, [0x0F]);
    // the read phase follows as its own request
    assert_eq!(dev.try_listen(), Ok(Request::Read));
    assert_eq!(dev.try_respond_to_read(&[0xFE, 0xFF]), Ok(Status::Complete));
}

#[test]
fn write_read_not_answerable_as_general_call() {
    let mut dev = SimI2cSlave::new(vec![BusEvent::MasterWriteRead(vec![1, 2])]);
    assert_eq!(dev.try_listen(), Ok(Request::WriteRead(2)));
    let mut buf = [0u8; 2];
    assert_eq!(dev.try_respond_to_general_call(&mut buf), Err(SimError::OutOfOrder));
    assert_eq!(dev.try_respond_to_write(&mut buf), Ok(Status::Complete));
}

#[test]
fn bus_fault_voids_transaction() {
    let mut dev = SimI2cSlave::new(vec![
        BusEvent::Fault(ErrorKind::ArbitrationLoss),
        BusEvent::MasterWrite(vec![5]),
    ]);
    assert_eq!(dev.try_listen(), Err(SimError::Bus(ErrorKind::ArbitrationLoss)));
    // after a fault the device is idle and listen-able again
    assert_eq!(dev.try_listen(), Ok(Request::Write(1)));
    let mut buf = [0u8; 1];
    assert_eq!(dev.try_respond_to_write(&mut buf), Ok(Status::Complete));
    assert_eq!(buf, [5]);
}

#[test]
fn exhausted_script_reported() {
    let mut dev = SimI2cSlave::new(vec![]);
    assert_eq!(dev.try_listen(), Err(SimError::Exhausted));
    assert_eq!(dev.try_listen(), Err(SimError::Exhausted));
}

/// Drives one full transaction through the trait, whatever the device.
fn one_transaction<D: I2cSlave>(
    dev: &mut D,
    buf: &mut [u8],
) -> (Result<Request, D::Error>, Result<Status, D::Error>) {
    let req = dev.listen();
    let st = match req {
        Ok(Request::Read) => dev.respond_to_read(buf),
        Ok(Request::Write(_)) | Ok(Request::WriteRead(_)) => dev.respond_to_write(buf),
        Ok(Request::GeneralCall(_)) => dev.respond_to_general_call(buf),
        Err(_) => dev.respond_to_read(buf),
    };
    (req, st)
}

fn script() -> Vec<BusEvent> {
    vec![
        BusEvent::MasterWrite(vec![1, 2, 3]),
        BusEvent::MasterRead(9),
        BusEvent::MasterGeneralCall(vec![4]),
        BusEvent::MasterWriteRead(vec![5, 6]),
    ]
}

#[test]
fn adapter_passthrough_equivalence() {
    let mut direct = SimI2cSlave::new(script());
    let mut underlying = SimI2cSlave::new(script());
    let mut handle = &mut underlying;
    for _ in 0..4 {
        let mut buf_a = [0u8; 3];
        let mut buf_b = [0u8; 3];
        // the same sequence of calls, once on the device and once through
        // the borrowed handle, produces identical results
        let (req_a, st_a) = one_transaction(&mut direct, &mut buf_a);
        let (req_b, st_b) = one_transaction(&mut handle, &mut buf_b);
        assert_eq!(req_a, req_b);
        assert_eq!(st_a, st_b);
        assert_eq!(buf_a, buf_b);
    }
    // both scripts are spent
    assert_eq!(direct.try_listen(), Err(SimError::Exhausted));
    assert_eq!(underlying.try_listen(), Err(SimError::Exhausted));
}

#[test]
fn trait_methods_on_simulator() {
    let mut dev = SimI2cSlave::new(vec![BusEvent::MasterWrite(vec![0x11, 0x22, 0x33])]);
    assert_eq!(dev.listen(), Ok(Request::Write(3)));
    let mut buf = [0u8; 3];
    assert_eq!(dev.respond_to_write(&mut buf), Ok(Status::Complete));
    assert_eq!(buf, [0x11, 0x22, 0x33]);
}

#[test]
fn request_and_status_vocabulary() {
    assert_eq!(Request::Write(3), Request::Write(3));
    assert_ne!(Request::Write(3), Request::GeneralCall(3));
    assert_ne!(Request::Read, Request::WriteRead(0));
    assert_eq!(Status::PartialRequest(2), Status::PartialRequest(2));
    assert_ne!(Status::Complete, Status::Incomplete);
    let copied: Request = Request::WriteRead(7);
    let again = copied;
    assert_eq!(again, Request::WriteRead(7));
}
