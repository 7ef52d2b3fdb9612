use i2c_passthru::facade::{
    read_outcome, transaction_shape, write_outcome, HostI2CError, I2cDev, OpKind,
    TransactionShape, TransportFailure,
};
use i2c_passthru::icd::{Endpoint, I2cError, ReadCommand, ReadData};

#[test]
fn sequence_numbers_increase_by_one() {
    let mut d = I2cDev::new(0xE66430A64B335337);
    let a = d.read_request(0x1F, 2);
    let b = d.write_request(0x1F, &[0x09]);
    let c = d.write_read_request(0x1F, &[1, 2], 4);
    assert_eq!((a.seq, b.seq, c.seq), (0, 1, 2));
    assert_eq!(d.ctr(), 3);
    // outcomes do not touch the counter
    let _ = read_outcome(Err(TransportFailure));
    let _ = write_outcome(Ok(Err(I2cError)));
    assert_eq!(d.write_request(0x1F, &[]).seq, 4);
}

#[test]
fn request_payloads() {
    let mut d = I2cDev::new(7);
    let a = d.read_request(0x1F, 2);
    assert_eq!(a.serial, 7);
    assert_eq!(a.endpoint, Endpoint::I2cRead);
    assert_eq!(a.body, ReadCommand { addr: 0x1F, len: 2 });
    let b = d.write_request(0x10, &[9, 8, 7]);
    assert_eq!(b.endpoint, Endpoint::I2cWrite);
    assert_eq!(b.body.addr, 0x10);
    assert_eq!(b.body.data, vec![9, 8, 7]);
    let c = d.write_read_request(0x11, &[5], 3);
    assert_eq!(c.endpoint, Endpoint::I2cWriteRead);
    assert_eq!(c.body.addr, 0x11);
    assert_eq!(c.body.tx_data, vec![5]);
    assert_eq!(c.body.rx_len, 3);
    assert_eq!(d.serial(), 7);
}

#[test]
fn endpoint_paths() {
    assert_eq!(Endpoint::I2cRead.path(), "jig/sb/i2c/read");
    assert_eq!(Endpoint::I2cWrite.path(), "jig/sb/i2c/write");
    assert_eq!(Endpoint::I2cWriteRead.path(), "jig/sb/i2c/write-read");
    assert_eq!(Endpoint::GetUniqueId.path(), "poststation/unique_id/get");
}

#[test]
fn transaction_shapes() {
    assert_eq!(transaction_shape(&[]), Ok(TransactionShape::Empty));
    assert_eq!(transaction_shape(&[OpKind::Read]), Ok(TransactionShape::Read));
    assert_eq!(transaction_shape(&[OpKind::Write]), Ok(TransactionShape::Write));
    assert_eq!(transaction_shape(&[OpKind::Write, OpKind::Read]), Ok(TransactionShape::WriteRead));
    assert_eq!(transaction_shape(&[OpKind::Write, OpKind::Write]), Err(HostI2CError::NotYetSupported));
    assert_eq!(transaction_shape(&[OpKind::Read, OpKind::Read]), Err(HostI2CError::NotYetSupported));
    assert_eq!(transaction_shape(&[OpKind::Read, OpKind::Write]), Err(HostI2CError::NotYetSupported));
    assert_eq!(
        transaction_shape(&[OpKind::Write, OpKind::Read, OpKind::Read]),
        Err(HostI2CError::NotYetSupported)
    );
}

#[test]
fn outcomes_map_to_distinct_errors() {
    assert_eq!(read_outcome(Ok(Ok(ReadData { data: vec![3, 4] }))), Ok(vec![3, 4]));
    assert_eq!(read_outcome(Ok(Err(I2cError))), Err(HostI2CError::DeviceError));
    assert_eq!(read_outcome(Err(TransportFailure)), Err(HostI2CError::ConnectionError));
    assert_eq!(write_outcome(Ok(Ok(()))), Ok(()));
    assert_eq!(write_outcome(Ok(Err(I2cError))), Err(HostI2CError::DeviceError));
    assert_eq!(write_outcome(Err(TransportFailure)), Err(HostI2CError::ConnectionError));
}

#[test]
fn sequence_counts_up() {
    let mut d = I2cDev::new(1);
    let mut last = d.ctr();
    for _ in 0..1000 {
        let n = d.ctr();
        assert_eq!(n, last + 1);
        last = n;
    }
}
