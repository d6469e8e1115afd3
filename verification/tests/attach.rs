use std::io::{Error, ErrorKind};
use std::time::Duration;

use modbus_link::{attach, attach_slave, connect, connect_slave, Slave, SlaveAddress};
use tokio::io::{AsyncReadExt, AsyncWriteExt, DuplexStream};
use tokio::runtime::{Builder, Runtime};

fn scheduler() -> Runtime {
    Builder::new_current_thread().enable_time().build().unwrap()
}

#[test]
fn attach_addresses_the_directly_connected_device() {
    let context = attach(vec![1u8, 2, 3]);
    assert_eq!(context.slave(), Slave::tcp_device());
    assert_eq!(context.slave(), Slave(255));
    assert_eq!(context.slave().address(), SlaveAddress::Custom(255));
    assert_eq!(context.transport(), &vec![1u8, 2, 3]);
}

#[test]
fn attach_slave_addresses_the_given_slave() {
    assert_eq!(attach_slave(0u8, Slave(17)).slave(), Slave(17));
    assert_eq!(attach_slave(0u8, Slave::broadcast()).slave(), Slave(0));
    assert_eq!(attach_slave(0u8, Slave(250)).slave().address(), SlaveAddress::Custom(250));
    assert_eq!(attach_slave(String::from("line"), Slave(1)).transport(), "line");
}

#[test]
fn attach_is_attach_slave_with_the_default() {
    let plain = attach(vec![7u8; 4]);
    let explicit = attach_slave(vec![7u8; 4], Slave::tcp_device());
    assert_eq!(plain.slave(), explicit.slave());
    assert_eq!(plain.slave().address().id(), explicit.slave().address().id());
    assert_eq!(plain.transport(), explicit.transport());
}

#[test]
fn exchange_on_the_transport_keeps_the_slave() {
    let mut context = attach_slave(Vec::new(), Slave(5));
    context.transport_mut().push(0x05u8);
    context.transport_mut().push(0x03u8);
    assert_eq!(context.transport(), &vec![0x05u8, 0x03]);
    assert_eq!(context.slave(), Slave(5));
}

#[test]
fn attach_moves_no_byte() {
    let (near, mut far) = tokio::io::duplex(64);
    let context = attach(near);
    let runtime = scheduler();
    let mut buffer = [0u8; 8];
    let waited = runtime.block_on(async {
        tokio::time::timeout(Duration::from_millis(20), far.read(&mut buffer)).await
    });
    assert!(waited.is_err());
    assert_eq!(context.slave(), Slave::tcp_device());
}

#[test]
fn attached_transport_carries_bytes_both_ways() {
    let (near, mut far) = tokio::io::duplex(64);
    let mut context = attach_slave(near, Slave(3));
    let runtime = scheduler();
    let mut request = [0u8; 2];
    let mut response = [0u8; 2];
    runtime.block_on(async {
        context.transport_mut().write_all(&[3, 4]).await.unwrap();
        far.read_exact(&mut request).await.unwrap();
        far.write_all(&[3, 132]).await.unwrap();
        context.transport_mut().read_exact(&mut response).await.unwrap();
    });
    assert_eq!(request, [3, 4]);
    assert_eq!(response, [3, 132]);
    assert_eq!(context.slave(), Slave(3));
}

#[test]
fn dropping_the_context_releases_the_transport() {
    let (near, mut far) = tokio::io::duplex(64);
    let context = connect(Ok(near)).unwrap();
    drop(context);
    let runtime = scheduler();
    let mut buffer = [0u8; 8];
    let read = runtime.block_on(async { far.read(&mut buffer).await });
    assert_eq!(read.unwrap(), 0);
    let written = runtime.block_on(async { far.write_all(&[1]).await });
    assert_eq!(written.unwrap_err().kind(), ErrorKind::BrokenPipe);
}

#[test]
fn connect_attaches_what_was_dialled() {
    let context = connect(Ok(vec![9u8])).unwrap();
    assert_eq!(context.slave(), Slave::tcp_device());
    assert_eq!(context.transport(), &vec![9u8]);
    let context = connect_slave(Ok(vec![9u8]), Slave(12)).unwrap();
    assert_eq!(context.slave(), Slave(12));
    assert_eq!(context.transport(), &vec![9u8]);
}

#[test]
fn connect_is_connect_slave_with_the_default() {
    let plain = connect(Ok(5u32)).unwrap();
    let explicit = connect_slave(Ok(5u32), Slave::tcp_device()).unwrap();
    assert_eq!(plain.slave(), explicit.slave());
    assert_eq!(plain.transport(), explicit.transport());
}

#[test]
fn refused_dial_gives_the_refusal_and_no_context() {
    let refused = Error::new(ErrorKind::ConnectionRefused, "nobody listens on 502");
    let outcome = connect::<DuplexStream>(Err(refused));
    let failure = outcome.err().unwrap();
    assert_eq!(failure.kind(), ErrorKind::ConnectionRefused);
    assert_eq!(failure.to_string(), "nobody listens on 502");
}

#[test]
fn failed_dial_is_passed_on_as_it_was_raised() {
    let kinds = [
        ErrorKind::ConnectionRefused,
        ErrorKind::ConnectionReset,
        ErrorKind::HostUnreachable,
        ErrorKind::NetworkUnreachable,
        ErrorKind::TimedOut,
    ];
    for kind in kinds {
        let raised = Error::new(kind, format!("dial failed: {:?}", kind));
        let failure = connect_slave::<DuplexStream>(Err(raised), Slave(4)).err().unwrap();
        assert_eq!(failure.kind(), kind);
        assert_eq!(failure.to_string(), format!("dial failed: {:?}", kind));
    }
    let raw = connect_slave::<DuplexStream>(Err(Error::from_raw_os_error(111)), Slave(4));
    assert_eq!(raw.err().unwrap().raw_os_error(), Some(111));
}
