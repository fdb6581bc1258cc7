//! The two forward loops and the failure propagation of a run.

use serialserver::config::{Config, Log, Serial, Udp};
use serialserver::error::{Error, ErrorKind};
use serialserver::relay::{
    fan_out_policy, first_failure, serial_to_udp_iteration, serial_to_udp_step,
    udp_to_serial_iteration, udp_to_serial_step, SerialToUdpAction, UdpToSerialAction,
};
use serialserver::serial::{ReadFraming, SerialDevice};

#[test]
fn fan_out_policy_needs_configuration_and_resolution() {
    assert!(fan_out_policy(true, true));
    assert!(!fan_out_policy(true, false));
    assert!(!fan_out_policy(false, true));
    assert!(!fan_out_policy(false, false));
}

#[test]
fn empty_serial_read_forwards_nothing() {
    let buf = vec![0u8; 400];
    let action = serial_to_udp_step(true, &buf, 0);
    assert!(matches!(action, SerialToUdpAction::Idle));
}

#[test]
fn serial_chunk_becomes_exactly_one_datagram() {
    let mut buf = vec![0u8; 400];
    buf[..4].copy_from_slice(b"AT\r\n");
    match serial_to_udp_step(true, &buf, 4) {
        SerialToUdpAction::Forward { datagram, fan_out } => {
            assert_eq!(datagram, b"AT\r\n".to_vec());
            assert!(fan_out);
        }
        SerialToUdpAction::Idle => panic!("a non-empty chunk must be forwarded"),
    }
}

#[test]
fn fan_out_unset_still_forwards_primary_traffic() {
    let mut buf = vec![0u8; 400];
    buf[..3].copy_from_slice(b"abc");
    let with_fan_out = serial_to_udp_step(true, &buf, 3);
    let without_fan_out = serial_to_udp_step(false, &buf, 3);
    match (with_fan_out, without_fan_out) {
        (
            SerialToUdpAction::Forward { datagram: d1, fan_out: f1 },
            SerialToUdpAction::Forward { datagram: d2, fan_out: f2 },
        ) => {
            assert_eq!(d1, d2);
            assert!(f1);
            assert!(!f2);
        }
        _ => panic!("the chunk must be forwarded either way"),
    }
}

#[test]
fn empty_udp_datagram_performs_no_serial_write() {
    let (mut handle, mut dev) = SerialDevice::new("/dev/ttyS1", 9600).expect("open must succeed");
    let buf = vec![0u8; 4000];
    let r = udp_to_serial_iteration(&mut handle, &mut dev, &buf, 0, &None);
    assert!(r.is_ok());
    assert!(dev.outgoing.is_empty());
}

#[test]
fn udp_datagram_is_written_whole() {
    let (mut handle, mut dev) = SerialDevice::new("/dev/ttyS1", 9600).expect("open must succeed");
    let mut buf = vec![0u8; 4000];
    buf[..3].copy_from_slice(b"OK\n");
    let r = udp_to_serial_iteration(&mut handle, &mut dev, &buf, 3, &None);
    assert!(r.is_ok());
    assert_eq!(dev.outgoing, b"OK\n".to_vec());
}

#[test]
fn udp_step_decides_idle_and_write() {
    let buf = b"data".to_vec();
    assert!(matches!(udp_to_serial_step(&buf, 0), UdpToSerialAction::Idle));
    match udp_to_serial_step(&buf, 4) {
        UdpToSerialAction::WriteSerial { bytes } => assert_eq!(bytes, b"data".to_vec()),
        UdpToSerialAction::Idle => panic!("a non-empty datagram must be written"),
    }
}

#[test]
fn udp_write_failure_aborts_the_iteration() {
    let (mut handle, mut dev) = SerialDevice::new("/dev/ttyS1", 9600).expect("open must succeed");
    dev.write_capacity = 0;
    let r = udp_to_serial_iteration(&mut handle, &mut dev, b"abc", 3, &None);
    match r {
        Err(e) => assert_eq!(e.kind, ErrorKind::IoError),
        Ok(_) => panic!("a stalled serial device must abort the loop"),
    }
}

#[test]
fn serial_iteration_reads_and_forwards_in_order() {
    let (handle, mut dev) = SerialDevice::new("/dev/ttyS1", 9600).expect("open must succeed");
    let mut reader = handle.try_clone(&mut dev).expect("duplicate must succeed");
    dev.incoming = b"hello".to_vec();
    let mut chunk = vec![0u8; 400];
    let action = serial_to_udp_iteration(&mut reader, &mut dev, &mut chunk, false, ReadFraming::Raw, &None)
        .expect("the iteration must succeed");
    match action {
        SerialToUdpAction::Forward { datagram, fan_out } => {
            assert_eq!(datagram, b"hello".to_vec());
            assert!(!fan_out);
        }
        SerialToUdpAction::Idle => panic!("pending bytes must be forwarded"),
    }
    assert!(dev.incoming.is_empty());
}

#[test]
fn serial_iteration_skips_an_empty_read() {
    let (handle, mut dev) = SerialDevice::new("/dev/ttyS1", 9600).expect("open must succeed");
    let mut reader = handle.try_clone(&mut dev).expect("duplicate must succeed");
    let mut chunk = vec![0u8; 400];
    let action = serial_to_udp_iteration(&mut reader, &mut dev, &mut chunk, true, ReadFraming::Raw, &None)
        .expect("the iteration must succeed");
    assert!(matches!(action, SerialToUdpAction::Idle));
}

#[test]
fn first_failure_prefers_the_serial_to_udp_result() {
    let e1 = Error::new(ErrorKind::IoError, "first".to_string());
    let e2 = Error::new(ErrorKind::IoError, "second".to_string());
    let r = first_failure(Err(e1), Err(e2));
    assert_eq!(r.unwrap_err().message, "first");

    let e2 = Error::new(ErrorKind::IoError, "second".to_string());
    let r = first_failure(Ok(()), Err(e2));
    assert_eq!(r.unwrap_err().message, "second");

    assert!(first_failure(Ok(()), Ok(())).is_ok());
}

#[test]
fn end_to_end_bridge_scenario() {
    // One bridge run over a loopback-wired serial pair, with both UDP
    // endpoints configured.
    let config = Config {
        serial: Serial { device: "/tmp/vserial0".to_string(), baudrate: 115200 },
        udp: Udp {
            listen: "127.0.0.1:9000".to_string(),
            send: Some("127.0.0.1:9100".to_string()),
            ttl: 0,
        },
        log: Log { enabled: false },
    };

    let (master, mut dev) =
        SerialDevice::new(&config.serial.device, config.serial.baudrate).expect("open");
    let mut serial_in = master.try_clone(&mut dev).expect("duplicate");
    let mut serial_out = master.try_clone(&mut dev).expect("duplicate");
    let fan_out = fan_out_policy(config.udp.send.is_some(), true);
    assert!(fan_out);

    // The peripheral writes "AT\r\n" onto the wire.
    dev.incoming = b"AT\r\n".to_vec();

    // Loop A picks it up and produces the datagram for 127.0.0.1:9100.
    let mut chunk = vec![0u8; 400];
    let action = serial_to_udp_iteration(&mut serial_in, &mut dev, &mut chunk, fan_out, ReadFraming::Raw, &None)
        .expect("loop A iteration");
    match action {
        SerialToUdpAction::Forward { datagram, fan_out } => {
            assert_eq!(datagram, b"AT\r\n".to_vec());
            assert!(fan_out);
        }
        SerialToUdpAction::Idle => panic!("the chunk must become a datagram"),
    }

    // A datagram "OK\n" arrives on 127.0.0.1:9000; loop B forwards it to the
    // serial device, whole and in order.
    let mut buf = vec![0u8; 4000];
    buf[..3].copy_from_slice(b"OK\n");
    udp_to_serial_iteration(&mut serial_out, &mut dev, &buf, 3, &None).expect("loop B iteration");
    assert_eq!(dev.outgoing, b"OK\n".to_vec());
}
