use exo_rs::modem::{DriverError, ModemCore, ModemReady, ModemState, BUF_CAP};
use exo_rs::nb_modem::{begin_result, clean_response, iccid_from_response, imei_from_response, map_err, ModemError};
use exo_rs::nb_udp::{open_socket_command, parse_socket, push_decimal, push_signed_decimal, NbUdp, UDP_TX_BUF_SIZE};
use exo_rs::text::{find, has_prefix, has_suffix, is_whitespace, matches_at, rfind, trim_bounds, utf8_size};

type DErr = DriverError<u8, u16>;

fn feed(m: &mut ModemCore, s: &[u8], now: u32) -> Vec<bool> {
    s.iter().map(|b| m.process_byte(*b, now)).collect()
}

#[test]
fn text_helpers() {
    assert!(is_whitespace(b' ') && is_whitespace(b'\r') && is_whitespace(0xA0) && is_whitespace(0x85));
    assert!(!is_whitespace(b'A') && !is_whitespace(0x08));
    assert!(has_suffix(b"AT\r\n", b"\r\n"));
    assert!(!has_suffix(b"\n", b"\r\n"));
    assert!(has_prefix(b"+CCID: 89", b"+CCID: "));
    assert!(matches_at(b"xxOKyy", b"OK", 2));
    assert!(!matches_at(b"xxOKyy", b"OK", 5));
    assert!(find(b"+CME ERROR: 10", b"CME ERROR"));
    assert!(!find(b"ERROR", b"CME ERROR"));
    assert!(find(b"abc", b""));
    assert_eq!(rfind(b"OK OK OK", b"OK"), Some(6));
    assert_eq!(rfind(b"O K", b"OK"), None);
    assert_eq!(trim_bounds(b"  \r\n 123 \r\n"), (5, 8));
    let (a, b) = trim_bounds(b" \t ");
    assert_eq!(a, b);
    assert_eq!(utf8_size(&[0x41, 0xE9, 0x20]), 4);
}

#[test]
fn echo_then_ok() {
    let mut m = ModemCore::new();
    assert_eq!(m.prepare_send(100), 0);
    assert!(feed(&mut m, b"AT\r\n", 110).iter().all(|c| !c));
    assert_eq!(m.state(), ModemState::ReceivingResponse);
    assert_eq!(m.last_response_or_urc_ms(), 110);
    assert!(m.buf().is_empty());
    let done = feed(&mut m, b"OK\r\n", 120);
    assert_eq!(done, vec![false, false, false, true]);
    assert_eq!(m.ready(), ModemReady::Okay);
    assert_eq!(m.state(), ModemState::Idle);
    assert_eq!(m.buf(), b"OK\r\n");
    assert_eq!(m.last_response_or_urc_ms(), 120);
}

#[test]
fn response_results() {
    for (line, result) in [
        (&b"ERROR\r\n"[..], ModemReady::Error),
        (&b"NO CARRIER\r\n"[..], ModemReady::NoCarrier),
        (&b"+CME ERROR: 3\r\n"[..], ModemReady::CmeError),
    ] {
        let mut m = ModemCore::new();
        m.prepare_send(0);
        feed(&mut m, b"AT\r\n", 1);
        let done = feed(&mut m, line, 2);
        assert_eq!(*done.last().unwrap(), true);
        assert_eq!(m.ready(), result);
    }
}

#[test]
fn information_lines_before_ok() {
    let mut m = ModemCore::new();
    m.prepare_send(0);
    feed(&mut m, b"AT\r\n", 5);
    let done = feed(&mut m, b"\r\n356938035643809\r\n", 6);
    assert!(done.iter().all(|c| !c));
    assert_eq!(m.ready(), ModemReady::NotReady);
    let done = feed(&mut m, b"\r\nOK\r\n", 7);
    assert_eq!(*done.last().unwrap(), true);
    assert_eq!(m.buf(), b"\r\n356938035643809\r\n\r\nOK\r\n");
    assert_eq!(
        imei_from_response::<u8, u16>(Ok(m.ready()), m.buf()).unwrap(),
        b"356938035643809".to_vec()
    );
}

#[test]
fn unsolicited_lines_while_idle() {
    let mut m = ModemCore::new();
    feed(&mut m, b"\r\n", 50);
    assert_eq!(m.last_response_or_urc_ms(), 0);
    feed(&mut m, b"+CEREG: 1\r\n", 60);
    assert_eq!(m.last_response_or_urc_ms(), 60);
    assert_eq!(m.state(), ModemState::Idle);
    assert!(m.buf().is_empty());
    // a command sent soon after waits for the rest of the pause
    assert_eq!(m.prepare_send(65), 15);
    assert_eq!(m.prepare_send(80), 0);
    // the clock may wrap
    let mut w = ModemCore::new();
    feed(&mut w, b"X\r\n", u32::MAX - 4);
    assert_eq!(w.prepare_send(5), 10);
}

#[test]
fn full_buffer_drops_characters() {
    let mut m = ModemCore::new();
    m.prepare_send(0);
    feed(&mut m, b"AT\r\n", 0);
    for _ in 0..BUF_CAP / 2 - 1 {
        m.process_byte(0xE9, 1);
    }
    m.process_byte(b'a', 1);
    assert_eq!(m.buf().len(), BUF_CAP / 2);
    // one byte left: a two-byte character does not fit, a one-byte one does
    m.process_byte(0xE9, 1);
    assert_eq!(m.buf().len(), BUF_CAP / 2);
    m.process_byte(b'a', 1);
    assert_eq!(m.buf().len(), BUF_CAP / 2 + 1);
    m.process_byte(b'a', 1);
    assert_eq!(m.buf().len(), BUF_CAP / 2 + 1);
}

#[test]
fn modem_errors() {
    assert!(matches!(map_err::<u8, u16>(DErr::Rx(7)), ModemError::ReadError(7)));
    assert!(matches!(map_err::<u8, u16>(DErr::Tx(9)), ModemError::WriteError(9)));
    assert!(matches!(map_err::<u8, u16>(DErr::Timeout), ModemError::ResponseTimeout));
    assert!(begin_result::<u8, u16>(Ok(true)).is_ok());
    assert!(matches!(begin_result::<u8, u16>(Ok(false)), Err(ModemError::InitializationFailed)));
    assert!(matches!(begin_result::<u8, u16>(Err(DErr::Rx(1))), Err(ModemError::ReadError(1))));
}

#[test]
fn response_cleaning() {
    let buf = b"\r\n+CCID: 8944500102198304826\r\n\r\nOK\r\n";
    let (a, b) = clean_response(buf);
    assert_eq!(&buf[a..b], b"+CCID: 8944500102198304826");
    let (a, b) = clean_response(b"  no final result ");
    assert_eq!((a, b), (2, 17));
}

#[test]
fn iccid_extraction() {
    let buf = b"\r\n+CCID: 8944500102198304826\r\n\r\nOK\r\n";
    assert_eq!(
        iccid_from_response::<u8, u16>(Ok(ModemReady::Okay), buf).unwrap(),
        b"8944500102198304826".to_vec()
    );
    assert_eq!(
        iccid_from_response::<u8, u16>(Ok(ModemReady::Okay), b"\r\n8944500102198304826\r\nOK\r\n").unwrap(),
        b"8944500102198304826".to_vec()
    );
    assert!(matches!(
        iccid_from_response::<u8, u16>(Ok(ModemReady::Error), buf),
        Err(ModemError::ResponseTimeout)
    ));
    assert!(matches!(
        iccid_from_response::<u8, u16>(Err(DErr::Timeout), buf),
        Err(ModemError::ResponseTimeout)
    ));
    let long = b"+CCID: 123456789012345678901234567890123\r\nOK\r\n";
    assert!(matches!(
        iccid_from_response::<u8, u16>(Ok(ModemReady::Okay), long),
        Err(ModemError::BufferError)
    ));
}

#[test]
fn imei_limits() {
    let ok20 = b"12345678901234567890\r\nOK\r\n";
    assert_eq!(imei_from_response::<u8, u16>(Ok(ModemReady::Okay), ok20).unwrap().len(), 20);
    let long = b"123456789012345678901\r\nOK\r\n";
    assert!(matches!(
        imei_from_response::<u8, u16>(Ok(ModemReady::Okay), long),
        Err(ModemError::BufferError)
    ));
    // characters from 0x80 take two bytes
    let wide = [0xE9u8; 11];
    assert!(matches!(
        imei_from_response::<u8, u16>(Ok(ModemReady::Okay), &wide),
        Err(ModemError::BufferError)
    ));
    assert!(matches!(
        imei_from_response::<u8, u16>(Ok(ModemReady::CmeError), ok20),
        Err(ModemError::ResponseTimeout)
    ));
}

#[test]
fn decimal_forms() {
    let mut v = Vec::new();
    push_decimal(&mut v, 0);
    push_decimal(&mut v, 65535);
    push_signed_decimal(&mut v, -128);
    push_signed_decimal(&mut v, 7);
    assert_eq!(v, b"065535-1287".to_vec());
}

#[test]
fn socket_number() {
    assert_eq!(open_socket_command(), b"AT+USOCR=17".to_vec());
    assert_eq!(parse_socket(b"\r\n+USOCR: 3\r\n\r\nOK\r\n"), 3);
    assert_eq!(parse_socket(b"+USOCR: 12"), 1);
    assert_eq!(parse_socket(b"OK"), 0);
}

#[test]
fn udp_commands() {
    let mut u = NbUdp::new();
    assert_eq!(u.socket(), -1);
    assert!(!u.begin_packet([1, 2, 3, 4], 5));
    assert_eq!(u.end_packet_command(), None);
    assert_eq!(u.close_command(), None);
    u.set_socket_from_response(b"+USOCR: 2\r\nOK\r\n");
    assert_eq!(u.socket(), 2);
    assert_eq!(u.bind_command(1234), b"AT+USOLI=2,1234".to_vec());
    assert!(u.begin_packet([192, 168, 0, 10], 8080));
    assert_eq!(u.write(&[0x01, 0xAB, 0x10]), 3);
    assert_eq!(
        u.end_packet_command().unwrap(),
        b"AT+USOST=2,\"192.168.0.10\",8080,3,\"01AB10\"".to_vec()
    );
    assert_eq!(u.close_command().unwrap(), b"AT+USOCL=2,1".to_vec());
    assert_eq!(u.socket(), 2);
    u.mark_closed();
    assert_eq!(u.socket(), -1);
    assert_eq!(u.close_command(), None);
}

#[test]
fn udp_buffer_is_bounded() {
    let mut u = NbUdp::new();
    u.set_socket_from_response(b"0");
    assert!(u.begin_packet([10, 0, 0, 1], 1));
    assert_eq!(u.write(&[0x55; 500]), 500);
    assert_eq!(u.write(&[0x55; 100]), UDP_TX_BUF_SIZE - 500);
    assert_eq!(u.write(&[1]), 0);
}

#[test]
fn long_send_command_is_cut_at_capacity() {
    let mut u = NbUdp::new();
    u.set_socket_from_response(b"1");
    u.begin_packet([1, 1, 1, 1], 9);
    u.write(&[0xFF; 512]);
    let head = b"AT+USOST=1,\"1.1.1.1\",9,512,\"";
    let cmd = u.end_packet_command().unwrap();
    assert_eq!(&cmd[..head.len()], &head[..]);
    // whole byte pairs as long as they fit, then nothing more: here no room for the quote
    assert_eq!(head.len(), 28);
    assert_eq!(cmd.len(), 1024);
    assert!(cmd[head.len()..].iter().all(|c| *c == b'F'));
}

#[test]
fn long_send_command_keeps_closing_quote_when_one_place_is_left() {
    let mut u = NbUdp::new();
    u.set_socket_from_response(b"1");
    u.begin_packet([1, 1, 1, 1], 10);
    u.write(&[0xFF; 512]);
    let head = b"AT+USOST=1,\"1.1.1.1\",10,512,\"";
    assert_eq!(head.len(), 29);
    let cmd = u.end_packet_command().unwrap();
    assert_eq!(cmd.len(), 1024);
    assert_eq!(*cmd.last().unwrap(), b'"');
    assert!(cmd[head.len()..1023].iter().all(|c| *c == b'F'));
}

#[test]
fn long_send_command_small_byte_at_the_edge() {
    // a small byte is written as a padding zero, then its digit; with one place left only
    // the zero goes in
    let mut u = NbUdp::new();
    u.set_socket_from_response(b"1");
    u.begin_packet([1, 1, 1, 1], 10);
    let mut payload = vec![0xFFu8; 497];
    payload.push(0x0A);
    while payload.len() < 512 {
        payload.push(0xFF);
    }
    u.write(&payload);
    let cmd = u.end_packet_command().unwrap();
    assert_eq!(cmd.len(), 1024);
    assert_eq!(*cmd.last().unwrap(), b'0');
}
