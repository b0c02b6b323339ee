use std::collections::VecDeque;
use std::sync::Arc;
use std::time::SystemTime;

use rustls::client::{ServerCertVerified, ServerCertVerifier};
use rustls::{Certificate, ClientConfig, ClientConnection, Connection, PrivateKey, ServerConfig, ServerConnection, ServerName};
use tokio_uring_rustls::buffer::{ReadIo, WriteIo};
use tokio_uring_rustls::handshake::{Handshake, HandshakeAction};
use tokio_uring_rustls::stream::{drain_continues, read_cycle_outcome};
use tokio_uring_rustls::{TlsError, TlsStream};

const CERT: [u8; 406] = [
    0x30, 0x82, 0x01, 0x92, 0x30, 0x82, 0x01, 0x38, 0xa0, 0x03, 0x02, 0x01, 0x02, 0x02, 0x14, 0x3e,
    0x44, 0x2f, 0x89, 0x8e, 0x24, 0x40, 0x6f, 0x90, 0x8f, 0x54, 0xdc, 0x08, 0x4e, 0x5f, 0xfc, 0x1f,
    0x8c, 0xe0, 0xf0, 0x30, 0x0a, 0x06, 0x08, 0x2a, 0x86, 0x48, 0xce, 0x3d, 0x04, 0x03, 0x02, 0x30,
    0x14, 0x31, 0x12, 0x30, 0x10, 0x06, 0x03, 0x55, 0x04, 0x03, 0x0c, 0x09, 0x6c, 0x6f, 0x63, 0x61,
    0x6c, 0x68, 0x6f, 0x73, 0x74, 0x30, 0x20, 0x17, 0x0d, 0x32, 0x36, 0x31, 0x30, 0x31, 0x37, 0x31,
    0x39, 0x33, 0x39, 0x33, 0x35, 0x5a, 0x18, 0x0f, 0x32, 0x31, 0x32, 0x36, 0x30, 0x39, 0x32, 0x33,
    0x31, 0x39, 0x33, 0x39, 0x33, 0x35, 0x5a, 0x30, 0x14, 0x31, 0x12, 0x30, 0x10, 0x06, 0x03, 0x55,
    0x04, 0x03, 0x0c, 0x09, 0x6c, 0x6f, 0x63, 0x61, 0x6c, 0x68, 0x6f, 0x73, 0x74, 0x30, 0x59, 0x30,
    0x13, 0x06, 0x07, 0x2a, 0x86, 0x48, 0xce, 0x3d, 0x02, 0x01, 0x06, 0x08, 0x2a, 0x86, 0x48, 0xce,
    0x3d, 0x03, 0x01, 0x07, 0x03, 0x42, 0x00, 0x04, 0x99, 0x85, 0x0e, 0xd5, 0x3b, 0x83, 0x3d, 0x35,
    0x54, 0xa6, 0x94, 0x54, 0xbe, 0xa7, 0x66, 0x9a, 0xe9, 0x88, 0xd4, 0x7c, 0x1b, 0x44, 0x3c, 0x1d,
    0xb7, 0xf3, 0xc6, 0xdd, 0x41, 0xb2, 0x67, 0xca, 0x0d, 0x8a, 0x0b, 0xad, 0xae, 0x21, 0x1c, 0xea,
    0xbf, 0x64, 0x7f, 0xc3, 0x31, 0xf8, 0x79, 0x04, 0x22, 0xc1, 0xc8, 0xbd, 0x1a, 0x19, 0xb5, 0xbf,
    0x2f, 0x67, 0xe6, 0xc3, 0x8d, 0xcf, 0x93, 0x9d, 0xa3, 0x66, 0x30, 0x64, 0x30, 0x1d, 0x06, 0x03,
    0x55, 0x1d, 0x0e, 0x04, 0x16, 0x04, 0x14, 0x27, 0xca, 0x0a, 0xfa, 0xd6, 0x3a, 0xa2, 0x4b, 0x9b,
    0x67, 0xe1, 0xc6, 0xdd, 0xee, 0x5e, 0x04, 0x9b, 0xb2, 0xc9, 0x45, 0x30, 0x1f, 0x06, 0x03, 0x55,
    0x1d, 0x23, 0x04, 0x18, 0x30, 0x16, 0x80, 0x14, 0x27, 0xca, 0x0a, 0xfa, 0xd6, 0x3a, 0xa2, 0x4b,
    0x9b, 0x67, 0xe1, 0xc6, 0xdd, 0xee, 0x5e, 0x04, 0x9b, 0xb2, 0xc9, 0x45, 0x30, 0x14, 0x06, 0x03,
    0x55, 0x1d, 0x11, 0x04, 0x0d, 0x30, 0x0b, 0x82, 0x09, 0x6c, 0x6f, 0x63, 0x61, 0x6c, 0x68, 0x6f,
    0x73, 0x74, 0x30, 0x0c, 0x06, 0x03, 0x55, 0x1d, 0x13, 0x01, 0x01, 0xff, 0x04, 0x02, 0x30, 0x00,
    0x30, 0x0a, 0x06, 0x08, 0x2a, 0x86, 0x48, 0xce, 0x3d, 0x04, 0x03, 0x02, 0x03, 0x48, 0x00, 0x30,
    0x45, 0x02, 0x21, 0x00, 0xdc, 0x43, 0x4d, 0x63, 0xa1, 0x15, 0xa9, 0xa8, 0xbb, 0xf5, 0x5a, 0xb8,
    0x6b, 0x6e, 0x3b, 0x83, 0x9e, 0x07, 0x90, 0x69, 0x57, 0x5c, 0xeb, 0x1c, 0x16, 0x64, 0xab, 0x3c,
    0xef, 0xb9, 0xc1, 0x3f, 0x02, 0x20, 0x28, 0x5f, 0x59, 0xd6, 0xfd, 0x11, 0x93, 0x61, 0x0c, 0x3a,
    0x9d, 0x78, 0x09, 0xc5, 0xe2, 0x02, 0x15, 0x83, 0xf7, 0x1a, 0xd6, 0x4a, 0x0b, 0xef, 0xc2, 0xc9,
    0xbc, 0x4c, 0xa1, 0x09, 0xb5, 0x52,
];

const KEY: [u8; 138] = [
    0x30, 0x81, 0x87, 0x02, 0x01, 0x00, 0x30, 0x13, 0x06, 0x07, 0x2a, 0x86, 0x48, 0xce, 0x3d, 0x02,
    0x01, 0x06, 0x08, 0x2a, 0x86, 0x48, 0xce, 0x3d, 0x03, 0x01, 0x07, 0x04, 0x6d, 0x30, 0x6b, 0x02,
    0x01, 0x01, 0x04, 0x20, 0x00, 0x45, 0x27, 0x13, 0x79, 0x3c, 0x09, 0x57, 0x98, 0x62, 0x73, 0x23,
    0xa8, 0xf5, 0x3f, 0xac, 0x36, 0xc7, 0x12, 0xb0, 0x87, 0x6d, 0xf9, 0xae, 0xe9, 0xf0, 0xce, 0x66,
    0xa5, 0x52, 0x46, 0x5f, 0xa1, 0x44, 0x03, 0x42, 0x00, 0x04, 0x99, 0x85, 0x0e, 0xd5, 0x3b, 0x83,
    0x3d, 0x35, 0x54, 0xa6, 0x94, 0x54, 0xbe, 0xa7, 0x66, 0x9a, 0xe9, 0x88, 0xd4, 0x7c, 0x1b, 0x44,
    0x3c, 0x1d, 0xb7, 0xf3, 0xc6, 0xdd, 0x41, 0xb2, 0x67, 0xca, 0x0d, 0x8a, 0x0b, 0xad, 0xae, 0x21,
    0x1c, 0xea, 0xbf, 0x64, 0x7f, 0xc3, 0x31, 0xf8, 0x79, 0x04, 0x22, 0xc1, 0xc8, 0xbd, 0x1a, 0x19,
    0xb5, 0xbf, 0x2f, 0x67, 0xe6, 0xc3, 0x8d, 0xcf, 0x93, 0x9d,
];

struct AcceptAny;

impl ServerCertVerifier for AcceptAny {
    fn verify_server_cert(
        &self,
        _end_entity: &Certificate,
        _intermediates: &[Certificate],
        _server_name: &ServerName,
        _scts: &mut dyn Iterator<Item = &[u8]>,
        _ocsp_response: &[u8],
        _now: SystemTime,
    ) -> Result<ServerCertVerified, rustls::Error> {
        Ok(ServerCertVerified::assertion())
    }
}

fn client_session() -> Connection {
    let cfg = ClientConfig::builder()
        .with_safe_defaults()
        .with_custom_certificate_verifier(Arc::new(AcceptAny))
        .with_no_client_auth();
    let name = ServerName::try_from("localhost").unwrap();
    Connection::Client(ClientConnection::new(Arc::new(cfg), name).unwrap())
}

fn server_session() -> Connection {
    let cfg = ServerConfig::builder()
        .with_safe_defaults()
        .with_no_client_auth()
        .with_single_cert(vec![Certificate(CERT.to_vec())], PrivateKey(KEY.to_vec()))
        .unwrap();
    Connection::Server(ServerConnection::new(Arc::new(cfg)).unwrap())
}

/// One end of an in-memory duplex transport.
struct End {
    core: TlsStream,
    inbox: VecDeque<u8>,
    peer_closed: bool,
    outbox: Vec<u8>,
}

enum Poll<T> {
    Ready(T),
    Pending,
}

impl End {
    fn new(session: Connection) -> End {
        End { core: TlsStream::new(session), inbox: VecDeque::new(), peer_closed: false, outbox: Vec::new() }
    }

    fn can_read(&self) -> bool {
        !self.inbox.is_empty() || self.peer_closed
    }

    fn read_io(&mut self) -> Poll<Result<usize, TlsError>> {
        loop {
            match self.core.read_tls() {
                Ok(n) => return Poll::Ready(Ok(n)),
                Err(TlsError::NotReady) => {}
                Err(e) => return Poll::Ready(Err(e)),
            }
            if !self.can_read() {
                return Poll::Pending;
            }
            match self.core.begin_read_io() {
                ReadIo::Buffered(_) => {}
                ReadIo::Issue(ring) => {
                    let k = ring.available().min(self.inbox.len());
                    let bytes: Vec<u8> = self.inbox.drain(..k).collect();
                    if let Err(e) = self.core.finish_read_io(ring, Ok(bytes)) {
                        return Poll::Ready(Err(e));
                    }
                }
            }
        }
    }

    fn flush_io(&mut self) -> Result<usize, TlsError> {
        match self.core.begin_write_io() {
            WriteIo::Nothing => Ok(0),
            WriteIo::Issue(ring) => {
                let n = ring.len();
                self.outbox.extend_from_slice(ring.unread());
                self.core.finish_write_io(ring, Ok(n))
            }
        }
    }

    fn write_io(&mut self) -> Result<usize, TlsError> {
        let n = loop {
            match self.core.write_tls() {
                Ok(n) => break n,
                Err(TlsError::NotReady) => {
                    self.flush_io()?;
                }
                Err(e) => return Err(e),
            }
        };
        self.flush_io()?;
        Ok(n)
    }

    fn handshake(&mut self, hs: &mut Handshake) -> Poll<Result<(usize, usize), TlsError>> {
        loop {
            match hs.next(self.core.flags()) {
                HandshakeAction::WriteCycle => match self.write_io() {
                    Ok(n) => hs.wrote(n),
                    Err(e) => return Poll::Ready(Err(e)),
                },
                HandshakeAction::ReadCycle => match self.read_io() {
                    Poll::Pending => return Poll::Pending,
                    Poll::Ready(Ok(n)) => hs.read(n),
                    Poll::Ready(Err(e)) => return Poll::Ready(Err(e)),
                },
                HandshakeAction::Fail(e) => return Poll::Ready(Err(e)),
                HandshakeAction::Complete(r, w) => return Poll::Ready(Ok((r, w))),
            }
        }
    }

    fn read(&mut self, max: usize) -> Result<Vec<u8>, TlsError> {
        let mut dst = vec![0u8; max];
        loop {
            match self.core.read_plaintext(&mut dst) {
                Ok(n) => {
                    dst.truncate(n);
                    return Ok(dst);
                }
                Err(TlsError::NotReady) => {}
                Err(e) => return Err(e),
            }
            match self.read_io() {
                Poll::Pending => return Err(TlsError::NotReady),
                Poll::Ready(Ok(n)) => read_cycle_outcome(n)?,
                Poll::Ready(Err(e)) => return Err(e),
            }
        }
    }

    fn write(&mut self, data: &[u8]) -> Result<usize, TlsError> {
        let n = self.core.write_plaintext(data)?;
        let mut last = 1;
        while drain_continues(self.core.wants_write(), last) {
            last = self.write_io()?;
        }
        Ok(n)
    }
}

fn shuttle(a: &mut End, b: &mut End) {
    b.inbox.extend(a.outbox.drain(..));
    a.inbox.extend(b.outbox.drain(..));
}

fn connect_pair() -> (End, End) {
    let mut client = End::new(client_session());
    let mut server = End::new(server_session());
    let mut chs = Handshake::new();
    let mut shs = Handshake::new();
    let mut cdone = None;
    let mut sdone = None;
    for _ in 0..100 {
        if cdone.is_none() {
            if let Poll::Ready(r) = client.handshake(&mut chs) {
                cdone = Some(r);
            }
        }
        shuttle(&mut client, &mut server);
        if sdone.is_none() {
            if let Poll::Ready(r) = server.handshake(&mut shs) {
                sdone = Some(r);
            }
        }
        shuttle(&mut server, &mut client);
        if cdone.is_some() && sdone.is_some() {
            break;
        }
    }
    let (cr, cw) = cdone.expect("client handshake ended").expect("client handshake succeeded");
    let (sr, sw) = sdone.expect("server handshake ended").expect("server handshake succeeded");
    assert!(cr > 0 && cw > 0 && sr > 0 && sw > 0);
    (client, server)
}

#[test]
fn paired_sessions_complete_handshake() {
    let (client, server) = connect_pair();
    assert!(!client.core.is_handshaking());
    assert!(!server.core.is_handshaking());
}

#[test]
fn handshake_fails_when_peer_closes_before_its_flight() {
    let mut client = End::new(client_session());
    let mut hs = Handshake::new();
    assert!(matches!(client.handshake(&mut hs), Poll::Pending));
    assert!(!client.outbox.is_empty());
    client.peer_closed = true;
    match client.handshake(&mut hs) {
        Poll::Ready(Err(e)) => assert!(e == TlsError::UnexpectedEof || e == TlsError::HandshakeAlert),
        _ => panic!("the handshake should fail"),
    }
}

#[test]
fn handshake_fails_on_garbage_from_peer() {
    let mut server = End::new(server_session());
    let mut hs = Handshake::new();
    server.inbox.extend(b"GET / HTTP/1.1\r\n\r\n".iter().copied());
    match server.handshake(&mut hs) {
        Poll::Ready(Err(e)) => assert_eq!(e, TlsError::InvalidData),
        _ => panic!("the handshake should fail"),
    }
}

#[test]
fn ping_pong_round_trip() {
    let (mut client, mut server) = connect_pair();
    assert_eq!(client.write(b"ping"), Ok(4));
    shuttle(&mut client, &mut server);
    assert_eq!(server.read(256), Ok(b"ping".to_vec()));
    assert_eq!(server.write(b"pong"), Ok(4));
    shuttle(&mut server, &mut client);
    assert_eq!(client.read(256), Ok(b"pong".to_vec()));
    client.peer_closed = true;
    server.peer_closed = true;
    assert_eq!(client.read(256), Err(TlsError::UnexpectedEof));
    assert_eq!(server.read(256), Err(TlsError::UnexpectedEof));
}

#[test]
fn read_without_data_is_not_ready() {
    let (mut client, _server) = connect_pair();
    assert_eq!(client.read(16), Err(TlsError::NotReady));
}

#[test]
fn interleaved_reads_and_writes_match_sequential_order() {
    let script: [&[u8]; 3] = [b"one", b"two", b"three"];
    let (mut client, mut server) = connect_pair();
    let mut got = Vec::new();
    for m in script.iter() {
        assert_eq!(client.write(m), Ok(m.len()));
        shuttle(&mut client, &mut server);
        got.push(server.read(64).unwrap());
        assert_eq!(server.write(m), Ok(m.len()));
        shuttle(&mut server, &mut client);
        got.push(client.read(64).unwrap());
    }
    let (mut client2, mut server2) = connect_pair();
    for m in script.iter() {
        client2.write(m).unwrap();
        server2.write(m).unwrap();
    }
    shuttle(&mut client2, &mut server2);
    let mut seq_server = Vec::new();
    let mut seq_client = Vec::new();
    while let Ok(v) = server2.read(64) {
        seq_server.extend(v);
    }
    while let Ok(v) = client2.read(64) {
        seq_client.extend(v);
    }
    let expect: Vec<u8> = b"onetwothree".to_vec();
    assert_eq!(seq_server, expect);
    assert_eq!(seq_client, expect);
    let flat_server: Vec<u8> = got.iter().step_by(2).flatten().copied().collect();
    let flat_client: Vec<u8> = got.iter().skip(1).step_by(2).flatten().copied().collect();
    assert_eq!(flat_server, expect);
    assert_eq!(flat_client, expect);
}

#[test]
fn large_message_crosses_several_buffers() {
    let (mut client, mut server) = connect_pair();
    let data: Vec<u8> = (0..40000u32).map(|i| (i % 251) as u8).collect();
    let mut sent = 0;
    while sent < data.len() {
        sent += client.write(&data[sent..]).unwrap();
    }
    shuttle(&mut client, &mut server);
    let mut got = Vec::new();
    while got.len() < data.len() {
        got.extend(server.read(5000).unwrap());
    }
    assert_eq!(got, data);
}
