//! The calls into rustls that the driver makes. Each is a trusted item whose
//! contract states only what rustls's source and std's documentation show.
use vstd::prelude::*;
use crate::error::TlsError;

verus! {

#[verifier::external_type_specification]
#[verifier::external_body]
pub struct ExConnection(rustls::Connection);

#[verifier::external_type_specification]
#[verifier::external_body]
pub struct ExIoState(rustls::IoState);

#[verifier::external_type_specification]
#[verifier::external_body]
pub struct ExRustlsError(rustls::Error);

#[verifier::external_type_specification]
#[verifier::external_body]
pub struct ExIoError(std::io::Error);

/// Relies on `std::io::Error::kind`: tells apart the kinds the driver acts on.
#[verifier::external_body]
pub(crate) fn error_of(e: &std::io::Error) -> (r: TlsError)
    ensures
        !(r is Transport),
{
    match e.kind() {
        std::io::ErrorKind::WouldBlock => TlsError::NotReady,
        std::io::ErrorKind::UnexpectedEof => TlsError::UnexpectedEof,
        std::io::ErrorKind::InvalidData => TlsError::InvalidData,
        _ => TlsError::Other,
    }
}

/// Relies on `rustls::CommonState::is_handshaking` (through `Connection`'s deref).
#[verifier::external_body]
pub(crate) fn is_handshaking(conn: &rustls::Connection) -> (r: bool) {
    conn.is_handshaking()
}

/// Relies on `rustls::CommonState::wants_read`.
#[verifier::external_body]
pub(crate) fn wants_read(conn: &rustls::Connection) -> (r: bool) {
    conn.wants_read()
}

/// Relies on `rustls::CommonState::wants_write`.
#[verifier::external_body]
pub(crate) fn wants_write(conn: &rustls::Connection) -> (r: bool) {
    conn.wants_write()
}

/// Relies on `rustls::Connection::read_tls` reading once from the slice, which
/// as a reader hands out at most its own length.
#[verifier::external_body]
pub(crate) fn read_tls(conn: &mut rustls::Connection, data: &[u8]) -> (r: Result<usize, std::io::Error>)
    ensures
        r matches Ok(n) ==> n <= data@.len(),
{
    let mut rd: &[u8] = data;
    conn.read_tls(&mut rd)
}

/// Relies on `rustls::Connection::write_tls` writing once into the part of
/// `buf` from `start` on; a slice as a writer takes at most its own length
/// and leaves what lies before it alone.
#[verifier::external_body]
pub(crate) fn write_tls(conn: &mut rustls::Connection, buf: &mut Vec<u8>, start: usize) -> (r: Result<usize, std::io::Error>)
    requires
        start <= old(buf)@.len(),
    ensures
        final(buf)@.len() == old(buf)@.len(),
        final(buf)@.subrange(0, start as int) == old(buf)@.subrange(0, start as int),
        r matches Ok(n) ==> start + n <= old(buf)@.len(),
{
    let mut wr: &mut [u8] = &mut buf[start..];
    conn.write_tls(&mut wr)
}

/// Relies on `rustls::Connection::process_new_packets`.
#[verifier::external_body]
pub(crate) fn process_new_packets(conn: &mut rustls::Connection) -> (r: Result<rustls::IoState, rustls::Error>) {
    conn.process_new_packets()
}

/// Relies on `rustls::IoState::peer_has_closed`.
#[verifier::external_body]
pub(crate) fn peer_has_closed(state: &rustls::IoState) -> (r: bool) {
    state.peer_has_closed()
}

/// Relies on `rustls::Reader::read` (from `Connection::reader`): by `std::io::Read`'s
/// contract it fills at most the length of `dst`.
#[verifier::external_body]
pub(crate) fn read_plaintext(conn: &mut rustls::Connection, dst: &mut Vec<u8>) -> (r: Result<usize, std::io::Error>)
    ensures
        final(dst)@.len() == old(dst)@.len(),
        r matches Ok(n) ==> n <= old(dst)@.len(),
{
    std::io::Read::read(&mut conn.reader(), dst.as_mut_slice())
}

/// Relies on `rustls::Writer::write` (from `Connection::writer`): by `std::io::Write`'s
/// contract it takes at most the length of `src`.
#[verifier::external_body]
pub(crate) fn write_plaintext(conn: &mut rustls::Connection, src: &[u8]) -> (r: Result<usize, std::io::Error>)
    ensures
        r matches Ok(n) ==> n <= src@.len(),
{
    std::io::Write::write(&mut conn.writer(), src)
}

/// Relies on `std::io::Write::write_all` over `rustls::Writer`: all of `src`
/// or an error.
#[verifier::external_body]
pub(crate) fn write_all_plaintext(conn: &mut rustls::Connection, src: &[u8]) -> (r: Result<(), std::io::Error>) {
    std::io::Write::write_all(&mut conn.writer(), src)
}

/// Relies on `rustls::Writer::flush`.
#[verifier::external_body]
pub(crate) fn flush_plaintext(conn: &mut rustls::Connection) -> (r: Result<(), std::io::Error>) {
    std::io::Write::flush(&mut conn.writer())
}

} // verus!
