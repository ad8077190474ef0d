//! The calls into the X11 client crate that the library makes, each behind a
//! small trusted wrapper. Results that depend on the server are promised
//! nothing beyond what the crate itself guarantees.

use vstd::prelude::*;
use vstd::string::StringSliceAdditionalSpecFns;
use vstd::utf8::{decode_utf8, valid_utf8};
use x11rb::connection::Connection;
use x11rb::errors::{ConnectError, ReplyError};
use x11rb::protocol::res::ConnectionExt as ResConnectionExt;
use x11rb::protocol::xproto::ConnectionExt as XprotoConnectionExt;
use x11rb::rust_connection::RustConnection;
use x11rb::wrapper::ConnectionExt as WrapperConnectionExt;

use crate::watcher::WatchEvent;

verus! {

/// An open connection to an X server. x11rb's connection type is generic over
/// a stream trait that Verus cannot name, so it is held here, out of Verus's
/// sight; only the wrappers below touch it.
#[verifier::external_body]
pub struct XConnection {
    conn: RustConnection,
}

#[verifier::external_type_specification]
#[verifier::external_body]
pub struct ExReplyError(ReplyError);

#[verifier::external_type_specification]
#[verifier::external_body]
pub struct ExConnectError(ConnectError);

/// The most 32-bit items one property change can carry.
pub const MAX_PROPERTY_ITEMS: usize = 0x07ff_ffff;

/// The longest property name, in bytes, that a request can carry.
pub const MAX_ATOM_NAME_LEN: usize = 0xffff;

/// How a property change combines the written values with the stored ones.
#[derive(Debug, Clone, Copy, PartialEq, Eq, Structural)]
pub enum PropertyMode {
    Replace,
    Prepend,
    Append,
}

/// Relies on `x11rb::connect`: opens a connection to the named display and
/// returns it with the number of the display's default screen.
#[verifier::external_body]
pub(crate) fn open_display(name: &str) -> (r: Result<(XConnection, usize), ConnectError>) {
    let (conn, screen) = x11rb::connect(Some(name))?;
    Ok((XConnection { conn }, screen))
}

/// Relies on `Connection::setup`: the root window of the given screen, if the
/// server's setup data lists that screen.
#[verifier::external_body]
pub(crate) fn screen_root(conn: &XConnection, screen: usize) -> (r: Option<u32>) {
    conn.conn.setup().roots.get(screen).map(|s| s.root)
}

/// Relies on the `InternAtom` request of x11rb's xproto: the atom of a name,
/// created if the server did not know it yet. x11rb panics on a name longer
/// than a 16-bit length can say.
#[verifier::external_body]
pub(crate) fn intern_atom(conn: &XConnection, name: &str) -> (r: Result<u32, ReplyError>)
    requires
        name.spec_bytes().len() <= MAX_ATOM_NAME_LEN,
{
    Ok(conn.conn.intern_atom(false, name.as_bytes())?.reply()?.atom)
}

/// Relies on the `GetProperty` request of x11rb's xproto, asking for a value
/// of the given type and of at most `long_length` 32-bit units, and on
/// `GetPropertyReply::value32`. Returns the reply's `value_len` and, when the
/// reply's format is 32, its items; x11rb parses exactly `value_len` items
/// then.
#[verifier::external_body]
pub(crate) fn get_property32(
    conn: &XConnection,
    window: u32,
    atom: u32,
    type_: u32,
    long_length: u32,
) -> (r:
    Result<(u32, Option<Vec<u32>>), ReplyError>)
    ensures
        r matches Ok((n, Some(v))) ==> v@.len() == n,
{
    let reply = conn.conn.get_property(
        false,
        window,
        atom,
        type_,
        0,
        long_length,
    )?.reply()?;
    Ok((reply.value_len, reply.value32().map(|it| it.collect())))
}

/// Relies on the `GetProperty` request of x11rb's xproto, asking for a value
/// of the given type and of at most `long_length` 32-bit units, and on
/// `GetPropertyReply::value8`. Returns the reply's `value_len` and, when the
/// reply's format is 8, its bytes; x11rb parses exactly `value_len` bytes
/// then.
#[verifier::external_body]
pub(crate) fn get_property8(
    conn: &XConnection,
    window: u32,
    atom: u32,
    type_: u32,
    long_length: u32,
) -> (r:
    Result<(u32, Option<Vec<u8>>), ReplyError>)
    ensures
        r matches Ok((n, Some(v))) ==> v@.len() == n,
{
    let reply = conn.conn.get_property(
        false,
        window,
        atom,
        type_,
        0,
        long_length,
    )?.reply()?;
    Ok((reply.value_len, reply.value8().map(|it| it.collect())))
}

/// Relies on x11rb's `change_property32` and `VoidCookie::check`: writes the
/// values as a property of the given type and of format 32, and waits for the server to
/// accept or refuse the request. x11rb panics when the data's length in bits
/// does not fit 32 bits.
#[verifier::external_body]
pub(crate) fn change_property32(
    conn: &XConnection,
    mode: PropertyMode,
    window: u32,
    atom: u32,
    type_: u32,
    values: &Vec<u32>,
) -> (r: Result<(), ReplyError>)
    requires
        values@.len() <= MAX_PROPERTY_ITEMS,
{
    let mode = match mode {
        PropertyMode::Replace => x11rb::protocol::xproto::PropMode::REPLACE,
        PropertyMode::Prepend => x11rb::protocol::xproto::PropMode::PREPEND,
        PropertyMode::Append => x11rb::protocol::xproto::PropMode::APPEND,
    };
    conn.conn.change_property32(
        mode,
        window,
        atom,
        type_,
        values.as_slice(),
    )?.check()
}

/// Relies on the `DeleteProperty` request of x11rb's xproto and
/// `VoidCookie::check`.
#[verifier::external_body]
pub(crate) fn delete_property(conn: &XConnection, window: u32, atom: u32) -> (r: Result<
    (),
    ReplyError,
>) {
    conn.conn.delete_property(window, atom)?.check()
}

/// Relies on the `ListProperties` request of x11rb's xproto: the atoms of the
/// properties set on a window.
#[verifier::external_body]
pub(crate) fn list_property_atoms(conn: &XConnection, window: u32) -> (r: Result<
    Vec<u32>,
    ReplyError,
>) {
    Ok(conn.conn.list_properties(window)?.reply()?.atoms)
}

/// Relies on the `GetAtomName` request of x11rb's xproto: the name of an atom,
/// as bytes.
#[verifier::external_body]
pub(crate) fn atom_name_bytes(conn: &XConnection, atom: u32) -> (r: Result<
    Vec<u8>,
    ReplyError,
>) {
    Ok(conn.conn.get_atom_name(atom)?.reply()?.name)
}

/// Relies on the `QueryTree` request of x11rb's xproto: the direct children of
/// a window, in the server's stacking order.
#[verifier::external_body]
pub(crate) fn query_children(conn: &XConnection, window: u32) -> (r: Result<
    Vec<u32>,
    ReplyError,
>) {
    Ok(conn.conn.query_tree(window)?.reply()?.children)
}

/// Relies on the `QueryClientIds` request of x11rb's X-Resource extension,
/// asking for the local process ids of the client that owns the window; each
/// item of the reply is handed back as its list of values.
#[verifier::external_body]
pub(crate) fn query_client_pids(conn: &XConnection, window: u32) -> (r: Result<
    Vec<Vec<u32>>,
    ReplyError,
>) {
    let spec = x11rb::protocol::res::ClientIdSpec {
        client: window,
        mask: x11rb::protocol::res::ClientIdMask::LOCAL_CLIENT_PID,
    };
    let reply = conn.conn.res_query_client_ids(&[spec])?.reply()?;
    Ok(reply.ids.into_iter().map(|id| id.value).collect())
}

/// Relies on the `SetInputFocus` request of x11rb's xproto, with no revert
/// target and the current time; the request is sent without waiting for an
/// answer.
#[verifier::external_body]
pub(crate) fn send_input_focus(conn: &XConnection, window: u32) -> (r: Result<
    (),
    ReplyError,
>) {
    conn.conn.set_input_focus(x11rb::protocol::xproto::InputFocus::NONE, window, x11rb::CURRENT_TIME)?;
    Ok(())
}

/// Relies on the `ChangeWindowAttributes` request of x11rb's xproto and
/// `VoidCookie::check`: sets the window's event mask to property changes.
#[verifier::external_body]
pub(crate) fn select_property_events(conn: &XConnection, window: u32) -> (r: Result<
    (),
    ReplyError,
>) {
    let attrs = x11rb::protocol::xproto::ChangeWindowAttributesAux::new().event_mask(
        x11rb::protocol::xproto::EventMask::PROPERTY_CHANGE,
    );
    conn.conn.change_window_attributes(window, &attrs)?.check()
}

/// Relies on `Connection::wait_for_event`: blocks until the server sends an
/// event. A property notification is handed back with its atom, any other
/// event as such, and a failed wait as a closed connection.
#[verifier::external_body]
pub(crate) fn wait_for_property_event(conn: &XConnection) -> (r: WatchEvent) {
    match conn.conn.wait_for_event() {
        Ok(x11rb::protocol::Event::PropertyNotify(event)) => WatchEvent::PropertyChanged(event.atom),
        Ok(_) => WatchEvent::Other,
        Err(_) => WatchEvent::Closed,
    }
}

/// Relies on `String::from_utf8`: succeeds exactly on valid UTF-8 and then
/// holds the decoded characters.
#[verifier::external_body]
pub(crate) fn utf8_to_string(bytes: Vec<u8>) -> (r: Option<String>)
    ensures
        r is Some <==> valid_utf8(bytes@),
        r matches Some(s) ==> s@ == decode_utf8(bytes@),
{
    String::from_utf8(bytes).ok()
}

} // verus!
