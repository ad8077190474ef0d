//! Generic property access on an open connection: names are resolved to
//! atoms, values are read and written as arrays of 32-bit cardinals, and the
//! window name as a string.

use vstd::prelude::*;
use vstd::string::StringSliceAdditionalSpecFns;
use vstd::utf8::{decode_utf8, valid_utf8};

use crate::atoms::GamescopeAtom;
use crate::error::XError;
use crate::transport::{
    atom_name_bytes, change_property32, delete_property, get_property32, get_property8,
    intern_atom, list_property_atoms, query_client_pids, send_input_focus, utf8_to_string,
    PropertyMode, XConnection, MAX_ATOM_NAME_LEN, MAX_PROPERTY_ITEMS,
};

verus! {

/// The predefined atom of the `CARDINAL` type, under which every value but
/// the window name is read and written.
pub const CARDINAL_TYPE: u32 = 6;

/// The predefined atom of the `STRING` type, under which the window name is read.
pub const STRING_TYPE: u32 = 31;

/// Length, in 32-bit units, asked for when reading a cardinal property: all of it.
pub const CARDINAL_READ_LENGTH: u32 = 0xffff_ffff;

/// Length, in 32-bit units, asked for when reading a string property.
pub const STRING_READ_LENGTH: u32 = 8;

/// The value of a cardinal property reply: absent when the reply holds no
/// item, a shape error when the items are not 32-bit, else the items.
pub open spec fn cardinal_reply_value(value_len: u32, items: Option<Seq<u32>>) -> Result<
    Option<Seq<u32>>,
    XError,
> {
    if value_len == 0 {
        Ok(None)
    } else {
        match items {
            None => Err(XError::Decode),
            Some(v) => Ok(Some(v)),
        }
    }
}

/// The value of a string property reply: absent when the reply holds no byte,
/// a decode error when the bytes are not 8-bit units or not UTF-8, else the
/// decoded characters.
pub open spec fn string_reply_value(value_len: u32, bytes: Option<Seq<u8>>) -> Result<
    Option<Seq<char>>,
    XError,
> {
    if value_len == 0 {
        Ok(None)
    } else {
        match bytes {
            None => Err(XError::Decode),
            Some(b) => if valid_utf8(b) {
                Ok(Some(decode_utf8(b)))
            } else {
                Err(XError::Decode)
            },
        }
    }
}

pub open spec fn opt_vec_view(v: Option<Vec<u32>>) -> Option<Seq<u32>> {
    match v {
        None => None,
        Some(v) => Some(v@),
    }
}

pub open spec fn opt_bytes_view(b: Option<Vec<u8>>) -> Option<Seq<u8>> {
    match b {
        None => None,
        Some(b) => Some(b@),
    }
}

pub open spec fn result_vec_view(r: Result<Option<Vec<u32>>, XError>) -> Result<
    Option<Seq<u32>>,
    XError,
> {
    match r {
        Ok(v) => Ok(opt_vec_view(v)),
        Err(e) => Err(e),
    }
}

pub open spec fn result_string_view(r: Result<Option<String>, XError>) -> Result<
    Option<Seq<char>>,
    XError,
> {
    match r {
        Ok(None) => Ok(None),
        Ok(Some(s)) => Ok(Some(s@)),
        Err(e) => Err(e),
    }
}

/// The concatenation of a list of sequences, in order.
pub open spec fn joined(groups: Seq<Seq<u32>>) -> Seq<u32>
    decreases groups.len(),
{
    if groups.len() == 0 {
        Seq::empty()
    } else {
        joined(groups.drop_last()) + groups.last()
    }
}

/// The value a window holds for a property after a change request, as the X
/// protocol defines `ChangeProperty` for format-32 data: the written values
/// replace the old ones, or go before or after them. `None` is an unset
/// property, which a prepend or an append treats as empty.
pub open spec fn value_after_change(mode: PropertyMode, held: Option<Seq<u32>>, values: Seq<u32>) -> Seq<u32> {
    let old_values = match held {
        Some(v) => v,
        None => Seq::empty(),
    };
    match mode {
        PropertyMode::Replace => values,
        PropertyMode::Prepend => values + old_values,
        PropertyMode::Append => old_values + values,
    }
}

/// What reading a property back yields when the server holds `held` for it:
/// the decoding of a format-32 reply that carries those items.
pub open spec fn read_back(held: Option<Seq<u32>>) -> Result<Option<Seq<u32>>, XError> {
    match held {
        None => cardinal_reply_value(0, None),
        Some(v) => cardinal_reply_value(v.len() as u32, Some(v)),
    }
}

/// Writing a non-empty value and reading it back gives the value unchanged.
/// An empty value reads back as unset, since the reply then holds no item.
pub proof fn lemma_set_then_get(held: Option<Seq<u32>>, values: Seq<u32>)
    requires
        values.len() <= u32::MAX,
    ensures
        values.len() > 0 ==> read_back(Some(value_after_change(PropertyMode::Replace, held, values)))
            == Ok::<Option<Seq<u32>>, XError>(Some(values)),
        values.len() == 0 ==> read_back(Some(value_after_change(PropertyMode::Replace, held, values)))
            == Ok::<Option<Seq<u32>>, XError>(None),
{
}

/// A property that was never set reads back as unset, not as an empty list.
pub proof fn lemma_unset_reads_absent()
    ensures
        read_back(None) == Ok::<Option<Seq<u32>>, XError>(None),
{
}

/// Appending reads back as the old value followed by the new one; prepending
/// as the new one followed by the old, whenever the result is not empty.
pub proof fn lemma_append_prepend(held: Option<Seq<u32>>, values: Seq<u32>)
    requires
        value_after_change(PropertyMode::Append, held, values).len() <= u32::MAX,
    ensures
        ({
            let old_values = match held {
                Some(v) => v,
                None => Seq::<u32>::empty(),
            };
            &&& old_values.len() + values.len() > 0 ==> read_back(
                Some(value_after_change(PropertyMode::Append, held, values)),
            ) == Ok::<Option<Seq<u32>>, XError>(Some(old_values + values))
            &&& old_values.len() + values.len() > 0 ==> read_back(
                Some(value_after_change(PropertyMode::Prepend, held, values)),
            ) == Ok::<Option<Seq<u32>>, XError>(Some(values + old_values))
        }),
{
}

/// Turns the parts of a cardinal property reply into the property's value.
/// A reply with no item means the property is not set, which is told apart
/// from any error.
pub fn decode_cardinal_reply(value_len: u32, items: Option<Vec<u32>>) -> (r: Result<
    Option<Vec<u32>>,
    XError,
>)
    ensures
        result_vec_view(r) == cardinal_reply_value(value_len, opt_vec_view(items)),
{
    if value_len == 0 {
        return Ok(None);
    }
    match items {
        None => Err(XError::Decode),
        Some(v) => Ok(Some(v)),
    }
}

/// Turns the parts of a string property reply into the property's value.
pub fn decode_string_reply(value_len: u32, bytes: Option<Vec<u8>>) -> (r: Result<
    Option<String>,
    XError,
>)
    ensures
        result_string_view(r) == string_reply_value(value_len, opt_bytes_view(bytes)),
{
    if value_len == 0 {
        return Ok(None);
    }
    match bytes {
        None => Err(XError::Decode),
        Some(b) => match utf8_to_string(b) {
            None => Err(XError::Decode),
            Some(s) => Ok(Some(s)),
        },
    }
}

/// Resolves a property name to its atom. A name too long for the request is
/// a transport error.
fn resolve_atom(conn: &XConnection, key: &str) -> (r: Result<u32, XError>)
    ensures
        r matches Err(e) ==> e == XError::Transport,
        key.spec_bytes().len() > MAX_ATOM_NAME_LEN ==> r == Err::<u32, XError>(XError::Transport),
{
    if key.as_bytes().len() > MAX_ATOM_NAME_LEN {
        return Err(XError::Transport);
    }
    match intern_atom(conn, key) {
        Ok(atom) => Ok(atom),
        Err(_) => Err(XError::Transport),
    }
}

/// Returns true if the root window carries the marker property that only the
/// compositor's own X servers set.
pub fn is_gamescope_xwayland(conn: &XConnection, root_window_id: u32) -> (r: Result<bool, XError>)
    ensures
        r matches Err(e) ==> e != XError::NotConnected,
{
    has_property(conn, root_window_id, crate::session_marker().as_str())
}

/// Reads a string property of a window. An unset property is `None`.
pub fn get_string_property(conn: &XConnection, window_id: u32, key: &str) -> (r: Result<
    Option<String>,
    XError,
>)
    ensures
        r matches Ok(Some(s)) ==> exists|b: Seq<u8>|
            b.len() > 0 && valid_utf8(b) && s@ == decode_utf8(b),
        r matches Err(e) ==> e != XError::NotConnected,
{
    let atom = resolve_atom(conn, key)?;
    match get_property8(conn, window_id, atom, STRING_TYPE, STRING_READ_LENGTH) {
        Err(_) => Err(XError::Transport),
        Ok((value_len, bytes)) => {
            let ghost bv = opt_bytes_view(bytes);
            let r = decode_string_reply(value_len, bytes);
            assert(r matches Ok(Some(s)) ==> bv->0.len() > 0 && valid_utf8(bv->0) && s@ == decode_utf8(
                bv->0,
            ));
            r
        },
    }
}

/// Returns true if the window has the property set.
pub fn has_property(conn: &XConnection, window_id: u32, key: &str) -> (r: Result<bool, XError>)
    ensures
        r matches Err(e) ==> e != XError::NotConnected,
{
    let value = get_property(conn, window_id, key)?;
    Ok(value.is_some())
}

/// Reads a property of a window as 32-bit cardinals. An unset property is
/// `None`, never an empty list.
pub fn get_property(conn: &XConnection, window_id: u32, key: &str) -> (r: Result<
    Option<Vec<u32>>,
    XError,
>)
    ensures
        r matches Ok(Some(v)) ==> v@.len() > 0,
        r matches Err(e) ==> e != XError::NotConnected,
{
    let atom = resolve_atom(conn, key)?;
    match get_property32(conn, window_id, atom, CARDINAL_TYPE, CARDINAL_READ_LENGTH) {
        Err(_) => Err(XError::Transport),
        Ok((value_len, items)) => decode_cardinal_reply(value_len, items),
    }
}

/// Replaces the value of a property with the given cardinals.
pub fn set_property(conn: &XConnection, window_id: u32, key: &str, values: Vec<u32>) -> (r: Result<
    (),
    XError,
>)
    ensures
        r matches Err(e) ==> e == XError::Transport,
{
    change_property(conn, window_id, key, values, PropertyMode::Replace)
}

/// Appends the given cardinals to the value of a property.
pub fn append_property(conn: &XConnection, window_id: u32, key: &str, values: Vec<u32>) -> (r:
    Result<(), XError>)
    ensures
        r matches Err(e) ==> e == XError::Transport,
{
    change_property(conn, window_id, key, values, PropertyMode::Append)
}

/// Prepends the given cardinals to the value of a property.
pub fn prepend_property(conn: &XConnection, window_id: u32, key: &str, values: Vec<u32>) -> (r:
    Result<(), XError>)
    ensures
        r matches Err(e) ==> e == XError::Transport,
{
    change_property(conn, window_id, key, values, PropertyMode::Prepend)
}

/// Writes the given cardinals to a property in the given mode, and waits for
/// the server to confirm the request: a refused request is an error, and so
/// is a value too long for one request.
pub fn change_property(
    conn: &XConnection,
    window_id: u32,
    key: &str,
    values: Vec<u32>,
    mode: PropertyMode,
) -> (r: Result<(), XError>)
    ensures
        r matches Err(e) ==> e == XError::Transport,
        values@.len() > MAX_PROPERTY_ITEMS ==> r == Err::<(), XError>(XError::Transport),
        key.spec_bytes().len() > MAX_ATOM_NAME_LEN ==> r == Err::<(), XError>(XError::Transport),
{
    if values.len() > MAX_PROPERTY_ITEMS {
        return Err(XError::Transport);
    }
    let atom = resolve_atom(conn, key)?;
    match change_property32(conn, mode, window_id, atom, CARDINAL_TYPE, &values) {
        Ok(()) => Ok(()),
        Err(_) => Err(XError::Transport),
    }
}

/// Deletes a property of a window; deleting an unset property is no error.
pub fn remove_property(conn: &XConnection, window_id: u32, key: &str) -> (r: Result<(), XError>)
    ensures
        r matches Err(e) ==> e == XError::Transport,
{
    let atom = resolve_atom(conn, key)?;
    match delete_property(conn, window_id, atom) {
        Ok(()) => Ok(()),
        Err(_) => Err(XError::Transport),
    }
}

/// The characters of some valid UTF-8 byte string.
pub open spec fn is_decoded_name(name: Seq<char>) -> bool {
    exists|b: Seq<u8>| valid_utf8(b) && name == decode_utf8(b)
}

/// Resolves an atom to its name.
pub fn get_atom_name(conn: &XConnection, atom: u32) -> (r: Result<String, XError>)
    ensures
        r matches Ok(s) ==> exists|b: Seq<u8>| valid_utf8(b) && s@ == decode_utf8(b),
        r matches Err(e) ==> e == XError::Transport || e == XError::Decode,
{
    match atom_name_bytes(conn, atom) {
        Err(_) => Err(XError::Transport),
        Ok(bytes) => {
            let ghost b = bytes@;
            match utf8_to_string(bytes) {
                None => Err(XError::Decode),
                Some(s) => {
                    assert(valid_utf8(b) && s@ == decode_utf8(b));
                    Ok(s)
                },
            }
        },
    }
}

/// Resolves each atom to its name: one name per atom, in the same order. The
/// first failed resolution is the result.
pub fn get_atom_names(conn: &XConnection, atoms: &Vec<u32>) -> (r: Result<Vec<String>, XError>)
    ensures
        r matches Err(e) ==> e == XError::Transport || e == XError::Decode,
        r matches Ok(v) ==> v@.len() == atoms@.len() && forall|i: int|
            0 <= i < v@.len() ==> is_decoded_name(#[trigger] v@[i]@),
{
    let mut names: Vec<String> = Vec::new();
    let mut i: usize = 0;
    while i < atoms.len()
        invariant
            i <= atoms@.len(),
            names@.len() == i,
            forall|j: int| 0 <= j < i ==> is_decoded_name(#[trigger] names@[j]@),
        decreases atoms@.len() - i,
    {
        let name = get_atom_name(conn, atoms[i])?;
        names.push(name);
        i = i + 1;
    }
    Ok(names)
}

/// Returns the names of all properties set on a window, one per property, in
/// the order the server lists them.
pub fn list_properties(conn: &XConnection, window_id: u32) -> (r: Result<Vec<String>, XError>)
    ensures
        r matches Err(e) ==> e == XError::Transport || e == XError::Decode,
        r matches Ok(v) ==> forall|i: int|
            0 <= i < v@.len() ==> is_decoded_name(#[trigger] v@[i]@),
{
    match list_property_atoms(conn, window_id) {
        Ok(atoms) => get_atom_names(conn, &atoms),
        Err(_) => Err(XError::Transport),
    }
}

/// Concatenates the process-id lists of a client-id reply, in order.
pub fn flatten_pids(groups: Vec<Vec<u32>>) -> (r: Vec<u32>)
    ensures
        r@ == joined(groups@.map_values(|g: Vec<u32>| g@)),
{
    let ghost views = groups@.map_values(|g: Vec<u32>| g@);
    let mut pids: Vec<u32> = Vec::new();
    let mut i: usize = 0;
    while i < groups.len()
        invariant
            i <= groups@.len(),
            views == groups@.map_values(|g: Vec<u32>| g@),
            pids@ == joined(views.subrange(0, i as int)),
        decreases groups@.len() - i,
    {
        let group = &groups[i];
        let mut j: usize = 0;
        while j < group.len()
            invariant
                i < groups@.len(),
                j <= group@.len(),
                *group == groups@[i as int],
                pids@ == joined(views.subrange(0, i as int)) + group@.subrange(0, j as int),
            decreases group@.len() - j,
        {
            pids.push(group[j]);
            j = j + 1;
            assert(group@.subrange(0, j as int) == group@.subrange(0, j - 1) + seq![group@[j - 1]]);
        }
        assert(group@.subrange(0, group@.len() as int) == group@);
        assert(views.subrange(0, i + 1).drop_last() == views.subrange(0, i as int));
        i = i + 1;
    }
    assert(views.subrange(0, groups@.len() as int) == views);
    pids
}

/// Asks the X-Resource extension for the process ids of the client that owns
/// the window; there may be several.
pub fn get_window_pids(conn: &XConnection, window_id: u32) -> (r: Result<Vec<u32>, XError>)
    ensures
        r matches Err(e) ==> e == XError::Transport,
{
    match query_client_pids(conn, window_id) {
        Ok(groups) => Ok(flatten_pids(groups)),
        Err(_) => Err(XError::Transport),
    }
}

/// Gives the input focus to the window.
pub fn set_input_focus(conn: &XConnection, window_id: u32) -> (r: Result<(), XError>)
    ensures
        r matches Err(e) ==> e == XError::Transport,
{
    match send_input_focus(conn, window_id) {
        Ok(()) => Ok(()),
        Err(_) => Err(XError::Transport),
    }
}

/// Reads the window's `WM_NAME` property.
pub fn get_window_name(conn: &XConnection, window_id: u32) -> (r: Result<Option<String>, XError>)
    ensures
        r matches Err(e) ==> e != XError::NotConnected,
{
    get_string_property(conn, window_id, "WM_NAME")
}

} // verus!
