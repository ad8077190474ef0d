//! Finding the local X11 displays in the kernel's table of unix sockets.
//!
//! Each line of the table ends with the socket's path. An X server listening
//! on display `N` binds `/tmp/.X11-unix/XN`; the display is then named `:N`.

use vstd::prelude::*;
use vstd::utf8::{decode_utf8, encode_utf8, valid_utf8};

use crate::transport::utf8_to_string;

verus! {

/// ASCII whitespace: space, tab, line feed, vertical tab, form feed, carriage return.
pub open spec fn is_space(c: u8) -> bool {
    c == 0x20 || (0x09 <= c && c <= 0x0d)
}

pub open spec fn is_digit(c: u8) -> bool {
    0x30 <= c && c <= 0x39
}

/// The bytes with trailing whitespace removed.
pub open spec fn trim_end(b: Seq<u8>) -> Seq<u8>
    decreases b.len(),
{
    if b.len() > 0 && is_space(b.last()) {
        trim_end(b.drop_last())
    } else {
        b
    }
}

/// The longest suffix of the bytes that holds no whitespace.
pub open spec fn last_word(b: Seq<u8>) -> Seq<u8>
    decreases b.len(),
{
    if b.len() > 0 && !is_space(b.last()) {
        last_word(b.drop_last()).push(b.last())
    } else {
        Seq::empty()
    }
}

/// `/tmp/.X11-unix/X`, the path of a display socket without its number.
pub open spec fn socket_path_prefix() -> Seq<u8> {
    seq![
        0x2fu8, 0x74u8, 0x6du8, 0x70u8, 0x2fu8, 0x2eu8, 0x58u8, 0x31u8,
        0x31u8, 0x2du8, 0x75u8, 0x6eu8, 0x69u8, 0x78u8, 0x2fu8, 0x58u8,
    ]
}

/// The display name (`:` followed by the number) of a socket path, when the
/// path is the prefix followed by one or more decimal digits.
pub open spec fn display_of_socket_path(p: Seq<u8>) -> Option<Seq<u8>> {
    let n = socket_path_prefix().len() as int;
    if p.len() > n && p.subrange(0, n) == socket_path_prefix() && (forall|i: int|
        n <= i < p.len() ==> is_digit(#[trigger] p[i])) {
        Some(seq![0x3au8] + p.subrange(n, p.len() as int))
    } else {
        None
    }
}

/// The display named by one line of the socket table: the line's last
/// whitespace-separated field must be a display socket path.
pub open spec fn display_of_line(line: Seq<u8>) -> Option<Seq<u8>> {
    display_of_socket_path(last_word(trim_end(line)))
}

pub open spec fn ascii_chars(b: Seq<u8>) -> Seq<char> {
    b.map_values(|c: u8| c as char)
}

/// The display named by a line, as characters.
pub open spec fn display_name_of_line(line: Seq<char>) -> Option<Seq<char>> {
    match display_of_line(encode_utf8(line)) {
        Some(d) => Some(ascii_chars(d)),
        None => None,
    }
}

/// The displays named by the lines of a socket table, in the order of the lines.
pub open spec fn socket_table_displays(lines: Seq<Seq<char>>) -> Seq<Seq<char>>
    decreases lines.len(),
{
    if lines.len() == 0 {
        Seq::empty()
    } else {
        let rest = socket_table_displays(lines.drop_last());
        match display_name_of_line(lines.last()) {
            Some(d) => rest.push(d),
            None => rest,
        }
    }
}

/// The displays named by a socket table given as lines of text.
pub open spec fn table_candidates(lines: Seq<String>) -> Seq<Seq<char>> {
    socket_table_displays(lines.map_values(|l: String| l@))
}

/// Bytes below 0x80 are valid UTF-8, each byte one character.
pub proof fn lemma_ascii_utf8(b: Seq<u8>)
    requires
        forall|i: int| 0 <= i < b.len() ==> #[trigger] b[i] < 0x80,
    ensures
        valid_utf8(b),
        decode_utf8(b) == ascii_chars(b),
    decreases b.len(),
{
    if b.len() > 0 {
        let rest = b.subrange(1, b.len() as int);
        let c = b[0];
        assert(c & 0x7f == c) by (bit_vector)
            requires
                c < 0x80,
        ;
        assert(rest.len() < b.len());
        lemma_ascii_utf8(rest);
        assert(vstd::utf8::pop_first_scalar(b) == rest);
        assert(decode_utf8(b) =~= ascii_chars(b));
    } else {
        assert(decode_utf8(b) =~= ascii_chars(b));
    }
}

fn socket_path_prefix_bytes() -> (r: Vec<u8>)
    ensures
        r@ == socket_path_prefix(),
{
    let r = vec![
        0x2fu8, 0x74u8, 0x6du8, 0x70u8, 0x2fu8, 0x2eu8, 0x58u8, 0x31u8,
        0x31u8, 0x2du8, 0x75u8, 0x6eu8, 0x69u8, 0x78u8, 0x2fu8, 0x58u8,
    ];
    assert(r@ =~= socket_path_prefix());
    r
}

fn is_space_byte(c: u8) -> (r: bool)
    ensures
        r == is_space(c),
{
    c == 0x20 || (0x09 <= c && c <= 0x0d)
}

/// The display named by one line of the kernel's unix socket table, if its
/// socket path is an X11 display socket with a decimal number.
pub fn display_from_socket_line(line: &str) -> (r: Option<String>)
    ensures
        match r {
            None => display_name_of_line(line@) is None,
            Some(s) => display_name_of_line(line@) == Some(s@),
        },
{
    let b = line.as_bytes();
    let ghost bs = b@;
    assert(bs == encode_utf8(line@));
    let mut e: usize = b.len();
    assert(bs.subrange(0, e as int) =~= bs);
    while e > 0 && is_space_byte(b[e - 1])
        invariant
            e <= bs.len(),
            bs == b@,
            trim_end(bs) == trim_end(bs.subrange(0, e as int)),
        decreases e,
    {
        assert(bs.subrange(0, e as int).drop_last() =~= bs.subrange(0, e - 1));
        e = e - 1;
    }
    assert(trim_end(bs) == bs.subrange(0, e as int));
    let mut s: usize = e;
    assert(last_word(bs.subrange(0, e as int)) =~= last_word(bs.subrange(0, s as int)) + bs.subrange(
        s as int,
        e as int,
    ));
    while s > 0 && !is_space_byte(b[s - 1])
        invariant
            s <= e <= bs.len(),
            bs == b@,
            last_word(bs.subrange(0, e as int)) == last_word(bs.subrange(0, s as int)) + bs.subrange(
                s as int,
                e as int,
            ),
        decreases s,
    {
        assert(bs.subrange(0, s as int).drop_last() =~= bs.subrange(0, s - 1));
        assert(bs.subrange(s - 1, e as int) =~= seq![bs[s - 1]] + bs.subrange(s as int, e as int));
        s = s - 1;
        assert(last_word(bs.subrange(0, e as int)) =~= last_word(bs.subrange(0, s as int))
            + bs.subrange(s as int, e as int));
    }
    assert(last_word(bs.subrange(0, s as int)) =~= Seq::<u8>::empty());
    let ghost field = bs.subrange(s as int, e as int);
    assert(last_word(trim_end(bs)) == field);
    let prefix = socket_path_prefix_bytes();
    let n = prefix.len();
    assert(socket_path_prefix().len() == 16);
    if e - s <= n {
        assert(display_of_socket_path(field) is None);
        return None;
    }
    let mut j: usize = 0;
    while j < n
        invariant
            j <= n,
            n == socket_path_prefix().len(),
            prefix@ == socket_path_prefix(),
            s + n < e <= bs.len(),
            bs == b@,
            field == bs.subrange(s as int, e as int),
            field == last_word(trim_end(bs)),
            bs == encode_utf8(line@),
            forall|i: int| 0 <= i < j ==> field[i] == prefix@[i],
        decreases n - j,
    {
        if b[s + j] != prefix[j] {
            assert(field[j as int] == bs[s + j]);
            assert(field.subrange(0, n as int)[j as int] != socket_path_prefix()[j as int]);
            assert(field.subrange(0, n as int) != socket_path_prefix());
            assert(display_of_socket_path(field) is None);
            return None;
        }
        j = j + 1;
    }
    assert(field.subrange(0, n as int) =~= socket_path_prefix());
    let mut out: Vec<u8> = Vec::new();
    out.push(0x3au8);
    let mut k: usize = s + n;
    while k < e
        invariant
            s + n <= k <= e <= bs.len(),
            n == socket_path_prefix().len(),
            bs == b@,
            field == bs.subrange(s as int, e as int),
            field == last_word(trim_end(bs)),
            bs == encode_utf8(line@),
            forall|i: int| n <= i < k - s ==> is_digit(#[trigger] field[i]),
            out@ == seq![0x3au8] + field.subrange(n as int, k - s),
        decreases e - k,
    {
        let c = b[k];
        if !(0x30 <= c && c <= 0x39) {
            assert(!is_digit(field[k - s]));
            assert(display_of_socket_path(field) is None);
            return None;
        }
        out.push(c);
        k = k + 1;
        assert(out@ =~= seq![0x3au8] + field.subrange(n as int, k - s));
    }
    let ghost d = out@;
    assert(display_of_socket_path(field) == Some(d));
    proof {
        assert forall|i: int| 0 <= i < d.len() implies #[trigger] d[i] < 0x80 by {
            if i > 0 {
                assert(d[i] == field[n + i - 1]);
                assert(is_digit(field[n + i - 1]));
            }
        }
        lemma_ascii_utf8(d);
    }
    utf8_to_string(out)
}

/// The displays named by the lines of the kernel's unix socket table, in the
/// order of the lines; lines that name none are skipped.
pub fn discover_x11_displays(socket_lines: &Vec<String>) -> (r: Vec<String>)
    ensures
        r@.map_values(|s: String| s@) == socket_table_displays(
            socket_lines@.map_values(|l: String| l@),
        ),
{
    let ghost lines = socket_lines@.map_values(|l: String| l@);
    let mut names: Vec<String> = Vec::new();
    let mut i: usize = 0;
    while i < socket_lines.len()
        invariant
            i <= socket_lines@.len(),
            lines == socket_lines@.map_values(|l: String| l@),
            names@.map_values(|s: String| s@) == socket_table_displays(lines.subrange(0, i as int)),
        decreases socket_lines@.len() - i,
    {
        let found = display_from_socket_line(socket_lines[i].as_str());
        assert(lines.subrange(0, i + 1).drop_last() =~= lines.subrange(0, i as int));
        let ghost before = names@;
        match found {
            Some(name) => {
                let ghost v = name@;
                names.push(name);
                assert(names@.map_values(|s: String| s@) =~= before.map_values(|s: String| s@).push(
                    v,
                ));
            },
            None => {},
        }
        i = i + 1;
    }
    assert(lines.subrange(0, socket_lines@.len() as int) =~= lines);
    names
}

} // verus!
