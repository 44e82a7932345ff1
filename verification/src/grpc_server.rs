//! The gRPC greeter: its reply to `SayHello`, its listening address, and
//! how it reads trace context from request headers.

use crate::greeting::{greeting, local_reponse, stranger, unknown_stranger};
use crate::net::{IpAddress, SocketAddress};
use crate::text::str_from_utf8;
use vstd::prelude::*;
use vstd::utf8::{
    decode_utf8, encode_utf8, encode_utf8_decode_utf8, encode_utf8_valid_utf8, is_ascii_chars,
    is_ascii_chars_encode_utf8, valid_utf8,
};

verus! {

/// Where the gRPC server listens, and how long it waits before answering.
#[derive(Clone, Copy, Debug)]
pub struct Config {
    pub addr: IpAddress,
    pub port: u16,
    pub delay_millis: u64,
}

impl Config {
    /// The socket address made of the configured address and port.
    pub fn socket_addr(&self) -> (res: SocketAddress)
        ensures
            res.ip == self.addr,
            res.port == self.port,
    {
        SocketAddress::new(self.addr, self.port)
    }
}

/// The name the greeter uses for a request's name: `unknown stranger`
/// where the request's name is empty.
pub open spec fn reply_name(name: Seq<char>) -> Seq<char> {
    if name.len() == 0 {
        stranger()
    } else {
        name
    }
}

/// The text of the reply to `SayHello` with `name`.
pub open spec fn reply_text(name: Seq<char>) -> Seq<char> {
    greeting(reply_name(name))
}

/// The text of the reply to `SayHello`: `Hello, {name}!`, or
/// `Hello, unknown stranger!` for an empty name.
pub fn say_hello_text(name: String) -> (text: String)
    ensures
        text@ == reply_text(name@),
{
    let name = if name.as_str().is_empty() {
        unknown_stranger()
    } else {
        name
    };
    local_reponse(name.as_str())
}

/// A byte that a header value may hold where it is read as text: visible
/// ASCII or horizontal tab.
pub open spec fn visible_ascii(b: u8) -> bool {
    (32 <= b && b < 127) || b == 9
}

/// The characters of a sequence of ASCII bytes.
pub open spec fn ascii_chars(bytes: Seq<u8>) -> Seq<char> {
    bytes.map_values(|b: u8| b as char)
}

/// Bytes that are all visible ASCII or tabs are the UTF-8 encoding of
/// their characters.
pub proof fn lemma_visible_ascii_is_utf8(bytes: Seq<u8>)
    requires
        forall|i: int| 0 <= i < bytes.len() ==> visible_ascii(#[trigger] bytes[i]),
    ensures
        encode_utf8(ascii_chars(bytes)) == bytes,
        valid_utf8(bytes),
{
    let chars = ascii_chars(bytes);
    assert forall|i: int| 0 <= i < chars.len() implies '\0' <= #[trigger] chars[i] <= '\u{7f}' by {
        assert(visible_ascii(bytes[i]));
    }
    assert(is_ascii_chars(chars));
    is_ascii_chars_encode_utf8(chars);
    assert forall|i: int| 0 <= i < bytes.len() implies encode_utf8(chars)[i] == bytes[i] by {
        assert(chars[i] as u8 == encode_utf8(chars)[i]);
        let b = bytes[i];
        assert((b as char) as u8 == b);
    }
    assert(encode_utf8(chars) =~= bytes);
    encode_utf8_valid_utf8(chars);
}

/// A header value read as text: the value's characters where each of its
/// bytes is visible ASCII or a tab, else nothing.
pub fn header_value_text(bytes: &[u8]) -> (res: Option<&str>)
    ensures
        res is Some <==> (forall|i: int|
            0 <= i < bytes@.len() ==> (32 <= #[trigger] bytes@[i] <= 126 || bytes@[i] == 9)),
        res matches Some(text) ==> text@ == ascii_chars(bytes@),
        res matches Some(text) ==> text@.len() == bytes@.len() && (forall|i: int|
            0 <= i < bytes@.len() ==> #[trigger] text@[i] == bytes@[i] as char),
{
    let mut i: usize = 0;
    while i < bytes.len()
        invariant
            0 <= i <= bytes@.len(),
            forall|j: int| 0 <= j < i ==> visible_ascii(#[trigger] bytes@[j]),
        decreases bytes@.len() - i,
    {
        let b = bytes[i];
        if !((32u8 <= b && b < 127u8) || b == 9u8) {
            return None;
        }
        i = i + 1;
    }
    proof {
        lemma_visible_ascii_is_utf8(bytes@);
    }
    match str_from_utf8(bytes) {
        Some(text) => {
            proof {
                encode_utf8_decode_utf8(text@);
                encode_utf8_decode_utf8(ascii_chars(bytes@));
            }
            Some(text)
        },
        None => None,
    }
}

} // verus!
