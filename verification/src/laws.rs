//! Properties that hold across the modules.

use crate::greeting::greeting;
use crate::grpc_client::{metadata_entry_outcome, request_name};
use crate::metadata::{header_name_ok, metadata_value_accepts, metadata_value_byte};
use crate::grpc_server::{ascii_chars, lemma_visible_ascii_is_utf8, reply_text, visible_ascii};
use crate::http_server::local_hello_text;
use crate::sampler::{sampling_decision, ParentContext, SamplingDecision};
use crate::trace_id::{hex_digit, hex_text};
use vstd::prelude::*;
use vstd::utf8::encode_utf8;

verus! {

/// Asking the gRPC greeter through the client gives the same greeting as
/// the HTTP server gives itself, for every optional name but the empty one:
/// no name gives `Hello, unknown stranger!` both ways, a non-empty name
/// `Hello, {name}!`.
pub proof fn lemma_proxied_greeting_is_local_greeting(name: Option<Seq<char>>)
    requires
        name != Some(Seq::<char>::empty()),
    ensures
        reply_text(request_name(name)) == local_hello_text(name),
{
    match name {
        Some(n) => {
            assert(n.len() != 0) by {
                if n.len() == 0 {
                    assert(n =~= Seq::<char>::empty());
                }
            }
        },
        None => {},
    }
}

/// A span whose parent context holds an active span is sampled exactly when
/// the parent is, whatever the draw.
pub proof fn lemma_active_parent_decides(parent: ParentContext, draw_within_probability: bool)
    requires
        parent.has_active_span,
    ensures
        sampling_decision(Some(parent), draw_within_probability) == sampling_decision(
            Some(parent),
            !draw_within_probability,
        ),
        (sampling_decision(Some(parent), draw_within_probability) == SamplingDecision::RecordAndSample)
            <==> parent.is_sampled,
{
}

/// A parent context without an active span counts as no parent: the draw
/// decides.
pub proof fn lemma_inactive_parent_is_root(parent: ParentContext, draw_within_probability: bool)
    requires
        !parent.has_active_span,
    ensures
        sampling_decision(Some(parent), draw_within_probability) == sampling_decision(
            None,
            draw_within_probability,
        ),
        (sampling_decision(None, draw_within_probability) == SamplingDecision::RecordAndSample)
            <==> draw_within_probability,
{
}

/// Trace context that the greeter reads from a request header as text can
/// always be put into gRPC metadata again: every text that header
/// extraction yields is a valid ASCII metadata value.
pub proof fn lemma_extracted_header_text_is_metadata_value(bytes: Seq<u8>)
    requires
        forall|i: int| 0 <= i < bytes.len() ==> visible_ascii(#[trigger] bytes[i]),
    ensures
        metadata_value_accepts(ascii_chars(bytes)),
{
    lemma_visible_ascii_is_utf8(bytes);
    assert forall|i: int| 0 <= i < encode_utf8(ascii_chars(bytes)).len() implies metadata_value_byte(
        #[trigger] encode_utf8(ascii_chars(bytes))[i],
    ) by {
        assert(visible_ascii(bytes[i]));
    }
}

proof fn lemma_hex_digit_injective(a: u8, b: u8)
    requires
        a < 16,
        b < 16,
        hex_digit(a) == hex_digit(b),
    ensures
        a == b,
{
}

/// Distinct trace ids are recorded under distinct texts.
pub proof fn lemma_trace_id_text_injective(a: Seq<u8>, b: Seq<u8>)
    requires
        a.len() == b.len(),
        hex_text(a) == hex_text(b),
    ensures
        a == b,
    decreases a.len(),
{
    if a.len() > 0 {
        let ha = seq![hex_digit(a[0] / 16), hex_digit(a[0] % 16)];
        let hb = seq![hex_digit(b[0] / 16), hex_digit(b[0] % 16)];
        assert(hex_text(a) == ha + hex_text(a.drop_first()));
        assert(hex_text(b) == hb + hex_text(b.drop_first()));
        assert((ha + hex_text(a.drop_first()))[0] == ha[0]);
        assert((hb + hex_text(b.drop_first()))[0] == hb[0]);
        assert((ha + hex_text(a.drop_first()))[1] == ha[1]);
        assert((hb + hex_text(b.drop_first()))[1] == hb[1]);
        lemma_hex_digit_injective(a[0] / 16, b[0] / 16);
        lemma_hex_digit_injective(a[0] % 16, b[0] % 16);
        assert(a[0] == b[0]);
        assert(hex_text(a.drop_first()) =~= hex_text(a).skip(2));
        assert(hex_text(b.drop_first()) =~= hex_text(b).skip(2));
        lemma_trace_id_text_injective(a.drop_first(), b.drop_first());
        assert forall|i: int| 0 <= i < a.len() implies a[i] == b[i] by {
            if i > 0 {
                assert(a[i] == a.drop_first()[i - 1]);
                assert(b[i] == b.drop_first()[i - 1]);
            }
        }
        assert(a =~= b);
    } else {
        assert(a =~= b);
    }
}

/// The greeting for a name is `Hello, ` followed by the whole name followed
/// by `!`: eight characters longer than the name, with the name, unchanged,
/// from the eighth character on.
pub proof fn lemma_greeting_holds_whole_name(name: Seq<char>)
    ensures
        greeting(name).len() == name.len() + 8,
        greeting(name).subrange(0, 7) == seq!['H', 'e', 'l', 'l', 'o', ',', ' '],
        greeting(name).subrange(7, 7 + name.len() as int) == name,
        greeting(name)[7 + name.len() as int] == '!',
{
    assert(greeting(name).subrange(0, 7) =~= seq!['H', 'e', 'l', 'l', 'o', ',', ' ']);
    assert(greeting(name).subrange(7, 7 + name.len() as int) =~= name);
}

/// The greeter answers a non-empty name, whatever its characters, with
/// `Hello, {name}!`, and only the empty name with
/// `Hello, unknown stranger!`.
pub proof fn lemma_greeter_reply(name: Seq<char>)
    ensures
        name.len() > 0 ==> reply_text(name) == seq!['H', 'e', 'l', 'l', 'o', ',', ' '] + name + seq!['!'],
        name.len() == 0 ==> reply_text(name) == seq![
            'H', 'e', 'l', 'l', 'o', ',', ' ', 'u', 'n', 'k', 'n', 'o', 'w', 'n', ' ', 's', 't',
            'r', 'a', 'n', 'g', 'e', 'r', '!',
        ],
{
    if name.len() == 0 {
        assert(reply_text(name) =~= seq![
            'H', 'e', 'l', 'l', 'o', ',', ' ', 'u', 'n', 'k', 'n', 'o', 'w', 'n', ' ', 's', 't',
            'r', 'a', 'n', 'g', 'e', 'r', '!',
        ]);
    }
}

/// The HTTP server answers a given name, whatever its characters (the
/// empty one too), with `Hello, {name}!`, and a missing name with
/// `Hello, unknown stranger!`.
pub proof fn lemma_local_reply(name: Option<Seq<char>>)
    ensures
        name matches Some(n) ==> local_hello_text(name) == seq!['H', 'e', 'l', 'l', 'o', ',', ' '] + n
            + seq!['!'],
        name is None ==> local_hello_text(name) == seq![
            'H', 'e', 'l', 'l', 'o', ',', ' ', 'u', 'n', 'k', 'n', 'o', 'w', 'n', ' ', 's', 't',
            'r', 'a', 'n', 'g', 'e', 'r', '!',
        ],
{
    if name is None {
        assert(local_hello_text(name) =~= seq![
            'H', 'e', 'l', 'l', 'o', ',', ' ', 'u', 'n', 'k', 'n', 'o', 'w', 'n', ' ', 's', 't',
            'r', 'a', 'n', 'g', 'e', 'r', '!',
        ]);
    }
}

/// The text of a trace id holds, for each byte in order, the lowercase
/// hexadecimal digits (`0`-`9`, then `a`-`f`) of its high and its low four
/// bits: the id read as a big-endian number in lowercase hexadecimal.
pub proof fn lemma_trace_id_text_digits(bytes: Seq<u8>)
    ensures
        hex_text(bytes).len() == 2 * bytes.len(),
        forall|i: int|
            #![trigger bytes[i]]
            0 <= i < bytes.len() ==> {
                let h = bytes[i] / 16;
                let l = bytes[i] % 16;
                &&& hex_text(bytes)[2 * i] == (if h < 10 {
                    (48 + h) as char
                } else {
                    (87 + h) as char
                })
                &&& hex_text(bytes)[2 * i + 1] == (if l < 10 {
                    (48 + l) as char
                } else {
                    (87 + l) as char
                })
            },
    decreases bytes.len(),
{
    if bytes.len() > 0 {
        let rest = bytes.drop_first();
        lemma_trace_id_text_digits(rest);
        let head = seq![hex_digit(bytes[0] / 16), hex_digit(bytes[0] % 16)];
        assert(hex_text(bytes) == head + hex_text(rest));
        assert forall|i: int| #![trigger bytes[i]] 0 <= i < bytes.len() implies {
            let h = bytes[i] / 16;
            let l = bytes[i] % 16;
            &&& hex_text(bytes)[2 * i] == (if h < 10 {
                (48 + h) as char
            } else {
                (87 + h) as char
            })
            &&& hex_text(bytes)[2 * i + 1] == (if l < 10 {
                (48 + l) as char
            } else {
                (87 + l) as char
            })
        } by {
            if i > 0 {
                assert(bytes[i] == rest[i - 1]);
                assert(hex_text(bytes)[2 * i] == hex_text(rest)[2 * (i - 1)]);
                assert(hex_text(bytes)[2 * i + 1] == hex_text(rest)[2 * (i - 1) + 1]);
            } else {
                assert(hex_text(bytes)[0] == head[0]);
                assert(hex_text(bytes)[1] == head[1]);
            }
        }
    }
}

/// For a valid key that is no binary key, a trace context entry is made
/// exactly when every byte of the value's UTF-8 encoding is at least 32 and
/// not 127, or a tab (the bytes tonic accepts in an ASCII metadata value),
/// whatever else the value holds; the entry then holds the value's bytes.
pub proof fn lemma_metadata_entry_value_rule(
    key: Seq<char>,
    value: Seq<char>,
    res: Result<crate::grpc_client::MetadataEntry, crate::grpc_client::InjectError>,
)
    requires
        metadata_entry_outcome(key, value, res),
        header_name_ok(encode_utf8(key)),
    ensures
        res is Ok <==> (forall|i: int|
            0 <= i < encode_utf8(value).len() ==> ({
                let b = #[trigger] encode_utf8(value)[i];
                (b >= 32 && b != 127) || b == 9
            })),
        res matches Ok(entry) ==> entry.value.bytes() == encode_utf8(value),
{
    assert(metadata_value_accepts(value) <==> (forall|i: int|
        0 <= i < encode_utf8(value).len() ==> ({
            let b = #[trigger] encode_utf8(value)[i];
            (b >= 32 && b != 127) || b == 9
        })));
}

} // verus!
