//! The text under which a request's trace id is recorded: the 128-bit id
//! as 32 lowercase hexadecimal digits, most significant first.

use crate::text::push_char;
use vstd::prelude::*;

verus! {

/// The lowercase hexadecimal digit of `n`, for `n < 16`.
pub open spec fn hex_digit(n: u8) -> char
    recommends
        n < 16,
{
    if n < 10 {
        (48 + n) as char
    } else {
        (87 + n) as char
    }
}

/// Two lowercase hexadecimal digits per byte, in order.
pub open spec fn hex_text(bytes: Seq<u8>) -> Seq<char>
    decreases bytes.len(),
{
    if bytes.len() == 0 {
        Seq::empty()
    } else {
        seq![hex_digit(bytes[0] / 16), hex_digit(bytes[0] % 16)] + hex_text(bytes.drop_first())
    }
}

/// Every character of `hex_text(bytes)` is a lowercase hexadecimal digit,
/// and there are two per byte.
pub proof fn lemma_hex_text_shape(bytes: Seq<u8>)
    ensures
        hex_text(bytes).len() == 2 * bytes.len(),
        forall|i: int|
            0 <= i < hex_text(bytes).len() ==> {
                let c = #[trigger] hex_text(bytes)[i];
                ('0' <= c <= '9') || ('a' <= c <= 'f')
            },
    decreases bytes.len(),
{
    if bytes.len() > 0 {
        lemma_hex_text_shape(bytes.drop_first());
    }
}

fn digit(n: u8) -> (c: char)
    requires
        n < 16,
    ensures
        c == hex_digit(n),
{
    if n < 10 {
        (48u8 + n) as char
    } else {
        (87u8 + n) as char
    }
}

/// The text of a trace id given by its 16 big-endian bytes: 32 lowercase
/// hexadecimal digits.
pub fn trace_id_text(id: [u8; 16]) -> (res: String)
    ensures
        res@ == hex_text(id@),
        res@.len() == 32,
{
    let mut res = String::new();
    let mut i: usize = 0;
    assert(id@.skip(0) =~= id@);
    while i < 16
        invariant
            0 <= i <= 16,
            id@.len() == 16,
            hex_text(id@) == res@ + hex_text(id@.skip(i as int)),
        decreases 16 - i,
    {
        let b = id[i];
        assert(id@.skip(i as int).drop_first() =~= id@.skip(i + 1));
        assert(id@.skip(i as int)[0] == b);
        push_char(&mut res, digit(b / 16));
        push_char(&mut res, digit(b % 16));
        i = i + 1;
        assert(hex_text(id@) =~= res@ + hex_text(id@.skip(i as int)));
    }
    assert(id@.skip(16) =~= Seq::<u8>::empty());
    proof {
        lemma_hex_text_shape(id@);
    }
    assert(res@ =~= hex_text(id@));
    res
}

} // verus!
