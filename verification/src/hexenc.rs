//! Lower-case hexadecimal encoding of byte strings (the `hex::encode` format).
use vstd::prelude::*;
use crate::text::push_char;

verus! {

/// The lower-case hex digit for a value below sixteen.
pub open spec fn hex_digit(v: nat) -> char {
    if v < 10 {
        crate::text::digit_char(v)
    } else if v == 10 { 'a' }
    else if v == 11 { 'b' }
    else if v == 12 { 'c' }
    else if v == 13 { 'd' }
    else if v == 14 { 'e' }
    else { 'f' }
}

/// Two lower-case hex digits per byte, high nibble first.
pub open spec fn hex_lower(bytes: Seq<u8>) -> Seq<char>
    decreases bytes.len(),
{
    if bytes.len() == 0 {
        Seq::empty()
    } else {
        hex_lower(bytes.drop_last()).push(hex_digit((bytes.last() / 16) as nat)).push(
            hex_digit((bytes.last() % 16) as nat),
        )
    }
}

pub open spec fn is_lower_hex_char(c: char) -> bool {
    ('0' <= c && c <= '9') || ('a' <= c && c <= 'f')
}

pub proof fn lemma_hex_lower_len(bytes: Seq<u8>)
    ensures
        hex_lower(bytes).len() == 2 * bytes.len(),
    decreases bytes.len(),
{
    if bytes.len() > 0 {
        lemma_hex_lower_len(bytes.drop_last());
    }
}

pub proof fn lemma_hex_lower_chars(bytes: Seq<u8>)
    ensures
        forall|i: int| 0 <= i < hex_lower(bytes).len() ==> is_lower_hex_char(#[trigger] hex_lower(bytes)[i]),
    decreases bytes.len(),
{
    lemma_hex_lower_len(bytes);
    if bytes.len() > 0 {
        lemma_hex_lower_chars(bytes.drop_last());
        lemma_hex_lower_len(bytes.drop_last());
    }
}

fn hex_digit_exec(v: u8) -> (c: char)
    requires
        v < 16,
    ensures
        c == hex_digit(v as nat),
{
    if v < 10 {
        crate::text::digit(v as u64)
    } else if v == 10 { 'a' }
    else if v == 11 { 'b' }
    else if v == 12 { 'c' }
    else if v == 13 { 'd' }
    else if v == 14 { 'e' }
    else { 'f' }
}

/// `hex::encode`: the lower-case hex form of `bytes`.
pub fn encode_hex(bytes: &[u8]) -> (res: String)
    ensures
        res@ == hex_lower(bytes@),
{
    let mut res = String::new();
    let mut i: usize = 0;
    assert(bytes@.take(0) =~= Seq::<u8>::empty());
    while i < bytes.len()
        invariant
            i <= bytes@.len(),
            res@ == hex_lower(bytes@.take(i as int)),
        decreases bytes@.len() - i,
    {
        let b = bytes[i];
        push_char(&mut res, hex_digit_exec(b / 16));
        push_char(&mut res, hex_digit_exec(b % 16));
        assert(bytes@.take(i + 1).drop_last() =~= bytes@.take(i as int));
        i += 1;
    }
    assert(bytes@.take(bytes@.len() as int) =~= bytes@);
    res
}

} // verus!
