//! Bytes written as lower-case hexadecimal text, two digits to the byte.
use vstd::prelude::*;

verus! {

/// The ASCII code of the digit for a value below sixteen.
pub open spec fn hex_digit(nibble: int) -> u8
    recommends
        0 <= nibble < 16,
{
    if nibble < 10 {
        (48 + nibble) as u8
    } else {
        (87 + nibble) as u8
    }
}

/// The value of a hexadecimal digit given by its ASCII code, if it is one.
/// Capital letters are not digits.
pub open spec fn hex_value(digit: u8) -> Option<int> {
    if 48 <= digit <= 57 {
        Some(digit - 48)
    } else if 97 <= digit <= 102 {
        Some(digit - 87)
    } else {
        None
    }
}

/// The hexadecimal text of some bytes: for each byte its high digit, then its
/// low digit.
pub open spec fn hex_encode(data: Seq<u8>) -> Seq<u8> {
    Seq::new(
        (2 * data.len()) as nat,
        |i: int|
            if i % 2 == 0 {
                hex_digit(data[i / 2] as int / 16)
            } else {
                hex_digit(data[i / 2] as int % 16)
            },
    )
}

/// Whether a text is made of pairs of hexadecimal digits.
pub open spec fn is_hex(text: Seq<u8>) -> bool {
    &&& text.len() % 2 == 0
    &&& forall|i: int| 0 <= i < text.len() ==> (#[trigger] hex_value(text[i])) is Some
}

/// The bytes that a hexadecimal text stands for, if it is one.
pub open spec fn hex_decode(text: Seq<u8>) -> Option<Seq<u8>> {
    if is_hex(text) {
        Some(
            Seq::new(
                (text.len() / 2) as nat,
                |k: int| (hex_value(text[2 * k])->0 * 16 + hex_value(text[2 * k + 1])->0) as u8,
            ),
        )
    } else {
        None
    }
}

/// Decoding undoes encoding.
pub proof fn lemma_hex_round_trip(data: Seq<u8>)
    ensures
        is_hex(hex_encode(data)),
        hex_decode(hex_encode(data)) == Some(data),
{
    let text = hex_encode(data);
    assert forall|i: int| 0 <= i < text.len() implies (#[trigger] hex_value(text[i])) is Some by {
        let byte = data[i / 2] as int;
        assert(0 <= byte / 16 < 16 && 0 <= byte % 16 < 16);
    }
    assert(is_hex(text));
    let back = hex_decode(text)->0;
    assert forall|k: int| 0 <= k < data.len() implies back[k] == data[k] by {
        let byte = data[k] as int;
        assert((2 * k) % 2 == 0 && (2 * k) / 2 == k);
        assert((2 * k + 1) % 2 == 1 && (2 * k + 1) / 2 == k);
        assert(0 <= byte / 16 < 16 && 0 <= byte % 16 < 16);
        assert(hex_value(text[2 * k]) == Some(byte / 16));
        assert(hex_value(text[2 * k + 1]) == Some(byte % 16));
        assert((byte / 16) * 16 + byte % 16 == byte);
    }
    assert(back =~= data);
}

/// Encoding undoes decoding: a text has at most one reading, and only the text
/// that encoding produces has any.
pub proof fn lemma_hex_is_canonical(text: Seq<u8>)
    requires
        is_hex(text),
    ensures
        hex_encode(hex_decode(text)->0) == text,
{
    let data = hex_decode(text)->0;
    let again = hex_encode(data);
    assert forall|i: int| 0 <= i < text.len() implies again[i] == text[i] by {
        let k = i / 2;
        let high = hex_value(text[2 * k])->0;
        let low = hex_value(text[2 * k + 1])->0;
        assert(hex_value(text[2 * k]) is Some && hex_value(text[2 * k + 1]) is Some);
        assert(0 <= high < 16 && 0 <= low < 16);
        assert(data[k] == high * 16 + low);
        assert((high * 16 + low) / 16 == high && (high * 16 + low) % 16 == low);
        assert(hex_value(text[i]) is Some);
    }
    assert(again =~= text);
}

/// Hexadecimal text is plain ASCII and holds no full stop.
pub proof fn lemma_hex_is_plain(text: Seq<u8>)
    requires
        is_hex(text),
    ensures
        forall|i: int| 0 <= i < text.len() ==> #[trigger] text[i] != 46 && text[i] < 128,
{
    assert forall|i: int| 0 <= i < text.len() implies #[trigger] text[i] != 46 && text[i]
        < 128 by {
        assert(hex_value(text[i]) is Some);
    }
}

/// The digit for a value below sixteen.
fn digit_of(nibble: u8) -> (digit: u8)
    requires
        nibble < 16,
    ensures
        digit == hex_digit(nibble as int),
{
    if nibble < 10 {
        48 + nibble
    } else {
        87 + nibble
    }
}

/// The value of a digit, if it is one.
fn value_of(digit: u8) -> (value: Option<u8>)
    ensures
        match value {
            Some(v) => hex_value(digit) == Some(v as int),
            None => hex_value(digit) is None,
        },
{
    if 48 <= digit && digit <= 57 {
        Some(digit - 48)
    } else if 97 <= digit && digit <= 102 {
        Some(digit - 87)
    } else {
        None
    }
}

/// Writes bytes as hexadecimal text.
pub fn encode_hex(data: &[u8]) -> (text: Vec<u8>)
    ensures
        text@ == hex_encode(data@),
{
    let mut text: Vec<u8> = Vec::new();
    let mut i: usize = 0;
    while i < data.len()
        invariant
            i <= data.len(),
            text@.len() == 2 * i,
            forall|j: int| 0 <= j < 2 * i ==> text@[j] == hex_encode(data@)[j],
        decreases data.len() - i,
    {
        let byte = data[i];
        text.push(digit_of(byte / 16));
        text.push(digit_of(byte % 16));
        proof {
            assert((2 * i) % 2 == 0 && (2 * i) / 2 == i);
            assert((2 * i + 1) % 2 == 1 && (2 * i + 1) / 2 == i);
        }
        i += 1;
    }
    assert(text@ =~= hex_encode(data@));
    text
}

/// Reads hexadecimal text back into bytes. A text of odd length, or one that
/// holds anything but the digits `0` to `9` and `a` to `f`, has no reading.
pub fn decode_hex(text: &[u8]) -> (data: Option<Vec<u8>>)
    ensures
        match data {
            Some(bytes) => hex_decode(text@) == Some(bytes@),
            None => hex_decode(text@) is None,
        },
{
    if text.len() % 2 != 0 {
        return None;
    }
    let mut data: Vec<u8> = Vec::new();
    let mut i: usize = 0;
    while i < text.len()
        invariant
            i <= text.len(),
            i % 2 == 0,
            text.len() % 2 == 0,
            data@.len() == i / 2,
            forall|j: int| 0 <= j < i ==> (#[trigger] hex_value(text@[j])) is Some,
            forall|k: int|
                0 <= k < i / 2 ==> #[trigger] data@[k] == hex_value(text@[2 * k])->0 * 16
                    + hex_value(text@[2 * k + 1])->0,
        decreases text.len() - i,
    {
        let high = value_of(text[i]);
        let low = value_of(text[i + 1]);
        match (high, low) {
            (Some(h), Some(l)) => {
                data.push(h * 16 + l);
            },
            _ => {
                assert(!is_hex(text@)) by {
                    if is_hex(text@) {
                        assert(hex_value(text@[i as int]) is Some);
                        assert(hex_value(text@[i + 1]) is Some);
                    }
                }
                return None;
            },
        }
        i += 2;
    }
    assert(is_hex(text@));
    assert(data@ =~= hex_decode(text@)->0);
    Some(data)
}

} // verus!
