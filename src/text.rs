use vstd::prelude::*;

verus! {

/// Screen code of the character with ASCII code `c`: control codes move up
/// by 0x40, printable codes below 0x60 move down by 0x20, the rest stay.
pub open spec fn atascii_spec(c: u8) -> u8 {
    if c <= 0x1f {
        (c + 0x40) as u8
    } else if c <= 0x5f {
        (c - 0x20) as u8
    } else {
        c
    }
}

/// Converts one ASCII byte to its screen code.
pub fn atascii(c: u8) -> (r: u8)
    ensures
        r == atascii_spec(c),
{
    if c <= 0x1f {
        c + 0x40
    } else if c <= 0x5f {
        c - 0x20
    } else {
        c
    }
}

/// Converts every byte of `text` to its screen code.
pub fn atascii_bytes(text: &[u8]) -> (r: Vec<u8>)
    ensures
        r@.len() == text@.len(),
        forall|i: int| 0 <= i < text@.len() ==> #[trigger] r@[i] == atascii_spec(text@[i]),
{
    let mut ret: Vec<u8> = Vec::new();
    let mut i: usize = 0;
    while i < text.len()
        invariant
            i <= text@.len(),
            ret@.len() == i,
            forall|j: int| 0 <= j < i ==> #[trigger] ret@[j] == atascii_spec(text@[j]),
        decreases text@.len() - i,
    {
        ret.push(atascii(text[i]));
        i = i + 1;
    }
    ret
}

} // verus!
