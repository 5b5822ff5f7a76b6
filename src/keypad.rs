//! The host keyboard layout: which key code stands for which of the sixteen keys.
use vstd::prelude::*;

verus! {

/// Key codes of keys 0 to F: the digit row `1 2 3 4`, then `Q W E R`,
/// `A S D F` and `Z X C V`.
pub open spec fn key_codes() -> Seq<u8> {
    seq![49u8, 50, 51, 52, 81, 87, 69, 82, 65, 83, 68, 70, 90, 88, 67, 86]
}

/// The first key whose code is `code`, looking from key `from` on.
pub open spec fn key_of_code(code: u8, from: int) -> Option<int>
    decreases 16 - from,
{
    if from >= 16 {
        None
    } else if key_codes()[from] == code {
        Some(from)
    } else {
        key_of_code(code, from + 1)
    }
}

/// The keypad key for a host key code, compared on its low byte; `None` for a
/// code that stands for no key.
pub fn key_index(code: usize) -> (r: Option<usize>)
    ensures
        r == match key_of_code((code % 256) as u8, 0) {
            Some(k) => Some(k as usize),
            None => None::<usize>,
        },
        r matches Some(k) ==> k < 16 && key_codes()[k as int] == (code % 256) as u8,
{
    let codes: Vec<u8> = vec![49u8, 50, 51, 52, 81, 87, 69, 82, 65, 83, 68, 70, 90, 88, 67, 86];
    assert(codes@ =~= key_codes());
    let c = (code % 256) as u8;
    let mut k: usize = 0;
    while k < 16
        invariant
            k <= 16,
            codes@ == key_codes(),
            c == (code % 256) as u8,
            key_of_code(c, k as int) == key_of_code(c, 0),
        decreases 16 - k,
    {
        if codes[k] == c {
            return Some(k);
        }
        k = k + 1;
    }
    None
}

} // verus!
