//! Event-mask helpers for subscribing to XInput2 raw button notifications.
//! An event mask is a run of bytes in which bit `e % 8` of byte `e / 8`
//! stands for the event code `e`.

use vstd::prelude::*;

verus! {

/// Event code of a raw button press.
pub const XI_RAW_BUTTON_PRESS: i32 = 15;

/// Event code of a raw button release.
pub const XI_RAW_BUTTON_RELEASE: i32 = 16;

/// The highest event code of the extension.
pub const XI_LAST_EVENT: i32 = 26;

/// Whether bit `k` of `byte` is set.
pub open spec fn byte_bit(byte: u8, k: u8) -> bool {
    byte & (1u8 << k) != 0
}

/// Whether `mask` selects the event code `event`.
pub open spec fn mask_selects(mask: Seq<u8>, event: int) -> bool {
    0 <= event < 8 * mask.len() && byte_bit(mask[event / 8], (event % 8) as u8)
}

/// Number of bytes an event mask needs so that bit `event` exists: one byte
/// per eight event codes, rounded down, plus one.
#[allow(non_snake_case)]
pub fn XIMaskLen(event: i32) -> (len: i32)
    ensures
        len == event / 8 + 1,
{
    assert((event >> 3) == event / 8) by (bit_vector);
    assert(-0x1000_0000 <= (event >> 3) < 0x1000_0000) by (bit_vector);
    (event >> 3) + 1
}

/// Selects the event code `event` in `mask` and leaves every other code as
/// it was.
pub fn set_mask_bit(mask: &mut Vec<u8>, event: i32)
    requires
        0 <= event < 8 * old(mask).len(),
    ensures
        final(mask).len() == old(mask).len(),
        forall|e: int|
            mask_selects(final(mask)@, e) == (mask_selects(old(mask)@, e) || e == event),
{
    let index: usize = (event / 8) as usize;
    let k: u8 = (event % 8) as u8;
    let before: u8 = mask[index];
    let after: u8 = before | (1u8 << k);
    mask.set(index, after);
    proof {
        assert forall|j: u8| j < 8 implies byte_bit(after, j) == (byte_bit(before, j) || j
            == k) by {
            assert(byte_bit(before | (1u8 << k), j) == (byte_bit(before, j) || j == k))
                by (bit_vector)
                requires
                    j < 8,
                    k < 8,
            ;
        }
        assert forall|e: int|
            mask_selects(mask@, e) == (mask_selects(old(mask)@, e) || e == event) by {
            if 0 <= e < 8 * mask.len() {
                let j = (e % 8) as u8;
                assert(j < 8);
                if e / 8 == index {
                    assert(mask@[e / 8] == after);
                    assert(j == k <==> e == event);
                } else {
                    assert(mask@[e / 8] == old(mask)@[e / 8]);
                }
            }
        }
    }
}

/// The event mask that selects raw button presses and raw button releases
/// and nothing else, sized for every event code of the extension.
pub fn raw_button_event_mask() -> (mask: Vec<u8>)
    ensures
        mask.len() == XI_LAST_EVENT / 8 + 1,
        forall|e: int|
            mask_selects(mask@, e) == (e == XI_RAW_BUTTON_PRESS || e == XI_RAW_BUTTON_RELEASE),
{
    let mask_len: i32 = XIMaskLen(XI_LAST_EVENT);
    let mut mask: Vec<u8> = Vec::new();
    let mut i: i32 = 0;
    while i < mask_len
        invariant
            0 <= i <= mask_len,
            mask.len() == i,
            forall|k: int| 0 <= k < i ==> mask@[k] == 0u8,
        decreases mask_len - i,
    {
        mask.push(0u8);
        i += 1;
    }
    proof {
        assert forall|e: int| !mask_selects(mask@, e) by {
            if 0 <= e < 8 * mask.len() {
                let j = (e % 8) as u8;
                assert(!byte_bit(0u8, j)) by (bit_vector);
            }
        }
    }
    set_mask_bit(&mut mask, XI_RAW_BUTTON_PRESS);
    set_mask_bit(&mut mask, XI_RAW_BUTTON_RELEASE);
    mask
}

} // verus!
