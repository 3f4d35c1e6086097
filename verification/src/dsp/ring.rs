//! Index arithmetic of the circular buffers behind the delay line, the
//! reverb, the cabinet convolver and the granular pitch shifter.

use vstd::prelude::*;
use vstd::math::{max, min};

verus! {

/// The position after `pos` in a ring of `len` slots.
pub fn step_forward(pos: usize, len: usize) -> (r: usize)
    requires
        pos < len,
    ensures
        r as int == (pos + 1) % (len as int),
        r < len,
{
    if pos + 1 >= len {
        proof { vstd::arithmetic::div_mod::lemma_fundamental_div_mod_converse(pos + 1, len as int, 1, 0); }
        0
    } else {
        proof { vstd::arithmetic::div_mod::lemma_small_mod((pos + 1) as nat, len as nat); }
        pos + 1
    }
}

/// The position before `pos` in a ring of `len` slots.
pub fn step_back(pos: usize, len: usize) -> (r: usize)
    requires
        pos < len,
    ensures
        r as int == (pos - 1) % (len as int),
        r < len,
{
    if pos == 0 {
        proof { vstd::arithmetic::div_mod::lemma_fundamental_div_mod_converse(-1, len as int, -1, len - 1); }
        len - 1
    } else {
        proof { vstd::arithmetic::div_mod::lemma_small_mod((pos - 1) as nat, len as nat); }
        pos - 1
    }
}

/// The position `delay` slots behind `pos` in a ring of `len` slots.
pub fn read_behind(pos: usize, delay: usize, len: usize) -> (r: usize)
    requires
        pos < len,
        delay <= len,
    ensures
        r as int == (pos - delay) % (len as int),
        r < len,
{
    if pos >= delay {
        proof { vstd::arithmetic::div_mod::lemma_small_mod((pos - delay) as nat, len as nat); }
        pos - delay
    } else {
        let r: usize = len - (delay - pos);
        proof {
            vstd::arithmetic::div_mod::lemma_fundamental_div_mod_converse(pos - delay, len as int, -1, r as int);
        }
        r
    }
}

/// The delay line's delay in samples: at most one less than the line's
/// length, and at least one.
pub fn clamp_delay(samples: usize, len: usize) -> (r: usize)
    requires
        len >= 1,
    ensures
        r as int == max(min(samples as int, len - 1), 1),
{
    let m: usize = if samples < len - 1 { samples } else { len - 1 };
    if m > 1 { m } else { 1 }
}

/// The reverb's echo distance in samples: at least 1000, then at most one
/// less than the buffer's length.
pub fn clamp_decay(samples: usize, len: usize) -> (r: usize)
    requires
        len >= 1,
    ensures
        r as int == min(max(samples as int, 1000), len - 1),
{
    let m: usize = if samples > 1000 { samples } else { 1000 };
    if m < len - 1 { m } else { len - 1 }
}

/// `x`, but no further than the last position of a buffer of `len` slots
/// (position 0 for an empty buffer).
pub fn clamp_to_last(x: usize, len: usize) -> (r: usize)
    ensures
        r as int == min(x as int, max(len - 1, 0)),
{
    let last: usize = if len == 0 { 0 } else { len - 1 };
    if x < last { x } else { last }
}


/// Stepping forward and then back in a ring returns to the start, and so
/// does stepping back and then forward.
pub proof fn law_step_round_trip(pos: int, len: int)
    requires
        0 <= pos < len,
    ensures
        ((pos + 1) % len - 1) % len == pos,
        ((pos - 1) % len + 1) % len == pos,
{
    vstd::arithmetic::div_mod::lemma_small_mod(pos as nat, len as nat);
    if pos + 1 == len {
        vstd::arithmetic::div_mod::lemma_fundamental_div_mod_converse(pos + 1, len, 1, 0);
        vstd::arithmetic::div_mod::lemma_fundamental_div_mod_converse(-1, len, -1, len - 1);
    } else {
        vstd::arithmetic::div_mod::lemma_small_mod((pos + 1) as nat, len as nat);
    }
    if pos == 0 {
        vstd::arithmetic::div_mod::lemma_fundamental_div_mod_converse(-1, len, -1, len - 1);
        vstd::arithmetic::div_mod::lemma_fundamental_div_mod_converse(len, len, 1, 0);
    } else {
        vstd::arithmetic::div_mod::lemma_small_mod((pos - 1) as nat, len as nat);
    }
}

} // verus!
