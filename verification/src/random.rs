//! The library's sources of chance.

use crate::text::push_char;
use rand::distributions::Alphanumeric;
use rand::seq::SliceRandom;
use rand::Rng;
use vstd::prelude::*;

verus! {

/// Whether `b` is an ASCII letter or digit.
pub open spec fn is_alphanumeric_byte(b: u8) -> bool {
    ||| 0x30 <= b <= 0x39
    ||| 0x41 <= b <= 0x5a
    ||| 0x61 <= b <= 0x7a
}

/// `Rng::sample` of rand with the `Alphanumeric` distribution, on the thread's
/// generator: one byte out of `A-Z`, `a-z` and `0-9`. Which one is left open.
#[verifier::external_body]
pub(crate) fn sample_alphanumeric() -> (b: u8)
    ensures
        is_alphanumeric_byte(b),
{
    rand::thread_rng().sample(Alphanumeric)
}

/// `Rng::gen_range` of rand on the thread's generator, with the half-open
/// range `low..high`: a value inside that range. The call panics on an empty
/// range, which `requires` leaves out.
#[verifier::external_body]
pub(crate) fn sample_range(low: u8, high: u8) -> (v: u8)
    requires
        low < high,
    ensures
        low <= v < high,
{
    rand::thread_rng().gen_range(low..high)
}

/// `SliceRandom::choose` of rand on the thread's generator: `None` for an
/// empty slice, else a reference to one of its elements. Which one is left
/// open.
#[verifier::external_body]
pub(crate) fn pick_one<T>(items: &Vec<T>) -> (picked: Option<&T>)
    ensures
        picked is None <==> items@.len() == 0,
        picked matches Some(item) ==> items@.contains(*item),
{
    items.choose(&mut rand::thread_rng())
}

/// Whether every character of `s` is an ASCII letter or digit.
pub open spec fn is_alphanumeric(s: Seq<char>) -> bool {
    forall|i: int| 0 <= i < s.len() ==> is_alphanumeric_byte(#[trigger] s[i] as u8) && (s[i] as u32) < 128
}

/// A text of `len` letters and digits, each drawn at random.
pub fn random_string(len: usize) -> (s: String)
    ensures
        s@.len() == len,
        is_alphanumeric(s@),
{
    let mut s = String::new();
    let mut i: usize = 0;
    while i < len
        invariant
            i <= len,
            s@.len() == i,
            is_alphanumeric(s@),
        decreases len - i,
    {
        let b = sample_alphanumeric();
        push_char(&mut s, b as char);
        i = i + 1;
    }
    s
}

} // verus!
