//! Uniform values: small fixed-layout records that are pushed to the GPU and
//! read by the shader stages of every draw of a frame.

use std::time::Duration;
use std::time::Instant;
use vstd::prelude::*;

verus! {

/// `std::time::Instant`, a reading of the monotonic clock. Opaque here: it is
/// only carried from where it was taken to where the elapsed time is asked.
#[verifier::external_type_specification]
#[verifier::external_body]
pub struct ExInstant(std::time::Instant);

/// The number of values a `u32` can take; the millisecond counter wraps here.
pub open spec fn counter_span() -> int {
    0x1_0000_0000
}

/// The counter value that stands for `millis` elapsed milliseconds: the
/// milliseconds reduced to 32 bits.
pub open spec fn millis_to_time(millis: u128) -> u32 {
    (millis as int % counter_span()) as u32
}

/// The four bytes of `x`, least significant first.
pub open spec fn le_bytes(x: u32) -> Seq<u8> {
    seq![
        (x as int % 256) as u8,
        (x as int / 0x100 % 256) as u8,
        (x as int / 0x1_0000 % 256) as u8,
        (x as int / 0x100_0000 % 256) as u8,
    ]
}

/// The four bytes of `x`, most significant first.
pub open spec fn be_bytes(x: u32) -> Seq<u8> {
    seq![
        (x as int / 0x100_0000 % 256) as u8,
        (x as int / 0x1_0000 % 256) as u8,
        (x as int / 0x100 % 256) as u8,
        (x as int % 256) as u8,
    ]
}

/// `bytes` is the image of `x` in memory on some machine: its four bytes in
/// one of the two byte orders.
pub open spec fn is_memory_image(bytes: Seq<u8>, x: u32) -> bool {
    bytes == le_bytes(x) || bytes == be_bytes(x)
}

/// Calls `Instant::elapsed`: the time that has passed since `start` was
/// taken. The result depends on the clock, so nothing is claimed of it.
#[verifier::external_body]
fn elapsed_since(start: Instant) -> (span: Duration) {
    start.elapsed()
}

/// Calls `Duration::as_millis`: the span in whole milliseconds. The span is
/// opaque here, so nothing is claimed of the number.
#[verifier::external_body]
fn whole_millis(span: &Duration) -> (millis: u128) {
    span.as_millis()
}

/// Calls `bytemuck::cast_slice` on a one-element slice of `u32` read as `u8`.
/// The cast reinterprets the slice's memory in place: the result has four
/// bytes, those of `value` in the byte order of the machine. The cast cannot
/// fail, as `u8` has alignment one and size one.
#[verifier::external_body]
fn cast_word(value: u32) -> (bytes: Vec<u8>)
    ensures
        is_memory_image(bytes@, value),
{
    bytemuck::cast_slice::<u32, u8>(&[value]).to_vec()
}

/// Milliseconds since the program started, as the shader sees them.
#[derive(Clone, Copy, Debug)]
pub struct TimeUniform {
    time: u32,
}

impl TimeUniform {
    /// The counter's value.
    pub closed spec fn millis(self) -> u32 {
        self.time
    }

    /// A counter at zero.
    pub fn new() -> (uniform: Self)
        ensures
            uniform.millis() == 0,
    {
        Self { time: 0 }
    }

    /// The counter's value.
    pub fn time(&self) -> (time: u32)
        ensures
            time == self.millis(),
    {
        self.time
    }

    /// Sets the counter to `millis` elapsed milliseconds, reduced to 32 bits.
    pub fn set_elapsed(&mut self, millis: u128)
        ensures
            final(self).millis() == millis_to_time(millis),
    {
        self.time = (millis % 0x1_0000_0000) as u32;
    }

    /// Sets the counter to the milliseconds that have passed since
    /// `start_time`, and returns the reading of the clock that it used.
    pub fn update_time(&mut self, start_time: Instant) -> (millis: u128)
        ensures
            final(self).millis() == millis_to_time(millis),
    {
        let span = elapsed_since(start_time);
        let millis = whole_millis(&span);
        self.set_elapsed(millis);
        millis
    }

    /// The counter as it lies in the GPU buffer: its image in memory.
    pub fn bytes(&self) -> (bytes: Vec<u8>)
        ensures
            bytes@.len() == 4,
            is_memory_image(bytes@, self.millis()),
    {
        cast_word(self.time)
    }
}

/// Within one span of the counter, a later reading of the clock never gives
/// a smaller counter value.
pub proof fn lemma_time_non_decreasing(earlier: u128, later: u128)
    requires
        earlier <= later,
        earlier as int / counter_span() == later as int / counter_span(),
    ensures
        millis_to_time(earlier) <= millis_to_time(later),
{
    let span = counter_span();
    assert(earlier as int == span * (earlier as int / span) + earlier as int % span) by {
        vstd::arithmetic::div_mod::lemma_fundamental_div_mod(earlier as int, span);
    }
    assert(later as int == span * (later as int / span) + later as int % span) by {
        vstd::arithmetic::div_mod::lemma_fundamental_div_mod(later as int, span);
    }
}

/// Until the counter first wraps, it is the elapsed time itself.
pub proof fn lemma_time_exact_before_wrap(millis: u128)
    requires
        millis < counter_span(),
    ensures
        millis_to_time(millis) == millis,
{
}

} // verus!
