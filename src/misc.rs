use vstd::prelude::*;

verus! {

/// First step of the PCG hash: one step of the linear congruential
/// generator, modulo 2^32.
pub open spec fn pcg_state(input: u32) -> u32 {
    ((input as int * 747796405 + 2891336453) % 0x1_0000_0000) as u32
}

/// The PCG hash of `input`: an LCG step followed by a random-rotation
/// permutation of the state.
pub open spec fn pcg_of(input: u32) -> u32 {
    let state = pcg_state(input);
    let shift = ((state >> 28u32) + 4) as u32;
    let word = ((((state >> shift) ^ state) as int * 277803737) % 0x1_0000_0000) as u32;
    (word >> 22u32) ^ word
}

/// Hash function for fast generation of pseudo-random numbers. All
/// arithmetic wraps modulo 2^32.
pub fn pcg_hash(input: u32) -> (r: u32)
    ensures
        r == pcg_of(input),
{
    let state = input.wrapping_mul(747796405).wrapping_add(2891336453);
    assert(state == pcg_state(input));
    let high: u32 = state >> 28u32;
    assert(high <= 15) by (bit_vector)
        requires
            high == state >> 28u32,
    ;
    let word = ((state >> (high + 4)) ^ state).wrapping_mul(277803737);
    (word >> 22u32) ^ word
}

/// Severity of a diagnostic message.
#[derive(Debug, Clone, Copy, PartialEq, Eq, Structural)]
pub enum LogLevel {
    Fatal,
    Error,
    Warning,
    Info,
    Debug,
}

impl LogLevel {
    /// The coloured tag that opens a message of this level on a terminal.
    pub fn label(&self) -> (r: &'static str)
        ensures
            *self == LogLevel::Fatal ==> r@ == "\x1b[1;41m[FATAL]\x1b[0m"@,
            *self == LogLevel::Error ==> r@ == "\x1b[1;31m[ERROR]\x1b[0m"@,
            *self == LogLevel::Warning ==> r@ == "\x1b[1;33m[WARNING]\x1b[0m"@,
            *self == LogLevel::Info ==> r@ == "\x1b[1;32m[INFO]\x1b[0m"@,
            *self == LogLevel::Debug ==> r@ == "\x1b[1;34m[DEBUG]\x1b[0m"@,
    {
        match self {
            LogLevel::Fatal => "\x1b[1;41m[FATAL]\x1b[0m",
            LogLevel::Error => "\x1b[1;31m[ERROR]\x1b[0m",
            LogLevel::Warning => "\x1b[1;33m[WARNING]\x1b[0m",
            LogLevel::Info => "\x1b[1;32m[INFO]\x1b[0m",
            LogLevel::Debug => "\x1b[1;34m[DEBUG]\x1b[0m",
        }
    }
}

} // verus!
