//! What a development host supplies to the sensors: the system clock, the
//! memory statistics and a source of random bytes. Nothing in this file is
//! proved; each item states what is taken on trust of the function it calls.

use vstd::prelude::*;

verus! {

/// `std::time::SystemTime`, an instant of the system clock. Nothing is known
/// of what it holds.
#[verifier::external_type_specification]
#[verifier::external_body]
pub struct ExSystemTime(std::time::SystemTime);

/// `sysinfo::System`, the statistics of the machine. Nothing is known of
/// what it holds.
#[verifier::external_type_specification]
#[verifier::external_body]
pub struct ExSystem(sysinfo::System);

/// Calls `std::time::SystemTime::now`. The instant depends on the clock, so
/// nothing is claimed of it.
#[verifier::external_body]
pub(crate) fn clock_now() -> std::time::SystemTime {
    std::time::SystemTime::now()
}

/// Calls `std::time::SystemTime::duration_since` with
/// `std::time::UNIX_EPOCH`: the time that has passed since the epoch, or
/// nothing where the instant lies before it. Which of the two comes back
/// depends on the clock, so nothing is claimed.
#[verifier::external_body]
pub(crate) fn since_epoch(instant: &std::time::SystemTime) -> Option<std::time::Duration> {
    match instant.duration_since(std::time::UNIX_EPOCH) {
        Ok(elapsed) => Some(elapsed),
        Err(_) => None,
    }
}

/// `std::time::Duration::as_secs`: the whole seconds of a duration.
/// Nothing is claimed of the number.
pub assume_specification[ std::time::Duration::as_secs ](elapsed: &std::time::Duration) -> (seconds: u64);

/// `sysinfo::System::new`: a value with nothing loaded. Nothing is claimed
/// of it.
pub assume_specification[ sysinfo::System::new ]() -> (system: sysinfo::System);

/// `sysinfo::System::free_memory`: the free memory in bytes as the value
/// has it. The number depends on the machine, so nothing is claimed of it.
pub assume_specification[ sysinfo::System::free_memory ](system: &sysinfo::System) -> (bytes: u64);

/// `sysinfo::System::free_swap`: the free swap space in bytes as the value
/// has it. The number depends on the machine, so nothing is claimed of it.
pub assume_specification[ sysinfo::System::free_swap ](system: &sysinfo::System) -> (bytes: u64);

/// Calls `rand::random` for one byte of the thread's generator. The byte is
/// random, so nothing is claimed of it.
#[verifier::external_body]
pub(crate) fn random_byte() -> u8 {
    rand::random()
}

} // verus!
