//! The diagnostic sensor: it reports the time and the free memory of the
//! platform, and takes the one command that asks the host to abort.

use vstd::prelude::*;
use crate::config::{ComponentConfig, Dependency};
use crate::error::SensorError;
use crate::host::{clock_now, since_epoch};
use crate::record::{has_key, outcome, payload, reply, Entries, ReadingsResult, Record, StructuredRecord};
use crate::value::{Number, Value, ValueView};

verus! {

/// What a platform measures for one snapshot of the diagnostic sensor.
#[derive(Clone, Copy, Debug, PartialEq, Eq)]
pub struct Diagnostics {
    /// The reading of the platform's clock.
    pub timestamp: u64,
    /// The free internal memory in bytes.
    pub internal: u64,
    /// The free external memory in bytes.
    pub spiram: u64,
    /// The least free stack seen so far, where the platform measures it.
    pub stack: Option<u64>,
}

/// The sensor that reports the platform's diagnostics. It has no state.
#[derive(Clone, Copy, Debug, PartialEq, Eq)]
pub struct TimestampSensor;

/// The readings that show `measured`: the four keys in this order, the
/// three counts as whole numbers, and the stack as a whole number or, where
/// it was not measured, as null.
pub open spec fn diagnostic_readings(measured: Diagnostics) -> Entries {
    seq![
        ("timestamp"@, ValueView::Number(Number::Integer(measured.timestamp as i128))),
        ("internal"@, ValueView::Number(Number::Integer(measured.internal as i128))),
        ("spiram"@, ValueView::Number(Number::Integer(measured.spiram as i128))),
        (
            "stack"@,
            match measured.stack {
                Some(mark) => ValueView::Number(Number::Integer(mark as i128)),
                None => ValueView::Null,
            },
        ),
    ]
}

/// The outcome of a snapshot on a host: with the seconds since the epoch and
/// the free memory and swap space, the readings that show them, without a
/// stack mark; without the seconds, the fault of the clock.
pub open spec fn host_readings(seconds: Option<u64>, free_memory: u64, free_swap: u64) -> Result<
    Entries,
    SensorError,
> {
    match seconds {
        Some(s) => Ok(
            diagnostic_readings(
                Diagnostics { timestamp: s, internal: free_memory, spiram: free_swap, stack: None },
            ),
        ),
        None => Err(SensorError::ClockBeforeEpoch),
    }
}

/// Whether `command` asks for the abort: it is present and has the key
/// `panic`, whatever the key is bound to.
pub open spec fn abort_requested(command: Option<Entries>) -> bool {
    command matches Some(fields) && has_key(fields, "panic"@)
}

/// Only the key `panic` asks for the abort: an absent command, a command
/// without fields and a command none of whose fields has that key do not
/// ask for it, and a command with that key does.
pub proof fn only_the_trigger_aborts(fields: Entries)
    ensures
        !abort_requested(None),
        !abort_requested(Some(Entries::empty())),
        abort_requested(Some(fields)) <==> has_key(fields, "panic"@),
        (forall|i: int| 0 <= i < fields.len() ==> (#[trigger] fields[i]).0 != "panic"@)
            ==> !abort_requested(Some(fields)),
{
}

/// The four keys of the diagnostic readings differ from one another.
proof fn diagnostic_keys_differ()
    ensures
        "timestamp"@ != "internal"@,
        "timestamp"@ != "spiram"@,
        "timestamp"@ != "stack"@,
        "internal"@ != "spiram"@,
        "internal"@ != "stack"@,
        "spiram"@ != "stack"@,
{
    reveal_strlit("timestamp");
    reveal_strlit("internal");
    reveal_strlit("spiram");
    reveal_strlit("stack");
    assert("timestamp"@.len() == 9);
    assert("internal"@.len() == 8);
    assert("spiram"@.len() == 6);
    assert("stack"@.len() == 5);
}

impl TimestampSensor {
    /// Builds the sensor. It reads no attribute and needs no dependency, so
    /// it is built from every configuration.
    pub fn from_config(_cfg: &ComponentConfig, _deps: Vec<Dependency>) -> (built: Result<
        TimestampSensor,
        SensorError,
    >)
        ensures
            built is Ok,
    {
        Ok(TimestampSensor)
    }

    /// The readings that show what a platform measured.
    pub fn readings_from(measured: Diagnostics) -> (readings: ReadingsResult)
        ensures
            readings@ == diagnostic_readings(measured),
    {
        let stack = match measured.stack {
            Some(mark) => Value::Number(Number::Integer(mark as i128)),
            None => Value::Null,
        };
        let mut readings = Record::new();
        proof {
            diagnostic_keys_differ();
        }
        readings.insert("timestamp", Value::Number(Number::Integer(measured.timestamp as i128)));
        readings.insert("internal", Value::Number(Number::Integer(measured.internal as i128)));
        readings.insert("spiram", Value::Number(Number::Integer(measured.spiram as i128)));
        readings.insert("stack", stack);
        assert(readings@ =~= diagnostic_readings(measured));
        readings
    }

    /// The snapshot of a host whose clock and memory statistics were read.
    pub fn readings_on_host(seconds: Option<u64>, free_memory: u64, free_swap: u64) -> (result: Result<
        ReadingsResult,
        SensorError,
    >)
        ensures
            outcome(result) == host_readings(seconds, free_memory, free_swap),
    {
        match seconds {
            Some(s) => Ok(
                Self::readings_from(
                    Diagnostics { timestamp: s, internal: free_memory, spiram: free_swap, stack: None },
                ),
            ),
            None => Err(SensorError::ClockBeforeEpoch),
        }
    }

    /// Takes a snapshot on a host: reads the clock and the memory
    /// statistics and reports them. The sensor stays as it was.
    pub fn get_generic_readings(&mut self) -> (result: Result<ReadingsResult, SensorError>)
        ensures
            *final(self) == *old(self),
            exists|seconds: Option<u64>, free_memory: u64, free_swap: u64|
                outcome(result) == #[trigger] host_readings(seconds, free_memory, free_swap),
    {
        let now = clock_now();
        let seconds = match since_epoch(&now) {
            Some(elapsed) => Some(elapsed.as_secs()),
            None => None,
        };
        let system = sysinfo::System::new();
        let free_memory = system.free_memory();
        let free_swap = system.free_swap();
        let result = Self::readings_on_host(seconds, free_memory, free_swap);
        assert(outcome(result) == host_readings(seconds, free_memory, free_swap));
        result
    }

    /// The summary of the sensor's state: a record without entries.
    pub fn get_status(&self) -> (status: Result<Option<StructuredRecord>, SensorError>)
        ensures
            reply(status) == Ok::<Option<Entries>, SensorError>(Some(Entries::empty())),
    {
        Ok(Some(Record::new()))
    }

    /// Whether `command` asks for the abort. A host that gets `true` ends
    /// the process and does not hand the command to [`Self::do_command`].
    pub fn wants_abort(command: &Option<StructuredRecord>) -> (wanted: bool)
        ensures
            wanted == abort_requested(payload(*command)),
    {
        match command {
            Some(fields) => fields.contains_key("panic"),
            None => false,
        }
    }

    /// Takes a command that does not ask for the abort. No such command
    /// does anything: the sensor stays as it was and there is no response.
    pub fn do_command(&mut self, command: Option<StructuredRecord>) -> (response: Result<
        Option<StructuredRecord>,
        SensorError,
    >)
        requires
            !abort_requested(payload(command)),
        ensures
            *final(self) == *old(self),
            response matches Ok(None),
    {
        Ok(None)
    }
}

} // verus!
