//! The counting sensor: each snapshot advances a counter and reports it
//! beside two oscillating samples that the host derives from its clock.

use vstd::prelude::*;
use crate::config::{ComponentConfig, Dependency};
use crate::error::SensorError;
use crate::record::{outcome, reply, Entries, ReadingsResult, Record, StructuredRecord};
use crate::value::{Number, Value, ValueView};

verus! {

/// The sensor that counts its snapshots.
#[derive(Debug, PartialEq, Eq)]
pub struct RandoSensors {
    inner: u64,
}

impl View for RandoSensors {
    type V = nat;

    /// The number of snapshots taken so far.
    closed spec fn view(&self) -> nat {
        self.inner as nat
    }
}

/// The counter after one more snapshot.
pub open spec fn counted(count: nat) -> nat {
    count + 1
}

/// The counter after `snapshots` more snapshots.
pub open spec fn counted_times(count: nat, snapshots: nat) -> nat
    decreases snapshots,
{
    if snapshots == 0 {
        count
    } else {
        counted(counted_times(count, (snapshots - 1) as nat))
    }
}

/// The readings of a snapshot: the slow sample, the fast sample and the
/// counter, in this order.
pub open spec fn wave_readings(sin1: Number, sin2: Number, count: nat) -> Entries {
    seq![
        ("sin1"@, ValueView::Number(sin1)),
        ("sin2"@, ValueView::Number(sin2)),
        ("inner"@, ValueView::Number(Number::Integer(count as i128))),
    ]
}

/// The three keys of the readings differ from one another.
proof fn wave_keys_differ()
    ensures
        "sin1"@ != "sin2"@,
        "sin1"@ != "inner"@,
        "sin2"@ != "inner"@,
{
    reveal_strlit("sin1");
    reveal_strlit("sin2");
    reveal_strlit("inner");
    assert("sin1"@.len() == 4);
    assert("sin2"@.len() == 4);
    assert("inner"@.len() == 5);
    assert("sin1"@[3] == '1');
    assert("sin2"@[3] == '2');
}

/// The counter counts the snapshots: after `snapshots` of them a sensor
/// that started at `start` stands at `start + snapshots`, so a sensor that
/// was just built reports 1 at its first snapshot and `snapshots` at its
/// snapshot of that number.
pub proof fn counter_counts_snapshots(start: nat, snapshots: nat, sin1: Number, sin2: Number)
    ensures
        counted_times(start, snapshots) == start + snapshots,
        counted_times(0, snapshots) == snapshots,
        wave_readings(sin1, sin2, counted(counted_times(0, snapshots)))[2] == (
            "inner"@,
            ValueView::Number(Number::Integer((snapshots + 1) as i128)),
        ),
    decreases snapshots,
{
    if snapshots > 0 {
        counter_counts_snapshots(start, (snapshots - 1) as nat, sin1, sin2);
        counter_counts_snapshots(0, (snapshots - 1) as nat, sin1, sin2);
    }
}

impl RandoSensors {
    /// Builds the sensor with its counter at zero. It reads no attribute
    /// and needs no dependency, so it is built from every configuration.
    pub fn from_config(_cfg: &ComponentConfig, _deps: Vec<Dependency>) -> (built: Result<
        RandoSensors,
        SensorError,
    >)
        ensures
            built matches Ok(sensor) && sensor@ == 0,
    {
        Ok(RandoSensors { inner: 0 })
    }

    /// The number of snapshots taken so far.
    pub fn inner(&self) -> (count: u64)
        ensures
            count == self@,
    {
        self.inner
    }

    /// Takes a snapshot: advances the counter by one and reports the two
    /// samples `sin1` and `sin2` with the new counter.
    ///
    /// The counter must not have reached the largest 64-bit value.
    pub fn get_generic_readings(&mut self, sin1: Number, sin2: Number) -> (result: Result<
        ReadingsResult,
        SensorError,
    >)
        requires
            old(self)@ < u64::MAX,
        ensures
            final(self)@ == counted(old(self)@),
            outcome(result) == Ok::<Entries, SensorError>(
                wave_readings(sin1, sin2, counted(old(self)@)),
            ),
    {
        self.inner = self.inner + 1;
        let mut readings = Record::new();
        proof {
            wave_keys_differ();
        }
        readings.insert("sin1", Value::Number(sin1));
        readings.insert("sin2", Value::Number(sin2));
        readings.insert("inner", Value::Number(Number::Integer(self.inner as i128)));
        assert(readings@ =~= wave_readings(sin1, sin2, counted(old(self)@)));
        Ok(readings)
    }

    /// The summary of the sensor's state: a record without entries.
    pub fn get_status(&self) -> (status: Result<Option<StructuredRecord>, SensorError>)
        ensures
            reply(status) == Ok::<Option<Entries>, SensorError>(Some(Entries::empty())),
    {
        Ok(Some(Record::new()))
    }
}

} // verus!
