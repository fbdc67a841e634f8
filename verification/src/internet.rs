//! The reachability sensor: each snapshot records whether the host's probe
//! of the network got through, and for how many snapshots in a row it has
//! not.

use vstd::prelude::*;
use crate::config::{ComponentConfig, Dependency};
use crate::error::SensorError;
use crate::record::{outcome, reply, Entries, ReadingsResult, Record, StructuredRecord};
use crate::value::{Number, Value, ValueView};

verus! {

/// The sensor that watches whether the network can be reached.
#[derive(Debug, PartialEq, Eq)]
pub struct InternetSensor {
    inet: u32,
    online: bool,
}

/// What the reachability sensor remembers.
pub struct Reachability {
    /// The number of probes in a row that have failed.
    pub failures: nat,
    /// Whether the last probe got through.
    pub online: bool,
}

impl View for InternetSensor {
    type V = Reachability;

    closed spec fn view(&self) -> Reachability {
        Reachability { failures: self.inet as nat, online: self.online }
    }
}

/// What the sensor remembers after a probe: one that got through clears the
/// failures, one that did not adds one to them.
pub open spec fn probed(before: Reachability, connected: bool) -> Reachability {
    if connected {
        Reachability { failures: 0, online: true }
    } else {
        Reachability { failures: before.failures + 1, online: false }
    }
}

/// What the sensor remembers after the probes `outcomes`, the first of them
/// made first.
pub open spec fn probed_all(before: Reachability, outcomes: Seq<bool>) -> Reachability
    decreases outcomes.len(),
{
    if outcomes.len() == 0 {
        before
    } else {
        probed(probed_all(before, outcomes.drop_last()), outcomes.last())
    }
}

/// The readings that show `state`: whether the network is reachable, and
/// the failures in a row.
pub open spec fn reachability_readings(state: Reachability) -> Entries {
    seq![
        ("online"@, ValueView::Bool(state.online)),
        ("inet"@, ValueView::Number(Number::Integer(state.failures as i128))),
    ]
}

/// The two keys of the readings differ.
proof fn reachability_keys_differ()
    ensures
        "online"@ != "inet"@,
{
    reveal_strlit("online");
    reveal_strlit("inet");
    assert("online"@.len() == 6);
    assert("inet"@.len() == 4);
}

/// The outcomes of `length` probes in a row that all fail.
pub open spec fn failed_run(length: nat) -> Seq<bool> {
    Seq::new(length, |i: int| false)
}

/// After `failed` probes that all fail, the failures in a row have grown by
/// `failed` and the sensor is offline, if a probe was made at all.
pub proof fn failures_accumulate(before: Reachability, failed: nat)
    ensures
        probed_all(before, failed_run(failed)).failures == before.failures + failed,
        failed > 0 ==> !probed_all(before, failed_run(failed)).online,
    decreases failed,
{
    if failed > 0 {
        failures_accumulate(before, (failed - 1) as nat);
        assert(failed_run(failed).drop_last() =~= failed_run((failed - 1) as nat));
    }
}

/// A run of failed probes counts up one by one, and the first probe that
/// gets through clears the count: during a run of `failed` failures the
/// count after each probe is one more than after the probe before, so a
/// sensor that had counted none reads 1, 2, .. up to `failed`; the probe
/// that gets through next leaves the sensor online with no failure.
pub proof fn success_clears_failures(before: Reachability, failed: nat)
    ensures
        forall|m: nat|
            m <= failed ==> (#[trigger] probed_all(before, failed_run(m))).failures
                == before.failures + m,
        forall|m: nat|
            m < failed ==> (#[trigger] probed_all(before, failed_run(m))).failures + 1
                == probed_all(before, failed_run(m + 1)).failures,
        probed_all(before, failed_run(failed).push(true)) == (Reachability {
            failures: 0,
            online: true,
        }),
        reachability_readings(probed_all(before, failed_run(failed).push(true))) =~= seq![
            ("online"@, ValueView::Bool(true)),
            ("inet"@, ValueView::Number(Number::Integer(0))),
        ],
{
    assert forall|m: nat| m <= failed implies (#[trigger] probed_all(
        before,
        failed_run(m),
    )).failures == before.failures + m by {
        failures_accumulate(before, m);
    }
    assert forall|m: nat| m < failed implies (#[trigger] probed_all(
        before,
        failed_run(m),
    )).failures + 1 == probed_all(before, failed_run(m + 1)).failures by {
        failures_accumulate(before, m);
        failures_accumulate(before, m + 1);
    }
    let run = failed_run(failed).push(true);
    assert(run.drop_last() =~= failed_run(failed));
    assert(run.last());
}

impl InternetSensor {
    /// Builds the sensor: offline, with no failure counted. It reads no
    /// attribute and needs no dependency, so it is built from every
    /// configuration.
    pub fn from_config(_cfg: &ComponentConfig, _deps: Vec<Dependency>) -> (built: Result<
        InternetSensor,
        SensorError,
    >)
        ensures
            built matches Ok(sensor) && sensor@ == (Reachability { failures: 0, online: false }),
    {
        Ok(InternetSensor { inet: 0, online: false })
    }

    /// The number of probes in a row that have failed.
    pub fn inet(&self) -> (failures: u32)
        ensures
            failures == self@.failures,
    {
        self.inet
    }

    /// Whether the last probe got through.
    pub fn online(&self) -> (online: bool)
        ensures
            online == self@.online,
    {
        self.online
    }

    /// Takes a snapshot from the outcome of the host's probe: records it
    /// and reports what the sensor now remembers. A probe that fails is
    /// reported in the readings and is no error.
    ///
    /// Where the probe failed, the failures in a row must not have reached
    /// the largest 32-bit value.
    pub fn get_generic_readings(&mut self, connected: bool) -> (result: Result<
        ReadingsResult,
        SensorError,
    >)
        requires
            !connected ==> old(self)@.failures < u32::MAX,
        ensures
            final(self)@ == probed(old(self)@, connected),
            outcome(result) == Ok::<Entries, SensorError>(
                reachability_readings(probed(old(self)@, connected)),
            ),
    {
        if connected {
            self.inet = 0;
            self.online = true;
        } else {
            self.inet = self.inet + 1;
            self.online = false;
        }
        let mut readings = Record::new();
        proof {
            reachability_keys_differ();
        }
        readings.insert("online", Value::Bool(self.online));
        readings.insert("inet", Value::Number(Number::Integer(self.inet as i128)));
        assert(readings@ =~= reachability_readings(probed(old(self)@, connected)));
        Ok(readings)
    }

    /// The summary of the sensor's state: a record without entries.
    pub fn get_status(&self) -> (status: Result<Option<StructuredRecord>, SensorError>)
        ensures
            reply(status) == Ok::<Option<Entries>, SensorError>(Some(Entries::empty())),
    {
        Ok(Some(Record::new()))
    }
}

} // verus!
