//! A component as a host holds it: one of the sensors, asked through the
//! capabilities that it has.

use vstd::prelude::*;
use crate::config::{ComponentConfig, Dependency};
use crate::error::{Capability, SensorError};
use crate::fat::{configured_len, snapshot_of, FatMessages};
use crate::internet::{probed, reachability_readings, InternetSensor, Reachability};
use crate::rando::{counted, wave_readings, RandoSensors};
use crate::record::{outcome, payload, reply, Entries, ReadingsResult, StructuredRecord};
use crate::timestamp::{
    abort_requested, diagnostic_readings, host_readings, Diagnostics, TimestampSensor,
};
use crate::value::Number;

verus! {

/// The models of component that can be built.
#[derive(Clone, Copy, Debug, PartialEq, Eq, Structural)]
pub enum SensorModel {
    /// The diagnostic sensor.
    Timestamp,
    /// The reachability sensor.
    Internet,
    /// The buffer sensor.
    FatMessages,
    /// The counting sensor.
    Rando,
}

/// A component: one sensor of one of the models.
#[derive(Debug, PartialEq, Eq)]
pub enum Component {
    /// A diagnostic sensor.
    Timestamp(TimestampSensor),
    /// A reachability sensor.
    Internet(InternetSensor),
    /// A buffer sensor.
    FatMessages(FatMessages),
    /// A counting sensor.
    Rando(RandoSensors),
}

/// A component with its sensor taken by what it remembers.
pub enum ComponentView {
    /// A diagnostic sensor, which remembers nothing.
    Timestamp,
    /// A reachability sensor and what it remembers of its probes.
    Internet(Reachability),
    /// A buffer sensor and its configured size.
    FatMessages(int),
    /// A counting sensor and the number of its snapshots.
    Rando(nat),
}

impl View for Component {
    type V = ComponentView;

    open spec fn view(&self) -> ComponentView {
        match *self {
            Component::Timestamp(_) => ComponentView::Timestamp,
            Component::Internet(sensor) => ComponentView::Internet(sensor@),
            Component::FatMessages(sensor) => ComponentView::FatMessages(sensor@),
            Component::Rando(sensor) => ComponentView::Rando(sensor@),
        }
    }
}

impl ComponentView {
    /// The model of the component.
    pub open spec fn model(self) -> SensorModel {
        match self {
            ComponentView::Timestamp => SensorModel::Timestamp,
            ComponentView::Internet(_) => SensorModel::Internet,
            ComponentView::FatMessages(_) => SensorModel::FatMessages,
            ComponentView::Rando(_) => SensorModel::Rando,
        }
    }
}

/// What a host hands to a component with the request for a snapshot: what
/// the component's sensor cannot find out by itself.
#[derive(Clone, Copy, Debug, PartialEq, Eq)]
pub enum Observation {
    /// Nothing: the sensor reads what it needs from the host it runs on.
    Nothing,
    /// What the platform measured, for a platform whose clock and memory
    /// the library cannot read.
    Measured(Diagnostics),
    /// Whether the host's probe of the network got through.
    Probe(bool),
    /// The slow and the fast sample that the host derived from its clock.
    Waves(Number, Number),
}

/// Why a component did not do what it was asked.
#[derive(Clone, Copy, Debug, PartialEq, Eq, Structural)]
pub enum ComponentError {
    /// The component does not have the capability.
    CapabilityUnsupported(Capability),
    /// The component's sensor met a fault.
    Sensor(SensorError),
    /// The component cannot take the snapshot: the observation is not of
    /// the kind that its sensor needs, or the sensor is at a limit.
    NotReady,
    /// The command asks for the abort. The host ends the process.
    AbortRequested,
}

/// Whether components of `model` have `capability`: all take snapshots and
/// report a status, the diagnostic sensor alone accepts commands.
pub open spec fn supported(model: SensorModel, capability: Capability) -> bool {
    match capability {
        Capability::Readings => true,
        Capability::Status => true,
        Capability::Command => model == SensorModel::Timestamp,
    }
}

/// The component that `model` builds from the attributes `attributes`.
pub open spec fn built(model: SensorModel, attributes: Entries) -> ComponentView {
    match model {
        SensorModel::Timestamp => ComponentView::Timestamp,
        SensorModel::Internet => ComponentView::Internet(
            Reachability { failures: 0, online: false },
        ),
        SensorModel::FatMessages => ComponentView::FatMessages(configured_len(attributes)),
        SensorModel::Rando => ComponentView::Rando(0),
    }
}

/// Whether `component` can take a snapshot with `observed`: the
/// observation is of the kind that its sensor needs, and the sensor is not
/// at a limit.
pub open spec fn can_read(component: ComponentView, observed: Observation) -> bool {
    match component {
        ComponentView::Timestamp => observed is Nothing || observed is Measured,
        ComponentView::Internet(state) => observed matches Observation::Probe(connected)
            && (!connected ==> state.failures < u32::MAX),
        ComponentView::FatMessages(len) => observed is Nothing && len >= 0,
        ComponentView::Rando(count) => observed is Waves && count < u64::MAX,
    }
}

/// The component after a snapshot with `observed`.
pub open spec fn after_reading(component: ComponentView, observed: Observation) -> ComponentView {
    match component {
        ComponentView::Timestamp => component,
        ComponentView::Internet(state) => match observed {
            Observation::Probe(connected) => ComponentView::Internet(probed(state, connected)),
            _ => component,
        },
        ComponentView::FatMessages(_) => component,
        ComponentView::Rando(count) => ComponentView::Rando(counted(count)),
    }
}

/// Whether `readings` can be what the snapshot of `component` with
/// `observed` returns.
pub open spec fn reads(
    component: ComponentView,
    observed: Observation,
    readings: Result<Entries, ComponentError>,
) -> bool {
    match component {
        ComponentView::Timestamp => match observed {
            Observation::Measured(measured) => readings == Ok::<Entries, ComponentError>(
                diagnostic_readings(measured),
            ),
            _ => exists|seconds: Option<u64>, free_memory: u64, free_swap: u64|
                readings == sensor_outcome(
                    #[trigger] host_readings(seconds, free_memory, free_swap),
                ),
        },
        ComponentView::Internet(state) => observed matches Observation::Probe(connected)
            && readings == Ok::<Entries, ComponentError>(
                reachability_readings(probed(state, connected)),
            ),
        ComponentView::FatMessages(len) => exists|bytes: Seq<u8>, read: Result<Entries, SensorError>|
            #[trigger] snapshot_of(read, bytes, len) && readings == sensor_outcome(read),
        ComponentView::Rando(count) => observed matches Observation::Waves(sin1, sin2) && readings
            == Ok::<Entries, ComponentError>(wave_readings(sin1, sin2, counted(count))),
    }
}

/// What a component of `model` answers to `command`: one that accepts no
/// commands says so; one that does asks for the abort where the command
/// does, and otherwise has no response.
pub open spec fn command_reply(model: SensorModel, command: Option<Entries>) -> Result<
    Option<Entries>,
    ComponentError,
> {
    if !supported(model, Capability::Command) {
        Err(ComponentError::CapabilityUnsupported(Capability::Command))
    } else if abort_requested(command) {
        Err(ComponentError::AbortRequested)
    } else {
        Ok(None)
    }
}

/// The outcome of a sensor's call as the outcome of its component's.
pub open spec fn sensor_outcome<T>(result: Result<T, SensorError>) -> Result<T, ComponentError> {
    match result {
        Ok(value) => Ok(value),
        Err(fault) => Err(ComponentError::Sensor(fault)),
    }
}

/// Hands on the outcome of a sensor's call as the outcome of its
/// component's.
fn lift<T>(result: Result<T, SensorError>) -> (lifted: Result<T, ComponentError>)
    ensures
        lifted == sensor_outcome(result),
{
    match result {
        Ok(value) => Ok(value),
        Err(fault) => Err(ComponentError::Sensor(fault)),
    }
}

impl SensorModel {
    /// The name under which this model is registered.
    pub open spec fn name_of(self) -> Seq<char> {
        match self {
            SensorModel::Timestamp => "esp32-data"@,
            SensorModel::Internet => "esp32-internet"@,
            SensorModel::FatMessages => "esp32-fat"@,
            SensorModel::Rando => "esp32-blobber"@,
        }
    }

    /// The name under which this model is registered.
    pub fn name(&self) -> (name: &'static str)
        ensures
            name@ == self.name_of(),
    {
        match self {
            SensorModel::Timestamp => "esp32-data",
            SensorModel::Internet => "esp32-internet",
            SensorModel::FatMessages => "esp32-fat",
            SensorModel::Rando => "esp32-blobber",
        }
    }

    /// Builds a component of this model from a configuration and the
    /// components it depends on. Every model is built from every
    /// configuration.
    pub fn construct(&self, cfg: &ComponentConfig, deps: Vec<Dependency>) -> (result: Result<
        Component,
        SensorError,
    >)
        ensures
            result matches Ok(component) && component@ == built(*self, cfg@),
    {
        match self {
            SensorModel::Timestamp => Ok(Component::Timestamp(TimestampSensor::from_config(cfg, deps)?)),
            SensorModel::Internet => Ok(Component::Internet(InternetSensor::from_config(cfg, deps)?)),
            SensorModel::FatMessages => Ok(
                Component::FatMessages(FatMessages::from_config(cfg, deps)?),
            ),
            SensorModel::Rando => Ok(Component::Rando(RandoSensors::from_config(cfg, deps)?)),
        }
    }
}

impl Component {
    /// The model of this component.
    pub fn model(&self) -> (model: SensorModel)
        ensures
            model == self@.model(),
    {
        match self {
            Component::Timestamp(_) => SensorModel::Timestamp,
            Component::Internet(_) => SensorModel::Internet,
            Component::FatMessages(_) => SensorModel::FatMessages,
            Component::Rando(_) => SensorModel::Rando,
        }
    }

    /// Whether this component has `capability`.
    pub fn supports(&self, capability: Capability) -> (has: bool)
        ensures
            has == supported(self@.model(), capability),
    {
        match capability {
            Capability::Readings => true,
            Capability::Status => true,
            Capability::Command => match self {
                Component::Timestamp(_) => true,
                _ => false,
            },
        }
    }

    /// Whether this component can take a snapshot with `observed`.
    pub fn ready_for(&self, observed: &Observation) -> (ready: bool)
        ensures
            ready == can_read(self@, *observed),
    {
        match self {
            Component::Timestamp(_) => match observed {
                Observation::Nothing => true,
                Observation::Measured(_) => true,
                _ => false,
            },
            Component::Internet(sensor) => match observed {
                Observation::Probe(connected) => *connected || sensor.inet() < u32::MAX,
                _ => false,
            },
            Component::FatMessages(sensor) => match observed {
                Observation::Nothing => sensor.buf_len() >= 0,
                _ => false,
            },
            Component::Rando(sensor) => match observed {
                Observation::Waves(_, _) => sensor.inner() < u64::MAX,
                _ => false,
            },
        }
    }

    /// Takes a snapshot of the component's sensor with what the host
    /// observed for it. A component that is not ready for the observation
    /// says so. Whatever the error, a call that returns one leaves the
    /// component as it was.
    pub fn get_generic_readings(&mut self, observed: Observation) -> (result: Result<
        ReadingsResult,
        ComponentError,
    >)
        ensures
            can_read(old(self)@, observed) ==> final(self)@ == after_reading(old(self)@, observed)
                && reads(old(self)@, observed, outcome(result)),
            !can_read(old(self)@, observed) ==> result matches Err(ComponentError::NotReady),
            result is Err ==> final(self)@ == old(self)@,
    {
        match self {
            Component::Timestamp(sensor) => match observed {
                Observation::Nothing => lift(sensor.get_generic_readings()),
                Observation::Measured(measured) => Ok(TimestampSensor::readings_from(measured)),
                _ => Err(ComponentError::NotReady),
            },
            Component::Internet(sensor) => match observed {
                Observation::Probe(connected) => if connected || sensor.inet() < u32::MAX {
                    lift(sensor.get_generic_readings(connected))
                } else {
                    Err(ComponentError::NotReady)
                },
                _ => Err(ComponentError::NotReady),
            },
            Component::FatMessages(sensor) => match observed {
                Observation::Nothing => if sensor.buf_len() >= 0 {
                    lift(sensor.get_generic_readings())
                } else {
                    Err(ComponentError::NotReady)
                },
                _ => Err(ComponentError::NotReady),
            },
            Component::Rando(sensor) => match observed {
                Observation::Waves(sin1, sin2) => if sensor.inner() < u64::MAX {
                    lift(sensor.get_generic_readings(sin1, sin2))
                } else {
                    Err(ComponentError::NotReady)
                },
                _ => Err(ComponentError::NotReady),
            },
        }
    }

    /// The summary of the component's state. Every component has one: a
    /// record without entries.
    pub fn get_status(&self) -> (status: Result<Option<StructuredRecord>, ComponentError>)
        ensures
            reply(status) == Ok::<Option<Entries>, ComponentError>(Some(Entries::empty())),
    {
        match self {
            Component::Timestamp(sensor) => lift(sensor.get_status()),
            Component::Internet(sensor) => lift(sensor.get_status()),
            Component::FatMessages(sensor) => lift(sensor.get_status()),
            Component::Rando(sensor) => lift(sensor.get_status()),
        }
    }

    /// Hands a command to the component and returns what it answers. The
    /// component stays as it was.
    pub fn do_command(&mut self, command: Option<StructuredRecord>) -> (response: Result<
        Option<StructuredRecord>,
        ComponentError,
    >)
        ensures
            final(self)@ == old(self)@,
            reply(response) == command_reply(old(self)@.model(), payload(command)),
    {
        match self {
            Component::Timestamp(sensor) => if TimestampSensor::wants_abort(&command) {
                Err(ComponentError::AbortRequested)
            } else {
                lift(sensor.do_command(command))
            },
            _ => Err(ComponentError::CapabilityUnsupported(Capability::Command)),
        }
    }
}

} // verus!
