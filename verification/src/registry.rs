//! The registry: the table from the name of a model to what builds its
//! components. Names are bound once and stay bound.

use vstd::prelude::*;
use crate::component::{built, Component, ComponentView, SensorModel};
use crate::config::{ComponentConfig, Dependency};
use crate::error::SensorError;
use crate::record::Entries;

verus! {

/// The bindings of a registry, in the order in which they were made.
pub type Bindings = Seq<(Seq<char>, SensorModel)>;

/// Why a name could not be registered.
#[derive(Clone, Copy, Debug, PartialEq, Eq, Structural)]
pub enum RegistryError {
    /// The name is bound already.
    DuplicateName,
}

/// Why a component could not be built.
#[derive(Clone, Copy, Debug, PartialEq, Eq, Structural)]
pub enum ConstructionError {
    /// No model is registered under the name.
    UnknownComponent,
    /// The model's constructor refused the configuration or a dependency.
    ConfigurationError(SensorError),
}

/// Whether `name` is bound in `bindings`.
pub open spec fn is_registered(bindings: Bindings, name: Seq<char>) -> bool {
    exists|i: int| 0 <= i < bindings.len() && (#[trigger] bindings[i]).0 == name
}

/// Whether no name is bound twice in `bindings`.
pub open spec fn distinct_names(bindings: Bindings) -> bool {
    forall|i: int, j: int|
        0 <= i < j < bindings.len() ==> (#[trigger] bindings[i]).0 != (#[trigger] bindings[j]).0
}

/// The model that `name` is bound to in `bindings`, if it is bound.
pub open spec fn model_of(bindings: Bindings, name: Seq<char>) -> SensorModel {
    bindings[choose|i: int| 0 <= i < bindings.len() && (#[trigger] bindings[i]).0 == name].1
}

/// The outcome of registering `model` under `name`: a name that is bound
/// is refused, a new one is bound behind the others.
pub open spec fn registered(bindings: Bindings, name: Seq<char>, model: SensorModel) -> Result<
    Bindings,
    RegistryError,
> {
    if is_registered(bindings, name) {
        Err(RegistryError::DuplicateName)
    } else {
        Ok(bindings.push((name, model)))
    }
}

/// The outcome of registering `requests` one after the other, up to the
/// first that is refused: the bindings that stand at the end, and whether
/// all were made.
pub open spec fn registered_all(bindings: Bindings, requests: Bindings) -> (Bindings, Result<
    (),
    RegistryError,
>)
    decreases requests.len(),
{
    if requests.len() == 0 {
        (bindings, Ok(()))
    } else {
        match registered(bindings, requests[0].0, requests[0].1) {
            Ok(next) => registered_all(next, requests.drop_first()),
            Err(refusal) => (bindings, Err(refusal)),
        }
    }
}

/// The outcome of building the component named `name` from `attributes`.
pub open spec fn constructed(bindings: Bindings, name: Seq<char>, attributes: Entries) -> Result<
    ComponentView,
    ConstructionError,
> {
    if is_registered(bindings, name) {
        Ok(built(model_of(bindings, name), attributes))
    } else {
        Err(ConstructionError::UnknownComponent)
    }
}

/// The models that this library registers, each under its name.
pub open spec fn standard_models() -> Bindings {
    seq![
        (SensorModel::Timestamp.name_of(), SensorModel::Timestamp),
        (SensorModel::Internet.name_of(), SensorModel::Internet),
        (SensorModel::FatMessages.name_of(), SensorModel::FatMessages),
        (SensorModel::Rando.name_of(), SensorModel::Rando),
    ]
}

/// The built component as `constructed` speaks of it.
pub open spec fn handle(result: Result<Component, ConstructionError>) -> Result<
    ComponentView,
    ConstructionError,
> {
    match result {
        Ok(component) => Ok(component@),
        Err(refusal) => Err(refusal),
    }
}

/// The table from names to models.
#[derive(Debug, PartialEq, Eq)]
pub struct Registry {
    models: Vec<(String, SensorModel)>,
}

impl View for Registry {
    type V = Bindings;

    closed spec fn view(&self) -> Bindings {
        Seq::new(self.models@.len(), |i: int| (self.models@[i].0@, self.models@[i].1))
    }
}

impl Registry {
    #[verifier::type_invariant]
    spec fn names_are_distinct(self) -> bool {
        distinct_names(self@)
    }

    /// The registry without bindings.
    pub fn new() -> (registry: Registry)
        ensures
            registry@ == Bindings::empty(),
    {
        let registry = Registry { models: Vec::new() };
        assert(registry@ =~= Bindings::empty());
        registry
    }

    /// The number of names that are bound.
    pub fn len(&self) -> (n: usize)
        ensures
            n == self@.len(),
    {
        self.models.len()
    }

    /// The index of the binding of `name`, if it is bound.
    fn find(&self, name: &str) -> (found: Option<usize>)
        ensures
            distinct_names(self@),
            match found {
                Some(i) => i < self@.len() && self@[i as int].0 == name@
                    && is_registered(self@, name@)
                    && model_of(self@, name@) == self@[i as int].1,
                None => !is_registered(self@, name@),
            },
    {
        proof {
            use_type_invariant(self);
        }
        let wanted: String = name.to_owned();
        let mut i: usize = 0;
        while i < self.models.len()
            invariant
                i <= self.models@.len(),
                wanted@ == name@,
                distinct_names(self@),
                forall|j: int| 0 <= j < i ==> (#[trigger] self@[j]).0 != name@,
            decreases self.models@.len() - i,
        {
            if self.models[i].0 == wanted {
                assert(self@[i as int].0 == name@);
                return Some(i);
            }
            i += 1;
        }
        None
    }

    /// The name of the binding at index `i`, in the order of registration.
    pub fn name_at(&self, i: usize) -> (name: &str)
        requires
            i < self@.len(),
        ensures
            name@ == self@[i as int].0,
    {
        self.models[i].0.as_str()
    }

    /// The model of the binding at index `i`, in the order of registration.
    pub fn model_at(&self, i: usize) -> (model: SensorModel)
        requires
            i < self@.len(),
        ensures
            model == self@[i as int].1,
    {
        self.models[i].1
    }

    /// Whether `name` is bound.
    pub fn contains(&self, name: &str) -> (bound: bool)
        ensures
            distinct_names(self@),
            bound == is_registered(self@, name@),
    {
        self.find(name).is_some()
    }

    /// Binds `name` to `model`. A name that is bound already is refused,
    /// and the registry stays as it was.
    pub fn register(&mut self, name: &str, model: SensorModel) -> (result: Result<(), RegistryError>)
        ensures
            distinct_names(old(self)@),
            distinct_names(final(self)@),
            match registered(old(self)@, name@, model) {
                Ok(next) => result == Ok::<(), RegistryError>(()) && final(self)@ == next,
                Err(refusal) => result == Err::<(), RegistryError>(refusal)
                    && final(self)@ == old(self)@,
            },
    {
        match self.find(name) {
            Some(_) => Err(RegistryError::DuplicateName),
            None => {
                // The bindings are taken out, extended and put back as a
                // whole, so that the registry is only ever built with
                // distinct names.
                let mut taken = Registry { models: Vec::new() };
                assert(taken@ =~= Bindings::empty());
                core::mem::swap(self, &mut taken);
                let mut models = taken.models;
                models.push((name.to_owned(), model));
                let ghost bound = Seq::new(models@.len(), |i: int| (models@[i].0@, models@[i].1));
                assert(bound =~= old(self)@.push((name@, model)));
                *self = Registry { models };
                Ok(())
            },
        }
    }

    /// Builds the component whose model is registered under `name`.
    pub fn construct(&self, name: &str, cfg: &ComponentConfig, deps: Vec<Dependency>) -> (result:
        Result<Component, ConstructionError>)
        ensures
            distinct_names(self@),
            handle(result) == constructed(self@, name@, cfg@),
    {
        match self.find(name) {
            None => Err(ConstructionError::UnknownComponent),
            Some(i) => {
                let model = self.models[i].1;
                match model.construct(cfg, deps) {
                    Ok(component) => Ok(component),
                    Err(fault) => Err(ConstructionError::ConfigurationError(fault)),
                }
            },
        }
    }
}

/// A name that is known is built and never reported unknown; a name that
/// is not known is always reported unknown, whatever the configuration.
pub proof fn known_names_are_built(bindings: Bindings, name: Seq<char>, attributes: Entries)
    ensures
        is_registered(bindings, name) ==> constructed(bindings, name, attributes) is Ok,
        !is_registered(bindings, name) ==> constructed(bindings, name, attributes) == Err::<
            ComponentView,
            ConstructionError,
        >(ConstructionError::UnknownComponent),
{
}

/// A name cannot be registered twice: once it has been registered, or if it
/// was bound before, registering it again is refused as a duplicate.
pub proof fn second_registration_is_refused(
    bindings: Bindings,
    name: Seq<char>,
    first: SensorModel,
    second: SensorModel,
)
    ensures
        match registered(bindings, name, first) {
            Ok(next) => registered(next, name, second) == Err::<Bindings, RegistryError>(
                RegistryError::DuplicateName,
            ),
            Err(_) => registered(bindings, name, second) == Err::<Bindings, RegistryError>(
                RegistryError::DuplicateName,
            ),
        },
{
    if !is_registered(bindings, name) {
        let next = bindings.push((name, first));
        assert(next[bindings.len() as int].0 == name);
    }
}

/// A registry never loses a binding: a name that is bound stays bound to
/// its model whatever is registered after it.
pub proof fn bound_names_stay_bound(
    bindings: Bindings,
    name: Seq<char>,
    model: SensorModel,
    bound: Seq<char>,
)
    requires
        distinct_names(bindings),
        is_registered(bindings, bound),
    ensures
        match registered(bindings, name, model) {
            Ok(next) => distinct_names(next) && is_registered(next, bound) && model_of(next, bound)
                == model_of(bindings, bound),
            Err(_) => true,
        },
{
    if !is_registered(bindings, name) {
        let next = bindings.push((name, model));
        let i = choose|i: int| 0 <= i < bindings.len() && (#[trigger] bindings[i]).0 == bound;
        assert(next[i] == bindings[i]);
        assert(is_registered(next, bound));
        assert forall|a: int, b: int| 0 <= a < b < next.len() implies (#[trigger] next[a]).0
            != (#[trigger] next[b]).0 by {
            if b < bindings.len() {
                assert(next[a] == bindings[a] && next[b] == bindings[b]);
                assert(bindings[a].0 != bindings[b].0);
            } else {
                assert(next[a] == bindings[a]);
            }
        }
        let j = choose|j: int| 0 <= j < next.len() && (#[trigger] next[j]).0 == bound;
        if j < i {
            assert(next[j].0 != next[i].0);
        } else if i < j {
            assert(next[i].0 != next[j].0);
        }
    }
}

/// Requests whose names differ from one another and from the names that are
/// bound are all granted, and the bindings that stand at the end are the
/// old ones followed by the requests.
proof fn new_names_all_register(bindings: Bindings, requests: Bindings)
    requires
        distinct_names(bindings + requests),
    ensures
        registered_all(bindings, requests) == (bindings + requests, Ok::<(), RegistryError>(())),
    decreases requests.len(),
{
    let whole = bindings + requests;
    if requests.len() == 0 {
        assert(whole =~= bindings);
    } else {
        let name = requests[0].0;
        let at = bindings.len() as int;
        assert(whole[at] == requests[0]);
        assert(!is_registered(bindings, name)) by {
            if is_registered(bindings, name) {
                let i = choose|i: int| 0 <= i < bindings.len() && (#[trigger] bindings[i]).0 == name;
                assert(whole[i] == bindings[i]);
                assert(whole[i].0 != whole[at].0);
            }
        }
        let next = bindings.push(requests[0]);
        assert(next + requests.drop_first() =~= whole);
        new_names_all_register(next, requests.drop_first());
    }
}

/// Models requested under names that all differ are all registered, in
/// whatever order the requests come, and each name is built afterwards as
/// the model that was requested under it.
pub proof fn distinct_names_all_register(requests: Bindings, attributes: Entries)
    requires
        distinct_names(requests),
    ensures
        registered_all(Bindings::empty(), requests) == (requests, Ok::<(), RegistryError>(())),
        forall|i: int|
            0 <= i < requests.len() ==> constructed(
                requests,
                (#[trigger] requests[i]).0,
                attributes,
            ) == Ok::<ComponentView, ConstructionError>(built(requests[i].1, attributes)),
{
    assert(Bindings::empty() + requests =~= requests);
    new_names_all_register(Bindings::empty(), requests);
    assert forall|i: int| 0 <= i < requests.len() implies constructed(
        requests,
        (#[trigger] requests[i]).0,
        attributes,
    ) == Ok::<ComponentView, ConstructionError>(built(requests[i].1, attributes)) by {
        let name = requests[i].0;
        assert(is_registered(requests, name));
        let j = choose|j: int| 0 <= j < requests.len() && (#[trigger] requests[j]).0 == name;
        if j < i {
            assert(requests[j].0 != requests[i].0);
        } else if i < j {
            assert(requests[i].0 != requests[j].0);
        }
        assert(j == i);
    }
}

/// The four names under which the models are registered differ.
proof fn standard_names_differ()
    ensures
        distinct_names(standard_models()),
{
    reveal_strlit("esp32-data");
    reveal_strlit("esp32-internet");
    reveal_strlit("esp32-fat");
    reveal_strlit("esp32-blobber");
    assert("esp32-data"@.len() == 10);
    assert("esp32-internet"@.len() == 14);
    assert("esp32-fat"@.len() == 9);
    assert("esp32-blobber"@.len() == 13);
}

/// On a registry without bindings the models of this library are all
/// registered, and each of their names is built afterwards as its model.
pub proof fn standard_models_register(attributes: Entries)
    ensures
        registered_all(Bindings::empty(), standard_models()) == (
            standard_models(),
            Ok::<(), RegistryError>(()),
        ),
        constructed(standard_models(), "esp32-data"@, attributes) == Ok::<
            ComponentView,
            ConstructionError,
        >(built(SensorModel::Timestamp, attributes)),
        constructed(standard_models(), "esp32-internet"@, attributes) == Ok::<
            ComponentView,
            ConstructionError,
        >(built(SensorModel::Internet, attributes)),
        constructed(standard_models(), "esp32-fat"@, attributes) == Ok::<
            ComponentView,
            ConstructionError,
        >(built(SensorModel::FatMessages, attributes)),
        constructed(standard_models(), "esp32-blobber"@, attributes) == Ok::<
            ComponentView,
            ConstructionError,
        >(built(SensorModel::Rando, attributes)),
{
    standard_names_differ();
    distinct_names_all_register(standard_models(), attributes);
    let models = standard_models();
    assert(models[0].0 == "esp32-data"@);
    assert(models[1].0 == "esp32-internet"@);
    assert(models[2].0 == "esp32-fat"@);
    assert(models[3].0 == "esp32-blobber"@);
}

/// Registers the models of this library, each under its name, and stops at
/// the first name that is bound already.
pub fn register_models(registry: &mut Registry) -> (result: Result<(), RegistryError>)
    ensures
        (final(registry)@, result) == registered_all(old(registry)@, standard_models()),
{
    let ghost all = standard_models();
    let ghost rest1 = all.drop_first();
    let ghost rest2 = rest1.drop_first();
    let ghost rest3 = rest2.drop_first();
    proof {
        assert(rest3.drop_first() =~= Bindings::empty());
        reveal_with_fuel(registered_all, 2);
    }
    let ghost start0 = registry@;
    match registry.register(SensorModel::Timestamp.name(), SensorModel::Timestamp) {
        Ok(_) => {},
        Err(refusal) => {
            return Err(refusal);
        },
    }
    let ghost start1 = registry@;
    assert(registered_all(start0, all) == registered_all(start1, rest1));
    match registry.register(SensorModel::Internet.name(), SensorModel::Internet) {
        Ok(_) => {},
        Err(refusal) => {
            return Err(refusal);
        },
    }
    let ghost start2 = registry@;
    assert(registered_all(start1, rest1) == registered_all(start2, rest2));
    match registry.register(SensorModel::FatMessages.name(), SensorModel::FatMessages) {
        Ok(_) => {},
        Err(refusal) => {
            return Err(refusal);
        },
    }
    let ghost start3 = registry@;
    assert(registered_all(start2, rest2) == registered_all(start3, rest3));
    registry.register(SensorModel::Rando.name(), SensorModel::Rando)
}

} // verus!
