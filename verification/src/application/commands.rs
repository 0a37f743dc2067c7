//! Commands of the application layer.
use vstd::prelude::*;
use crate::aggregates::{collection_event, Accelerator};
use crate::application::{AppError, AppResult};
use crate::entities::Metric;
use crate::errors::DomainError;
use crate::events::{DomainEvent, MetricCollected};
use crate::ids::{uuid_text, AcceleratorId};
use crate::ports::BackendHealth;
use crate::text::str_eq;

verus! {

/// Command to discover all available accelerators.
#[derive(Debug, Clone)]
pub struct DiscoverAccelerators {
    pub backend_filter: Option<Vec<String>>,
}

/// The text of `s` is `t`.
pub open spec fn string_is(s: String, t: Seq<char>) -> bool {
    s@ == t
}

/// `f` holds the name `t`.
pub open spec fn names_backend(f: Seq<String>, t: Seq<char>) -> bool {
    exists|i: int| 0 <= i < f.len() && #[trigger] string_is(f[i], t)
}

/// A backend takes part in a discovery when there is no filter or the filter names it.
pub open spec fn backend_selected(filter: Option<Seq<String>>, backend_type: Seq<char>) -> bool {
    match filter {
        None => true,
        Some(f) => names_backend(f, backend_type),
    }
}

impl DiscoverAccelerators {
    /// Whether the backend named `backend_type` takes part in this discovery.
    pub fn includes_backend(&self, backend_type: &str) -> (r: bool)
        ensures
            r == backend_selected(
                match self.backend_filter {
                    Some(f) => Some(f@),
                    None => None,
                },
                backend_type@,
            ),
    {
        match &self.backend_filter {
            None => true,
            Some(filter) => {
                let n = filter.len();
                let mut i: usize = 0;
                while i < n
                    invariant
                        n == filter@.len(),
                        i <= n,
                        self.backend_filter == Some(*filter),
                        forall|j: int| 0 <= j < i ==> (#[trigger] filter@[j])@ != backend_type@,
                    decreases n - i,
                {
                    if str_eq(filter[i].as_str(), backend_type) {
                        assert(string_is(filter@[i as int], backend_type@));
                        assert(names_backend(filter@, backend_type@));
                        return true;
                    }
                    i = i + 1;
                }
                false
            },
        }
    }
}

/// Command to collect metrics from an accelerator.
#[derive(Debug, Clone)]
pub struct CollectMetrics {
    pub accelerator_id: AcceleratorId,
    pub sensor_filter: Option<Vec<String>>,
}

/// The first backend, by position in `backend_types`, of the wanted type.
pub fn find_backend(backend_types: &Vec<&str>, wanted: &str) -> (r: Option<usize>)
    ensures
        match r {
            Some(i) => i < backend_types@.len() && backend_types@[i as int]@ == wanted@ && forall|j: int|
                0 <= j < i ==> (#[trigger] backend_types@[j])@ != wanted@,
            None => forall|j: int| 0 <= j < backend_types@.len() ==> (#[trigger] backend_types@[j])@ != wanted@,
        },
{
    let n = backend_types.len();
    let mut i: usize = 0;
    while i < n
        invariant
            n == backend_types@.len(),
            i <= n,
            forall|j: int| 0 <= j < i ==> (#[trigger] backend_types@[j])@ != wanted@,
        decreases n - i,
    {
        if str_eq(backend_types[i], wanted) {
            return Some(i);
        }
        i = i + 1;
    }
    None
}

/// Command to attach an eBPF probe.
#[derive(Debug, Clone)]
pub struct AttachProbe {
    pub probe_name: String,
}

/// Handler for `AttachProbe`.
pub struct AttachProbeHandler;

impl AttachProbeHandler {
    pub fn new() -> (r: Self) {
        AttachProbeHandler
    }

    /// Accepts the command; attaching happens in the probe backend.
    pub fn handle(&self, _cmd: AttachProbe) -> (r: AppResult<()>)
        ensures
            r is Ok,
    {
        Ok(())
    }
}

impl Default for AttachProbeHandler {
    fn default() -> (r: Self) {
        AttachProbeHandler
    }
}

/// Command to configure sampling.
#[derive(Debug, Clone, Copy)]
pub struct ConfigureSampling {
    pub interval_ms: u64,
}

/// Handler for `ConfigureSampling`.
pub struct ConfigureSamplingHandler;

impl ConfigureSamplingHandler {
    pub fn new() -> (r: Self) {
        ConfigureSamplingHandler
    }

    /// Accepts the command.
    pub fn handle(&self, _cmd: ConfigureSampling) -> (r: AppResult<()>)
        ensures
            r is Ok,
    {
        Ok(())
    }
}

impl Default for ConfigureSamplingHandler {
    fn default() -> (r: Self) {
        ConfigureSamplingHandler
    }
}

impl DiscoverAccelerators {
    /// Whether a backend that this discovery selects is asked to discover, given its health:
    /// only a fully healthy one is.
    pub fn admits(&self, backend_type: &str, health: BackendHealth) -> (r: bool)
        ensures
            r == (backend_selected(
                match self.backend_filter {
                    Some(f) => Some(f@),
                    None => None,
                },
                backend_type@,
            ) && health is Healthy),
    {
        self.includes_backend(backend_type) && health.is_healthy()
    }
}

/// The filter of a discovery command, as plain texts.
pub open spec fn filter_of(cmd: DiscoverAccelerators) -> Option<Seq<String>> {
    match cmd.backend_filter {
        Some(f) => Some(f@),
        None => None,
    }
}

/// What a discovery does next.
#[derive(Debug, Clone, Copy, PartialEq, Eq, Structural)]
pub enum DiscoveryStep {
    /// Ask backend `i` for its health and, when it is admitted, for its accelerators
    Consult(usize),
    /// Every backend has been considered
    Finish,
}

/// Where a discovery stands: the next backend to consider, and the accelerators that were
/// found and saved so far.
#[derive(Debug)]
pub struct DiscoveryRun {
    pub next: usize,
    pub discovered: Vec<AcceleratorId>,
}

impl DiscoveryRun {
    /// A discovery that has considered no backend and found nothing.
    pub fn new() -> (r: Self)
        ensures
            r.next == 0,
            r.discovered@ == Seq::<AcceleratorId>::empty(),
    {
        DiscoveryRun { next: 0, discovered: Vec::new() }
    }

    /// The next backend, among `backend_types` from `next` on, that the command selects;
    /// those it passes over are not selected. The run moves past the backend it names.
    pub fn step(&mut self, cmd: &DiscoverAccelerators, backend_types: &Vec<&str>) -> (r: DiscoveryStep)
        ensures
            final(self).discovered@ == old(self).discovered@,
            match r {
                DiscoveryStep::Consult(i) => old(self).next <= i < backend_types@.len() && final(self).next == i
                    + 1 && backend_selected(filter_of(*cmd), backend_types@[i as int]@) && forall|j: int|
                    old(self).next <= j < i ==> !backend_selected(filter_of(*cmd), (#[trigger] backend_types@[j])@),
                DiscoveryStep::Finish => final(self).next == backend_types@.len() && forall|j: int|
                    old(self).next <= j < backend_types@.len() ==> !backend_selected(
                        filter_of(*cmd),
                        (#[trigger] backend_types@[j])@,
                    ),
            },
    {
        let n = backend_types.len();
        let mut i = self.next;
        while i < n
            invariant
                n == backend_types@.len(),
                old(self).next <= i,
                self.next == old(self).next,
                self.discovered@ == old(self).discovered@,
                forall|j: int|
                    old(self).next <= j < i ==> !backend_selected(filter_of(*cmd), (#[trigger] backend_types@[j])@),
            decreases n - i,
        {
            if cmd.includes_backend(backend_types[i]) {
                self.next = i + 1;
                return DiscoveryStep::Consult(i);
            }
            i = i + 1;
        }
        self.next = n;
        DiscoveryStep::Finish
    }

    /// Notes the outcome of saving a discovered accelerator: it counts as found once saved.
    pub fn saved(&mut self, id: AcceleratorId, ok: bool)
        ensures
            final(self).next == old(self).next,
            final(self).discovered@ == (if ok {
                old(self).discovered@.push(id)
            } else {
                old(self).discovered@
            }),
    {
        if ok {
            self.discovered.push(id);
        }
    }
}

/// `i` is the position of the first of `types` that is `wanted`.
pub open spec fn first_backend_of(types: Seq<&str>, wanted: Seq<char>, i: int) -> bool {
    &&& 0 <= i < types.len()
    &&& types[i]@ == wanted
    &&& forall|j: int| 0 <= j < i ==> (#[trigger] types[j])@ != wanted
}

/// Where a metric collection goes, once the repository has been asked for the accelerator:
/// the accelerator and the position of the first backend of its type. An error when the
/// repository does not know the accelerator, or when no backend of its type is there.
pub fn collect_target(cmd: &CollectMetrics, found: Option<Accelerator>, backend_types: &Vec<&str>) -> (r: AppResult<
    (Accelerator, usize),
>)
    ensures
        found is None ==> (r matches Err(AppError::Domain(DomainError::AcceleratorNotFound(m))) && m@ == uuid_text(
            cmd.accelerator_id.0,
        )),
        forall|a: Accelerator|
            found == Some(a) ==> match r {
                Ok((b, i)) => b == a && first_backend_of(backend_types@, a.backend_type@, i as int),
                Err(AppError::BackendNotAvailable(t)) => t@ == a.backend_type@ && forall|j: int|
                    0 <= j < backend_types@.len() ==> (#[trigger] backend_types@[j])@ != a.backend_type@,
                _ => false,
            },
{
    match found {
        None => Err(AppError::Domain(DomainError::AcceleratorNotFound(cmd.accelerator_id.to_string()))),
        Some(a) => match find_backend(backend_types, a.backend_type.as_str()) {
            Some(i) => Ok((a, i)),
            None => {
                let t = String::from_str(a.backend_type.as_str());
                Err(AppError::BackendNotAvailable(t))
            },
        },
    }
}

/// The events that a collection publishes: one `MetricCollected` per metric, in order, for
/// the accelerator the command names.
pub fn metric_events(accelerator_id: AcceleratorId, metrics: &Vec<Metric>) -> (r: Vec<DomainEvent>)
    ensures
        r@.len() == metrics@.len(),
        forall|i: int| 0 <= i < r@.len() ==> r@[i] == collection_event(accelerator_id, #[trigger] metrics@[i]),
{
    let mut out: Vec<DomainEvent> = Vec::new();
    let n = metrics.len();
    let mut i: usize = 0;
    while i < n
        invariant
            n == metrics@.len(),
            i <= n,
            out@.len() == i,
            forall|k: int| 0 <= k < i ==> out@[k] == collection_event(accelerator_id, #[trigger] metrics@[k]),
        decreases n - i,
    {
        let m = &metrics[i];
        out.push(
            DomainEvent::MetricCollected(
                MetricCollected {
                    metric_id: m.id,
                    sensor_id: m.sensor_id,
                    accelerator_id,
                    metric_type: m.metric_type.clone(),
                    timestamp: m.timestamp,
                },
            ),
        );
        i = i + 1;
    }
    out
}

} // verus!
