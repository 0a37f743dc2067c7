//! Turning what a backend read into metrics under an accelerator's sensors.
use vstd::prelude::*;
use crate::aggregates::Accelerator;
use crate::entities::{Metric, MetricValue, Sensor};
use crate::ids::{is_uuid_v4, SensorId};
use crate::value_objects::{same_metric_type, MetricType, Unit};

verus! {

/// How a collector picks the sensor that a reading is reported under.
pub enum SensorChoice {
    /// The sensor with this name
    Named(String),
    /// A sensor of this metric type
    OfType(MetricType),
}

/// Sensor `s` is one that choice `c` picks.
pub open spec fn chooses(c: SensorChoice, s: Sensor) -> bool {
    match c {
        SensorChoice::Named(n) => s.name@ == n@,
        SensorChoice::OfType(t) => same_metric_type(s.metric_type, t),
    }
}

/// The accelerator has a sensor that `c` picks.
pub open spec fn has_chosen(a: Accelerator, c: SensorChoice) -> bool {
    exists|s: Sensor| #[trigger] a.sensors@.values().contains(s) && chooses(c, s)
}

/// `id` is the identifier of a sensor of the accelerator that `c` picks.
pub open spec fn under_chosen(a: Accelerator, c: SensorChoice, id: SensorId) -> bool {
    exists|s: Sensor| #[trigger] a.sensors@.values().contains(s) && chooses(c, s) && s.id == id
}

/// One value a backend read, with the sensor, type and unit it is reported with.
pub struct Reading {
    pub sensor: SensorChoice,
    pub metric_type: MetricType,
    pub value: MetricValue,
    pub unit: Unit,
}

/// Reading `r` is reported under the sensor named `name` as `v` of type `t` in `u`.
pub open spec fn named_reading(r: Reading, name: Seq<char>, t: MetricType, v: MetricValue, u: Unit) -> bool {
    &&& r.sensor matches SensorChoice::Named(n) && n@ == name
    &&& r.metric_type == t
    &&& r.value == v
    &&& r.unit == u
}

/// What a reading should be: the name of its sensor (or none, to pick a sensor by the
/// metric type), its metric type, value and unit.
pub type PlannedReading = (Option<Seq<char>>, MetricType, MetricValue, Unit);

/// Reading `r` is the planned reading `p`.
pub open spec fn is_planned(r: Reading, p: PlannedReading) -> bool {
    &&& match p.0 {
        Some(name) => r.sensor matches SensorChoice::Named(n) && n@ == name,
        None => r.sensor == SensorChoice::OfType(p.1),
    }
    &&& r.metric_type == p.1
    &&& r.value == p.2
    &&& r.unit == p.3
}

/// The readings `rs` are the planned readings `plan`, in order.
pub open spec fn follows_plan(rs: Seq<Reading>, plan: Seq<PlannedReading>) -> bool {
    &&& rs.len() == plan.len()
    &&& forall|i: int| 0 <= i < rs.len() ==> is_planned(#[trigger] rs[i], plan[i])
}

/// Appends the reading under the sensor named `name` (or, with no name, a sensor of the
/// reading's type).
pub(crate) fn push_reading(
    rs: &mut Vec<Reading>,
    Ghost(plan): Ghost<Seq<PlannedReading>>,
    name: Option<&str>,
    metric_type: MetricType,
    value: MetricValue,
    unit: Unit,
)
    requires
        follows_plan(old(rs)@, plan),
    ensures
        follows_plan(
            final(rs)@,
            plan.push(
                (
                    match name {
                        Some(n) => Some(n@),
                        None => None,
                    },
                    metric_type,
                    value,
                    unit,
                ),
            ),
        ),
{
    let ghost entry = (
        match name {
            Some(n) => Some(n@),
            None => None,
        },
        metric_type,
        value,
        unit,
    );
    let sensor = match name {
        Some(n) => SensorChoice::Named(String::from_str(n)),
        None => SensorChoice::OfType(metric_type.clone()),
    };
    let ghost before = rs@;
    rs.push(Reading { sensor, metric_type, value, unit });
    assert(is_planned(rs@[before.len() as int], entry));
    assert forall|i: int| 0 <= i < rs@.len() implies is_planned(#[trigger] rs@[i], plan.push(entry)[i]) by {
        if i < before.len() {
            assert(rs@[i] == before[i]);
        }
    }
}

/// Metric `m` carries reading `r` for accelerator `a`.
pub open spec fn carries(m: Metric, a: Accelerator, r: Reading) -> bool {
    &&& m.accelerator_id == a.id
    &&& m.metric_type == r.metric_type
    &&& m.value == r.value
    &&& m.unit == r.unit
}

/// The test that a reading has a sensor on `a`.
pub open spec fn with_sensor(a: Accelerator) -> spec_fn(Reading) -> bool {
    |r: Reading| has_chosen(a, r.sensor)
}

/// `ms` are the readings of `rs` that have a sensor on `a`, in order, each under its sensor.
pub open spec fn reported_under_sensors(ms: Seq<Metric>, a: Accelerator, rs: Seq<Reading>) -> bool {
    let kept = rs.filter(with_sensor(a));
    &&& ms.len() == kept.len()
    &&& forall|i: int|
        0 <= i < ms.len() ==> carries(#[trigger] ms[i], a, kept[i]) && under_chosen(
            a,
            kept[i].sensor,
            ms[i].sensor_id,
        )
}

/// `ms` are all the readings of `rs`, in order: each under its sensor where `a` has one, else
/// under a fresh identifier.
pub open spec fn reported_all(ms: Seq<Metric>, a: Accelerator, rs: Seq<Reading>) -> bool {
    &&& ms.len() == rs.len()
    &&& forall|i: int|
        0 <= i < ms.len() ==> {
            &&& carries(#[trigger] ms[i], a, rs[i])
            &&& has_chosen(a, rs[i].sensor) ==> under_chosen(a, rs[i].sensor, ms[i].sensor_id)
            &&& !has_chosen(a, rs[i].sensor) ==> is_uuid_v4(ms[i].sensor_id.0)
        }
}

/// The identifier of a sensor of `a` that `c` picks, if there is one.
pub fn find_sensor(a: &Accelerator, c: &SensorChoice) -> (r: Option<SensorId>)
    ensures
        match r {
            Some(id) => under_chosen(*a, *c, id),
            None => !has_chosen(*a, *c),
        },
{
    match c {
        SensorChoice::Named(n) => match a.sensor_named(n.as_str()) {
            Some(s) => Some(s.id),
            None => None,
        },
        SensorChoice::OfType(t) => match a.sensor_of_type(t) {
            Some(s) => Some(s.id),
            None => None,
        },
    }
}

/// Metrics for the readings that have a sensor on `a`, in order, each under its sensor;
/// readings without a sensor are dropped.
pub fn metrics_under_sensors(a: &Accelerator, readings: Vec<Reading>) -> (ms: Vec<Metric>)
    ensures
        reported_under_sensors(ms@, *a, readings@),
{
    let ghost rs = readings@;
    let mut rest = readings;
    let mut ms: Vec<Metric> = Vec::new();
    assert(rs.subrange(0, 0) =~= Seq::<Reading>::empty());
    while rest.len() > 0
        invariant
            rest@.len() <= rs.len(),
            rest@ == rs.subrange(rs.len() - rest@.len(), rs.len() as int),
            reported_under_sensors(ms@, *a, rs.subrange(0, rs.len() - rest@.len())),
        decreases rest@.len(),
    {
        let ghost done = rs.len() - rest@.len();
        let r = rest.remove(0);
        assert(r == rs[done]);
        let ghost before = rs.subrange(0, done);
        let ghost after = rs.subrange(0, done + 1);
        assert(after.drop_last() =~= before);
        assert(after.last() == r);
        proof {
            reveal(Seq::filter);
        }
        let ghost ms0 = ms@;
        match find_sensor(a, &r.sensor) {
            Some(id) => {
                let m = Metric::new(id, a.id, r.metric_type, r.value, r.unit);
                ms.push(m);
                assert(after.filter(with_sensor(*a)) == before.filter(with_sensor(*a)).push(r));
                assert(forall|i: int| 0 <= i < ms0.len() ==> ms@[i] == ms0[i]);
            },
            None => {
                assert(after.filter(with_sensor(*a)) == before.filter(with_sensor(*a)));
            },
        }
        assert(rest@ =~= rs.subrange(rs.len() - rest@.len(), rs.len() as int));
    }
    assert(rs.subrange(0, rs.len() as int) =~= rs);
    ms
}

/// Metrics for all the readings, in order, each under its sensor on `a` or, where `a` has
/// none, under a fresh sensor identifier.
pub fn metrics_for_all(a: &Accelerator, readings: Vec<Reading>) -> (ms: Vec<Metric>)
    ensures
        reported_all(ms@, *a, readings@),
{
    let ghost rs = readings@;
    let mut rest = readings;
    let mut ms: Vec<Metric> = Vec::new();
    while rest.len() > 0
        invariant
            rest@.len() <= rs.len(),
            rest@ == rs.subrange(rs.len() - rest@.len(), rs.len() as int),
            reported_all(ms@, *a, rs.subrange(0, rs.len() - rest@.len())),
        decreases rest@.len(),
    {
        let ghost done = rs.len() - rest@.len();
        let r = rest.remove(0);
        assert(r == rs[done]);
        let ghost ms0 = ms@;
        let id = match find_sensor(a, &r.sensor) {
            Some(id) => id,
            None => SensorId::new(),
        };
        let m = Metric::new(id, a.id, r.metric_type, r.value, r.unit);
        ms.push(m);
        assert(forall|i: int| 0 <= i < ms0.len() ==> ms@[i] == ms0[i]);
        assert(forall|i: int| 0 <= i < done ==> rs.subrange(0, done + 1)[i] == rs.subrange(0, done)[i]);
        assert(rest@ =~= rs.subrange(rs.len() - rest@.len(), rs.len() as int));
    }
    assert(rs.subrange(0, rs.len() as int) =~= rs);
    ms
}

} // verus!
