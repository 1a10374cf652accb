//! Temperature sensor readings, in hundredths of a degree. A sensor
//! that reports a value of exactly zero is treated as absent and
//! dropped by the sampler.

use vstd::prelude::*;

verus! {

/// One sensor reading: label and current, maximal and critical values
/// in hundredths of a degree.
#[derive(Debug, Clone, PartialEq)]
pub struct Temperature {
    pub label: String,
    pub value: i64,
    pub max: i64,
    pub critical: i64,
}

impl Temperature {
    pub fn new(label: String, value: i64, max: i64, critical: i64) -> (t: Temperature)
        ensures
            t.label == label,
            t.value == value,
            t.max == max,
            t.critical == critical,
    {
        Temperature { label, value, max, critical }
    }
}

/// A reading is a real sensor only when its value is nonzero; a zero
/// reading means the sensor is absent.
pub open spec fn sensor_present(t: Temperature) -> bool {
    t.value != 0
}

/// One temperature-sampler cycle's transform: keeps only the readings
/// of present sensors, in order.
#[verifier::loop_isolation(false)]
pub fn filter_present(readings: Vec<Temperature>) -> (kept: Vec<Temperature>)
    ensures
        kept@ == readings@.filter(|t: Temperature| sensor_present(t)),
{
    let ghost all = readings@;
    let mut readings = readings;
    let mut kept: Vec<Temperature> = Vec::new();
    proof {
        assert(all.subrange(0, 0) =~= Seq::<Temperature>::empty());
        reveal_with_fuel(Seq::filter, 1);
    }
    while readings.len() > 0
        invariant
            readings@.len() <= all.len(),
            readings@ =~= all.subrange(all.len() - readings@.len(), all.len() as int),
            kept@ == all.subrange(0, all.len() - readings@.len()).filter(
                |t: Temperature| sensor_present(t),
            ),
        decreases readings@.len(),
    {
        let ghost i = all.len() - readings@.len();
        let ghost done = all.subrange(0, i);
        let t = readings.remove(0);
        assert(t == all[i]);
        assert(readings@ =~= all.subrange(all.len() - readings@.len(), all.len() as int));
        if t.value != 0 {
            kept.push(t);
        }
        proof {
            let pred = |t: Temperature| sensor_present(t);
            assert(done.push(all[i]) =~= all.subrange(0, i + 1));
            reveal_with_fuel(Seq::filter, 1);
            assert(done.push(all[i]).drop_last() =~= done);
            assert(all.subrange(0, i + 1).filter(pred) == if pred(all[i]) {
                done.filter(pred).push(all[i])
            } else {
                done.filter(pred)
            });
        }
    }
    proof {
        assert(all.subrange(0, all.len() as int) =~= all);
    }
    kept
}

} // verus!
