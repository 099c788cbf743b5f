//! The settings of a fan curve that are not temperatures: which sensors to
//! watch, how to combine them, and which fans to drive.
use vstd::prelude::*;
use crate::fan_control::strictly_increasing;

verus! {

/// How the readings of a sensor group are combined into one temperature.
#[derive(Clone, Copy, Debug, PartialEq, Eq, Structural)]
pub enum ReduceOp {
    Min,
    Max,
    Average,
}

impl Default for ReduceOp {
    fn default() -> (r: Self)
        ensures
            r == ReduceOp::Max,
    {
        ReduceOp::Max
    }
}

impl ReduceOp {
    pub open spec fn label_text(self) -> Seq<char> {
        match self {
            ReduceOp::Min => "min"@,
            ReduceOp::Max => "max"@,
            ReduceOp::Average => "average"@,
        }
    }

    pub fn label(self) -> (r: &'static str)
        ensures
            r@ == self.label_text(),
    {
        match self {
            ReduceOp::Min => "min",
            ReduceOp::Max => "max",
            ReduceOp::Average => "average",
        }
    }
}

/// The temperature a fan follows: one sensor, or a group of sensors combined
/// by `reduce`.
#[derive(Clone)]
pub struct TargetSelector {
    pub sensor: Option<String>,
    pub group: Option<String>,
    pub reduce: ReduceOp,
}

/// The description of a target for people.
pub open spec fn describe_spec(t: TargetSelector) -> Seq<char> {
    match t.sensor {
        Some(s) => "sensor `"@ + s@ + "`"@,
        None => match t.group {
            Some(g) => "group `"@ + g@ + "` ("@ + t.reduce.label_text() + ")"@,
            None => "unknown target"@,
        },
    }
}

impl TargetSelector {
    pub fn describe(&self) -> (r: String)
        ensures
            r@ == describe_spec(*self),
    {
        if let Some(sensor) = &self.sensor {
            let mut s = "sensor `".to_owned();
            s.append(sensor.as_str());
            s.append("`");
            s
        } else if let Some(group) = &self.group {
            let mut s = "group `".to_owned();
            s.append(group.as_str());
            s.append("` (");
            s.append(self.reduce.label());
            s.append(")");
            s
        } else {
            "unknown target".to_owned()
        }
    }
}

/// Why a curve configuration is refused.
#[derive(Clone, Copy, Debug, PartialEq, Eq, Structural)]
pub enum ConfigError {
    /// The target names both a sensor and a group, or neither.
    TargetNotExclusive,
    /// The configuration has no curve point.
    NoCurvePoints,
    /// The sampling interval is zero.
    ZeroSampleInterval,
    /// A curve has no point.
    EmptyCurve,
    /// A curve's points are not ordered by temperature.
    UnorderedCurve,
}

impl ConfigError {
    pub open spec fn text(self) -> Seq<char> {
        match self {
            ConfigError::TargetNotExclusive => "config target must specify exactly one of `sensor` or `group`"@,
            ConfigError::NoCurvePoints => "config must contain at least one curve point"@,
            ConfigError::ZeroSampleInterval => "sample_interval_ms must be greater than zero"@,
            ConfigError::EmptyCurve => "curve must contain at least one point"@,
            ConfigError::UnorderedCurve => "curve points must be ordered by non-decreasing temp_c"@,
        }
    }

    pub fn message(&self) -> (r: String)
        ensures
            r@ == self.text(),
    {
        match self {
            ConfigError::TargetNotExclusive => "config target must specify exactly one of `sensor` or `group`".to_owned(),
            ConfigError::NoCurvePoints => "config must contain at least one curve point".to_owned(),
            ConfigError::ZeroSampleInterval => "sample_interval_ms must be greater than zero".to_owned(),
            ConfigError::EmptyCurve => "curve must contain at least one point".to_owned(),
            ConfigError::UnorderedCurve => "curve points must be ordered by non-decreasing temp_c".to_owned(),
        }
    }
}

/// A target names exactly one of a sensor and a group.
pub fn validate_target(target: &TargetSelector) -> (r: Result<(), ConfigError>)
    ensures
        r is Ok <==> (target.sensor is Some != target.group is Some),
        r is Err ==> r == Err::<(), ConfigError>(ConfigError::TargetNotExclusive),
{
    if target.sensor.is_some() != target.group.is_some() {
        Ok(())
    } else {
        Err(ConfigError::TargetNotExclusive)
    }
}

/// The checks a curve configuration passes after its fan list is normalized,
/// in order: the target, the presence of curve points, the sampling interval.
pub fn check_curve_config(target: &TargetSelector, point_count: usize, sample_interval_ms: u64) -> (r:
    Result<(), ConfigError>)
    ensures
        r == (if target.sensor is Some == target.group is Some {
            Err::<(), ConfigError>(ConfigError::TargetNotExclusive)
        } else if point_count == 0 {
            Err(ConfigError::NoCurvePoints)
        } else if sample_interval_ms == 0 {
            Err(ConfigError::ZeroSampleInterval)
        } else {
            Ok(())
        }),
{
    validate_target(target)?;
    if point_count == 0 {
        return Err(ConfigError::NoCurvePoints);
    }
    if sample_interval_ms == 0 {
        return Err(ConfigError::ZeroSampleInterval);
    }
    Ok(())
}

/// The fan a configuration drives when it names none.
pub fn default_fan_index() -> (r: usize)
    ensures
        r == 0,
{
    0
}

/// The sampling interval of a configuration that names none, in milliseconds.
pub fn default_sample_interval_ms() -> (r: u64)
    ensures
        r == 1500,
{
    1_500
}

/// The elements of `v` in increasing order, each once.
pub fn sorted_distinct(v: &[usize]) -> (r: Vec<usize>)
    ensures
        strictly_increasing(r@),
        forall|x: usize| #[trigger] r@.contains(x) <==> v@.contains(x),
{
    let mut r: Vec<usize> = Vec::new();
    let mut i: usize = 0;
    while i < v.len()
        invariant
            i <= v.len(),
            strictly_increasing(r@),
            forall|x: usize| #[trigger] r@.contains(x) <==> v@.take(i as int).contains(x),
        decreases v.len() - i,
    {
        let x = v[i];
        let ghost old_r = r@;
        let mut p: usize = 0;
        while p < r.len() && r[p] < x
            invariant
                p <= r.len(),
                r@ == old_r,
                forall|q: int| 0 <= q < p ==> r@[q] < x,
            decreases r.len() - p,
        {
            p = p + 1;
        }
        if p < r.len() && r[p] == x {
        } else {
            r.insert(p, x);
            assert forall|a: int, b: int| 0 <= a < b < r@.len() implies r@[a] < r@[b] by {
                if b < p {
                    assert(old_r[a] < old_r[b]);
                } else if b == p {
                    assert(r@[a] == old_r[a]);
                } else if a < p {
                    assert(r@[b] == old_r[b - 1]);
                    if b - 1 > p {
                        assert(old_r[p as int] < old_r[b - 1]);
                    }
                } else if a == p {
                    assert(r@[b] == old_r[b - 1]);
                    if b - 1 > p {
                        assert(old_r[p as int] < old_r[b - 1]);
                    }
                } else {
                    assert(old_r[a - 1] < old_r[b - 1]);
                }
            }
        }
        assert forall|y: usize| #[trigger] r@.contains(y) <==> v@.take(i + 1).contains(y) by {
            assert(v@.take(i + 1) == v@.take(i as int).push(x));
            if r@.contains(y) && y != x {
                let q = choose|q: int| 0 <= q < r@.len() && r@[q] == y;
                if r@.len() == old_r.len() || q < p {
                    assert(old_r[q] == y);
                } else {
                    assert(old_r[q - 1] == y);
                }
                assert(old_r.contains(y));
                assert(v@.take(i as int).contains(y));
                let k = choose|k: int| 0 <= k < i && v@.take(i as int)[k] == y;
                assert(v@.take(i + 1)[k] == y);
            }
            if v@.take(i as int).contains(y) {
                assert(old_r.contains(y));
                let q = choose|q: int| 0 <= q < old_r.len() && old_r[q] == y;
                if r@.len() > old_r.len() {
                    if q < p {
                        assert(r@[q] == y);
                    } else {
                        assert(r@[q + 1] == y);
                    }
                }
            }
            if y == x {
                assert(r@[p as int] == x);
                assert(r@.contains(y));
                assert(v@.take(i + 1)[i as int] == x);
            }
        }
        i = i + 1;
    }
    assert(v@.take(v.len() as int) == v@);
    r
}

/// The fans a configuration drives: its list in increasing order without
/// repeats, or, when the list is empty, its single fan (fan 0 if none).
pub fn normalize_fan_indices(fan_index: Option<usize>, fan_indices: &[usize]) -> (r: Vec<usize>)
    ensures
        strictly_increasing(r@),
        fan_indices@.len() > 0 ==> forall|x: usize| #[trigger] r@.contains(x) <==> fan_indices@.contains(x),
        fan_indices@.len() == 0 ==> r@ == seq![
            match fan_index {
                Some(i) => i,
                None => 0,
            },
        ],
{
    if fan_indices.len() == 0 {
        let only = match fan_index {
            Some(i) => i,
            None => default_fan_index(),
        };
        let mut r: Vec<usize> = Vec::new();
        r.push(only);
        r
    } else {
        sorted_distinct(fan_indices)
    }
}

/// Normalizing a fan list that is already normalized leaves it as it is.
pub proof fn lemma_normalized_fans_fixed(fans: Seq<usize>, again: Seq<usize>)
    requires
        fans.len() > 0,
        strictly_increasing(fans),
        strictly_increasing(again),
        forall|x: usize| #[trigger] again.contains(x) <==> fans.contains(x),
    ensures
        again == fans,
{
    crate::fan_control::lemma_increasing_same_elements(again, fans);
}

/// The fans a command acts on: those listed, or else the one named, or else fan 0.
pub fn resolve_command_fan_indices(fan: Option<usize>, fan_indices: &[usize]) -> (r: Vec<usize>)
    ensures
        fan_indices@.len() > 0 ==> r@ == fan_indices@,
        fan_indices@.len() == 0 ==> r@ == seq![
            match fan {
                Some(i) => i,
                None => 0,
            },
        ],
{
    if fan_indices.len() > 0 {
        let mut r: Vec<usize> = Vec::new();
        let mut i: usize = 0;
        while i < fan_indices.len()
            invariant
                i <= fan_indices.len(),
                r@ == fan_indices@.take(i as int),
            decreases fan_indices.len() - i,
        {
            assert(fan_indices@.take(i + 1) == fan_indices@.take(i as int).push(fan_indices@[i as int]));
            r.push(fan_indices[i]);
            i = i + 1;
        }
        assert(fan_indices@.take(fan_indices.len() as int) == fan_indices@);
        return r;
    }
    let mut r: Vec<usize> = Vec::new();
    match fan {
        Some(index) => r.push(index),
        None => r.push(0),
    }
    r
}


/// The speed to request after hysteresis. A candidate below the last speed is
/// held at the last speed while the temperature has not fallen by more than
/// the band since the last reading (`within_band`); otherwise the candidate
/// goes through. Without a previous reading the candidate goes through.
pub open spec fn hysteresis_spec(last_rpm: Option<u32>, candidate_rpm: u32, within_band: bool) -> u32 {
    match last_rpm {
        Some(last) => if candidate_rpm < last && within_band {
            last
        } else {
            candidate_rpm
        },
        None => candidate_rpm,
    }
}

pub fn hysteresis_rpm(last_rpm: Option<u32>, candidate_rpm: u32, within_band: bool) -> (r: u32)
    ensures
        r == hysteresis_spec(last_rpm, candidate_rpm, within_band),
        r >= candidate_rpm,
        last_rpm matches Some(l) ==> (candidate_rpm < l && within_band ==> r == l),
        (last_rpm is None || !within_band) ==> r == candidate_rpm,
        last_rpm matches Some(l) ==> (candidate_rpm >= l ==> r == candidate_rpm),
{
    match last_rpm {
        Some(last) if candidate_rpm < last && within_band => last,
        _ => candidate_rpm,
    }
}

/// Within the band a lower candidate is held at the last speed, however far
/// below it the candidate is; outside the band, or without a last speed, or
/// for a candidate at or above the last speed, the candidate goes through.
pub proof fn lemma_hysteresis_holds_within_band(last: u32, candidate_rpm: u32, within_band: bool)
    ensures
        candidate_rpm < last && within_band ==> hysteresis_spec(Some(last), candidate_rpm, within_band)
            == last,
        !within_band ==> hysteresis_spec(Some(last), candidate_rpm, within_band) == candidate_rpm,
        candidate_rpm >= last ==> hysteresis_spec(Some(last), candidate_rpm, within_band)
            == candidate_rpm,
        hysteresis_spec(None, candidate_rpm, within_band) == candidate_rpm,
{
}

/// Hysteresis never lowers the speed by itself, and a rising candidate always
/// goes through.
pub proof fn lemma_hysteresis_only_holds(last_rpm: Option<u32>, candidate_rpm: u32, within_band: bool)
    ensures
        hysteresis_spec(last_rpm, candidate_rpm, within_band) >= candidate_rpm,
        hysteresis_spec(last_rpm, candidate_rpm, within_band) == candidate_rpm
            || last_rpm == Some(hysteresis_spec(last_rpm, candidate_rpm, within_band)),
        (last_rpm matches Some(l) && candidate_rpm >= l) ==> hysteresis_spec(
            last_rpm,
            candidate_rpm,
            within_band,
        ) == candidate_rpm,
        !within_band ==> hysteresis_spec(last_rpm, candidate_rpm, within_band) == candidate_rpm,
{
}

} // verus!
