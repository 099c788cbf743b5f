//! Turning a target selection into the controller keys to read.
use vstd::prelude::*;
use crate::config::TargetSelector;
use crate::sensor_profile::{
    SensorDefinition, SensorProfile, first_named, group_members,
};

verus! {

/// A sensor to read: its name for people and its controller key.
#[derive(Clone)]
pub struct ResolvedSensor {
    pub label: String,
    pub key: String,
}

/// A resolved sensor as plain values.
pub open spec fn resolved_view(r: ResolvedSensor) -> (Seq<char>, Seq<char>) {
    (r.label@, r.key@)
}

/// The names a sensor definition resolves to.
pub open spec fn definition_names(d: SensorDefinition) -> (Seq<char>, Seq<char>) {
    (d.label@, d.key@)
}

/// Why a target does not resolve to sensors.
pub enum ResolveError {
    /// A sensor name is neither in the profile nor a raw 4-byte key.
    UnknownSensor { name: String },
    /// The target names no group.
    MissingGroup,
    /// The target names a group but the model has no built-in profile.
    NoProfile { group: String },
    /// The profile does not know the group.
    UnknownGroup { group: String },
}

impl ResolveError {
    pub open spec fn text(&self) -> Seq<char> {
        match self {
            ResolveError::UnknownSensor { name } => "sensor `"@ + name@
                + "` was not found in the built-in profile and is not a raw 4-character SMC key"@,
            ResolveError::MissingGroup => "config target group is missing"@,
            ResolveError::NoProfile { group } => "no built-in profile available for group `"@
                + group@ + "`; use a raw 4-character sensor key instead"@,
            ResolveError::UnknownGroup { group } => "unknown profile group `"@ + group@ + "`"@,
        }
    }

    pub fn message(&self) -> (r: String)
        ensures
            r@ == self.text(),
    {
        match self {
            ResolveError::UnknownSensor { name } => {
                let mut s = "sensor `".to_owned();
                s.append(name.as_str());
                s.append("` was not found in the built-in profile and is not a raw 4-character SMC key");
                s
            },
            ResolveError::MissingGroup => "config target group is missing".to_owned(),
            ResolveError::NoProfile { group } => {
                let mut s = "no built-in profile available for group `".to_owned();
                s.append(group.as_str());
                s.append("`; use a raw 4-character sensor key instead");
                s
            },
            ResolveError::UnknownGroup { group } => {
                let mut s = "unknown profile group `".to_owned();
                s.append(group.as_str());
                s.append("`");
                s
            },
        }
    }
}

fn resolve_definitions(defs: &Vec<SensorDefinition>) -> (r: Vec<ResolvedSensor>)
    ensures
        r@.map_values(|x: ResolvedSensor| resolved_view(x)) == defs@.map_values(
            |d: SensorDefinition| definition_names(d),
        ),
{
    let mut r: Vec<ResolvedSensor> = Vec::new();
    let mut i: usize = 0;
    while i < defs.len()
        invariant
            i <= defs.len(),
            r@.len() == i,
            r@.map_values(|x: ResolvedSensor| resolved_view(x)) == defs@.take(i as int).map_values(
                |d: SensorDefinition| definition_names(d),
            ),
        decreases defs.len() - i,
    {
        let d = defs[i];
        let ghost before = r@;
        r.push(ResolvedSensor { label: d.label.to_owned(), key: d.key.to_owned() });
        assert(defs@.take(i + 1) == defs@.take(i as int).push(d));
        assert forall|j: int| 0 <= j < i + 1 implies #[trigger] resolved_view(r@[j]) == definition_names(
            defs@.take(i + 1)[j],
        ) by {
            if j < i {
                assert(r@[j] == before[j]);
                assert(before.map_values(|x: ResolvedSensor| resolved_view(x))[j] == resolved_view(before[j]));
                assert(defs@.take(i as int).map_values(|d: SensorDefinition| definition_names(d))[j]
                    == definition_names(defs@.take(i as int)[j]));
            }
        }
        assert(r@.map_values(|x: ResolvedSensor| resolved_view(x)) =~= defs@.take(i + 1).map_values(
            |d: SensorDefinition| definition_names(d),
        ));
        i = i + 1;
    }
    assert(defs@.take(defs.len() as int) == defs@);
    r
}

/// Every sensor of a profile, in the profile's order.
pub fn resolve_profile_sensors(profile: &SensorProfile) -> (r: Vec<ResolvedSensor>)
    ensures
        r@.map_values(|x: ResolvedSensor| resolved_view(x)) == profile.sensors@.map_values(
            |d: SensorDefinition| definition_names(d),
        ),
{
    resolve_definitions(&profile.sensors)
}

/// What a sensor name resolves to: the profile's sensor of that label or key
/// if there is one, else the name itself when its UTF-8 form is 4 bytes long
/// (a raw key).
pub open spec fn resolve_sensor_spec(name: Seq<char>, profile: Option<&SensorProfile>) -> Option<
    (Seq<char>, Seq<char>),
> {
    let found = match profile {
        Some(p) => first_named(p.sensors@, name),
        None => None,
    };
    match found {
        Some(d) => Some(definition_names(d)),
        None => if vstd::utf8::encode_utf8(name).len() == 4 {
            Some((name, name))
        } else {
            None
        },
    }
}

/// A name of 4 UTF-8 bytes that no sensor of the profile is called by is a
/// raw controller key: it resolves to itself as label and key, with a profile
/// or without one. A sensor of the profile called by the name wins over that.
pub proof fn lemma_raw_keys_resolve_to_themselves(name: Seq<char>, profile: Option<&SensorProfile>)
    ensures
        vstd::utf8::encode_utf8(name).len() == 4 && (profile is None || first_named(
            profile.unwrap().sensors@,
            name,
        ) is None) ==> resolve_sensor_spec(name, profile) == Some((name, name)),
        profile matches Some(p) ==> (first_named(p.sensors@, name) matches Some(d)
            ==> resolve_sensor_spec(name, profile) == Some((d.label@, d.key@))),
        vstd::utf8::encode_utf8(name).len() != 4 && (profile is None || first_named(
            profile.unwrap().sensors@,
            name,
        ) is None) ==> resolve_sensor_spec(name, profile) is None,
{
}

pub fn resolve_sensor(label_or_key: &str, profile: Option<&SensorProfile>) -> (r: Result<
    ResolvedSensor,
    ResolveError,
>)
    ensures
        match resolve_sensor_spec(label_or_key@, profile) {
            Some(v) => r matches Ok(s) && resolved_view(s) == v,
            None => r matches Err(ResolveError::UnknownSensor { name }) && name@ == label_or_key@,
        },
        profile matches Some(p) ==> (first_named(p.sensors@, label_or_key@) matches Some(d) ==> (
        r matches Ok(s) && s.label@ == d.label@ && s.key@ == d.key@)),
        vstd::utf8::encode_utf8(label_or_key@).len() == 4 && (profile is None || first_named(
            profile.unwrap().sensors@,
            label_or_key@,
        ) is None) ==> (r matches Ok(s) && s.label@ == label_or_key@ && s.key@ == label_or_key@),
        vstd::utf8::encode_utf8(label_or_key@).len() != 4 && (profile is None || first_named(
            profile.unwrap().sensors@,
            label_or_key@,
        ) is None) ==> r is Err,
{
    if let Some(profile) = profile {
        if let Some(sensor) = profile.find_sensor(label_or_key) {
            return Ok(ResolvedSensor { label: sensor.label.to_owned(), key: sensor.key.to_owned() });
        }
    }
    if label_or_key.as_bytes().len() == 4 {
        return Ok(ResolvedSensor { label: label_or_key.to_owned(), key: label_or_key.to_owned() });
    }
    Err(ResolveError::UnknownSensor { name: label_or_key.to_owned() })
}

/// The sensors a target stands for: its one sensor, or the members of its
/// group in the model's profile.
pub fn resolve_target_sensors(target: &TargetSelector, profile: Option<&SensorProfile>) -> (r: Result<
    Vec<ResolvedSensor>,
    ResolveError,
>)
    ensures
        target.sensor matches Some(name) ==> match resolve_sensor_spec(name@, profile) {
            Some(v) => r matches Ok(s) && s@.len() == 1 && resolved_view(s@[0]) == v,
            None => r matches Err(ResolveError::UnknownSensor { name: n }) && n@ == name@,
        },
        target.sensor is None && target.group is None ==> r matches Err(ResolveError::MissingGroup),
        target.sensor is None && target.group is Some && profile is None ==> (r matches Err(
            ResolveError::NoProfile { group },
        ) && group@ == target.group.unwrap()@),
        target.sensor is None && target.group is Some && profile is Some ==> match group_members(
            profile.unwrap().sensors@,
            target.group.unwrap()@,
        ) {
            Some(members) => r matches Ok(s) && s@.map_values(|x: ResolvedSensor| resolved_view(x))
                == members.map_values(|d: SensorDefinition| definition_names(d)),
            None => r matches Err(ResolveError::UnknownGroup { group }) && group@
                == target.group.unwrap()@,
        },
{
    if let Some(sensor) = &target.sensor {
        let s = resolve_sensor(sensor.as_str(), profile)?;
        let mut v: Vec<ResolvedSensor> = Vec::new();
        v.push(s);
        return Ok(v);
    }
    let group = match &target.group {
        Some(g) => g,
        None => {
            return Err(ResolveError::MissingGroup);
        },
    };
    let profile = match profile {
        Some(p) => p,
        None => {
            return Err(ResolveError::NoProfile { group: group.clone() });
        },
    };
    match profile.sensors_for_group(group.as_str()) {
        Some(defs) => Ok(resolve_definitions(&defs)),
        None => Err(ResolveError::UnknownGroup { group: group.clone() }),
    }
}

} // verus!
