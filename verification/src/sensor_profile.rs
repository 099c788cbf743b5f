//! Built-in sensor tables for known Mac models, and lookups in them.
use vstd::prelude::*;
use crate::text::str_eq;

verus! {

/// What a temperature sensor is thought to measure.
#[derive(Clone, Copy, Debug, PartialEq, Eq, Structural)]
pub enum SensorKind {
    CpuPerformanceCandidate,
    CpuEfficiencyCandidate,
}

impl SensorKind {
    pub open spec fn label_text(self) -> Seq<char> {
        match self {
            SensorKind::CpuPerformanceCandidate => "P-core candidate"@,
            SensorKind::CpuEfficiencyCandidate => "E-core candidate"@,
        }
    }

    /// The kind in words.
    pub fn label(&self) -> (r: &'static str)
        ensures
            r@ == self.label_text(),
    {
        match self {
            SensorKind::CpuPerformanceCandidate => "P-core candidate",
            SensorKind::CpuEfficiencyCandidate => "E-core candidate",
        }
    }
}

/// How sure the table is of a sensor's meaning.
#[derive(Clone, Copy, Debug, PartialEq, Eq, Structural)]
pub enum Confidence {
    Medium,
    Low,
}

impl Confidence {
    pub open spec fn label_text(self) -> Seq<char> {
        match self {
            Confidence::Medium => "medium"@,
            Confidence::Low => "low"@,
        }
    }

    /// The confidence in words.
    pub fn label(&self) -> (r: &'static str)
        ensures
            r@ == self.label_text(),
    {
        match self {
            Confidence::Medium => "medium",
            Confidence::Low => "low",
        }
    }
}

/// One temperature sensor: a readable name and its controller key.
#[derive(Clone, Copy)]
pub struct SensorDefinition {
    pub label: &'static str,
    pub key: &'static str,
    pub kind: SensorKind,
    pub confidence: Confidence,
}

/// A sensor definition as plain values.
pub open spec fn definition_view(d: SensorDefinition) -> (Seq<char>, Seq<char>, SensorKind, Confidence) {
    (d.label@, d.key@, d.kind, d.confidence)
}

/// The sensors known for one Mac model.
pub struct SensorProfile {
    pub model_identifier: &'static str,
    pub title: &'static str,
    pub sensors: Vec<SensorDefinition>,
    pub notes: Vec<&'static str>,
}

/// The sensor is called `name` by its label or by its key.
pub open spec fn is_named(d: SensorDefinition, name: Seq<char>) -> bool {
    d.label@ == name || d.key@ == name
}

/// The first sensor of `s` called `name`.
pub open spec fn first_named(s: Seq<SensorDefinition>, name: Seq<char>) -> Option<SensorDefinition>
    decreases s.len(),
{
    if s.len() == 0 {
        None
    } else if is_named(s[0], name) {
        Some(s[0])
    } else {
        first_named(s.drop_first(), name)
    }
}

/// The sensors of `s` of kind `k`, in order.
pub open spec fn of_kind(s: Seq<SensorDefinition>, k: SensorKind) -> Seq<SensorDefinition>
    decreases s.len(),
{
    if s.len() == 0 {
        Seq::empty()
    } else if s.last().kind == k {
        of_kind(s.drop_last(), k).push(s.last())
    } else {
        of_kind(s.drop_last(), k)
    }
}

/// The sensors that a group name stands for, or `None` for an unknown group.
pub open spec fn group_members(s: Seq<SensorDefinition>, group: Seq<char>) -> Option<
    Seq<SensorDefinition>,
> {
    if group == "all_cpu_candidates"@ {
        Some(s)
    } else if group == "cpu_p_candidates"@ {
        Some(of_kind(s, SensorKind::CpuPerformanceCandidate))
    } else if group == "cpu_e_candidates"@ {
        Some(of_kind(s, SensorKind::CpuEfficiencyCandidate))
    } else {
        None
    }
}

fn sensors_of_kind(s: &Vec<SensorDefinition>, k: SensorKind) -> (r: Vec<SensorDefinition>)
    ensures
        r@ == of_kind(s@, k),
{
    let mut r: Vec<SensorDefinition> = Vec::new();
    let mut i: usize = 0;
    while i < s.len()
        invariant
            i <= s.len(),
            r@ == of_kind(s@.take(i as int), k),
        decreases s.len() - i,
    {
        assert(s@.take(i + 1).drop_last() == s@.take(i as int));
        if s[i].kind == k {
            r.push(s[i]);
        }
        i = i + 1;
    }
    assert(s@.take(s.len() as int) == s@);
    r
}

impl SensorProfile {
    /// The first sensor called `label_or_key` by label or key.
    pub fn find_sensor(&self, label_or_key: &str) -> (r: Option<SensorDefinition>)
        ensures
            r == first_named(self.sensors@, label_or_key@),
    {
        let mut i: usize = 0;
        assert(self.sensors@.skip(0) == self.sensors@);
        while i < self.sensors.len()
            invariant
                i <= self.sensors.len(),
                first_named(self.sensors@, label_or_key@) == first_named(
                    self.sensors@.skip(i as int),
                    label_or_key@,
                ),
            decreases self.sensors.len() - i,
        {
            let d = self.sensors[i];
            assert(self.sensors@.skip(i as int)[0] == d);
            if str_eq(d.label, label_or_key) || str_eq(d.key, label_or_key) {
                return Some(d);
            }
            assert(self.sensors@.skip(i as int).drop_first() == self.sensors@.skip(i + 1));
            i = i + 1;
        }
        None
    }

    /// The sensors of a named group: all of them, the performance-core or the
    /// efficiency-core candidates; `None` for an unknown group.
    pub fn sensors_for_group(&self, group: &str) -> (r: Option<Vec<SensorDefinition>>)
        ensures
            match r {
                Some(v) => group_members(self.sensors@, group@) == Some(v@),
                None => group_members(self.sensors@, group@) is None,
            },
    {
        if str_eq(group, "all_cpu_candidates") {
            Some(self.sensors.clone())
        } else if str_eq(group, "cpu_p_candidates") {
            Some(sensors_of_kind(&self.sensors, SensorKind::CpuPerformanceCandidate))
        } else if str_eq(group, "cpu_e_candidates") {
            Some(sensors_of_kind(&self.sensors, SensorKind::CpuEfficiencyCandidate))
        } else {
            None
        }
    }

    /// The group names that `sensors_for_group` knows.
    pub fn supported_groups(&self) -> (r: Vec<&'static str>)
        ensures
            r@.map_values(|s: &'static str| s@) == seq![
                "all_cpu_candidates"@,
                "cpu_p_candidates"@,
                "cpu_e_candidates"@,
            ],
    {
        let r = vec!["all_cpu_candidates", "cpu_p_candidates", "cpu_e_candidates"];
        assert(r@.map_values(|s: &'static str| s@) =~= seq![
            "all_cpu_candidates"@,
            "cpu_p_candidates"@,
            "cpu_e_candidates"@,
        ]);
        r
    }
}


/// The sensors of the 14-core M3 Max (model `Mac15,10`), as plain values.
pub open spec fn m3_max_14c_sensor_table() -> Seq<(Seq<char>, Seq<char>, SensorKind, Confidence)> {
    seq![
        ("e_core_1"@, "Te05"@, SensorKind::CpuEfficiencyCandidate, Confidence::Medium),
        ("e_core_2"@, "Te0L"@, SensorKind::CpuEfficiencyCandidate, Confidence::Medium),
        ("e_core_3"@, "Te0P"@, SensorKind::CpuEfficiencyCandidate, Confidence::Low),
        ("e_core_4"@, "Te0S"@, SensorKind::CpuEfficiencyCandidate, Confidence::Low),
        ("p_core_1"@, "Tf04"@, SensorKind::CpuPerformanceCandidate, Confidence::Medium),
        ("p_core_2"@, "Tf09"@, SensorKind::CpuPerformanceCandidate, Confidence::Medium),
        ("p_core_3"@, "Tf0A"@, SensorKind::CpuPerformanceCandidate, Confidence::Medium),
        ("p_core_4"@, "Tf0B"@, SensorKind::CpuPerformanceCandidate, Confidence::Medium),
        ("p_core_5"@, "Tf0D"@, SensorKind::CpuPerformanceCandidate, Confidence::Medium),
        ("p_core_6"@, "Tf0E"@, SensorKind::CpuPerformanceCandidate, Confidence::Medium),
        ("p_core_7"@, "Tf44"@, SensorKind::CpuPerformanceCandidate, Confidence::Medium),
        ("p_core_8"@, "Tf49"@, SensorKind::CpuPerformanceCandidate, Confidence::Medium),
        ("p_core_9"@, "Tf4A"@, SensorKind::CpuPerformanceCandidate, Confidence::Medium),
        ("p_core_10"@, "Tf4B"@, SensorKind::CpuPerformanceCandidate, Confidence::Medium),
    ]
}

/// The notes that come with the M3 Max profile.
pub open spec fn m3_max_14c_notes() -> Seq<Seq<char>> {
    seq![
        "This profile is community-derived for the 14-core M3 Max and should be validated with `probe` on your exact machine."@,
        "E-core keys on M3 Max are less certain than P-core keys; low-confidence sensors should be treated as best effort."@,
        "If a label looks wrong on your workload, you can target the raw 4-character SMC key directly in the YAML config."@,
    ]
}

fn m3_max_14c_profile() -> (p: SensorProfile)
    ensures
        p.model_identifier@ == "Mac15,10"@,
        p.title@ == "MacBookPro20,4 / Apple M3 Max (14-core CPU)"@,
        p.sensors@.map_values(|d: SensorDefinition| definition_view(d)) == m3_max_14c_sensor_table(),
        p.notes@.map_values(|n: &'static str| n@) == m3_max_14c_notes(),
{
    let sensors = vec![
        SensorDefinition {
            label: "e_core_1",
            key: "Te05",
            kind: SensorKind::CpuEfficiencyCandidate,
            confidence: Confidence::Medium,
        },
        SensorDefinition {
            label: "e_core_2",
            key: "Te0L",
            kind: SensorKind::CpuEfficiencyCandidate,
            confidence: Confidence::Medium,
        },
        SensorDefinition {
            label: "e_core_3",
            key: "Te0P",
            kind: SensorKind::CpuEfficiencyCandidate,
            confidence: Confidence::Low,
        },
        SensorDefinition {
            label: "e_core_4",
            key: "Te0S",
            kind: SensorKind::CpuEfficiencyCandidate,
            confidence: Confidence::Low,
        },
        SensorDefinition {
            label: "p_core_1",
            key: "Tf04",
            kind: SensorKind::CpuPerformanceCandidate,
            confidence: Confidence::Medium,
        },
        SensorDefinition {
            label: "p_core_2",
            key: "Tf09",
            kind: SensorKind::CpuPerformanceCandidate,
            confidence: Confidence::Medium,
        },
        SensorDefinition {
            label: "p_core_3",
            key: "Tf0A",
            kind: SensorKind::CpuPerformanceCandidate,
            confidence: Confidence::Medium,
        },
        SensorDefinition {
            label: "p_core_4",
            key: "Tf0B",
            kind: SensorKind::CpuPerformanceCandidate,
            confidence: Confidence::Medium,
        },
        SensorDefinition {
            label: "p_core_5",
            key: "Tf0D",
            kind: SensorKind::CpuPerformanceCandidate,
            confidence: Confidence::Medium,
        },
        SensorDefinition {
            label: "p_core_6",
            key: "Tf0E",
            kind: SensorKind::CpuPerformanceCandidate,
            confidence: Confidence::Medium,
        },
        SensorDefinition {
            label: "p_core_7",
            key: "Tf44",
            kind: SensorKind::CpuPerformanceCandidate,
            confidence: Confidence::Medium,
        },
        SensorDefinition {
            label: "p_core_8",
            key: "Tf49",
            kind: SensorKind::CpuPerformanceCandidate,
            confidence: Confidence::Medium,
        },
        SensorDefinition {
            label: "p_core_9",
            key: "Tf4A",
            kind: SensorKind::CpuPerformanceCandidate,
            confidence: Confidence::Medium,
        },
        SensorDefinition {
            label: "p_core_10",
            key: "Tf4B",
            kind: SensorKind::CpuPerformanceCandidate,
            confidence: Confidence::Medium,
        },
    ];
    let notes = vec![
        "This profile is community-derived for the 14-core M3 Max and should be validated with `probe` on your exact machine.",
        "E-core keys on M3 Max are less certain than P-core keys; low-confidence sensors should be treated as best effort.",
        "If a label looks wrong on your workload, you can target the raw 4-character SMC key directly in the YAML config.",
    ];
    assert(sensors@.map_values(|d: SensorDefinition| definition_view(d)) =~= m3_max_14c_sensor_table());
    assert(notes@.map_values(|n: &'static str| n@) =~= m3_max_14c_notes());
    SensorProfile {
        model_identifier: "Mac15,10",
        title: "MacBookPro20,4 / Apple M3 Max (14-core CPU)",
        sensors,
        notes,
    }
}

/// The built-in profile of a Mac model, if there is one.
pub fn profile_for_model(model_identifier: &str) -> (r: Option<SensorProfile>)
    ensures
        r is Some <==> model_identifier@ == "Mac15,10"@,
        r matches Some(p) ==> {
            &&& p.model_identifier@ == "Mac15,10"@
            &&& p.title@ == "MacBookPro20,4 / Apple M3 Max (14-core CPU)"@
            &&& p.sensors@.map_values(|d: SensorDefinition| definition_view(d)) == m3_max_14c_sensor_table()
            &&& p.notes@.map_values(|n: &'static str| n@) == m3_max_14c_notes()
        },
{
    if str_eq(model_identifier, "Mac15,10") {
        Some(m3_max_14c_profile())
    } else {
        None
    }
}

} // verus!
