//! The words of the control window: quoting for the privilege prompt, sensor
//! and group names, and the target choices with their tokens.
use vstd::prelude::*;
use crate::app_settings::ModeKind;
use crate::config::{ReduceOp, TargetSelector};
use crate::sensor_profile::{SensorDefinition, SensorProfile, first_named};
use crate::text::{chars_of, has_prefix, push_char, starts_with, str_eq, trim, trim_str};

verus! {

/// `s` with every `c` replaced by `with`.
pub open spec fn replace_char(s: Seq<char>, c: char, with: Seq<char>) -> Seq<char>
    decreases s.len(),
{
    if s.len() == 0 {
        Seq::empty()
    } else {
        replace_char(s.drop_last(), c, with) + if s.last() == c {
            with
        } else {
            seq![s.last()]
        }
    }
}

/// Appends `v[from..]` with every `c` replaced by `with`.
fn push_replaced(out: &mut String, v: &[char], from: usize, c: char, with: &str)
    requires
        from <= v.len(),
    ensures
        final(out)@ == old(out)@ + replace_char(v@.skip(from as int), c, with@),
{
    let ghost start = out@;
    let mut i: usize = from;
    assert(v@.skip(from as int).take(0) == Seq::<char>::empty());
    while i < v.len()
        invariant
            from <= i <= v.len(),
            out@ == start + replace_char(v@.skip(from as int).take(i - from), c, with@),
        decreases v.len() - i,
    {
        let ghost t = v@.skip(from as int);
        assert(t.take(i - from + 1).drop_last() == t.take(i - from));
        assert(t.take(i - from + 1).last() == v@[i as int]);
        if v[i] == c {
            out.append(with);
        } else {
            push_char(out, v[i]);
            assert(out@ == start + replace_char(t.take(i - from), c, with@) + seq![v@[i as int]]);
        }
        i = i + 1;
    }
    assert(v@.skip(from as int).take(v.len() - from) == v@.skip(from as int));
}

/// Appends `v[from..]`.
fn push_suffix(out: &mut String, v: &[char], from: usize)
    requires
        from <= v.len(),
    ensures
        final(out)@ == old(out)@ + v@.skip(from as int),
{
    let ghost start = out@;
    let mut i: usize = from;
    while i < v.len()
        invariant
            from <= i <= v.len(),
            out@ == start + v@.subrange(from as int, i as int),
        decreases v.len() - i,
    {
        assert(v@.subrange(from as int, i + 1) == v@.subrange(from as int, i as int).push(v@[i as int]));
        push_char(out, v[i]);
        i = i + 1;
    }
    assert(v@.subrange(from as int, v.len() as int) == v@.skip(from as int));
}

/// A string quoted for a POSIX shell: in single quotes, each single quote
/// written as `'\''`.
pub fn shell_quote(value: &str) -> (r: String)
    ensures
        r@ == "'"@ + replace_char(value@, '\'', "'\\''"@) + "'"@,
{
    let v = chars_of(value);
    let mut s = "'".to_owned();
    assert(v@.skip(0) == v@);
    push_replaced(&mut s, v.as_slice(), 0, '\'', "'\\''");
    s.append("'");
    s
}

/// A string escaped for an AppleScript string literal: backslashes doubled,
/// then double quotes preceded by a backslash.
pub fn applescript_escape(value: &str) -> (r: String)
    ensures
        r@ == replace_char(replace_char(value@, '\\', "\\\\"@), '"', "\\\""@),
{
    let v = chars_of(value);
    let mut once = String::new();
    assert(v@.skip(0) == v@);
    push_replaced(&mut once, v.as_slice(), 0, '\\', "\\\\");
    let w = chars_of(once.as_str());
    let mut twice = String::new();
    assert(w@.skip(0) == w@);
    push_replaced(&mut twice, w.as_slice(), 0, '"', "\\\"");
    twice
}

/// A sensor label for people: `p_core_N` reads `P-core N`, `e_core_N` reads
/// `E-core N`, and otherwise underscores read as spaces.
pub open spec fn display_label_spec(label: Seq<char>) -> Seq<char> {
    if has_prefix(label, "p_core_"@) {
        "P-core "@ + label.skip(7)
    } else if has_prefix(label, "e_core_"@) {
        "E-core "@ + label.skip(7)
    } else {
        replace_char(label, '_', " "@)
    }
}

pub fn display_sensor_label(label: &str) -> (r: String)
    ensures
        r@ == display_label_spec(label@),
{
    let v = chars_of(label);
    let p = chars_of("p_core_");
    let e = chars_of("e_core_");
    proof {
        reveal_strlit("p_core_");
        reveal_strlit("e_core_");
    }
    if starts_with(v.as_slice(), p.as_slice()) {
        let mut s = "P-core ".to_owned();
        push_suffix(&mut s, v.as_slice(), 7);
        return s;
    }
    if starts_with(v.as_slice(), e.as_slice()) {
        let mut s = "E-core ".to_owned();
        push_suffix(&mut s, v.as_slice(), 7);
        return s;
    }
    let mut s = String::new();
    assert(v@.skip(0) == v@);
    push_replaced(&mut s, v.as_slice(), 0, '_', " ");
    s
}


/// The name of a sensor group for people.
pub open spec fn group_label_spec(group: Seq<char>) -> Seq<char> {
    if group == "all_cpu_candidates"@ {
        "Hottest CPU core"@
    } else if group == "cpu_p_candidates"@ {
        "Hottest P-core"@
    } else if group == "cpu_e_candidates"@ {
        "Hottest E-core"@
    } else {
        "Sensor group"@
    }
}

pub fn group_label(group: &str) -> (r: &'static str)
    ensures
        r@ == group_label_spec(group@),
{
    if str_eq(group, "all_cpu_candidates") {
        "Hottest CPU core"
    } else if str_eq(group, "cpu_p_candidates") {
        "Hottest P-core"
    } else if str_eq(group, "cpu_e_candidates") {
        "Hottest E-core"
    } else {
        "Sensor group"
    }
}

/// The token that identifies a target among the choices: its group, else its
/// sensor, else the all-cores group.
pub open spec fn selection_token_spec(t: TargetSelector) -> Seq<char> {
    match t.group {
        Some(g) => "group:"@ + g@,
        None => match t.sensor {
            Some(s) => "sensor:"@ + s@,
            None => "group:all_cpu_candidates"@,
        },
    }
}

pub fn target_selection_token(target: &TargetSelector) -> (r: String)
    ensures
        r@ == selection_token_spec(*target),
{
    if let Some(group) = &target.group {
        let mut s = "group:".to_owned();
        s.append(group.as_str());
        s
    } else if let Some(sensor) = &target.sensor {
        let mut s = "sensor:".to_owned();
        s.append(sensor.as_str());
        s
    } else {
        "group:all_cpu_candidates".to_owned()
    }
}

/// A sensor of a profile as a choice label: its readable label, then its key
/// in brackets.
pub open spec fn sensor_choice_label(d: SensorDefinition) -> Seq<char> {
    display_label_spec(d.label@) + " ("@ + d.key@ + ")"@
}

fn sensor_choice_text(d: SensorDefinition) -> (r: String)
    ensures
        r@ == sensor_choice_label(d),
{
    let mut s = display_sensor_label(d.label);
    s.append(" (");
    s.append(d.key);
    s.append(")");
    s
}

/// The label of the current target for people.
pub open spec fn selection_label_spec(t: TargetSelector, profile: Option<&SensorProfile>) -> Seq<char> {
    match t.group {
        Some(g) => group_label_spec(g@),
        None => match t.sensor {
            Some(s) => match profile {
                Some(p) => match first_named(p.sensors@, s@) {
                    Some(d) => sensor_choice_label(d),
                    None => s@,
                },
                None => s@,
            },
            None => "Select component"@,
        },
    }
}

pub fn target_selection_label(target: &TargetSelector, profile: Option<&SensorProfile>) -> (r: String)
    ensures
        r@ == selection_label_spec(*target, profile),
{
    if let Some(group) = &target.group {
        group_label(group.as_str()).to_owned()
    } else if let Some(sensor) = &target.sensor {
        if let Some(profile) = profile {
            if let Some(d) = profile.find_sensor(sensor.as_str()) {
                return sensor_choice_text(d);
            }
        }
        sensor.clone()
    } else {
        "Select component".to_owned()
    }
}

/// A choice as plain values: its token and its label.
pub open spec fn choice_view(c: (String, String)) -> (Seq<char>, Seq<char>) {
    (c.0@, c.1@)
}

/// The three group choices.
pub open spec fn group_choices() -> Seq<(Seq<char>, Seq<char>)> {
    seq![
        ("group:all_cpu_candidates"@, "Hottest CPU core"@),
        ("group:cpu_p_candidates"@, "Hottest P-core"@),
        ("group:cpu_e_candidates"@, "Hottest E-core"@),
    ]
}

/// One choice per sensor of the profile.
pub open spec fn sensor_choices(sensors: Seq<SensorDefinition>) -> Seq<(Seq<char>, Seq<char>)> {
    sensors.map_values(|d: SensorDefinition| ("sensor:"@ + d.label@, sensor_choice_label(d)))
}

/// Some choice of `choices` has the token `token`.
pub open spec fn has_token(choices: Seq<(Seq<char>, Seq<char>)>, token: Seq<char>) -> bool {
    exists|i: int| 0 <= i < choices.len() && (#[trigger] choices[i]).0 == token
}

/// The target choices: the groups, the profile's sensors, and, when the target
/// is a sensor whose token is not among those, that sensor as a custom choice.
pub open spec fn selection_options_spec(profile: Option<&SensorProfile>, t: TargetSelector) -> Seq<
    (Seq<char>, Seq<char>),
> {
    let base = group_choices() + match profile {
        Some(p) => sensor_choices(p.sensors@),
        None => Seq::empty(),
    };
    match t.sensor {
        Some(s) => {
            let token = "sensor:"@ + s@;
            if has_token(base, token) {
                base
            } else {
                base.push((token, "Custom sensor ("@ + s@ + ")"@))
            }
        },
        None => base,
    }
}

pub fn target_selection_options(profile: Option<&SensorProfile>, target: &TargetSelector) -> (r: Vec<
    (String, String),
>)
    ensures
        r@.map_values(|c: (String, String)| choice_view(c)) == selection_options_spec(profile, *target),
{
    let mut options: Vec<(String, String)> = Vec::new();
    options.push(("group:all_cpu_candidates".to_owned(), "Hottest CPU core".to_owned()));
    options.push(("group:cpu_p_candidates".to_owned(), "Hottest P-core".to_owned()));
    options.push(("group:cpu_e_candidates".to_owned(), "Hottest E-core".to_owned()));
    assert(options@.map_values(|c: (String, String)| choice_view(c)) =~= group_choices());
    let ghost sensors: Seq<SensorDefinition> = match profile {
        Some(p) => p.sensors@,
        None => Seq::empty(),
    };
    if let Some(profile) = profile {
        let mut i: usize = 0;
        while i < profile.sensors.len()
            invariant
                i <= profile.sensors.len(),
                sensors == profile.sensors@,
                options@.len() == 3 + i,
                options@.map_values(|c: (String, String)| choice_view(c)) == group_choices()
                    + sensor_choices(sensors.take(i as int)),
            decreases profile.sensors.len() - i,
        {
            let d = profile.sensors[i];
            let mut token = "sensor:".to_owned();
            token.append(d.label);
            let label = sensor_choice_text(d);
            let ghost before = options@;
            options.push((token, label));
            assert(sensors.take(i + 1) == sensors.take(i as int).push(d));
            assert(options@.map_values(|c: (String, String)| choice_view(c)) =~= before.map_values(
                |c: (String, String)| choice_view(c),
            ).push(("sensor:"@ + d.label@, sensor_choice_label(d))));
            assert(sensor_choices(sensors.take(i + 1)) =~= sensor_choices(sensors.take(i as int)).push(
                ("sensor:"@ + d.label@, sensor_choice_label(d)),
            ));
            i = i + 1;
        }
        assert(sensors.take(profile.sensors.len() as int) == sensors);
        assert(options@.map_values(|c: (String, String)| choice_view(c)) == group_choices() + sensor_choices(profile.sensors@));
    } else {
        assert(sensor_choices(sensors) =~= Seq::<(Seq<char>, Seq<char>)>::empty());
        assert(group_choices() + Seq::<(Seq<char>, Seq<char>)>::empty() =~= group_choices());
    }
    let ghost base = options@.map_values(|c: (String, String)| choice_view(c));
    let ghost spec_base = group_choices() + match profile {
        Some(p) => sensor_choices(p.sensors@),
        None => Seq::empty(),
    };
    assert(base == spec_base);
    if let Some(sensor) = &target.sensor {
        let mut token = "sensor:".to_owned();
        token.append(sensor.as_str());
        let mut found = false;
        let mut k: usize = 0;
        while k < options.len()
            invariant
                k <= options.len(),
                base == options@.map_values(|c: (String, String)| choice_view(c)),
                found == has_token(base.take(k as int), token@),
            decreases options.len() - k,
        {
            assert(base[k as int] == choice_view(options@[k as int]));
            assert(base.take(k + 1) == base.take(k as int).push(base[k as int]));
            if options[k].0 == token {
                found = true;
                assert(base.take(k + 1)[k as int].0 == token@);
            } else {
                proof {
                    if has_token(base.take(k + 1), token@) {
                        let j = choose|j: int| 0 <= j < k + 1 && (#[trigger] base.take(k + 1)[j]).0 == token@;
                        assert(base.take(k as int)[j].0 == token@);
                    }
                }
            }

            k = k + 1;
        }
        if !found {
            let mut label = "Custom sensor (".to_owned();
            label.append(sensor.as_str());
            label.append(")");
            options.push((token, label));
            assert(options@.map_values(|c: (String, String)| choice_view(c)) =~= base.push(
                choice_view(options@.last()),
            ));
        }
        assert(base.take(base.len() as int) == base);
    }
    options
}

/// `after` is `before` with the choice `selection` applied: a `group:` token
/// selects that group (maximum of its sensors), a `sensor:` token selects that
/// sensor (keeping the reduction), anything else changes nothing.
pub open spec fn selection_applied(before: TargetSelector, after: TargetSelector, selection: Seq<char>) -> bool {
    if has_prefix(selection, "group:"@) {
        &&& after.group matches Some(g) && g@ == selection.skip(6)
        &&& after.sensor is None
        &&& after.reduce == ReduceOp::Max
    } else if has_prefix(selection, "sensor:"@) {
        &&& after.sensor matches Some(s) && s@ == selection.skip(7)
        &&& after.group is None
        &&& after.reduce == before.reduce
    } else {
        after == before
    }
}

/// The suffix `v[from..]` as a string.
fn suffix_string(v: &[char], from: usize) -> (r: String)
    requires
        from <= v.len(),
    ensures
        r@ == v@.skip(from as int),
{
    let mut s = String::new();
    push_suffix(&mut s, v, from);
    s
}

pub fn apply_target_selection(target: &mut TargetSelector, selection: &str)
    ensures
        selection_applied(*old(target), *final(target), selection@),
{
    let v = chars_of(selection);
    let g = chars_of("group:");
    let s = chars_of("sensor:");
    proof {
        reveal_strlit("group:");
        reveal_strlit("sensor:");
    }
    if starts_with(v.as_slice(), g.as_slice()) {
        target.group = Some(suffix_string(v.as_slice(), 6));
        target.sensor = None;
        target.reduce = ReduceOp::Max;
    } else if starts_with(v.as_slice(), s.as_slice()) {
        target.sensor = Some(suffix_string(v.as_slice(), 7));
        target.group = None;
    }
}

/// Choosing a choice and reading back the token gives the choice: for any
/// selection that starts with `group:` or `sensor:`, the token of the target
/// it produces is the selection itself.
pub proof fn lemma_selection_token_round_trip(
    before: TargetSelector,
    after: TargetSelector,
    selection: Seq<char>,
)
    requires
        has_prefix(selection, "group:"@) || has_prefix(selection, "sensor:"@),
        selection_applied(before, after, selection),
    ensures
        selection_token_spec(after) == selection,
{
    reveal_strlit("group:");
    reveal_strlit("sensor:");
    if has_prefix(selection, "group:"@) {
        assert(selection.take(6) + selection.skip(6) =~= selection);
    } else {
        assert(selection.take(7) + selection.skip(7) =~= selection);
    }
}

/// The three ways a fan can be run from the window.
#[derive(Clone, Copy, Debug, PartialEq, Eq, Structural)]
pub enum FanUiMode {
    Adaptive,
    System,
    MaxAlways,
}

pub open spec fn fan_ui_mode_text(mode: FanUiMode) -> Seq<char> {
    match mode {
        FanUiMode::Adaptive => "Adaptive"@,
        FanUiMode::System => "System"@,
        FanUiMode::MaxAlways => "Max"@,
    }
}

pub fn fan_ui_mode_label(mode: FanUiMode) -> (r: &'static str)
    ensures
        r@ == fan_ui_mode_text(mode),
{
    match mode {
        FanUiMode::Adaptive => "Adaptive",
        FanUiMode::System => "System",
        FanUiMode::MaxAlways => "Max",
    }
}

/// The window's mode for a fan's saved control: automatic control shows as
/// System, maximum as Max, everything else as Adaptive.
pub fn fan_ui_mode_from_kind(kind: ModeKind) -> (r: FanUiMode)
    ensures
        r == (match kind {
            ModeKind::Auto => FanUiMode::System,
            ModeKind::Max => FanUiMode::MaxAlways,
            _ => FanUiMode::Adaptive,
        }),
{
    match kind {
        ModeKind::Adaptive => FanUiMode::Adaptive,
        ModeKind::Auto => FanUiMode::System,
        ModeKind::Max => FanUiMode::MaxAlways,
        _ => FanUiMode::Adaptive,
    }
}

/// What a privileged command reported: on success its trimmed output, or its
/// trimmed error output when the output is blank; on failure the error output
/// in a message.
pub fn privileged_command_result(success: bool, stdout: &str, stderr: &str) -> (r: Result<String, String>)
    ensures
        success && trim(stdout@).len() > 0 ==> (r matches Ok(s) && s@ == trim(stdout@)),
        success && trim(stdout@).len() == 0 ==> (r matches Ok(s) && s@ == trim(stderr@)),
        !success ==> (r matches Err(m) && m@ == "macOS privilege prompt failed: "@ + trim(stderr@)),
{
    let out = trim_str(stdout);
    let err = trim_str(stderr);
    if success {
        if !out.as_str().is_empty() {
            Ok(out)
        } else {
            Ok(err)
        }
    } else {
        let mut m = "macOS privilege prompt failed: ".to_owned();
        m.append(err.as_str());
        Err(m)
    }
}

/// Installing or removing the helper.
#[derive(Clone, Copy, Debug, PartialEq, Eq, Structural)]
pub enum HelperAction {
    Install,
    Uninstall,
}

/// The message after a helper action run through the privilege prompt: what
/// the command printed, or a plain statement when it printed nothing.
pub fn helper_action_message(action: HelperAction, output: &str) -> (r: String)
    ensures
        trim(output@).len() > 0 ==> r@ == trim(output@),
        trim(output@).len() == 0 ==> r@ == (match action {
            HelperAction::Install => "Helper installed"@,
            HelperAction::Uninstall => "Helper removed"@,
        }),
{
    let t = trim_str(output);
    if t.as_str().is_empty() {
        match action {
            HelperAction::Install => "Helper installed".to_owned(),
            HelperAction::Uninstall => "Helper removed".to_owned(),
        }
    } else {
        t
    }
}

/// The command-line flag that runs a helper action with privileges.
pub fn helper_action_flag(action: HelperAction) -> (r: &'static str)
    ensures
        r@ == (match action {
            HelperAction::Install => "--install-helper"@,
            HelperAction::Uninstall => "--uninstall-helper"@,
        }),
{
    match action {
        HelperAction::Install => "--install-helper",
        HelperAction::Uninstall => "--uninstall-helper",
    }
}

/// What is known of the helper's installation.
#[derive(Clone, Copy, Debug)]
pub struct HelperUiStatus {
    pub installed_binary: bool,
    pub launch_daemon_installed: bool,
    pub socket_present: bool,
    pub reachable: bool,
}

impl Default for HelperUiStatus {
    /// Nothing known to be present.
    fn default() -> (r: Self)
        ensures
            !r.installed_binary && !r.launch_daemon_installed && !r.socket_present && !r.reachable,
    {
        HelperUiStatus {
            installed_binary: false,
            launch_daemon_installed: false,
            socket_present: false,
            reachable: false,
        }
    }
}

impl HelperUiStatus {
    /// Some part of the helper is present.
    pub fn is_installed(&self) -> (r: bool)
        ensures
            r == (self.installed_binary || self.launch_daemon_installed || self.socket_present),
    {
        self.installed_binary || self.launch_daemon_installed || self.socket_present
    }

    /// The helper's state in one sentence.
    pub fn summary(&self) -> (r: &'static str)
        ensures
            self.reachable ==> r@ == "Helper is running"@,
            !self.reachable && (self.installed_binary || self.launch_daemon_installed
                || self.socket_present) ==> r@ == "Helper is installed but not responding"@,
            !self.reachable && !(self.installed_binary || self.launch_daemon_installed
                || self.socket_present) ==> r@ == "Helper is not installed"@,
    {
        if self.reachable {
            "Helper is running"
        } else if self.is_installed() {
            "Helper is installed but not responding"
        } else {
            "Helper is not installed"
        }
    }
}

} // verus!
