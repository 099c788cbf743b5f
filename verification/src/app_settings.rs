//! The saved per-fan settings, as far as they are not temperatures: labels,
//! which kind of control each fan gets, and how they follow the fans present.
use vstd::prelude::*;
use crate::config::{ReduceOp, TargetSelector};
use crate::text::{decimal, push_decimal, trim, trim_str};

verus! {

/// The kind of control a fan is set to.
#[derive(Clone, Copy, Debug, PartialEq, Eq, Structural)]
pub enum ModeKind {
    Adaptive,
    Auto,
    Max,
    Fixed,
    Curve,
}

/// The label a fan gets by default: `Fan ` and its number counted from 1.
pub open spec fn default_label_spec(index: nat) -> Seq<char> {
    "Fan "@ + decimal(index + 1)
}

pub fn default_fan_label(index: usize) -> (r: String)
    requires
        index < usize::MAX,
    ensures
        r@ == default_label_spec(index as nat),
{
    let mut s = "Fan ".to_owned();
    push_decimal(&mut s, index + 1);
    s
}

/// The refresh interval of settings that name none, in milliseconds.
pub fn default_refresh_interval_ms() -> (r: u64)
    ensures
        r == 1500,
{
    1_500
}

/// The target an adaptive fan follows by default: the hottest CPU core.
pub fn default_target_selector() -> (r: TargetSelector)
    ensures
        r.sensor is None,
        r.group matches Some(g) && g@ == "all_cpu_candidates"@,
        r.reduce == ReduceOp::Max,
{
    TargetSelector { sensor: None, group: Some("all_cpu_candidates".to_owned()), reduce: ReduceOp::Max }
}

/// A refresh interval of zero stands for the default.
pub fn normalized_refresh_interval(ms: u64) -> (r: u64)
    ensures
        r == (if ms == 0 { 1500 } else { ms }),
{
    if ms == 0 {
        default_refresh_interval_ms()
    } else {
        ms
    }
}

/// A blank label is saved as `Fan`.
pub fn normalized_label(label: &str) -> (r: String)
    ensures
        r@ == (if trim(label@).len() == 0 { "Fan"@ } else { label@ }),
{
    let t = trim_str(label);
    if t.as_str().is_empty() {
        "Fan".to_owned()
    } else {
        label.to_owned()
    }
}

/// What the sync keeps of a fan's settings.
pub struct FanSlot {
    pub label: String,
    pub kind: ModeKind,
}

/// A fan's settings after a sync: its label, and whether its control is to be
/// set to the suggested adaptive mode (otherwise it stays as it was).
pub struct SyncedFan {
    pub label: String,
    pub use_default_mode: bool,
}

/// The settings of fan `i` after syncing `slots` with the fans present.
pub open spec fn synced_spec(slots: Seq<FanSlot>, i: int) -> (Seq<char>, bool) {
    if i < slots.len() {
        (
            if trim(slots[i].label@).len() == 0 {
                default_label_spec(i as nat)
            } else {
                slots[i].label@
            },
            slots[i].kind == ModeKind::Fixed || slots[i].kind == ModeKind::Curve,
        )
    } else {
        (default_label_spec(i as nat), true)
    }
}

pub open spec fn synced_view(f: SyncedFan) -> (Seq<char>, bool) {
    (f.label@, f.use_default_mode)
}

/// One entry per fan present: existing entries keep their label unless it is
/// blank and keep their control unless it is a fixed speed or a custom curve;
/// entries beyond the fans are dropped; missing entries are added with the
/// default label and the adaptive mode.
pub fn sync_with_fans(slots: &[FanSlot], fan_count: usize) -> (r: Vec<SyncedFan>)
    requires
        fan_count < usize::MAX,
    ensures
        r@.len() == fan_count,
        forall|i: int| 0 <= i < fan_count ==> synced_view(#[trigger] r@[i]) == synced_spec(slots@, i),
        forall|i: int| 0 <= i < fan_count && i < slots@.len() ==> {
            &&& ((#[trigger] slots@[i]).kind == ModeKind::Adaptive || slots@[i].kind == ModeKind::Auto
                || slots@[i].kind == ModeKind::Max) ==> !r@[i].use_default_mode
            &&& (slots@[i].kind == ModeKind::Fixed || slots@[i].kind == ModeKind::Curve)
                ==> r@[i].use_default_mode
            &&& trim(slots@[i].label@).len() > 0 ==> r@[i].label@ == slots@[i].label@
            &&& trim(slots@[i].label@).len() == 0 ==> r@[i].label@ == "Fan "@ + decimal((i + 1) as nat)
        },
        forall|i: int| slots@.len() <= i < fan_count ==> (#[trigger] r@[i]).use_default_mode
            && r@[i].label@ == "Fan "@ + decimal((i + 1) as nat),
{
    let mut r: Vec<SyncedFan> = Vec::new();
    let mut i: usize = 0;
    while i < fan_count
        invariant
            i <= fan_count < usize::MAX,
            r@.len() == i,
            forall|k: int| 0 <= k < i ==> synced_view(#[trigger] r@[k]) == synced_spec(slots@, k),
        decreases fan_count - i,
    {
        if i < slots.len() {
            let slot = &slots[i];
            let t = trim_str(slot.label.as_str());
            let label = if t.as_str().is_empty() {
                default_fan_label(i)
            } else {
                slot.label.clone()
            };
            let use_default_mode = match slot.kind {
                ModeKind::Fixed | ModeKind::Curve => true,
                _ => false,
            };
            r.push(SyncedFan { label, use_default_mode });
        } else {
            r.push(SyncedFan { label: default_fan_label(i), use_default_mode: true });
        }
        i = i + 1;
    }
    r
}

/// A fan saved as adaptive, automatic or maximum keeps its control; one saved
/// with a fixed speed or a custom curve is set to the adaptive mode; new fans
/// get the adaptive mode; a label that is not blank is kept and a blank one
/// becomes `Fan ` and the fan's number from 1.
pub proof fn lemma_sync_keeps_supported_modes(slots: Seq<FanSlot>, i: int)
    requires
        0 <= i,
    ensures
        i < slots.len() && (slots[i].kind == ModeKind::Adaptive || slots[i].kind == ModeKind::Auto
            || slots[i].kind == ModeKind::Max) ==> !synced_spec(slots, i).1,
        i < slots.len() && (slots[i].kind == ModeKind::Fixed || slots[i].kind == ModeKind::Curve)
            ==> synced_spec(slots, i).1,
        i >= slots.len() ==> synced_spec(slots, i).1,
        i < slots.len() && trim(slots[i].label@).len() > 0 ==> synced_spec(slots, i).0
            == slots[i].label@,
        (i >= slots.len() || trim(slots[i].label@).len() == 0) ==> synced_spec(slots, i).0 == "Fan "@
            + decimal((i + 1) as nat),
{
}

/// Syncing twice with the same fans gives what syncing once gives: once a
/// fan's settings are synced, its label is not blank and its control is
/// neither a fixed speed nor a curve, so a second sync keeps both.
pub proof fn lemma_sync_idempotent(slots: Seq<FanSlot>, once: Seq<FanSlot>, fan_count: nat)
    requires
        once.len() == fan_count,
        forall|i: int| 0 <= i < fan_count ==> {
            let s = synced_spec(slots, i);
            &&& (#[trigger] once[i]).label@ == s.0
            &&& (s.1 ==> once[i].kind == ModeKind::Adaptive)
            &&& (!s.1 && i < slots.len() ==> once[i].kind == slots[i].kind)
        },
    ensures
        forall|i: int| 0 <= i < fan_count ==> #[trigger] synced_spec(once, i) == (once[i].label@, false),
{
    assert forall|i: int| 0 <= i < fan_count implies #[trigger] synced_spec(once, i) == (once[i].label@, false) by {
        let s = synced_spec(slots, i);
        assert(once[i].label@ == s.0);
        lemma_label_not_blank(slots, i);
    }
}

/// A synced label is never blank.
proof fn lemma_label_not_blank(slots: Seq<FanSlot>, i: int)
    requires
        0 <= i,
    ensures
        trim(synced_spec(slots, i).0).len() > 0,
{
    lemma_default_label_not_blank(i as nat);
}

proof fn lemma_default_label_not_blank(index: nat)
    ensures
        trim(default_label_spec(index)).len() > 0,
{
    reveal_strlit("Fan ");
    let s = default_label_spec(index);
    assert(s[0] == 'F');
    assert(crate::text::trim_start(s) == s);
    crate::text::lemma_trim_end_keeps_first(s);
}

} // verus!
