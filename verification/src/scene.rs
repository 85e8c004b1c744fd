//! Scene configuration and attachment bookkeeping.
//!
//! A scene is created against defaults; a configuration value is sent to the
//! native kernel only when it differs from its default ([`build_quality_to_apply`],
//! [`flags_to_apply`] make that decision). Attaching a geometry yields an
//! opaque identifier assigned by the native kernel, unique within the scene
//! but otherwise unconstrained; [`SceneTracker`] records the identifiers in
//! attachment order so that an identifier echoed in a hit can be correlated
//! back to the attachment that produced it. A scene is mutable until it is
//! committed, and committed at most once: the committed form is terminal.

use vstd::prelude::*;

verus! {

/// The build-quality hint of a scene, in the native kernel's terms.
#[derive(Clone, Copy, Debug, PartialEq, Eq, Structural)]
pub enum BuildQuality {
    /// Favor build speed.
    Low,
    /// The native kernel's default trade-off.
    Medium,
    /// Favor query speed.
    High,
    /// Refit an existing structure instead of rebuilding.
    Refit,
}

/// No scene flag set: the default.
pub const SCENE_FLAG_NONE: u32 = 0;

/// The scene will be updated frequently.
pub const SCENE_FLAG_DYNAMIC: u32 = 1;

/// Build a memory-compact structure.
pub const SCENE_FLAG_COMPACT: u32 = 2;

/// Build a structure robust against numerical corner cases.
pub const SCENE_FLAG_ROBUST: u32 = 4;

/// Invoke filter functions passed through query arguments.
pub const SCENE_FLAG_FILTER_FUNCTION_IN_ARGUMENTS: u32 = 8;

/// The raw value the native kernel uses for a build quality.
pub open spec fn build_quality_raw_spec(q: BuildQuality) -> u32 {
    match q {
        BuildQuality::Low => 0,
        BuildQuality::Medium => 1,
        BuildQuality::High => 2,
        BuildQuality::Refit => 3,
    }
}

/// Encodes a build quality as the raw value the native kernel takes.
pub fn build_quality_raw(q: BuildQuality) -> (r: u32)
    ensures
        r == build_quality_raw_spec(q),
{
    match q {
        BuildQuality::Low => 0,
        BuildQuality::Medium => 1,
        BuildQuality::High => 2,
        BuildQuality::Refit => 3,
    }
}

impl Default for BuildQuality {
    /// The native kernel's default build quality.
    fn default() -> (q: Self)
        ensures
            q == BuildQuality::Medium,
    {
        BuildQuality::Medium
    }
}

/// The options a scene is created with. Scene flags are a bitwise
/// combination of the `SCENE_FLAG_` constants.
#[derive(Clone, Copy, Debug, PartialEq, Eq, Structural)]
pub struct SceneOptions {
    pub build_quality: BuildQuality,
    pub flags: u32,
}

impl Default for SceneOptions {
    /// The defaults a fresh scene already has: medium build quality, no
    /// flags. Options equal to these are not sent to the native kernel.
    fn default() -> (o: Self)
        ensures
            o == (SceneOptions { build_quality: BuildQuality::Medium, flags: SCENE_FLAG_NONE }),
    {
        SceneOptions { build_quality: BuildQuality::Medium, flags: SCENE_FLAG_NONE }
    }
}

/// The build quality to send to the native kernel when creating a scene with
/// these options: the requested one if it differs from the default, nothing
/// otherwise (a fresh scene already has the default).
pub fn build_quality_to_apply(options: &SceneOptions) -> (r: Option<BuildQuality>)
    ensures
        r == (if options.build_quality != BuildQuality::Medium {
            Some(options.build_quality)
        } else {
            None::<BuildQuality>
        }),
{
    if options.build_quality != BuildQuality::Medium {
        Some(options.build_quality)
    } else {
        None
    }
}

/// The scene flags to send to the native kernel when creating a scene with
/// these options: the requested ones if any flag is set, nothing otherwise.
pub fn flags_to_apply(options: &SceneOptions) -> (r: Option<u32>)
    ensures
        r == (if options.flags != SCENE_FLAG_NONE {
            Some(options.flags)
        } else {
            None::<u32>
        }),
{
    if options.flags != SCENE_FLAG_NONE {
        Some(options.flags)
    } else {
        None
    }
}

/// The record of one scene's attachments and of whether it was committed.
///
/// The identifiers are kept in attachment order and are unique: the native
/// kernel assigns each attachment a fresh identifier within its scene, and
/// [`record_attachment`](SceneTracker::record_attachment) refuses a
/// duplicate rather than break that invariant. Once committed, a scene is
/// terminal: nothing may be attached to it any more.
#[derive(Clone)]
pub struct SceneTracker {
    ids: Vec<u32>,
    committed: bool,
}

impl SceneTracker {
    /// The recorded identifiers, in attachment order.
    pub closed spec fn ids_seq(&self) -> Seq<u32> {
        self.ids@
    }

    /// Whether the scene was committed.
    pub closed spec fn is_committed(&self) -> bool {
        self.committed
    }

    /// The tracker's invariant: no identifier is recorded twice.
    pub open spec fn well_formed(&self) -> bool {
        forall|i: int, j: int|
            0 <= i < j < self.ids_seq().len() ==> self.ids_seq()[i] != self.ids_seq()[j]
    }

    /// A tracker for a freshly created scene: nothing attached, not
    /// committed.
    pub fn new() -> (t: Self)
        ensures
            t.ids_seq() == Seq::<u32>::empty(),
            !t.is_committed(),
            t.well_formed(),
    {
        SceneTracker { ids: Vec::new(), committed: false }
    }

    /// Whether the scene was committed.
    pub fn committed(&self) -> (r: bool)
        ensures
            r == self.is_committed(),
    {
        self.committed
    }

    /// How many attachments are recorded.
    pub fn len(&self) -> (n: usize)
        ensures
            n == self.ids_seq().len(),
    {
        self.ids.len()
    }

    /// Whether `id` is a recorded attachment identifier.
    pub fn contains(&self, id: u32) -> (r: bool)
        ensures
            r == self.ids_seq().contains(id),
    {
        let mut k: usize = 0;
        while k < self.ids.len()
            invariant
                k <= self.ids_seq().len(),
                forall|j: int| 0 <= j < k ==> self.ids_seq()[j] != id,
            decreases self.ids_seq().len() - k,
        {
            if self.ids[k] == id {
                return true;
            }
            k = k + 1;
        }
        false
    }

    /// Records the identifier a new attachment returned. Succeeds exactly
    /// when the identifier is fresh for this scene; a duplicate — which the
    /// native kernel never hands out within one scene — is refused and
    /// leaves the record unchanged.
    pub fn record_attachment(&mut self, id: u32) -> (r: bool)
        requires
            old(self).well_formed(),
            !old(self).is_committed(),
        ensures
            final(self).well_formed(),
            !final(self).is_committed(),
            r == !old(self).ids_seq().contains(id),
            r ==> final(self).ids_seq() == old(self).ids_seq().push(id),
            !r ==> final(self).ids_seq() == old(self).ids_seq(),
    {
        if self.contains(id) {
            false
        } else {
            self.ids.push(id);
            true
        }
    }

    /// Where the attachment with identifier `id` stands in attachment
    /// order: `Some(i)` exactly when `id` is the `i`-th recorded identifier,
    /// `None` when `id` was never recorded. On a well-formed tracker the
    /// position is the unique one, so a hit's echoed identifier leads back
    /// to the one attachment that produced it.
    pub fn index_of(&self, id: u32) -> (r: Option<usize>)
        ensures
            r matches Some(i) ==> i < self.ids_seq().len() && self.ids_seq()[i as int] == id
                && forall|j: int| 0 <= j < i ==> self.ids_seq()[j] != id,
            r is None ==> !self.ids_seq().contains(id),
    {
        let mut k: usize = 0;
        while k < self.ids.len()
            invariant
                k <= self.ids_seq().len(),
                forall|j: int| 0 <= j < k ==> self.ids_seq()[j] != id,
            decreases self.ids_seq().len() - k,
        {
            if self.ids[k] == id {
                return Some(k);
            }
            k = k + 1;
        }
        None
    }

    /// Marks the scene committed. A scene commits at most once; the
    /// committed form is terminal and keeps its attachment record.
    pub fn mark_committed(&mut self)
        requires
            !old(self).is_committed(),
        ensures
            final(self).is_committed(),
            final(self).ids_seq() == old(self).ids_seq(),
    {
        self.committed = true;
    }
}

/// Law: within one scene, an attachment identifier names exactly one
/// attachment — two recorded positions that carry the same identifier are
/// the same position, so correlating a hit by its echoed identifier cannot
/// cross from one attached geometry to another.
pub proof fn lemma_attachment_ids_correlate(t: SceneTracker, i: int, j: int)
    requires
        t.well_formed(),
        0 <= i < t.ids_seq().len(),
        0 <= j < t.ids_seq().len(),
        t.ids_seq()[i] == t.ids_seq()[j],
    ensures
        i == j,
{
}

} // verus!
