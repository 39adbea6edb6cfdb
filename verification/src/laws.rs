use vstd::prelude::*;
use crate::config::{applied, requested_name, valid_rotation, ConfigView, UpdateView};
use crate::frame::{changed_pixels, changed_upto, spec_detected};
use crate::registry::{fresh, name_taken_by_other, update_outcome, with_config, CameraInfo, ConfigError};

verus! {

/// Settings that an update accepted are the ones read back afterwards, and
/// no other camera is touched.
pub proof fn law_settings_read_back(cams: Map<Seq<char>, CameraInfo>, id: Seq<char>, u: UpdateView, c: ConfigView)
    requires
        update_outcome(cams, id, u) == Ok::<ConfigView, ConfigError>(c),
    ensures
        cams.insert(id, with_config(cams[id], c)).contains_key(id),
        cams.insert(id, with_config(cams[id], c))[id].config == c,
        c == applied(cams[id].config, u),
        forall|k: Seq<char>| k != id && cams.contains_key(k) ==> #[trigger] cams.insert(id, with_config(cams[id], c))[k] == cams[k],
{
}

/// A camera that an update renames carries a name no other camera has.
pub proof fn law_rename_keeps_names_unique(
    cams: Map<Seq<char>, CameraInfo>,
    id: Seq<char>,
    u: UpdateView,
    c: ConfigView,
    n: Seq<char>,
)
    requires
        update_outcome(cams, id, u) == Ok::<ConfigView, ConfigError>(c),
        requested_name(u) == Some(n),
        n.len() > 0,
    ensures
        c.name == Some(n),
        !name_taken_by_other(cams.insert(id, with_config(cams[id], c)), id, n),
{
    let after = cams.insert(id, with_config(cams[id], c));
    assert forall|k: Seq<char>| k != id && #[trigger] after.contains_key(k) implies after[k].config.name != Some(n) by {
        assert(after[k] == cams[k]);
        assert(cams.contains_key(k));
    }
}

/// An update never leaves a camera with a rotation other than 0, 90, 180 or 270.
pub proof fn law_rotation_stays_valid(c: ConfigView, u: UpdateView)
    requires
        valid_rotation(c.rotation),
    ensures
        valid_rotation(applied(c, u).rotation),
{
}

/// Applying the same update twice is applying it once.
pub proof fn law_update_idempotent(c: ConfigView, u: UpdateView)
    ensures
        applied(applied(c, u), u) == applied(c, u),
{
}

/// An update of a camera that is not known is refused, whatever it asks.
pub proof fn law_unknown_camera_refused(cams: Map<Seq<char>, CameraInfo>, id: Seq<char>, u: UpdateView)
    requires
        !cams.contains_key(id),
    ensures
        update_outcome(cams, id, u) == Err::<ConfigView, ConfigError>(ConfigError::NotFound),
{
}

/// A deleted camera is gone, and deleting it again finds nothing.
pub proof fn law_delete_forgets(cams: Map<Seq<char>, CameraInfo>, id: Seq<char>)
    ensures
        !cams.remove(id).contains_key(id),
        cams.remove(id).remove(id) == cams.remove(id),
{
    assert(cams.remove(id).remove(id) =~= cams.remove(id));
}

/// A newly registered camera is known, with the given settings and no frames.
pub proof fn law_register_fresh(cams: Map<Seq<char>, CameraInfo>, id: Seq<char>, c: ConfigView)
    requires
        !cams.contains_key(id),
    ensures
        cams.insert(id, fresh(c))[id] == fresh(c),
        cams.insert(id, fresh(c))[id].frame_count == 0,
        cams.insert(id, fresh(c)).contains_key(id),
{
}

proof fn lemma_identical_upto(g: Seq<u8>, t: u8, n: int)
    requires
        n <= g.len(),
    ensures
        changed_upto(g, g, t, n) == 0,
    decreases n,
{
    if n > 0 {
        lemma_identical_upto(g, t, n - 1);
    }
}

/// A frame identical to the previous one has no changed pixels.
pub proof fn law_identical_frames_unchanged(g: Seq<u8>, t: u8)
    ensures
        changed_pixels(g, g, t) == 0,
{
    lemma_identical_upto(g, t, g.len() as int);
}

proof fn lemma_threshold_upto(p: Seq<u8>, c: Seq<u8>, t1: u8, t2: u8, n: int)
    requires
        t1 <= t2,
    ensures
        changed_upto(p, c, t2, n) <= changed_upto(p, c, t1, n),
    decreases n,
{
    if n > 0 {
        lemma_threshold_upto(p, c, t1, t2, n - 1);
    }
}

/// Raising the pixel threshold never makes more pixels count as changed.
pub proof fn law_threshold_monotone(p: Seq<u8>, c: Seq<u8>, t1: u8, t2: u8)
    requires
        t1 <= t2,
    ensures
        changed_pixels(p, c, t2) <= changed_pixels(p, c, t1),
{
    lemma_threshold_upto(p, c, t1, t2, if p.len() <= c.len() { p.len() as int } else { c.len() as int });
}

/// With no previous frame there is no motion.
pub proof fn law_first_frame_no_motion(changed: u32, min_pixels: u32)
    ensures
        !spec_detected(false, changed, min_pixels),
{
}

/// A deleted camera that keeps sending frames comes back with the default
/// settings it is registered with, not the ones it had.
pub proof fn law_deleted_camera_reappears_fresh(cams: Map<Seq<char>, CameraInfo>, id: Seq<char>, defaults: ConfigView)
    ensures
        !cams.remove(id).contains_key(id),
        cams.remove(id).insert(id, fresh(defaults))[id].config == defaults,
        cams.remove(id).insert(id, fresh(defaults))[id].frame_count == 0,
{
}

} // verus!
