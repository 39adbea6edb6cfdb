use vstd::prelude::*;
use crate::text::{trim, trim_ws};

verus! {

/// The bit pattern of the `f32` value 1.0: the default share, in percent, of
/// changed pixels that counts as motion.
pub const DEFAULT_MOTION_PERCENT_BITS: u32 = 0x3f80_0000;

pub const DEFAULT_PIXEL_THRESHOLD: u8 = 40;

pub const DEFAULT_MOTION_CHECK_EVERY: u64 = 5;

pub const DEFAULT_MOTION_TIMEOUT_MS: u64 = 60_000;

/// The view of an optional string.
pub open spec fn opt_view(o: Option<String>) -> Option<Seq<char>> {
    match o {
        Some(s) => Some(s@),
        None => None,
    }
}

/// Clones an optional string.
pub fn clone_opt(o: &Option<String>) -> (r: Option<String>)
    ensures
        opt_view(r) == opt_view(*o),
{
    match o {
        Some(s) => Some(s.clone()),
        None => None,
    }
}

/// Per-camera settings, persisted across restarts.
///
/// The share of changed pixels that counts as motion is a percentage held
/// as the bit pattern of an `f32`; the library carries it and never
/// computes with it.
pub struct CameraConfig {
    /// Display name, used for directories and messages; `None` falls back to the camera id.
    pub name: Option<String>,
    /// Rotation in degrees: 0, 90, 180 or 270.
    pub rotation: u16,
    pub mirror: bool,
    pub motion_enabled: bool,
    pub notifications_enabled: bool,
    /// A pixel changes when its value moves by more than this.
    pub pixel_threshold: u8,
    pub motion_percent_bits: u32,
    /// Only every n-th frame is compared with the previous one.
    pub motion_check_every: u64,
    /// A motion session closes after this long without motion.
    pub motion_timeout_ms: u64,
}

pub struct ConfigView {
    pub name: Option<Seq<char>>,
    pub rotation: u16,
    pub mirror: bool,
    pub motion_enabled: bool,
    pub notifications_enabled: bool,
    pub pixel_threshold: u8,
    pub motion_percent_bits: u32,
    pub motion_check_every: u64,
    pub motion_timeout_ms: u64,
}

impl View for CameraConfig {
    type V = ConfigView;

    open spec fn view(&self) -> ConfigView {
        ConfigView {
            name: opt_view(self.name),
            rotation: self.rotation,
            mirror: self.mirror,
            motion_enabled: self.motion_enabled,
            notifications_enabled: self.notifications_enabled,
            pixel_threshold: self.pixel_threshold,
            motion_percent_bits: self.motion_percent_bits,
            motion_check_every: self.motion_check_every,
            motion_timeout_ms: self.motion_timeout_ms,
        }
    }
}

impl Clone for CameraConfig {
    fn clone(&self) -> (r: Self)
        ensures
            r@ == self@,
    {
        CameraConfig {
            name: clone_opt(&self.name),
            rotation: self.rotation,
            mirror: self.mirror,
            motion_enabled: self.motion_enabled,
            notifications_enabled: self.notifications_enabled,
            pixel_threshold: self.pixel_threshold,
            motion_percent_bits: self.motion_percent_bits,
            motion_check_every: self.motion_check_every,
            motion_timeout_ms: self.motion_timeout_ms,
        }
    }
}

/// The settings of a camera never seen before: no name, no rotation or
/// mirroring, motion detection and notifications on, and the four tuning
/// values taken from the environment where it sets them.
pub open spec fn spec_default_config(
    pixel_threshold: Option<u8>,
    motion_percent_bits: Option<u32>,
    motion_check_every: Option<u64>,
    motion_timeout_ms: Option<u64>,
) -> ConfigView {
    ConfigView {
        name: None,
        rotation: 0,
        mirror: false,
        motion_enabled: true,
        notifications_enabled: true,
        pixel_threshold: match pixel_threshold {
            Some(v) => v,
            None => DEFAULT_PIXEL_THRESHOLD,
        },
        motion_percent_bits: match motion_percent_bits {
            Some(v) => v,
            None => DEFAULT_MOTION_PERCENT_BITS,
        },
        motion_check_every: match motion_check_every {
            Some(v) => v,
            None => DEFAULT_MOTION_CHECK_EVERY,
        },
        motion_timeout_ms: match motion_timeout_ms {
            Some(v) => v,
            None => DEFAULT_MOTION_TIMEOUT_MS,
        },
    }
}

impl CameraConfig {
    /// Defaults for a never-before-seen camera. Each argument is the value
    /// that the environment gives for that setting (`PIXEL_THRESHOLD`,
    /// `MOTION_PERCENT`, `MOTION_CHECK_EVERY`, `MOTION_TIMEOUT_MS`), or `None`
    /// where it is unset or does not parse.
    pub fn default_from_env(
        pixel_threshold: Option<u8>,
        motion_percent_bits: Option<u32>,
        motion_check_every: Option<u64>,
        motion_timeout_ms: Option<u64>,
    ) -> (r: CameraConfig)
        ensures
            r@ == spec_default_config(
                pixel_threshold,
                motion_percent_bits,
                motion_check_every,
                motion_timeout_ms,
            ),
    {
        CameraConfig {
            name: None,
            rotation: 0,
            mirror: false,
            motion_enabled: true,
            notifications_enabled: true,
            pixel_threshold: match pixel_threshold {
                Some(v) => v,
                None => DEFAULT_PIXEL_THRESHOLD,
            },
            motion_percent_bits: match motion_percent_bits {
                Some(v) => v,
                None => DEFAULT_MOTION_PERCENT_BITS,
            },
            motion_check_every: match motion_check_every {
                Some(v) => v,
                None => DEFAULT_MOTION_CHECK_EVERY,
            },
            motion_timeout_ms: match motion_timeout_ms {
                Some(v) => v,
                None => DEFAULT_MOTION_TIMEOUT_MS,
            },
        }
    }
}

/// A partial change of a camera's settings; absent fields stay as they are.
pub struct ConfigUpdate {
    pub name: Option<String>,
    pub rotation: Option<u16>,
    pub mirror: Option<bool>,
    pub motion_enabled: Option<bool>,
    pub notifications_enabled: Option<bool>,
    pub pixel_threshold: Option<u8>,
    pub motion_percent_bits: Option<u32>,
    pub motion_check_every: Option<u64>,
    pub motion_timeout_ms: Option<u64>,
}

pub struct UpdateView {
    pub name: Option<Seq<char>>,
    pub rotation: Option<u16>,
    pub mirror: Option<bool>,
    pub motion_enabled: Option<bool>,
    pub notifications_enabled: Option<bool>,
    pub pixel_threshold: Option<u8>,
    pub motion_percent_bits: Option<u32>,
    pub motion_check_every: Option<u64>,
    pub motion_timeout_ms: Option<u64>,
}

impl View for ConfigUpdate {
    type V = UpdateView;

    open spec fn view(&self) -> UpdateView {
        UpdateView {
            name: opt_view(self.name),
            rotation: self.rotation,
            mirror: self.mirror,
            motion_enabled: self.motion_enabled,
            notifications_enabled: self.notifications_enabled,
            pixel_threshold: self.pixel_threshold,
            motion_percent_bits: self.motion_percent_bits,
            motion_check_every: self.motion_check_every,
            motion_timeout_ms: self.motion_timeout_ms,
        }
    }
}

/// The rotations a camera accepts, in degrees.
pub open spec fn valid_rotation(r: u16) -> bool {
    r == 0 || r == 90 || r == 180 || r == 270
}

/// The name that an update asks for, trimmed; `None` when the update leaves
/// the name alone, `Some` of the empty sequence when it clears it.
pub open spec fn requested_name(u: UpdateView) -> Option<Seq<char>> {
    match u.name {
        Some(n) => Some(trim_ws(n)),
        None => None,
    }
}

pub open spec fn keep_or<T>(new: Option<T>, old: T) -> T {
    match new {
        Some(v) => v,
        None => old,
    }
}

/// The settings after an update: a given name is trimmed and an empty one
/// clears the name; a rotation other than 0, 90, 180 or 270 is ignored; every
/// other given field replaces the old value.
pub open spec fn applied(c: ConfigView, u: UpdateView) -> ConfigView {
    ConfigView {
        name: match requested_name(u) {
            Some(n) => if n.len() == 0 { None } else { Some(n) },
            None => c.name,
        },
        rotation: match u.rotation {
            Some(r) => if valid_rotation(r) { r } else { c.rotation },
            None => c.rotation,
        },
        mirror: keep_or(u.mirror, c.mirror),
        motion_enabled: keep_or(u.motion_enabled, c.motion_enabled),
        notifications_enabled: keep_or(u.notifications_enabled, c.notifications_enabled),
        pixel_threshold: keep_or(u.pixel_threshold, c.pixel_threshold),
        motion_percent_bits: keep_or(u.motion_percent_bits, c.motion_percent_bits),
        motion_check_every: keep_or(u.motion_check_every, c.motion_check_every),
        motion_timeout_ms: keep_or(u.motion_timeout_ms, c.motion_timeout_ms),
    }
}

impl ConfigUpdate {
    /// The trimmed name that this update asks for, if any.
    pub fn requested_name(&self) -> (r: Option<String>)
        ensures
            opt_view(r) == requested_name(self@),
    {
        match &self.name {
            Some(n) => Some(trim(n.as_str())),
            None => None,
        }
    }
}

impl CameraConfig {
    /// Applies `update` to these settings.
    pub fn apply(&mut self, update: &ConfigUpdate)
        ensures
            final(self)@ == applied(old(self)@, update@),
            final(self).mirror == keep_or(update.mirror, old(self).mirror),
            final(self).motion_enabled == keep_or(update.motion_enabled, old(self).motion_enabled),
            final(self).notifications_enabled == keep_or(update.notifications_enabled, old(self).notifications_enabled),
            final(self).pixel_threshold == keep_or(update.pixel_threshold, old(self).pixel_threshold),
            final(self).motion_percent_bits == keep_or(update.motion_percent_bits, old(self).motion_percent_bits),
            final(self).motion_check_every == keep_or(update.motion_check_every, old(self).motion_check_every),
            final(self).motion_timeout_ms == keep_or(update.motion_timeout_ms, old(self).motion_timeout_ms),
    {
        match update.requested_name() {
            Some(n) => {
                if n.as_str().unicode_len() == 0 {
                    self.name = None;
                } else {
                    self.name = Some(n);
                }
            },
            None => {},
        }
        match update.rotation {
            Some(r) => {
                if r == 0 || r == 90 || r == 180 || r == 270 {
                    self.rotation = r;
                }
            },
            None => {},
        }
        match update.mirror {
            Some(v) => { self.mirror = v; },
            None => {},
        }
        match update.motion_enabled {
            Some(v) => { self.motion_enabled = v; },
            None => {},
        }
        match update.notifications_enabled {
            Some(v) => { self.notifications_enabled = v; },
            None => {},
        }
        match update.pixel_threshold {
            Some(v) => { self.pixel_threshold = v; },
            None => {},
        }
        match update.motion_percent_bits {
            Some(v) => { self.motion_percent_bits = v; },
            None => {},
        }
        match update.motion_check_every {
            Some(v) => { self.motion_check_every = v; },
            None => {},
        }
        match update.motion_timeout_ms {
            Some(v) => { self.motion_timeout_ms = v; },
            None => {},
        }
    }
}

/// Every setting that an update gives is the one read back afterwards, and
/// every setting it leaves out keeps its old value; a given rotation is taken
/// exactly when it is 0, 90, 180 or 270, and a given name is taken trimmed,
/// an empty one clearing the name.
pub proof fn law_update_fields_read_back(c: ConfigView, u: UpdateView)
    ensures
        u.mirror matches Some(x) ==> applied(c, u).mirror == x,
        u.mirror is None ==> applied(c, u).mirror == c.mirror,
        u.motion_enabled matches Some(x) ==> applied(c, u).motion_enabled == x,
        u.motion_enabled is None ==> applied(c, u).motion_enabled == c.motion_enabled,
        u.notifications_enabled matches Some(x) ==> applied(c, u).notifications_enabled == x,
        u.notifications_enabled is None ==> applied(c, u).notifications_enabled == c.notifications_enabled,
        u.pixel_threshold matches Some(x) ==> applied(c, u).pixel_threshold == x,
        u.pixel_threshold is None ==> applied(c, u).pixel_threshold == c.pixel_threshold,
        u.motion_percent_bits matches Some(x) ==> applied(c, u).motion_percent_bits == x,
        u.motion_percent_bits is None ==> applied(c, u).motion_percent_bits == c.motion_percent_bits,
        u.motion_check_every matches Some(x) ==> applied(c, u).motion_check_every == x,
        u.motion_check_every is None ==> applied(c, u).motion_check_every == c.motion_check_every,
        u.motion_timeout_ms matches Some(x) ==> applied(c, u).motion_timeout_ms == x,
        u.motion_timeout_ms is None ==> applied(c, u).motion_timeout_ms == c.motion_timeout_ms,
        u.rotation matches Some(r) ==> applied(c, u).rotation == (if r == 0 || r == 90 || r == 180 || r == 270 {
            r
        } else {
            c.rotation
        }),
        u.rotation is None ==> applied(c, u).rotation == c.rotation,
        u.name is None ==> applied(c, u).name == c.name,
        u.name matches Some(n) ==> applied(c, u).name == (if trim_ws(n).len() == 0 {
            None::<Seq<char>>
        } else {
            Some(trim_ws(n))
        }),
{
}

} // verus!
