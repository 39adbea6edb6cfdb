use vstd::prelude::*;
use crate::clock::{is_active, spec_is_active};
use crate::config::{applied, opt_view, requested_name, CameraConfig, ConfigUpdate, ConfigView};
use crate::text::{chars_lt, lemma_lt_irreflexive, lemma_lt_total, lemma_lt_transitive, owned, str_less};

verus! {

/// What the server knows of one camera.
pub struct CameraInfo {
    pub config: ConfigView,
    /// When its last frame arrived, in milliseconds since the epoch; zero when none has.
    pub last_frame_ms: u64,
    /// How many frames it has sent since the server started.
    pub frame_count: u64,
}

/// A camera as it is first known: its settings, and no frame yet.
pub open spec fn fresh(config: ConfigView) -> CameraInfo {
    CameraInfo { config, last_frame_ms: 0, frame_count: 0 }
}

/// `info` with its settings replaced by `config`.
pub open spec fn with_config(info: CameraInfo, config: ConfigView) -> CameraInfo {
    CameraInfo { config, ..info }
}

struct CameraEntry {
    id: String,
    config: CameraConfig,
    last_frame_ms: u64,
    frame_count: u64,
}

spec fn info_of(e: CameraEntry) -> CameraInfo {
    CameraInfo { config: e.config@, last_frame_ms: e.last_frame_ms, frame_count: e.frame_count }
}

/// Why a change of settings was refused.
pub enum ConfigError {
    /// No camera has that id.
    NotFound,
    /// Another camera already has the requested name.
    NameTaken,
}

/// All cameras the server knows, by id.
pub struct CameraRegistry {
    entries: Vec<CameraEntry>,
    cameras: Ghost<Map<Seq<char>, CameraInfo>>,
}

impl View for CameraRegistry {
    type V = Map<Seq<char>, CameraInfo>;

    closed spec fn view(&self) -> Map<Seq<char>, CameraInfo> {
        self.cameras@
    }
}

/// Whether a camera other than `id` carries the display name `name`.
pub open spec fn name_taken_by_other(cams: Map<Seq<char>, CameraInfo>, id: Seq<char>, name: Seq<char>) -> bool {
    exists|k: Seq<char>| k != id && #[trigger] cams.contains_key(k) && cams[k].config.name == Some(name)
}

/// The outcome of an update of camera `id`'s settings, as the server answers it:
/// unknown camera, a name that another camera already carries, or the new settings.
pub open spec fn update_outcome(cams: Map<Seq<char>, CameraInfo>, id: Seq<char>, u: crate::config::UpdateView) -> Result<ConfigView, ConfigError> {
    if !cams.contains_key(id) {
        Err(ConfigError::NotFound)
    } else if (match requested_name(u) {
        Some(n) => n.len() > 0 && name_taken_by_other(cams, id, n),
        None => false,
    }) {
        Err(ConfigError::NameTaken)
    } else {
        Ok(applied(cams[id].config, u))
    }
}

/// One line of the status listing.
pub struct CameraSummary {
    pub id: String,
    pub config: CameraConfig,
    pub active: bool,
    pub frame_count: u64,
}

/// Ids in strictly ascending order.
pub open spec fn strictly_ascending(ids: Seq<Seq<char>>) -> bool {
    forall|i: int, j: int| 0 <= i < j < ids.len() ==> chars_lt(ids[i], ids[j])
}

impl CameraRegistry {
    /// The representation invariant: entries sorted strictly by id, and the
    /// ghost map holding exactly the entries.
    pub closed spec fn wf(&self) -> bool {
        &&& forall|i: int, j: int|
            0 <= i < j < self.entries@.len() ==> chars_lt(
                #[trigger] self.entries@[i].id@,
                #[trigger] self.entries@[j].id@,
            )
        &&& forall|i: int|
            0 <= i < self.entries@.len() ==> self.cameras@.contains_key(#[trigger] self.entries@[i].id@)
                && self.cameras@[self.entries@[i].id@] == info_of(self.entries@[i])
        &&& forall|k: Seq<char>|
            #[trigger] self.cameras@.contains_key(k) ==> exists|i: int|
                0 <= i < self.entries@.len() && #[trigger] self.entries@[i].id@ == k
    }

    /// An empty registry.
    pub fn new() -> (r: CameraRegistry)
        ensures
            r.wf(),
            r@ == Map::<Seq<char>, CameraInfo>::empty(),
    {
        CameraRegistry { entries: Vec::new(), cameras: Ghost(Map::empty()) }
    }

    /// The number of cameras.
    pub fn len(&self) -> (r: usize)
        requires
            self.wf(),
        ensures
            r == self@.len(),
    {
        proof {
            self.lemma_dom_is_ids();
        }
        self.entries.len()
    }

    proof fn lemma_dom_is_ids(&self)
        requires
            self.wf(),
        ensures
            self.cameras@.dom() =~= self.entries@.map_values(|e: CameraEntry| e.id@).to_set(),
            self.cameras@.len() == self.entries@.len(),
    {
        let ids = self.entries@.map_values(|e: CameraEntry| e.id@);
        assert forall|k: Seq<char>| self.cameras@.dom().contains(k) <==> ids.to_set().contains(k) by {
            if self.cameras@.contains_key(k) {
                let i = choose|i: int| 0 <= i < self.entries@.len() && #[trigger] self.entries@[i].id@ == k;
                assert(ids[i] == k);
            }
            if ids.to_set().contains(k) {
                let i = choose|i: int| 0 <= i < ids.len() && ids[i] == k;
                assert(self.entries@[i].id@ == k);
            }
        }
        assert forall|a: int, b: int| 0 <= a < ids.len() && 0 <= b < ids.len() && a != b implies ids[a] != ids[b] by {
            if a < b {
                assert(chars_lt(self.entries@[a].id@, self.entries@[b].id@));
                lemma_lt_irreflexive(ids[a]);
            } else {
                assert(chars_lt(self.entries@[b].id@, self.entries@[a].id@));
                lemma_lt_irreflexive(ids[a]);
            }
        }
        ids.unique_seq_to_set();
    }

    /// The position of camera `id`, if it is known.
    fn find(&self, id: &str) -> (r: Option<usize>)
        requires
            self.wf(),
        ensures
            match r {
                Some(i) => i < self.entries@.len() && self.entries@[i as int].id@ == id@,
                None => !self@.contains_key(id@),
            },
    {
        let key = owned(id);
        let mut i: usize = 0;
        while i < self.entries.len()
            invariant
                i <= self.entries@.len(),
                key@ == id@,
                forall|k: int| 0 <= k < i ==> self.entries@[k].id@ != id@,
            decreases self.entries@.len() - i,
        {
            if self.entries[i].id == key {
                return Some(i);
            }
            i = i + 1;
        }
        proof {
            if self.cameras@.contains_key(id@) {
                let k = choose|k: int| 0 <= k < self.entries@.len() && #[trigger] self.entries@[k].id@ == id@;
            }
        }
        None
    }

    /// Whether camera `id` is known.
    pub fn contains(&self, id: &str) -> (r: bool)
        requires
            self.wf(),
        ensures
            r == self@.contains_key(id@),
    {
        match self.find(id) {
            Some(_) => true,
            None => false,
        }
    }

    /// Where a camera with the new id `id` goes in the order.
    fn insertion_point(&self, id: &str) -> (p: usize)
        requires
            self.wf(),
            !self@.contains_key(id@),
        ensures
            p <= self.entries@.len(),
            forall|k: int| 0 <= k < p ==> chars_lt(#[trigger] self.entries@[k].id@, id@),
            forall|k: int| p <= k < self.entries@.len() ==> chars_lt(id@, #[trigger] self.entries@[k].id@),
    {
        let mut p: usize = 0;
        while p < self.entries.len() && !str_less(id, self.entries[p].id.as_str())
            invariant
                p <= self.entries@.len(),
                self.wf(),
                !self@.contains_key(id@),
                forall|k: int| 0 <= k < p ==> chars_lt(#[trigger] self.entries@[k].id@, id@),
            decreases self.entries@.len() - p,
        {
            proof {
                let e = self.entries@[p as int].id@;
                assert(self.cameras@.contains_key(e));
                lemma_lt_total(e, id@);
            }
            p = p + 1;
        }
        proof {
            assert forall|k: int| p <= k < self.entries@.len() implies chars_lt(id@, #[trigger] self.entries@[k].id@) by {
                if k > p {
                    lemma_lt_transitive(id@, self.entries@[p as int].id@, self.entries@[k].id@);
                }
            }
        }
        p
    }

    /// Adds camera `id`, which is not known yet, with settings `config`.
    fn insert_new(&mut self, id: String, config: CameraConfig)
        requires
            old(self).wf(),
            !old(self)@.contains_key(id@),
        ensures
            final(self).wf(),
            final(self)@ == old(self)@.insert(id@, fresh(config@)),
    {
        let p = self.insertion_point(id.as_str());
        let ghost old_entries = self.entries@;
        let ghost old_map = self.cameras@;
        let ghost idv = id@;
        let ghost cv = config@;
        let entry = CameraEntry { id, config, last_frame_ms: 0, frame_count: 0 };
        self.entries.insert(p, entry);
        self.cameras = Ghost(old_map.insert(idv, fresh(cv)));
        proof {
            let ne = self.entries@;
            assert(ne == old_entries.insert(p as int, entry));
            assert forall|i: int, j: int| 0 <= i < j < ne.len() implies chars_lt(#[trigger] ne[i].id@, #[trigger] ne[j].id@) by {
                if i < p && j > p {
                    assert(ne[j] == old_entries[j - 1]);
                    lemma_lt_transitive(ne[i].id@, idv, ne[j].id@);
                } else if j > p {
                    assert(ne[j] == old_entries[j - 1]);
                    if i > p {
                        assert(ne[i] == old_entries[i - 1]);
                    }
                } else if j == p {
                } else {
                }
            }
            assert forall|i: int| 0 <= i < ne.len() implies self.cameras@.contains_key(#[trigger] ne[i].id@)
                && self.cameras@[ne[i].id@] == info_of(ne[i]) by {
                if i < p {
                    assert(ne[i] == old_entries[i]);
                    assert(old_map.contains_key(old_entries[i].id@));
                    assert(chars_lt(old_entries[i].id@, idv));
                    lemma_lt_irreflexive(idv);
                } else if i > p {
                    assert(ne[i] == old_entries[i - 1]);
                    assert(old_map.contains_key(old_entries[i - 1].id@));
                    assert(chars_lt(idv, old_entries[i - 1].id@));
                    lemma_lt_irreflexive(idv);
                }
            }
            assert forall|k: Seq<char>| #[trigger] self.cameras@.contains_key(k) implies exists|i: int|
                0 <= i < ne.len() && #[trigger] ne[i].id@ == k by {
                if k == idv {
                    assert(ne[p as int].id@ == k);
                } else {
                    assert(old_map.contains_key(k));
                    let j = choose|j: int| 0 <= j < old_entries.len() && #[trigger] old_entries[j].id@ == k;
                    if j < p {
                        assert(ne[j].id@ == k);
                    } else {
                        assert(ne[j + 1].id@ == k);
                    }
                }
            }
        }
    }

    /// Replaces the entry at `i`, keeping its id.
    fn replace_at(&mut self, i: usize, entry: CameraEntry)
        requires
            old(self).wf(),
            i < old(self).entries@.len(),
            entry.id@ == old(self).entries@[i as int].id@,
        ensures
            final(self).wf(),
            final(self)@ == old(self)@.insert(entry.id@, info_of(entry)),
            final(self).entries@ == old(self).entries@.update(i as int, entry),
    {
        let ghost old_entries = self.entries@;
        let ghost old_map = self.cameras@;
        let ghost idv = entry.id@;
        let ghost inf = info_of(entry);
        let ghost ev = entry;
        let _old = self.entries.remove(i);
        self.entries.insert(i, entry);
        self.cameras = Ghost(old_map.insert(idv, inf));
        proof {
            let ne = self.entries@;
            assert(ne =~= old_entries.update(i as int, ev));
            assert forall|a: int, b: int| 0 <= a < b < ne.len() implies chars_lt(#[trigger] ne[a].id@, #[trigger] ne[b].id@) by {
                assert(ne[a].id@ == old_entries[a].id@);
                assert(ne[b].id@ == old_entries[b].id@);
            }
            assert forall|a: int| 0 <= a < ne.len() implies self.cameras@.contains_key(#[trigger] ne[a].id@)
                && self.cameras@[ne[a].id@] == info_of(ne[a]) by {
                if a != i {
                    assert(ne[a] == old_entries[a]);
                    if a < i {
                        assert(chars_lt(old_entries[a].id@, idv));
                    } else {
                        assert(chars_lt(idv, old_entries[a].id@));
                    }
                    lemma_lt_irreflexive(idv);
                }
            }
            assert forall|k: Seq<char>| #[trigger] self.cameras@.contains_key(k) implies exists|a: int|
                0 <= a < ne.len() && #[trigger] ne[a].id@ == k by {
                if k == idv {
                    assert(ne[i as int].id@ == k);
                } else {
                    let j = choose|j: int| 0 <= j < old_entries.len() && #[trigger] old_entries[j].id@ == k;
                    assert(ne[j].id@ == k);
                }
            }
        }
    }

    /// Adds camera `id` with settings `config`, replacing what was known of it.
    pub fn insert(&mut self, id: String, config: CameraConfig)
        requires
            old(self).wf(),
        ensures
            final(self).wf(),
            final(self)@ == old(self)@.insert(id@, fresh(config@)),
    {
        match self.find(id.as_str()) {
            Some(i) => {
                let entry = CameraEntry { id, config, last_frame_ms: 0, frame_count: 0 };
                self.replace_at(i, entry);
            },
            None => {
                self.insert_new(id, config);
            },
        }
    }

    /// Registers camera `id` with settings `config` unless it is known already.
    /// Returns whether it was new.
    pub fn register(&mut self, id: &str, config: CameraConfig) -> (r: bool)
        requires
            old(self).wf(),
        ensures
            final(self).wf(),
            r == !old(self)@.contains_key(id@),
            r ==> final(self)@ == old(self)@.insert(id@, fresh(config@)),
            !r ==> final(self)@ == old(self)@,
    {
        match self.find(id) {
            Some(_) => false,
            None => {
                self.insert_new(owned(id), config);
                true
            },
        }
    }

    /// The settings of camera `id`, if it is known.
    pub fn config(&self, id: &str) -> (r: Option<CameraConfig>)
        requires
            self.wf(),
        ensures
            (r is Some) == self@.contains_key(id@),
            r is Some ==> r.unwrap()@ == self@[id@].config,
    {
        match self.find(id) {
            Some(i) => Some(self.entries[i].config.clone()),
            None => None,
        }
    }

    /// Notes a frame from camera `id` arriving at `now`. Returns when its
    /// previous frame arrived and the number of this frame, or `None` for an
    /// unknown camera.
    pub fn record_frame(&mut self, id: &str, now: u64) -> (r: Option<(u64, u64)>)
        requires
            old(self).wf(),
        ensures
            final(self).wf(),
            (r is Some) == old(self)@.contains_key(id@),
            r is None ==> final(self)@ == old(self)@,
            r is Some ==> {
                let old_info = old(self)@[id@];
                let n = if old_info.frame_count == u64::MAX { 0 } else { (old_info.frame_count + 1) as u64 };
                &&& r.unwrap() == (old_info.last_frame_ms, n)
                &&& final(self)@ == old(self)@.insert(
                    id@,
                    CameraInfo { config: old_info.config, last_frame_ms: now, frame_count: n },
                )
            },
    {
        match self.find(id) {
            Some(i) => {
                let prev = self.entries[i].last_frame_ms;
                let n = self.entries[i].frame_count.wrapping_add(1);
                let entry = CameraEntry {
                    id: self.entries[i].id.clone(),
                    config: self.entries[i].config.clone(),
                    last_frame_ms: now,
                    frame_count: n,
                };
                self.replace_at(i, entry);
                Some((prev, n))
            },
            None => None,
        }
    }

    /// Whether a camera other than the one at `skip` is named `name`.
    fn other_has_name(&self, skip: usize, name: &String) -> (r: bool)
        requires
            self.wf(),
            skip < self.entries@.len(),
        ensures
            r == name_taken_by_other(self@, self.entries@[skip as int].id@, name@),
    {
        let mut i: usize = 0;
        while i < self.entries.len()
            invariant
                self.wf(),
                skip < self.entries@.len(),
                i <= self.entries@.len(),
                forall|k: int|
                    0 <= k < i && k != skip ==> opt_view(self.entries@[k].config.name) != Some(name@),
            decreases self.entries@.len() - i,
        {
            if i != skip {
                let taken = match &self.entries[i].config.name {
                    Some(n) => *n == *name,
                    None => false,
                };
                if taken {
                    proof {
                        let k = self.entries@[i as int].id@;
                        assert(self.cameras@.contains_key(k));
                        assert(chars_lt(self.entries@[i as int].id@, self.entries@[skip as int].id@)
                            || chars_lt(self.entries@[skip as int].id@, self.entries@[i as int].id@));
                        lemma_lt_irreflexive(k);
                    }
                    return true;
                }
            }
            i = i + 1;
        }
        proof {
            let sid = self.entries@[skip as int].id@;
            if name_taken_by_other(self@, sid, name@) {
                let k = choose|k: Seq<char>| k != sid && #[trigger] self.cameras@.contains_key(k)
                    && self.cameras@[k].config.name == Some(name@);
                let j = choose|j: int| 0 <= j < self.entries@.len() && #[trigger] self.entries@[j].id@ == k;
                assert(j != skip);
            }
        }
        false
    }

    /// Changes the settings of camera `id` as `update` asks. Refused when the
    /// camera is unknown, or when the update gives a non-empty name (after
    /// trimming) that another camera already carries.
    pub fn update_config(&mut self, id: &str, update: &ConfigUpdate) -> (r: Result<CameraConfig, ConfigError>)
        requires
            old(self).wf(),
        ensures
            final(self).wf(),
            match (r, update_outcome(old(self)@, id@, update@)) {
                (Ok(c), Ok(v)) => c@ == v,
                (Err(ConfigError::NotFound), Err(ConfigError::NotFound)) => true,
                (Err(ConfigError::NameTaken), Err(ConfigError::NameTaken)) => true,
                _ => false,
            },
            match r {
                Ok(c) => final(self)@ == old(self)@.insert(id@, with_config(old(self)@[id@], c@)),
                Err(_) => final(self)@ == old(self)@,
            },
    {
        let i = match self.find(id) {
            Some(i) => i,
            None => {
                return Err(ConfigError::NotFound);
            },
        };
        proof {
            assert(self.cameras@.contains_key(id@));
        }
        match update.requested_name() {
            Some(n) => {
                if n.as_str().unicode_len() > 0 && self.other_has_name(i, &n) {
                    return Err(ConfigError::NameTaken);
                }
            },
            None => {},
        }
        let mut config = self.entries[i].config.clone();
        config.apply(update);
        let result = config.clone();
        let entry = CameraEntry {
            id: self.entries[i].id.clone(),
            config,
            last_frame_ms: self.entries[i].last_frame_ms,
            frame_count: self.entries[i].frame_count,
        };
        self.replace_at(i, entry);
        Ok(result)
    }

    /// Forgets camera `id`. Returns whether it was known.
    pub fn delete(&mut self, id: &str) -> (r: bool)
        requires
            old(self).wf(),
        ensures
            final(self).wf(),
            r == old(self)@.contains_key(id@),
            final(self)@ == old(self)@.remove(id@),
    {
        match self.find(id) {
            Some(i) => {
                let ghost old_entries = self.entries@;
                let ghost old_map = self.cameras@;
                let _gone = self.entries.remove(i);
                self.cameras = Ghost(old_map.remove(id@));
                proof {
                    let ne = self.entries@;
                    assert forall|a: int, b: int| 0 <= a < b < ne.len() implies chars_lt(#[trigger] ne[a].id@, #[trigger] ne[b].id@) by {
                        if a >= i {
                            assert(ne[a] == old_entries[a + 1]);
                        } else {
                            assert(ne[a] == old_entries[a]);
                        }
                        if b >= i {
                            assert(ne[b] == old_entries[b + 1]);
                        } else {
                            assert(ne[b] == old_entries[b]);
                        }
                    }
                    assert forall|a: int| 0 <= a < ne.len() implies self.cameras@.contains_key(#[trigger] ne[a].id@)
                        && self.cameras@[ne[a].id@] == info_of(ne[a]) by {
                        let j = if a >= i { a + 1 } else { a };
                        assert(ne[a] == old_entries[j]);
                        if j < i {
                            assert(chars_lt(old_entries[j].id@, id@));
                        } else {
                            assert(chars_lt(id@, old_entries[j].id@));
                        }
                        lemma_lt_irreflexive(id@);
                    }
                    assert forall|k: Seq<char>| #[trigger] self.cameras@.contains_key(k) implies exists|a: int|
                        0 <= a < ne.len() && #[trigger] ne[a].id@ == k by {
                        let j = choose|j: int| 0 <= j < old_entries.len() && #[trigger] old_entries[j].id@ == k;
                        if j < i {
                            assert(ne[j].id@ == k);
                        } else {
                            assert(ne[j - 1].id@ == k);
                        }
                    }
                }
                true
            },
            None => {
                proof {
                    assert(self.cameras@.remove(id@) =~= self.cameras@);
                }
                false
            },
        }
    }

    /// Turns motion detection for camera `id` on or off; the new settings of a
    /// known camera, `None` (and nothing changed) for an unknown one.
    pub fn set_motion_enabled(&mut self, id: &str, on: bool) -> (r: Option<CameraConfig>)
        requires
            old(self).wf(),
        ensures
            final(self).wf(),
            (r is Some) == old(self)@.contains_key(id@),
            r is None ==> final(self)@ == old(self)@,
            r is Some ==> r.unwrap()@ == (ConfigView { motion_enabled: on, ..old(self)@[id@].config })
                && final(self)@ == old(self)@.insert(id@, with_config(old(self)@[id@], r.unwrap()@)),
    {
        let update = ConfigUpdate {
            name: None,
            rotation: None,
            mirror: None,
            motion_enabled: Some(on),
            notifications_enabled: None,
            pixel_threshold: None,
            motion_percent_bits: None,
            motion_check_every: None,
            motion_timeout_ms: None,
        };
        match self.update_config(id, &update) {
            Ok(c) => Some(c),
            Err(_) => None,
        }
    }

    /// Turns notifications for camera `id` on or off; the new settings of a
    /// known camera, `None` (and nothing changed) for an unknown one.
    pub fn set_notifications_enabled(&mut self, id: &str, on: bool) -> (r: Option<CameraConfig>)
        requires
            old(self).wf(),
        ensures
            final(self).wf(),
            (r is Some) == old(self)@.contains_key(id@),
            r is None ==> final(self)@ == old(self)@,
            r is Some ==> r.unwrap()@ == (ConfigView { notifications_enabled: on, ..old(self)@[id@].config })
                && final(self)@ == old(self)@.insert(id@, with_config(old(self)@[id@], r.unwrap()@)),
    {
        let update = ConfigUpdate {
            name: None,
            rotation: None,
            mirror: None,
            motion_enabled: None,
            notifications_enabled: Some(on),
            pixel_threshold: None,
            motion_percent_bits: None,
            motion_check_every: None,
            motion_timeout_ms: None,
        };
        match self.update_config(id, &update) {
            Ok(c) => Some(c),
            Err(_) => None,
        }
    }

    /// Every camera with its settings, whether it is live at `now`, and its
    /// frame count, in ascending order of id.
    pub fn summaries(&self, now: u64) -> (r: Vec<CameraSummary>)
        requires
            self.wf(),
        ensures
            r@.len() == self@.len(),
            strictly_ascending(r@.map_values(|c: CameraSummary| c.id@)),
            forall|i: int| 0 <= i < r@.len() ==> {
                let id = #[trigger] r@[i].id@;
                &&& self@.contains_key(id)
                &&& r@[i].config@ == self@[id].config
                &&& r@[i].active == spec_is_active(self@[id].last_frame_ms, now)
                &&& r@[i].frame_count == self@[id].frame_count
            },
            forall|k: Seq<char>| #[trigger] self@.contains_key(k) ==> exists|i: int|
                0 <= i < r@.len() && #[trigger] r@[i].id@ == k,
    {
        proof {
            self.lemma_dom_is_ids();
        }
        let mut r: Vec<CameraSummary> = Vec::new();
        let mut i: usize = 0;
        while i < self.entries.len()
            invariant
                self.wf(),
                i <= self.entries@.len(),
                r@.len() == i,
                forall|k: int| 0 <= k < i ==> #[trigger] r@[k].id@ == self.entries@[k].id@
                    && r@[k].config@ == self.entries@[k].config@
                    && r@[k].active == spec_is_active(self.entries@[k].last_frame_ms, now)
                    && r@[k].frame_count == self.entries@[k].frame_count,
            decreases self.entries@.len() - i,
        {
            let e = &self.entries[i];
            r.push(CameraSummary {
                id: e.id.clone(),
                config: e.config.clone(),
                active: is_active(e.last_frame_ms, now),
                frame_count: e.frame_count,
            });
            i = i + 1;
        }
        proof {
            let ids = r@.map_values(|c: CameraSummary| c.id@);
            assert forall|a: int, b: int| 0 <= a < b < ids.len() implies chars_lt(ids[a], ids[b]) by {
                assert(ids[a] == self.entries@[a].id@);
                assert(ids[b] == self.entries@[b].id@);
            }
            assert forall|a: int| 0 <= a < r@.len() implies {
                let id = #[trigger] r@[a].id@;
                &&& self@.contains_key(id)
                &&& r@[a].config@ == self@[id].config
                &&& r@[a].active == spec_is_active(self@[id].last_frame_ms, now)
                &&& r@[a].frame_count == self@[id].frame_count
            } by {
                assert(self.cameras@.contains_key(self.entries@[a].id@));
            }
            assert forall|k: Seq<char>| #[trigger] self@.contains_key(k) implies exists|a: int|
                0 <= a < r@.len() && #[trigger] r@[a].id@ == k by {
                let j = choose|j: int| 0 <= j < self.entries@.len() && #[trigger] self.entries@[j].id@ == k;
                assert(r@[j].id@ == k);
            }
        }
        r
    }
}

} // verus!
