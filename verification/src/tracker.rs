use vstd::prelude::*;
use crate::config::opt_view;
use crate::text::{owned, views};
use crate::video::{frame_file_name, session_parts, spec_frame_file_name, split_session};

verus! {

/// The motion-session state of one camera, as the contracts speak of it.
pub struct TrackerView {
    /// The last frame that was compared, downscaled to grey.
    pub prev_gray: Option<Seq<u8>>,
    /// Frames received since the camera became known.
    pub frame_counter: u64,
    /// Whether a motion session is open and frames are being saved.
    pub saving: bool,
    /// When motion was last seen.
    pub last_motion_ms: u64,
    /// The open session's name, `DATE_TIME`.
    pub session_dir: Option<Seq<char>>,
    /// The directory name of the camera for its latest session.
    pub session_cam_dir: Option<Seq<char>>,
    /// When the open session started.
    pub session_start_ms: u64,
}

/// A tracker is consistent when a session is open exactly when it has a
/// name, and an open session always has a camera directory.
pub open spec fn consistent(v: TrackerView) -> bool {
    &&& v.saving == (v.session_dir is Some)
    &&& v.saving ==> v.session_cam_dir is Some
}

/// The frame counter after one more frame (wrapping at the top).
pub open spec fn next_count(c: u64) -> u64 {
    if c == u64::MAX { 0 } else { (c + 1) as u64 }
}

/// Whether a frame is compared with the previous one: motion detection is
/// on and the frame's number is a multiple of `check_every`.
pub open spec fn spec_checks(v: TrackerView, motion_enabled: bool, check_every: u64) -> bool {
    motion_enabled && next_count(v.frame_counter) % check_every == 0
}

/// What a compared frame means for the session.
pub enum MotionStep {
    /// No motion in this frame.
    NoMotion,
    /// Motion while a session is open: the session goes on.
    Continuing,
    /// Motion with no session open: a session should start.
    Starting,
}

/// The tracker after a compared frame (`gray`, whether it showed motion, at `now`),
/// and what it means: the frame becomes the one to compare with next; motion
/// moves the time of the last motion to `now`.
pub open spec fn spec_record(v: TrackerView, gray: Seq<u8>, detected: bool, now: u64) -> (TrackerView, MotionStep) {
    let v1 = TrackerView { prev_gray: Some(gray), ..v };
    if detected {
        (
            TrackerView { last_motion_ms: now, ..v1 },
            if v.saving { MotionStep::Continuing } else { MotionStep::Starting },
        )
    } else {
        (v1, MotionStep::NoMotion)
    }
}

/// The tracker once a session named `session` has started at `now` in the
/// camera directory `cam_dir`.
pub open spec fn spec_start(v: TrackerView, session: Seq<char>, cam_dir: Seq<char>, now: u64) -> TrackerView {
    TrackerView {
        saving: true,
        session_dir: Some(session),
        session_cam_dir: Some(cam_dir),
        session_start_ms: now,
        ..v
    }
}

/// What one tick of the session timer decides.
pub enum TimeoutStep {
    /// No session is open: the timer stops.
    Stop,
    /// The session is still within its timeout.
    Wait,
    /// The session timed out and is closed: encode it. Carries its name
    /// and its length in milliseconds.
    Finalize(String, u64),
}

/// The view of a timer decision.
pub enum TimeoutView {
    Stop,
    Wait,
    Finalize(Seq<char>, u64),
}

pub open spec fn timeout_view(t: TimeoutStep) -> TimeoutView {
    match t {
        TimeoutStep::Stop => TimeoutView::Stop,
        TimeoutStep::Wait => TimeoutView::Wait,
        TimeoutStep::Finalize(s, d) => TimeoutView::Finalize(s@, d),
    }
}

pub open spec fn sat_sub(a: u64, b: u64) -> u64 {
    if a >= b { (a - b) as u64 } else { 0 }
}

/// One tick of the session timer at `now`: with no session open the timer
/// stops; when no motion was seen for `timeout` milliseconds the session
/// closes; otherwise it waits.
pub open spec fn spec_timeout(v: TrackerView, now: u64, timeout: u64) -> (TrackerView, TimeoutView) {
    if !v.saving {
        (v, TimeoutView::Stop)
    } else if sat_sub(now, v.last_motion_ms) >= timeout {
        (
            TrackerView { saving: false, session_dir: None, ..v },
            TimeoutView::Finalize(v.session_dir.unwrap(), sat_sub(now, v.session_start_ms)),
        )
    } else {
        (v, TimeoutView::Wait)
    }
}

/// Where a frame numbered `n` is saved, as path components below the save
/// directory, or `None` when no session is open. The camera directory is
/// the session's, or `camera_id` when the session has none.
pub open spec fn spec_frame_path(v: TrackerView, camera_id: Seq<char>, n: u64) -> Option<Seq<Seq<char>>> {
    match v.session_dir {
        Some(session) => {
            let dir = match v.session_cam_dir {
                Some(d) => d,
                None => camera_id,
            };
            Some(
                seq![
                    dir,
                    session_parts(session).0,
                    ".raw"@,
                    session_parts(session).1,
                    spec_frame_file_name(n),
                ],
            )
        },
        None => None,
    }
}

/// The motion-session state of one camera.
pub struct MotionTracker {
    prev_gray: Option<Vec<u8>>,
    frame_counter: u64,
    saving: bool,
    last_motion_ms: u64,
    session_dir: Option<String>,
    session_cam_dir: Option<String>,
    session_start_ms: u64,
}

impl View for MotionTracker {
    type V = TrackerView;

    closed spec fn view(&self) -> TrackerView {
        TrackerView {
            prev_gray: match self.prev_gray {
                Some(g) => Some(g@),
                None => None,
            },
            frame_counter: self.frame_counter,
            saving: self.saving,
            last_motion_ms: self.last_motion_ms,
            session_dir: opt_view(self.session_dir),
            session_cam_dir: opt_view(self.session_cam_dir),
            session_start_ms: self.session_start_ms,
        }
    }
}

/// Whether a frame is compared, and the frame to compare it with.
pub struct FrameCheck {
    pub check: bool,
    pub prev: Option<Vec<u8>>,
}

impl MotionTracker {
    /// A tracker is always consistent.
    #[verifier::type_invariant]
    spec fn tracker_invariant(self) -> bool {
        &&& self.saving == (self.session_dir is Some)
        &&& self.saving ==> self.session_cam_dir is Some
    }

    /// The state of a camera that has sent nothing yet: no frame to compare
    /// with, no session.
    pub fn new() -> (r: MotionTracker)
        ensures
            r@ == (TrackerView {
                prev_gray: None,
                frame_counter: 0,
                saving: false,
                last_motion_ms: 0,
                session_dir: None,
                session_cam_dir: None,
                session_start_ms: 0,
            }),
            consistent(r@),
    {
        MotionTracker {
            prev_gray: None,
            frame_counter: 0,
            saving: false,
            last_motion_ms: 0,
            session_dir: None,
            session_cam_dir: None,
            session_start_ms: 0,
        }
    }

    /// Whether a session is open. Every tracker is consistent.
    pub fn saving(&self) -> (r: bool)
        ensures
            r == self@.saving,
            consistent(self@),
    {
        proof {
            use_type_invariant(self);
        }
        self.saving
    }

    /// Counts a new frame and decides whether to compare it with the
    /// previous one; if so, hands out that previous frame.
    pub fn begin_frame(&mut self, motion_enabled: bool, check_every: u64) -> (r: FrameCheck)
        requires
            motion_enabled ==> check_every > 0,
        ensures
            final(self)@ == (TrackerView { frame_counter: next_count(old(self)@.frame_counter), ..old(self)@ }),
            r.check == spec_checks(old(self)@, motion_enabled, check_every),
            r.check ==> match (r.prev, old(self)@.prev_gray) {
                (Some(p), Some(q)) => p@ == q,
                (None, None) => true,
                _ => false,
            },
            !r.check ==> r.prev is None,
    {
        proof {
            use_type_invariant(&*self);
        }
        self.frame_counter = self.frame_counter.wrapping_add(1);
        let check = motion_enabled && self.frame_counter % check_every == 0;
        let prev = if check {
            match &self.prev_gray {
                Some(p) => Some(p.clone()),
                None => None,
            }
        } else {
            None
        };
        FrameCheck { check, prev }
    }

    /// Takes in a compared frame and whether it showed motion, at `now`.
    pub fn record_analysis(&mut self, gray: Vec<u8>, detected: bool, now: u64) -> (r: MotionStep)
        ensures
            (final(self)@, r) == spec_record(old(self)@, gray@, detected, now),
            final(self)@.prev_gray == Some(gray@),
            detected ==> final(self)@.last_motion_ms == now,
            !detected ==> final(self)@.last_motion_ms == old(self)@.last_motion_ms,
            final(self)@.saving == old(self)@.saving,
            final(self)@.session_dir == old(self)@.session_dir,
    {
        proof {
            use_type_invariant(&*self);
        }
        self.prev_gray = Some(gray);
        if detected {
            self.last_motion_ms = now;
            if self.saving {
                MotionStep::Continuing
            } else {
                MotionStep::Starting
            }
        } else {
            MotionStep::NoMotion
        }
    }

    /// Opens a session named `session` for camera directory `cam_dir` at `now`,
    /// once its frame directory exists.
    pub fn start_session(&mut self, session: String, cam_dir: String, now: u64)
        requires
            !old(self)@.saving,
        ensures
            final(self)@ == spec_start(old(self)@, session@, cam_dir@, now),
    {
        let mut taken = MotionTracker::new();
        std::mem::swap(&mut taken, self);
        let MotionTracker { prev_gray, frame_counter, last_motion_ms, .. } = taken;
        *self = MotionTracker {
            prev_gray,
            frame_counter,
            saving: true,
            last_motion_ms,
            session_dir: Some(session),
            session_cam_dir: Some(cam_dir),
            session_start_ms: now,
        };
    }

    /// One tick of the session timer at `now` with the camera's timeout.
    pub fn timeout_tick(&mut self, now: u64, timeout: u64) -> (r: TimeoutStep)
        ensures
            (final(self)@, timeout_view(r)) == spec_timeout(old(self)@, now, timeout),
    {
        proof {
            use_type_invariant(&*self);
        }
        if !self.saving {
            return TimeoutStep::Stop;
        }
        let elapsed = now.saturating_sub(self.last_motion_ms);
        if elapsed >= timeout {
            let session = match &self.session_dir {
                Some(s) => s.clone(),
                None => String::new(),
            };
            let duration = now.saturating_sub(self.session_start_ms);
            let mut taken = MotionTracker::new();
            std::mem::swap(&mut taken, self);
            let MotionTracker { prev_gray, frame_counter, last_motion_ms, session_cam_dir, session_start_ms, .. } = taken;
            *self = MotionTracker {
                prev_gray,
                frame_counter,
                saving: false,
                last_motion_ms,
                session_dir: None,
                session_cam_dir,
                session_start_ms,
            };
            TimeoutStep::Finalize(session, duration)
        } else {
            TimeoutStep::Wait
        }
    }

    /// The camera directory the session timer reports under: the latest
    /// session's, or `camera_id`.
    pub fn timer_dir_name(&self, camera_id: &str) -> (r: String)
        ensures
            r@ == match self@.session_cam_dir {
                Some(d) => d,
                None => camera_id@,
            },
    {
        match &self.session_cam_dir {
            Some(d) => d.clone(),
            None => owned(camera_id),
        }
    }

    /// Where frame number `n` of camera `camera_id` is saved, or `None` when no
    /// session is open.
    pub fn frame_path(&self, camera_id: &str, n: u64) -> (r: Option<Vec<String>>)
        ensures
            match (r, spec_frame_path(self@, camera_id@, n)) {
                (Some(p), Some(q)) => views(p@) == q,
                (None, None) => true,
                _ => false,
            },
    {
        match &self.session_dir {
            Some(session) => {
                let dir = match &self.session_cam_dir {
                    Some(d) => d.clone(),
                    None => owned(camera_id),
                };
                let (date, time) = split_session(session.as_str());
                let mut p: Vec<String> = Vec::new();
                p.push(dir);
                p.push(date);
                p.push(owned(".raw"));
                p.push(time);
                p.push(frame_file_name(n));
                assert(views(p@) =~= spec_frame_path(self@, camera_id@, n).unwrap());
                Some(p)
            },
            None => None,
        }
    }
}

/// Every step of the tracker keeps it consistent: counting a frame, taking
/// in a compared frame, opening a session (when none is open) and a tick of
/// the session timer.
pub proof fn law_steps_keep_consistency(
    v: TrackerView,
    gray: Seq<u8>,
    detected: bool,
    now: u64,
    session: Seq<char>,
    cam_dir: Seq<char>,
    timeout: u64,
)
    requires
        consistent(v),
    ensures
        consistent(TrackerView { frame_counter: next_count(v.frame_counter), ..v }),
        consistent(spec_record(v, gray, detected, now).0),
        !v.saving ==> consistent(spec_start(v, session, cam_dir, now)),
        consistent(spec_timeout(v, now, timeout).0),
{
}

/// Frames are saved exactly while a session is open.
pub proof fn law_frames_saved_only_in_session(v: TrackerView, camera_id: Seq<char>, n: u64)
    requires
        consistent(v),
    ensures
        (spec_frame_path(v, camera_id, n) is Some) == v.saving,
{
}

/// A session starts only on motion, and only when none is open; a frame
/// without motion leaves the session state as it was.
pub proof fn law_sessions_start_on_motion(v: TrackerView, gray: Seq<u8>, detected: bool, now: u64)
    ensures
        (spec_record(v, gray, detected, now).1 is Starting) == (detected && !v.saving),
        !detected ==> spec_record(v, gray, detected, now).0.saving == v.saving
            && spec_record(v, gray, detected, now).0.session_dir == v.session_dir
            && spec_record(v, gray, detected, now).0.last_motion_ms == v.last_motion_ms,
{
}

/// Motion keeps an open session alive: after motion at `now`, no tick of the
/// timer less than `timeout` milliseconds later closes the session.
pub proof fn law_motion_defers_timeout(v: TrackerView, gray: Seq<u8>, now: u64, later: u64, timeout: u64)
    requires
        consistent(v),
        v.saving,
        now <= later,
        later - now < timeout,
    ensures
        spec_timeout(spec_record(v, gray, true, now).0, later, timeout).1 == TimeoutView::Wait,
{
}

/// Motion marks its time whether or not a session is open: after a frame
/// with motion at `now` the last motion is `now`, and a frame without motion
/// leaves the last motion as it was.
pub proof fn law_motion_marks_time(v: TrackerView, gray: Seq<u8>, detected: bool, now: u64)
    ensures
        detected ==> spec_record(v, gray, detected, now).0.last_motion_ms == now,
        !detected ==> spec_record(v, gray, detected, now).0.last_motion_ms == v.last_motion_ms,
        spec_record(v, gray, detected, now).0.prev_gray == Some(gray),
{
}

/// A session opened on motion at `now` stays open: no tick of the timer less
/// than `timeout` milliseconds later closes it.
pub proof fn law_new_session_not_closed_early(
    v: TrackerView,
    gray: Seq<u8>,
    now: u64,
    session: Seq<char>,
    cam_dir: Seq<char>,
    later: u64,
    timeout: u64,
)
    requires
        consistent(v),
        !v.saving,
        now <= later,
        later - now < timeout,
    ensures
        spec_record(v, gray, true, now).1 is Starting,
        spec_timeout(spec_start(spec_record(v, gray, true, now).0, session, cam_dir, now), later, timeout).1
            == TimeoutView::Wait,
{
}

/// A session is finalized once: after the tick that closes it no session is
/// open, the next tick stops the timer and no further frame is saved.
pub proof fn law_finalize_once(v: TrackerView, now: u64, timeout: u64, later: u64, camera_id: Seq<char>, n: u64)
    requires
        consistent(v),
        spec_timeout(v, now, timeout).1 is Finalize,
    ensures
        !spec_timeout(v, now, timeout).0.saving,
        spec_timeout(spec_timeout(v, now, timeout).0, later, timeout).1 == TimeoutView::Stop,
        spec_frame_path(spec_timeout(v, now, timeout).0, camera_id, n) is None,
{
}

} // verus!
