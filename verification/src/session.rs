use vstd::prelude::*;
use crate::clock::{
    session_name, spec_date_part, spec_session_name, spec_time_part, two_digits, year_text, Timestamp,
};
use crate::config::opt_view;
use crate::naming::{display_name, sanitize_dir_name, spec_display_name, spec_sanitize};
use crate::text::{decimal, digit_char, lemma_leading_exact, repeat, views, zero_padded};
use crate::tracker::{spec_frame_path, spec_start, TrackerView};
use crate::video::{frames_dir, not_underscore, session_parts, spec_frame_file_name, spec_frames_dir, spec_video_path};

verus! {

/// Everything needed to open a motion session for a camera.
pub struct SessionPlan {
    /// The session's name, `DATE_TIME`.
    pub session: String,
    /// The camera's name in messages.
    pub display_name: String,
    /// The camera's directory name.
    pub cam_dir: String,
    /// The directory for the session's raw frames, as path components below
    /// the save directory.
    pub frames_dir: Vec<String>,
}

/// Plans a motion session of camera `camera_id` (configured name `name`)
/// that starts at `t`.
pub fn plan_session(name: &Option<String>, camera_id: &str, t: &Timestamp) -> (r: SessionPlan)
    ensures
        r.session@ == spec_session_name(*t),
        r.display_name@ == spec_display_name(opt_view(*name), camera_id@),
        r.cam_dir@ == spec_sanitize(r.display_name@),
        views(r.frames_dir@) == spec_frames_dir(r.cam_dir@, r.session@),
{
    let session = session_name(t);
    let shown = display_name(name, camera_id);
    let cam_dir = sanitize_dir_name(shown.as_str());
    let dir = frames_dir(cam_dir.as_str(), session.as_str());
    SessionPlan { session, display_name: shown, cam_dir, frames_dir: dir }
}

/// No character of a decimal number is `_`.
pub proof fn lemma_decimal_no_underscore(n: nat)
    ensures
        forall|i: int| 0 <= i < decimal(n).len() ==> decimal(n)[i] != '_',
    decreases n,
{
    if n >= 10 {
        lemma_decimal_no_underscore(n / 10);
        assert forall|i: int| 0 <= i < decimal(n).len() implies decimal(n)[i] != '_' by {
            if i < decimal(n / 10).len() {
                assert(decimal(n)[i] == decimal(n / 10)[i]);
            } else {
                assert(decimal(n)[i] == digit_char(n % 10));
            }
        }
    }
}

proof fn lemma_padded_no_underscore(n: nat, width: nat)
    ensures
        forall|i: int| 0 <= i < zero_padded(n, width).len() ==> zero_padded(n, width)[i] != '_',
{
    lemma_decimal_no_underscore(n);
    let d = decimal(n);
    if d.len() < width {
        let z = repeat('0', (width - d.len()) as nat);
        assert forall|i: int| 0 <= i < zero_padded(n, width).len() implies zero_padded(n, width)[i] != '_' by {
            if i < z.len() {
                assert(zero_padded(n, width)[i] == z[i]);
            } else {
                assert(zero_padded(n, width)[i] == d[i - z.len()]);
            }
        }
    }
}

/// A session's name splits back into the date and time it was made of: its
/// frames go to the directories of that date and time.
pub proof fn law_session_name_splits(t: Timestamp)
    ensures
        session_parts(spec_session_name(t)) == (spec_date_part(t), spec_time_part(t)),
{
    let date = spec_date_part(t);
    let time = spec_time_part(t);
    let s = spec_session_name(t);
    lemma_padded_no_underscore(t.day as nat, 2);
    lemma_padded_no_underscore(t.month as nat, 2);
    lemma_padded_no_underscore(t.year as nat, 4);
    lemma_decimal_no_underscore(t.year as nat);
    let a = two_digits(t.day);
    let b = two_digits(t.month);
    let y = year_text(t.year);
    assert forall|i: int| 0 <= i < y.len() implies y[i] != '_' by {
        if t.year >= 10000 {
            if i > 0 {
                assert(y[i] == decimal(t.year as nat)[i - 1]);
            }
        }
    }
    assert forall|i: int| 0 <= i < date.len() implies (not_underscore())(#[trigger] s[i]) by {
        assert(s[i] == date[i]);
        let dash = "-"@;
        assert(dash.len() == 1 && dash[0] == '-') by {
            reveal_strlit("-");
        }
        if i < a.len() {
            assert(date[i] == a[i]);
        } else if i == a.len() {
            assert(date[i] == '-');
        } else if i < a.len() + 1 + b.len() {
            assert(date[i] == b[i - a.len() - 1]);
        } else if i == a.len() + 1 + b.len() {
            assert(date[i] == '-');
        } else {
            assert(date[i] == y[i - a.len() - 2 - b.len()]);
        }
    }
    assert("_"@.len() == 1 && "_"@[0] == '_') by {
        reveal_strlit("_");
    }
    assert(s[date.len() as int] == '_');
    lemma_leading_exact(s, not_underscore(), date.len() as int);
    assert(s.take(date.len() as int) =~= date);
    assert(s.skip((date.len() + 1) as int) =~= time);
}

/// Every frame of an open session lands in the directory created for that
/// session when it started.
pub proof fn law_frames_land_in_session_dir(
    v: TrackerView,
    session: Seq<char>,
    cam_dir: Seq<char>,
    now: u64,
    camera_id: Seq<char>,
    n: u64,
)
    ensures
        spec_frame_path(spec_start(v, session, cam_dir, now), camera_id, n) == Some(
            spec_frames_dir(cam_dir, session).push(spec_frame_file_name(n)),
        ),
{
    assert(spec_frame_path(spec_start(v, session, cam_dir, now), camera_id, n).unwrap() =~= spec_frames_dir(
        cam_dir,
        session,
    ).push(spec_frame_file_name(n)));
}

/// A session's video sits in the same camera and date directory as its raw
/// frames, named after the session's time.
pub proof fn law_video_beside_frames(cam_dir: Seq<char>, session: Seq<char>)
    ensures
        spec_video_path(cam_dir, session)[0] == spec_frames_dir(cam_dir, session)[0],
        spec_video_path(cam_dir, session)[1] == spec_frames_dir(cam_dir, session)[1],
        spec_video_path(cam_dir, session)[2] == spec_frames_dir(cam_dir, session)[3] + ".mp4"@,
{
}

} // verus!
