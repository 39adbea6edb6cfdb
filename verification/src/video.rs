use vstd::prelude::*;
use crate::text::{
    chars_of, joined, lemma_leading_exact, leading, owned, push_zero_padded, string_of, views,
    zero_padded,
};

verus! {

/// The video filter for a camera's rotation (90, 180 or 270 degrees; any
/// other value rotates nothing) and mirroring, or `None` when neither applies.
pub open spec fn spec_vf_filter(rotation: u16, mirror: bool) -> Option<Seq<char>> {
    let rotate: Seq<Seq<char>> = if rotation == 90 {
        seq!["transpose=1"@]
    } else if rotation == 180 {
        seq!["transpose=2,transpose=2"@]
    } else if rotation == 270 {
        seq!["transpose=2"@]
    } else {
        Seq::empty()
    };
    let filters = if mirror { rotate.push("hflip"@) } else { rotate };
    if filters.len() == 0 { None } else { Some(joined(filters, ","@)) }
}

/// The ffmpeg `-vf` argument that rotates and mirrors a camera's video.
pub fn build_vf_filter(rotation: u16, mirror: bool) -> (r: Option<String>)
    ensures
        match (r, spec_vf_filter(rotation, mirror)) {
            (Some(s), Some(t)) => s@ == t,
            (None, None) => true,
            _ => false,
        },
{
    let mut filters: Vec<String> = Vec::new();
    if rotation == 90 {
        filters.push(owned("transpose=1"));
    } else if rotation == 180 {
        filters.push(owned("transpose=2,transpose=2"));
    } else if rotation == 270 {
        filters.push(owned("transpose=2"));
    }
    if mirror {
        filters.push(owned("hflip"));
    }
    proof {
        let rotate: Seq<Seq<char>> = if rotation == 90 {
            seq!["transpose=1"@]
        } else if rotation == 180 {
            seq!["transpose=2,transpose=2"@]
        } else if rotation == 270 {
            seq!["transpose=2"@]
        } else {
            Seq::empty()
        };
        let expected = if mirror { rotate.push("hflip"@) } else { rotate };
        assert(views(filters@) =~= expected);
    }
    if filters.len() == 0 {
        None
    } else {
        Some(crate::text::join(&filters, ","))
    }
}

/// Mirroring always adds the `hflip` filter, last, whatever the rotation;
/// without mirroring and without one of the rotations 90, 180 and 270 there
/// is no filter; each of those rotations gives its transpose filter, first.
pub proof fn law_vf_filter(rotation: u16)
    ensures
        spec_vf_filter(rotation, true) is Some,
        spec_vf_filter(rotation, true).unwrap().len() >= 5,
        spec_vf_filter(rotation, true).unwrap().skip(spec_vf_filter(rotation, true).unwrap().len() - 5) == "hflip"@,
        spec_vf_filter(0, true) == Some("hflip"@),
        (rotation != 90 && rotation != 180 && rotation != 270) ==> spec_vf_filter(rotation, false) is None,
        (rotation != 90 && rotation != 180 && rotation != 270) ==> spec_vf_filter(rotation, true) == Some("hflip"@),
        spec_vf_filter(90, false) == Some("transpose=1"@),
        spec_vf_filter(180, false) == Some("transpose=2,transpose=2"@),
        spec_vf_filter(270, false) == Some("transpose=2"@),
        spec_vf_filter(90, true) == Some("transpose=1"@ + ","@ + "hflip"@),
        spec_vf_filter(180, true) == Some("transpose=2,transpose=2"@ + ","@ + "hflip"@),
        spec_vf_filter(270, true) == Some("transpose=2"@ + ","@ + "hflip"@),
{
    reveal_strlit("hflip");
    let h: Seq<Seq<char>> = seq!["hflip"@];
    assert(Seq::<Seq<char>>::empty().push("hflip"@) =~= h);
    assert(joined(h, ","@) == "hflip"@);
    let r = spec_vf_filter(rotation, true).unwrap();
    if rotation == 90 || rotation == 180 || rotation == 270 {
        let first: Seq<char> = if rotation == 90 {
            "transpose=1"@
        } else if rotation == 180 {
            "transpose=2,transpose=2"@
        } else {
            "transpose=2"@
        };
        let two = seq![first].push("hflip"@);
        assert(two.drop_last() =~= seq![first]);
        assert(joined(two, ","@) == joined(seq![first], ","@) + ","@ + "hflip"@);
        assert(r == first + ","@ + "hflip"@);
        assert(r.skip(r.len() - 5) =~= "hflip"@);
    } else {
        assert(r == "hflip"@);
        assert(r.skip(r.len() - 5) =~= "hflip"@);
    }
    let h0 = Seq::<Seq<char>>::empty().push("hflip"@);
    assert(h0 =~= h);
    let t1 = seq!["transpose=1"@].push("hflip"@);
    assert(t1.drop_last() =~= seq!["transpose=1"@]);
    let t2 = seq!["transpose=2,transpose=2"@].push("hflip"@);
    assert(t2.drop_last() =~= seq!["transpose=2,transpose=2"@]);
    let t3 = seq!["transpose=2"@].push("hflip"@);
    assert(t3.drop_last() =~= seq!["transpose=2"@]);
}

pub open spec fn not_underscore() -> spec_fn(char) -> bool {
    |c: char| c != '_'
}

/// A session name `DATE_TIME` split at its first `_` into date and time; a
/// name without `_` is all date, with the time `00-00-00`.
pub open spec fn session_parts(session: Seq<char>) -> (Seq<char>, Seq<char>) {
    let k = leading(session, not_underscore());
    if k < session.len() {
        (session.take(k as int), session.skip((k + 1) as int))
    } else {
        (session, "00-00-00"@)
    }
}

/// Splits a session name into its date and time parts.
pub fn split_session(session: &str) -> (r: (String, String))
    ensures
        (r.0@, r.1@) == session_parts(session@),
{
    let v = chars_of(session);
    let mut k: usize = 0;
    while k < v.len() && v[k] != '_'
        invariant
            k <= v.len(),
            v@ == session@,
            forall|j: int| 0 <= j < k ==> v@[j] != '_',
        decreases v.len() - k,
    {
        k = k + 1;
    }
    proof {
        assert forall|j: int| 0 <= j < k implies (not_underscore())(#[trigger] v@[j]) by {}
        lemma_leading_exact(v@, not_underscore(), k as int);
    }
    if k < v.len() {
        let date = string_of(&v, 0, k);
        let time = string_of(&v, k + 1, v.len());
        assert(v@.subrange(0, k as int) =~= v@.take(k as int));
        assert(v@.subrange(k + 1, v@.len() as int) =~= v@.skip(k + 1));
        (date, time)
    } else {
        (owned(session), owned("00-00-00"))
    }
}

/// The file name of frame number `n` of a session: `frame_NNNNNN.jpg`, the
/// number zero-padded to six digits.
pub open spec fn spec_frame_file_name(n: u64) -> Seq<char> {
    "frame_"@ + zero_padded(n as nat, 6) + ".jpg"@
}

/// The file name under which frame number `n` of a session is saved.
pub fn frame_file_name(n: u64) -> (r: String)
    ensures
        r@ == spec_frame_file_name(n),
{
    let mut r = owned("frame_");
    push_zero_padded(&mut r, n, 6);
    r.append(".jpg");
    r
}

/// The directory that holds a session's raw frames, as path components
/// below the save directory: `CAMERA/DATE/.raw/TIME`.
pub open spec fn spec_frames_dir(camera_dir: Seq<char>, session: Seq<char>) -> Seq<Seq<char>> {
    seq![camera_dir, session_parts(session).0, ".raw"@, session_parts(session).1]
}

/// The path components of a session's raw-frame directory.
pub fn frames_dir(camera_dir: &str, session: &str) -> (r: Vec<String>)
    ensures
        views(r@) == spec_frames_dir(camera_dir@, session@),
{
    let (date, time) = split_session(session);
    let mut r: Vec<String> = Vec::new();
    r.push(owned(camera_dir));
    r.push(date);
    r.push(owned(".raw"));
    r.push(time);
    assert(views(r@) =~= spec_frames_dir(camera_dir@, session@));
    r
}

/// The encoded video of a session, as path components below the save
/// directory: `CAMERA/DATE/TIME.mp4`.
pub open spec fn spec_video_path(camera_dir: Seq<char>, session: Seq<char>) -> Seq<Seq<char>> {
    seq![camera_dir, session_parts(session).0, session_parts(session).1 + ".mp4"@]
}

/// The path components of a session's encoded video.
pub fn video_path(camera_dir: &str, session: &str) -> (r: Vec<String>)
    ensures
        views(r@) == spec_video_path(camera_dir@, session@),
{
    let (date, time) = split_session(session);
    let mut r: Vec<String> = Vec::new();
    r.push(owned(camera_dir));
    r.push(date);
    let mut file = time;
    file.append(".mp4");
    r.push(file);
    assert(views(r@) =~= spec_video_path(camera_dir@, session@));
    r
}

/// Whether `s` begins with `prefix`.
pub fn has_prefix(s: &str, prefix: &str) -> (r: bool)
    ensures
        r == prefix@.is_prefix_of(s@),
{
    let a = chars_of(s);
    let p = chars_of(prefix);
    if p.len() > a.len() {
        return false;
    }
    let mut i: usize = 0;
    while i < p.len()
        invariant
            p.len() <= a.len(),
            i <= p.len(),
            a@ == s@,
            p@ == prefix@,
            forall|k: int| 0 <= k < i ==> p@[k] == a@[k],
        decreases p.len() - i,
    {
        if p[i] != a[i] {
            return false;
        }
        i = i + 1;
    }
    assert(prefix@ =~= s@.take(prefix@.len() as int));
    true
}

/// How many of `names` begin with `prefix`.
pub open spec fn count_prefixed(names: Seq<Seq<char>>, prefix: Seq<char>) -> nat
    decreases names.len(),
{
    if names.len() == 0 {
        0
    } else {
        count_prefixed(names.drop_last(), prefix) + if prefix.is_prefix_of(names.last()) { 1nat } else { 0nat }
    }
}

/// How many of a session directory's file names are frames (`frame_*`).
pub fn count_frame_files(names: &Vec<String>) -> (r: usize)
    ensures
        r == count_prefixed(views(names@), "frame_"@),
{
    let mut count: usize = 0;
    let mut i: usize = 0;
    while i < names.len()
        invariant
            i <= names.len(),
            count <= i,
            count == count_prefixed(views(names@).take(i as int), "frame_"@),
        decreases names.len() - i,
    {
        let hit = has_prefix(names[i].as_str(), "frame_");
        proof {
            assert(views(names@).take(i + 1).drop_last() =~= views(names@).take(i as int));
        }
        if hit {
            count = count + 1;
        }
        i = i + 1;
    }
    assert(views(names@).take(names.len() as int) =~= views(names@));
    count
}

/// The ffmpeg command line (without the program) that encodes a session's
/// frames: frame rate, the glob of frame files, the rotation filter if any,
/// H.264 in yuv420p with the index up front, overwriting `output`.
pub open spec fn spec_ffmpeg_args(
    fps: Seq<char>,
    frames_glob: Seq<char>,
    rotation: u16,
    mirror: bool,
    output: Seq<char>,
) -> Seq<Seq<char>> {
    let head = seq!["-framerate"@, fps, "-pattern_type"@, "glob"@, "-i"@, frames_glob];
    let filter = match spec_vf_filter(rotation, mirror) {
        Some(vf) => seq!["-vf"@, vf],
        None => Seq::empty(),
    };
    let tail = seq![
        "-c:v"@,
        "libx264"@,
        "-pix_fmt"@,
        "yuv420p"@,
        "-movflags"@,
        "+faststart"@,
        "-y"@,
        output,
    ];
    head + filter + tail
}

/// The arguments of the ffmpeg run that turns a session's frames into a video.
pub fn ffmpeg_args(fps: &str, frames_glob: &str, rotation: u16, mirror: bool, output: &str) -> (r: Vec<String>)
    ensures
        views(r@) == spec_ffmpeg_args(fps@, frames_glob@, rotation, mirror, output@),
{
    let mut r: Vec<String> = Vec::new();
    r.push(owned("-framerate"));
    r.push(owned(fps));
    r.push(owned("-pattern_type"));
    r.push(owned("glob"));
    r.push(owned("-i"));
    r.push(owned(frames_glob));
    let vf = build_vf_filter(rotation, mirror);
    match vf {
        Some(f) => {
            r.push(owned("-vf"));
            r.push(f);
        },
        None => {},
    }
    r.push(owned("-c:v"));
    r.push(owned("libx264"));
    r.push(owned("-pix_fmt"));
    r.push(owned("yuv420p"));
    r.push(owned("-movflags"));
    r.push(owned("+faststart"));
    r.push(owned("-y"));
    r.push(owned(output));
    assert(views(r@) =~= spec_ffmpeg_args(fps@, frames_glob@, rotation, mirror, output@));
    r
}

} // verus!
