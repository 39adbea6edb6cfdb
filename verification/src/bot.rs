use vstd::prelude::*;
use crate::clock::spec_is_active;
use crate::config::{opt_view, CameraConfig};
use crate::registry::{strictly_ascending, CameraInfo, CameraRegistry, CameraSummary};
use crate::text::{after_first_word, first_two_words, first_word, join, joined, owned, sort_strings, sorted, views};

verus! {

/// A command sent to the bot.
pub enum BotCommand {
    Help,
    List,
    NotifyOn(String),
    NotifyOff(String),
    MotionOn(String),
    MotionOff(String),
    /// Any other first word.
    Unknown(String),
}

pub enum CommandView {
    Help,
    List,
    NotifyOn(Seq<char>),
    NotifyOff(Seq<char>),
    MotionOn(Seq<char>),
    MotionOff(Seq<char>),
    Unknown(Seq<char>),
}

impl View for BotCommand {
    type V = CommandView;

    open spec fn view(&self) -> CommandView {
        match self {
            BotCommand::Help => CommandView::Help,
            BotCommand::List => CommandView::List,
            BotCommand::NotifyOn(s) => CommandView::NotifyOn(s@),
            BotCommand::NotifyOff(s) => CommandView::NotifyOff(s@),
            BotCommand::MotionOn(s) => CommandView::MotionOn(s@),
            BotCommand::MotionOff(s) => CommandView::MotionOff(s@),
            BotCommand::Unknown(s) => CommandView::Unknown(s@),
        }
    }
}

/// The command in a message: its first word names it and the second is the
/// camera id of the toggles. `None` for a message without words, and for a
/// toggle without a camera id.
pub open spec fn spec_parse_command(text: Seq<char>) -> Option<CommandView> {
    let w1 = first_word(text);
    let w2 = first_word(after_first_word(text));
    if w1.len() == 0 {
        None
    } else if w1 == "/help"@ {
        Some(CommandView::Help)
    } else if w1 == "/list"@ {
        Some(CommandView::List)
    } else if w1 == "/notify_on"@ || w1 == "/notify_off"@ || w1 == "/motion_on"@ || w1 == "/motion_off"@ {
        if w2.len() == 0 {
            None
        } else if w1 == "/notify_on"@ {
            Some(CommandView::NotifyOn(w2))
        } else if w1 == "/notify_off"@ {
            Some(CommandView::NotifyOff(w2))
        } else if w1 == "/motion_on"@ {
            Some(CommandView::MotionOn(w2))
        } else {
            Some(CommandView::MotionOff(w2))
        }
    } else {
        Some(CommandView::Unknown(w1))
    }
}

fn same(a: &String, b: &str) -> (r: bool)
    ensures
        r == (a@ == b@),
{
    *a == owned(b)
}

/// Reads the command in a message.
pub fn parse_command(text: &str) -> (r: Option<BotCommand>)
    ensures
        match (r, spec_parse_command(text@)) {
            (Some(c), Some(v)) => c@ == v,
            (None, None) => true,
            _ => false,
        },
{
    let (w1, w2) = first_two_words(text);
    let w1 = match w1 {
        Some(w) => w,
        None => {
            return None;
        },
    };
    if same(&w1, "/help") {
        return Some(BotCommand::Help);
    }
    if same(&w1, "/list") {
        return Some(BotCommand::List);
    }
    let on_notify = same(&w1, "/notify_on");
    let off_notify = same(&w1, "/notify_off");
    let on_motion = same(&w1, "/motion_on");
    let off_motion = same(&w1, "/motion_off");
    if on_notify || off_notify || on_motion || off_motion {
        let id = match w2 {
            Some(w) => w,
            None => {
                return None;
            },
        };
        if on_notify {
            Some(BotCommand::NotifyOn(id))
        } else if off_notify {
            Some(BotCommand::NotifyOff(id))
        } else if on_motion {
            Some(BotCommand::MotionOn(id))
        } else {
            Some(BotCommand::MotionOff(id))
        }
    } else {
        Some(BotCommand::Unknown(w1))
    }
}

/// The bot's help text.
pub open spec fn help_text() -> Seq<char> {
    "<b>Commands</b>\n/help — this help\n/list — list cameras\n/motion_on &lt;id&gt; / /motion_off &lt;id&gt; — motion detection toggle\n/notify_on &lt;id&gt; / /notify_off &lt;id&gt; — notifications toggle\n\nOther settings (name, rotation, mirror, thresholds) are available in the web dashboard."@
}

pub open spec fn on_off(b: bool) -> Seq<char> {
    if b { "on"@ } else { "off"@ }
}

/// One camera's line in the `/list` reply.
pub open spec fn camera_line(id: Seq<char>, info: CameraInfo, now: u64) -> Seq<char> {
    let name = match info.config.name {
        Some(n) => n,
        None => "-"@,
    };
    let status = if spec_is_active(info.last_frame_ms, now) { "online"@ } else { "offline"@ };
    "<code>"@ + id + "</code>  "@ + name + "  "@ + status + "  motion="@ + on_off(info.config.motion_enabled)
        + "  notify="@ + on_off(info.config.notifications_enabled)
}

/// The `/list` reply made of the given camera lines: a heading, then the
/// lines, one per row.
pub open spec fn list_reply(lines: Seq<Seq<char>>) -> Seq<char> {
    joined(seq!["<b>Cameras</b>"@].add(lines), "\n"@)
}

/// The lines of the `/list` reply: one per camera, sorted as text.
pub open spec fn is_listing(lines: Seq<Seq<char>>, cams: Map<Seq<char>, CameraInfo>, now: u64) -> bool {
    &&& sorted(lines)
    &&& exists|order: Seq<Seq<char>>| {
        &&& #[trigger] order.no_duplicates()
        &&& order.to_set() == cams.dom()
        &&& lines.to_multiset() == order.map_values(|k: Seq<char>| camera_line(k, cams[k], now)).to_multiset()
    }
}

fn on_off_text(b: bool) -> (r: &'static str)
    ensures
        r@ == on_off(b),
{
    if b { "on" } else { "off" }
}

fn line_of(s: &CameraSummary, now: u64, info: Ghost<CameraInfo>) -> (r: String)
    requires
        s.config@ == info@.config,
        s.active == spec_is_active(info@.last_frame_ms, now),
    ensures
        r@ == camera_line(s.id@, info@, now),
{
    let mut r = owned("<code>");
    r.append(s.id.as_str());
    r.append("</code>  ");
    match &s.config.name {
        Some(n) => r.append(n.as_str()),
        None => r.append("-"),
    }
    r.append("  ");
    r.append(if s.active { "online" } else { "offline" });
    r.append("  motion=");
    r.append(on_off_text(s.config.motion_enabled));
    r.append("  notify=");
    r.append(on_off_text(s.config.notifications_enabled));
    r
}

/// The lines of the `/list` reply for the cameras in `registry` at `now`.
pub fn listing(registry: &CameraRegistry, now: u64) -> (r: Vec<String>)
    requires
        registry.wf(),
    ensures
        is_listing(views(r@), registry@, now),
{
    let cams = registry.summaries(now);
    let ghost m = registry@;
    let mut lines: Vec<String> = Vec::new();
    let mut i: usize = 0;
    while i < cams.len()
        invariant
            i <= cams@.len(),
            lines@.len() == i,
            forall|k: int| 0 <= k < cams@.len() ==> {
                let id = #[trigger] cams@[k].id@;
                &&& m.contains_key(id)
                &&& cams@[k].config@ == m[id].config
                &&& cams@[k].active == spec_is_active(m[id].last_frame_ms, now)
                &&& cams@[k].frame_count == m[id].frame_count
            },
            forall|k: int| 0 <= k < i ==> #[trigger] lines@[k]@ == camera_line(cams@[k].id@, m[cams@[k].id@], now),
        decreases cams@.len() - i,
    {
        let line = line_of(&cams[i], now, Ghost(m[cams@[i as int].id@]));
        lines.push(line);
        i = i + 1;
    }
    let sorted_lines = sort_strings(lines);
    proof {
        let order = cams@.map_values(|c: CameraSummary| c.id@);
        assert(strictly_ascending(order));
        assert forall|a: int, b: int| 0 <= a < order.len() && 0 <= b < order.len() && a != b implies order[a] != order[b] by {
            if a < b {
                crate::text::lemma_lt_irreflexive(order[a]);
            } else {
                crate::text::lemma_lt_irreflexive(order[b]);
            }
        }
        assert(order.no_duplicates());
        assert forall|k: Seq<char>| order.to_set().contains(k) <==> m.dom().contains(k) by {
            if m.contains_key(k) {
                let j = choose|j: int| 0 <= j < cams@.len() && #[trigger] cams@[j].id@ == k;
                assert(order[j] == k);
            }
            if order.to_set().contains(k) {
                let j = choose|j: int| 0 <= j < order.len() && order[j] == k;
                assert(cams@[j].id@ == k);
            }
        }
        assert(order.to_set() =~= m.dom());
        assert(views(lines@) =~= order.map_values(|k: Seq<char>| camera_line(k, m[k], now)));
    }
    sorted_lines
}

/// What the bot does with a message: the reply to send, if any, and the
/// settings of a camera that changed and are to be persisted.
pub struct BotOutcome {
    pub reply: Option<String>,
    pub persist: Option<(String, CameraConfig)>,
}

/// The reply to a toggle: `what` (such as "Notifications enabled") for camera `id`.
pub open spec fn toggle_reply(what: Seq<char>, id: Seq<char>) -> Seq<char> {
    what + " for <code>"@ + id + "</code>"@
}

/// The reply to an unknown command.
pub open spec fn unknown_reply(cmd: Seq<char>) -> Seq<char> {
    "Unknown command: "@ + cmd + ". Try /help"@
}

/// The camera a toggle names, the switch it turns, and the new position.
pub open spec fn toggle_target(c: CommandView) -> Option<(Seq<char>, bool, bool)> {
    match c {
        CommandView::NotifyOn(id) => Some((id, true, true)),
        CommandView::NotifyOff(id) => Some((id, true, false)),
        CommandView::MotionOn(id) => Some((id, false, true)),
        CommandView::MotionOff(id) => Some((id, false, false)),
        _ => None,
    }
}

pub open spec fn toggle_text(notify: bool, on: bool) -> Seq<char> {
    if notify {
        if on { "Notifications enabled"@ } else { "Notifications disabled"@ }
    } else {
        if on { "Motion detection enabled"@ } else { "Motion detection disabled"@ }
    }
}

/// The settings after a toggle.
pub open spec fn toggled(c: crate::config::ConfigView, notify: bool, on: bool) -> crate::config::ConfigView {
    if notify {
        crate::config::ConfigView { notifications_enabled: on, ..c }
    } else {
        crate::config::ConfigView { motion_enabled: on, ..c }
    }
}

/// Handles one message for the cameras in `registry` at `now`.
///
/// A message without a command gets no reply. `/help` gets the help text;
/// `/list` the camera listing, or a note that there are no cameras; a toggle
/// switches motion detection or notifications of the named camera when it is
/// known (and hands its settings out to be persisted) and confirms in any
/// case; any other command gets a pointer to `/help`.
pub fn dispatch(registry: &mut CameraRegistry, text: &str, now: u64) -> (r: BotOutcome)
    requires
        old(registry).wf(),
    ensures
        final(registry).wf(),
        match spec_parse_command(text@) {
            None => r.reply is None && r.persist is None && final(registry)@ == old(registry)@,
            Some(CommandView::Help) => r.reply is Some && r.reply.unwrap()@ == help_text()
                && r.persist is None && final(registry)@ == old(registry)@,
            Some(CommandView::List) => {
                &&& r.persist is None
                &&& final(registry)@ == old(registry)@
                &&& r.reply is Some
                &&& if old(registry)@.len() == 0 {
                    r.reply.unwrap()@ == "No cameras registered."@
                } else {
                    exists|lines: Seq<Seq<char>>| #[trigger] is_listing(lines, old(registry)@, now)
                        && r.reply.unwrap()@ == list_reply(lines)
                }
            },
            Some(CommandView::Unknown(cmd)) => r.reply is Some && r.reply.unwrap()@ == unknown_reply(cmd)
                && r.persist is None && final(registry)@ == old(registry)@,
            Some(c) => {
                let (id, notify, on) = toggle_target(c).unwrap();
                &&& r.reply is Some
                &&& r.reply.unwrap()@ == toggle_reply(toggle_text(notify, on), id)
                &&& if old(registry)@.contains_key(id) {
                    let cfg = toggled(old(registry)@[id].config, notify, on);
                    &&& r.persist is Some
                    &&& r.persist.unwrap().0@ == id
                    &&& r.persist.unwrap().1@ == cfg
                    &&& final(registry)@ == old(registry)@.insert(
                        id,
                        crate::registry::with_config(old(registry)@[id], cfg),
                    )
                } else {
                    r.persist is None && final(registry)@ == old(registry)@
                }
            },
        },
{
    let cmd = match parse_command(text) {
        Some(c) => c,
        None => {
            return BotOutcome { reply: None, persist: None };
        },
    };
    match cmd {
        BotCommand::Help => BotOutcome {
            reply: Some(owned("<b>Commands</b>\n/help — this help\n/list — list cameras\n/motion_on &lt;id&gt; / /motion_off &lt;id&gt; — motion detection toggle\n/notify_on &lt;id&gt; / /notify_off &lt;id&gt; — notifications toggle\n\nOther settings (name, rotation, mirror, thresholds) are available in the web dashboard.")),
            persist: None,
        },
        BotCommand::List => {
            if registry.len() == 0 {
                return BotOutcome { reply: Some(owned("No cameras registered.")), persist: None };
            }
            let lines = listing(registry, now);
            let mut all: Vec<String> = Vec::new();
            all.push(owned("<b>Cameras</b>"));
            let mut i: usize = 0;
            while i < lines.len()
                invariant
                    i <= lines@.len(),
                    views(all@) == seq!["<b>Cameras</b>"@].add(views(lines@).take(i as int)),
                decreases lines@.len() - i,
            {
                let ghost before = views(all@);
                let line = lines[i].clone();
                all.push(line);
                assert(views(all@) =~= before.push(line@));
                assert(views(lines@).take(i + 1) =~= views(lines@).take(i as int).push(line@));
                i = i + 1;
                assert(views(all@) =~= seq!["<b>Cameras</b>"@].add(views(lines@).take(i as int)));
            }
            assert(views(lines@).take(lines@.len() as int) =~= views(lines@));
            let reply = join(&all, "\n");
            BotOutcome { reply: Some(reply), persist: None }
        },
        BotCommand::Unknown(c) => {
            let mut reply = owned("Unknown command: ");
            reply.append(c.as_str());
            reply.append(". Try /help");
            BotOutcome { reply: Some(reply), persist: None }
        },
        BotCommand::NotifyOn(id) => toggle(registry, id, true, true),
        BotCommand::NotifyOff(id) => toggle(registry, id, true, false),
        BotCommand::MotionOn(id) => toggle(registry, id, false, true),
        BotCommand::MotionOff(id) => toggle(registry, id, false, false),
    }
}

fn toggle(registry: &mut CameraRegistry, id: String, notify: bool, on: bool) -> (r: BotOutcome)
    requires
        old(registry).wf(),
    ensures
        final(registry).wf(),
        r.reply is Some,
        r.reply.unwrap()@ == toggle_reply(toggle_text(notify, on), id@),
        if old(registry)@.contains_key(id@) {
            let cfg = toggled(old(registry)@[id@].config, notify, on);
            &&& r.persist is Some
            &&& r.persist.unwrap().0@ == id@
            &&& r.persist.unwrap().1@ == cfg
            &&& final(registry)@ == old(registry)@.insert(id@, crate::registry::with_config(old(registry)@[id@], cfg))
        } else {
            r.persist is None && final(registry)@ == old(registry)@
        },
{
    let changed = if notify {
        registry.set_notifications_enabled(id.as_str(), on)
    } else {
        registry.set_motion_enabled(id.as_str(), on)
    };
    let mut reply = owned(
        if notify {
            if on { "Notifications enabled" } else { "Notifications disabled" }
        } else {
            if on { "Motion detection enabled" } else { "Motion detection disabled" }
        },
    );
    reply.append(" for <code>");
    reply.append(id.as_str());
    reply.append("</code>");
    let persist = match changed {
        Some(c) => Some((id, c)),
        None => None,
    };
    BotOutcome { reply: Some(reply), persist }
}

/// The caption of the photo sent when motion starts on camera `display_name`.
pub open spec fn spec_photo_caption(display_name: Seq<char>) -> Seq<char> {
    "\u{26a0}\u{fe0f} <b>Motion on "@ + display_name + "</b>"@
}

/// The caption of the photo sent when motion starts.
pub fn photo_caption(display_name: &str) -> (r: String)
    ensures
        r@ == spec_photo_caption(display_name@),
{
    let mut r = owned("\u{26a0}\u{fe0f} <b>Motion on ");
    r.append(display_name);
    r.append("</b>");
    r
}

/// The caption of the video sent when a motion session ends on camera `display_name`.
pub open spec fn spec_video_caption(display_name: Seq<char>) -> Seq<char> {
    "\u{1f6a8} Motion ended on "@ + display_name
}

/// The caption of the video sent when a motion session ends.
pub fn video_caption(display_name: &str) -> (r: String)
    ensures
        r@ == spec_video_caption(display_name@),
{
    let mut r = owned("\u{1f6a8} Motion ended on ");
    r.append(display_name);
    r
}

/// The address of Bot API method `method` for the bot with token `token`.
pub open spec fn spec_api_url(token: Seq<char>, method: Seq<char>) -> Seq<char> {
    "https://api.telegram.org/bot"@ + token + "/"@ + method
}

/// The address of a Bot API method.
pub fn api_url(token: &str, method: &str) -> (r: String)
    ensures
        r@ == spec_api_url(token@, method@),
{
    let mut r = owned("https://api.telegram.org/bot");
    r.append(token);
    r.append("/");
    r.append(method);
    r
}

/// Where to send a notification: the bot token and the chat, when
/// notifications are on for the camera and both are configured.
pub fn notification_target(
    notifications_enabled: bool,
    token: &Option<String>,
    chat_id: &Option<String>,
) -> (r: Option<(String, String)>)
    ensures
        (r is Some) == (notifications_enabled && token is Some && chat_id is Some),
        r is Some ==> r.unwrap().0@ == token.unwrap()@ && r.unwrap().1@ == chat_id.unwrap()@,
{
    if !notifications_enabled {
        return None;
    }
    match (token, chat_id) {
        (Some(t), Some(c)) => Some((t.clone(), c.clone())),
        _ => None,
    }
}

/// Every character of `ds` is an ASCII digit.
pub open spec fn all_ascii_digits(ds: Seq<char>) -> bool {
    forall|i: int| 0 <= i < ds.len() ==> '0' <= #[trigger] ds[i] && ds[i] <= '9'
}

/// The number that the ASCII digits `ds` write in decimal.
pub open spec fn digits_value(ds: Seq<char>) -> int
    decreases ds.len(),
{
    if ds.len() == 0 {
        0
    } else {
        digits_value(ds.drop_last()) * 10 + (ds.last() as int - 48)
    }
}

/// What `str::parse::<i64>` makes of `s`: an optional `+` or `-` sign, then
/// one or more ASCII digits, read in decimal; `None` for anything else
/// (white space included) and for a number outside the range of `i64`.
pub open spec fn parsed_i64(s: Seq<char>) -> Option<i64> {
    let signed = s.len() > 0 && (s[0] == '-' || s[0] == '+');
    let body = if signed { s.skip(1) } else { s };
    let negative = s.len() > 0 && s[0] == '-';
    if body.len() == 0 || !all_ascii_digits(body) {
        None
    } else {
        let v = if negative { -digits_value(body) } else { digits_value(body) };
        if i64::MIN <= v && v <= i64::MAX { Some(v as i64) } else { None }
    }
}

/// `str::parse::<i64>`: the decimal number that `s` writes, as its
/// documentation describes the accepted form (`parsed_i64`).
#[verifier::external_body]
fn parse_i64(s: &str) -> (r: Option<i64>)
    ensures
        r == parsed_i64(s@),
{
    s.parse::<i64>().ok()
}

/// The settings the command poller runs with.
pub struct PollSettings {
    pub token: String,
    pub chat_id: String,
    /// The chat id as a number, to compare with incoming messages.
    pub chat: i64,
}

/// The poller's settings from the configured token and chat id; `None`
/// (no polling) when either is missing or the chat id is not a number.
pub fn poll_settings(token: &Option<String>, chat_id: &Option<String>) -> (r: Option<PollSettings>)
    ensures
        (r is Some) == (token is Some && chat_id is Some && parsed_i64(chat_id.unwrap()@) is Some),
        r is Some ==> {
            let p = r.unwrap();
            &&& p.token@ == token.unwrap()@
            &&& p.chat_id@ == chat_id.unwrap()@
            &&& Some(p.chat) == parsed_i64(chat_id.unwrap()@)
        },
{
    let t = match token {
        Some(t) => t,
        None => {
            return None;
        },
    };
    let c = match chat_id {
        Some(c) => c,
        None => {
            return None;
        },
    };
    match parse_i64(c.as_str()) {
        Some(n) => Some(PollSettings { token: t.clone(), chat_id: c.clone(), chat: n }),
        None => None,
    }
}

/// The offset of the next batch of bot updates to fetch.
pub struct UpdateCursor {
    next_offset: i64,
}

/// The offset after an update numbered `id` (when it has a number): one
/// past the largest number seen, wrapping at the top of the range.
pub open spec fn advanced(offset: i64, id: Option<i64>) -> i64 {
    match id {
        Some(n) => if n >= offset {
            if n == i64::MAX { i64::MIN } else { (n + 1) as i64 }
        } else {
            offset
        },
        None => offset,
    }
}

/// The text of an update worth handling: one from the configured chat that
/// carries text.
pub open spec fn spec_accepted(chat: Option<i64>, expected: i64, text: Option<Seq<char>>) -> Option<Seq<char>> {
    if chat == Some(expected) { text } else { None }
}

impl UpdateCursor {
    /// A cursor that fetches from the start (offset -1).
    pub fn new() -> (r: UpdateCursor)
        ensures
            r.offset() == -1,
    {
        UpdateCursor { next_offset: -1 }
    }

    pub closed spec fn offset(&self) -> i64 {
        self.next_offset
    }

    /// The offset to ask for next.
    pub fn next_offset(&self) -> (r: i64)
        ensures
            r == self.offset(),
    {
        self.next_offset
    }

    /// Takes in one update: its number, the chat it comes from and its text.
    /// Returns the text to handle, if the update is one to handle.
    pub fn observe(&mut self, update_id: Option<i64>, chat: Option<i64>, expected_chat: i64, text: Option<String>) -> (r: Option<String>)
        ensures
            final(self).offset() == advanced(old(self).offset(), update_id),
            opt_view(r) == spec_accepted(chat, expected_chat, opt_view(text)),
    {
        match update_id {
            Some(n) => {
                if n >= self.next_offset {
                    self.next_offset = n.wrapping_add(1);
                }
            },
            None => {},
        }
        if chat == Some(expected_chat) {
            text
        } else {
            None
        }
    }
}

/// Every update the cursor has taken in is acknowledged: the next fetch
/// starts past it (short of the top of the range), and the offset never goes
/// back.
pub proof fn law_updates_acknowledged(offset: i64, id: i64)
    requires
        id < i64::MAX,
    ensures
        advanced(offset, Some(id)) > id,
        advanced(offset, Some(id)) >= offset,
{
}

/// The offset after taking in updates numbered `ids` in turn (an update
/// without a number is `None`), starting from `start`.
pub open spec fn offset_after(start: i64, ids: Seq<Option<i64>>) -> i64
    decreases ids.len(),
{
    if ids.len() == 0 {
        start
    } else {
        advanced(offset_after(start, ids.drop_last()), ids.last())
    }
}

/// The largest update number among `ids`, if any update has one.
pub open spec fn max_id(ids: Seq<Option<i64>>) -> Option<i64>
    decreases ids.len(),
{
    if ids.len() == 0 {
        None
    } else {
        match (max_id(ids.drop_last()), ids.last()) {
            (None, x) => x,
            (Some(a), None) => Some(a),
            (Some(a), Some(b)) => Some(if a >= b { a } else { b }),
        }
    }
}

/// After a run of updates the next fetch asks for one past the largest
/// update number seen, or for the starting offset when that is larger (from
/// a fresh cursor: -1 until an update has been seen). So every update seen,
/// from any chat, is acknowledged and the offset never goes back (short of
/// the top of the range).
pub proof fn law_offset_after_run(start: i64, ids: Seq<Option<i64>>)
    requires
        forall|i: int| 0 <= i < ids.len() ==> (#[trigger] ids[i] matches Some(n) ==> n < i64::MAX),
    ensures
        offset_after(start, ids) == match max_id(ids) {
            None => start,
            Some(m) => if m + 1 > start { (m + 1) as i64 } else { start },
        },
        offset_after(start, ids) >= start,
        max_id(ids) matches Some(m) ==> m < i64::MAX,
    decreases ids.len(),
{
    if ids.len() > 0 {
        let rest = ids.drop_last();
        assert forall|i: int| 0 <= i < rest.len() implies (#[trigger] rest[i] matches Some(n) ==> n < i64::MAX) by {
            assert(rest[i] == ids[i]);
        }
        law_offset_after_run(start, rest);
        assert(ids.last() == ids[ids.len() - 1]);
    }
}

/// A message is read by its first word: `/help` and `/list` name those
/// commands; each toggle word followed by a camera id names that toggle for
/// that id, and without an id the message is no command; a message without
/// words is no command; any other first word is an unknown command.
pub proof fn law_commands_by_first_word(t: Seq<char>)
    ensures
        first_word(t).len() == 0 ==> spec_parse_command(t) is None,
        first_word(t) == "/help"@ ==> spec_parse_command(t) == Some(CommandView::Help),
        first_word(t) == "/list"@ ==> spec_parse_command(t) == Some(CommandView::List),
        first_word(t) == "/notify_on"@ && first_word(after_first_word(t)).len() > 0 ==> spec_parse_command(t)
            == Some(CommandView::NotifyOn(first_word(after_first_word(t)))),
        first_word(t) == "/notify_off"@ && first_word(after_first_word(t)).len() > 0 ==> spec_parse_command(t)
            == Some(CommandView::NotifyOff(first_word(after_first_word(t)))),
        first_word(t) == "/motion_on"@ && first_word(after_first_word(t)).len() > 0 ==> spec_parse_command(t)
            == Some(CommandView::MotionOn(first_word(after_first_word(t)))),
        first_word(t) == "/motion_off"@ && first_word(after_first_word(t)).len() > 0 ==> spec_parse_command(t)
            == Some(CommandView::MotionOff(first_word(after_first_word(t)))),
        (first_word(t) == "/notify_on"@ || first_word(t) == "/notify_off"@ || first_word(t) == "/motion_on"@
            || first_word(t) == "/motion_off"@) && first_word(after_first_word(t)).len() == 0
            ==> spec_parse_command(t) is None,
        first_word(t).len() > 0 && first_word(t) != "/help"@ && first_word(t) != "/list"@ && first_word(t)
            != "/notify_on"@ && first_word(t) != "/notify_off"@ && first_word(t) != "/motion_on"@ && first_word(t)
            != "/motion_off"@ ==> spec_parse_command(t) == Some(CommandView::Unknown(first_word(t))),
{
    reveal_strlit("/help");
    reveal_strlit("/list");
    reveal_strlit("/notify_on");
    reveal_strlit("/notify_off");
    reveal_strlit("/motion_on");
    reveal_strlit("/motion_off");
    let w = first_word(t);
    if w == "/notify_on"@ {
        assert(w != "/help"@ && w != "/list"@);
    }
    if w == "/notify_off"@ {
        assert(w != "/help"@ && w != "/list"@ && w != "/notify_on"@);
    }
    if w == "/motion_on"@ {
        assert(w[1] == 'm');
        assert(w != "/help"@ && w != "/list"@ && w != "/notify_on"@ && w != "/notify_off"@);
    }
    if w == "/motion_off"@ {
        assert(w[1] == 'm');
        assert(w != "/help"@ && w != "/list"@ && w != "/notify_on"@ && w != "/notify_off"@ && w != "/motion_on"@);
    }
    if w == "/list"@ {
        assert(w[1] == 'l');
        assert(w != "/help"@);
    }
}

/// What a toggle does: `/notify_on` and `/notify_off` set notifications on
/// and off, `/motion_on` and `/motion_off` motion detection, leaving the
/// other switch and every other setting as they were; the reply names what
/// was switched and how.
pub proof fn law_toggles_switch(c: crate::config::ConfigView, id: Seq<char>)
    ensures
        toggle_target(CommandView::NotifyOn(id)) == Some((id, true, true)),
        toggle_target(CommandView::NotifyOff(id)) == Some((id, true, false)),
        toggle_target(CommandView::MotionOn(id)) == Some((id, false, true)),
        toggle_target(CommandView::MotionOff(id)) == Some((id, false, false)),
        forall|on: bool| #[trigger] toggled(c, true, on).notifications_enabled == on
            && toggled(c, true, on).motion_enabled == c.motion_enabled
            && toggled(c, true, on).name == c.name,
        forall|on: bool| #[trigger] toggled(c, false, on).motion_enabled == on
            && toggled(c, false, on).notifications_enabled == c.notifications_enabled
            && toggled(c, false, on).name == c.name,
        toggle_text(true, true) == "Notifications enabled"@,
        toggle_text(true, false) == "Notifications disabled"@,
        toggle_text(false, true) == "Motion detection enabled"@,
        toggle_text(false, false) == "Motion detection disabled"@,
{
}

} // verus!
