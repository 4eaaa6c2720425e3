//! Playing an episode: where to begin, how to start the player, and when to tell
//! the server how far it has come.
use vstd::prelude::*;
use vstd::utf8::decode_utf8;
use vstd::utf8::valid_utf8;

use crate::media::TICKS_PER_SECOND;
use crate::network::describe_status;
use crate::network::Method;
use crate::network::Reply;
use crate::network::ReplyView;
use crate::network::Request;
use crate::network::RequestView;
use crate::network::Server;
use crate::network::ServerView;
use crate::network::status_text;
use crate::text::before_first;
use crate::text::before_first_at;
use crate::text::decimal;
use crate::text::decimal_text;
use crate::text::field_after_last;
use crate::text::field_after_last_text;
use crate::text::last_occurrence;
use crate::text::last_occurrence_is_last;
use crate::text::occurs_at;
use crate::text::trim;
use crate::text::trimmed;
use crate::text::trimmed_leaves_solid_text;
use crate::text::views;

verus! {

/// The seconds that lie at least between two reports of progress.
pub const REPORT_INTERVAL: u64 = 15;

impl ServerView {
    /// The address from which the player streams an episode.
    pub open spec fn stream_url(self, episode_id: Seq<char>) -> Seq<char> {
        self.url + "/Items/"@ + episode_id + "/Download?api_key="@ + self.api_key
    }

    /// The request for what is known of an episode.
    pub open spec fn item_request(self, episode_id: Seq<char>) -> RequestView {
        self.plain_request(Method::Get, "/Users/"@ + self.user_id + "/Items/"@ + episode_id)
    }

    /// The request that tells how far an episode was played, in seconds.
    pub open spec fn progress_request(self, episode_id: Seq<char>, seconds: nat) -> RequestView {
        self.plain_request(
            Method::Delete,
            "/Users/"@ + self.user_id + "/PlayingItems/"@ + episode_id + "?PositionTicks="@
                + decimal(seconds * (TICKS_PER_SECOND as nat)),
        )
    }
}

impl Server {
    /// The address from which the player streams an episode.
    pub fn stream_url(&self, episode_id: &String) -> (s: String)
        ensures
            s@ == self@.stream_url(episode_id@),
    {
        let mut s = self.url.clone();
        s.append("/Items/");
        s.append(episode_id.as_str());
        s.append("/Download?api_key=");
        s.append(self.api_key.as_str());
        s
    }

    /// The request for what is known of an episode.
    pub fn item_request(&self, episode_id: &String) -> (r: Request)
        ensures
            r@ == self@.item_request(episode_id@),
    {
        let mut path = "/Users/".to_owned();
        path.append(self.user_id.as_str());
        path.append("/Items/");
        path.append(episode_id.as_str());
        self.plain_request(Method::Get, path)
    }

    /// The request that tells how far an episode was played. Nothing is told of
    /// one that has not come past its first second.
    pub fn progress_request(&self, episode_id: &String, seconds: u64) -> (r: Option<Request>)
        requires
            seconds * TICKS_PER_SECOND <= u64::MAX,
        ensures
            match r {
                Some(request) => seconds > 0 && request@ == self@.progress_request(
                    episode_id@,
                    seconds as nat,
                ),
                None => seconds == 0,
            },
    {
        if seconds > 0 {
            let ticks: u64 = seconds * TICKS_PER_SECOND;
            let mut path = "/Users/".to_owned();
            path.append(self.user_id.as_str());
            path.append("/PlayingItems/");
            path.append(episode_id.as_str());
            path.append("?PositionTicks=");
            path.append(decimal_text(ticks).as_str());
            Some(self.plain_request(Method::Delete, path))
        } else {
            None
        }
    }
}

/// The whole number that stands in a JSON text under a key within an object under
/// a key of the outermost object.
pub uninterp spec fn json_number(
    body: Seq<u8>,
    outer: Seq<char>,
    inner: Seq<char>,
) -> Option<u64>;

/// `serde_json::from_slice` into a `serde_json::Value`, indexed by `outer` and
/// then by `inner` and read with `Value::as_u64`. The contract names the number
/// `json_number`: it is missing where the body is no JSON, where one of the keys
/// is, and where what stands there is no whole number that fits. How JSON is read
/// is left to the crate.
#[verifier::external_body]
fn read_json_number(body: &[u8], outer: &str, inner: &str) -> (r: Option<u64>)
    ensures
        r == json_number(body@, outer@, inner@),
{
    match serde_json::from_slice::<serde_json::Value>(body) {
        Ok(value) => value[outer][inner].as_u64(),
        Err(_) => None,
    }
}

/// Where the server has an episode stopped, in ticks, as the body of its answer
/// tells.
pub fn resume_ticks(body: &[u8]) -> (r: Option<u64>)
    ensures
        r == json_number(body@, "UserData"@, "PlaybackPositionTicks"@),
{
    read_json_number(body, "UserData", "PlaybackPositionTicks")
}

/// The second at which an episode begins that was stopped at `ticks`: the
/// beginning, where it was not.
pub open spec fn start_second(ticks: Option<u64>) -> u64 {
    match ticks {
        Some(t) => t / TICKS_PER_SECOND,
        None => 0,
    }
}

/// The second at which an episode begins.
pub fn resume_seconds(ticks: Option<u64>) -> (r: u64)
    ensures
        r == start_second(ticks),
{
    match ticks {
        Some(t) => t / TICKS_PER_SECOND,
        None => 0,
    }
}

/// The arguments of the player. It plays on the whole screen, writes its position
/// as a status, and begins at a second other than the first where one is given.
pub open spec fn player_arguments(stream_url: Seq<char>, start: u64) -> Seq<Seq<char>> {
    let always = seq![
        stream_url,
        "--fs"@,
        "--terminal=yes"@,
        "--term-status-msg=STATUS:${=time-pos}"@,
    ];
    if start > 0 {
        always.push("--start="@ + decimal(start as nat))
    } else {
        always
    }
}

/// Writes the arguments of the player.
pub fn player_args(stream_url: String, start: u64) -> (args: Vec<String>)
    ensures
        views(args@) == player_arguments(stream_url@, start),
{
    let ghost url = stream_url@;
    let mut args: Vec<String> = Vec::new();
    args.push(stream_url);
    args.push("--fs".to_owned());
    args.push("--terminal=yes".to_owned());
    args.push("--term-status-msg=STATUS:${=time-pos}".to_owned());
    if start > 0 {
        let mut from = "--start=".to_owned();
        from.append(decimal_text(start).as_str());
        args.push(from);
    }
    assert(views(args@) =~= player_arguments(url, start));
    args
}

impl Server {
    /// The arguments with which the player plays an episode that was stopped at
    /// `ticks`.
    pub fn play_args(&self, episode_id: &String, ticks: Option<u64>) -> (args: Vec<String>)
        ensures
            views(args@) == player_arguments(self@.stream_url(episode_id@), start_second(ticks)),
    {
        player_args(self.stream_url(episode_id), resume_seconds(ticks))
    }
}

/// What is logged before the player is started.
pub fn opening_log() -> (s: String)
    ensures
        s@ == "\n--- STARTING NEW MPV SESSION ---"@,
{
    "\n--- STARTING NEW MPV SESSION ---".to_owned()
}

/// What is logged when the player has ended.
pub fn closing_log() -> (s: String)
    ensures
        s@ == "--- MPV SESSION ENDED ---"@,
{
    "--- MPV SESSION ENDED ---".to_owned()
}

/// What is logged of the place where an episode was stopped.
pub open spec fn resume_line(ticks: u64) -> Seq<char> {
    "Found resume point at "@ + decimal(start_second(Some(ticks)) as nat) + " seconds ("@
        + decimal(ticks as nat) + " ticks)"@
}

/// Writes what is logged of the place where an episode was stopped: nothing, where
/// it was not.
pub fn resume_log(ticks: Option<u64>) -> (r: Option<String>)
    ensures
        match r {
            Some(s) => ticks is Some && s@ == resume_line(ticks->0),
            None => ticks is None,
        },
{
    match ticks {
        Some(t) => {
            let mut s = "Found resume point at ".to_owned();
            s.append(decimal_text(resume_seconds(ticks)).as_str());
            s.append(" seconds (");
            s.append(decimal_text(t).as_str());
            s.append(" ticks)");
            Some(s)
        },
        None => None,
    }
}

/// Writes what is logged when the player cannot be started.
pub fn spawn_failure_log(error: &String) -> (s: String)
    ensures
        s@ == "CRITICAL: Failed to spawn mpv: "@ + error@,
{
    let mut s = "CRITICAL: Failed to spawn mpv: ".to_owned();
    s.append(error.as_str());
    s
}

/// Writes what is logged of a report of progress that was answered with a status,
/// written out as `status`.
pub fn progress_log(seconds: u64, status: &String) -> (s: String)
    ensures
        s@ == "Sent final stop tick at "@ + decimal(seconds as nat) + " sec | Jellyfin Status: "@
            + status@,
{
    let mut s = "Sent final stop tick at ".to_owned();
    s.append(decimal_text(seconds).as_str());
    s.append(" sec | Jellyfin Status: ");
    s.append(status.as_str());
    s
}

/// Writes what is logged of a report of progress that was not answered.
pub fn progress_failure_log(error: &String) -> (s: String)
    ensures
        s@ == "Failed to send stop tick: "@ + error@,
{
    let mut s = "Failed to send stop tick: ".to_owned();
    s.append(error.as_str());
    s
}

/// What is logged of the reply to a report of progress.
pub open spec fn progress_line(seconds: u64, reply: ReplyView) -> Seq<char> {
    match reply {
        ReplyView::Answered { status, .. } => "Sent final stop tick at "@ + decimal(seconds as nat)
            + " sec | Jellyfin Status: "@ + status_text(status),
        ReplyView::Failed(error) => "Failed to send stop tick: "@ + error,
    }
}

/// Writes what is logged of the reply to a report of progress.
pub fn progress_reply_log(seconds: u64, reply: &Reply) -> (s: String)
    requires
        reply@.well_formed(),
    ensures
        s@ == progress_line(seconds, reply@),
{
    match reply {
        Reply::Answered { status, .. } => progress_log(seconds, &describe_status(*status)),
        Reply::Failed(error) => progress_failure_log(error),
    }
}

/// `String::from_utf8`: the text whose UTF-8 encoding `bytes` is, and nothing
/// where there is none.
#[verifier::external_body]
fn text_of_bytes(bytes: Vec<u8>) -> (r: Option<String>)
    ensures
        match r {
            Some(s) => valid_utf8(bytes@) && s@ == decode_utf8(bytes@),
            None => !valid_utf8(bytes@),
        },
{
    String::from_utf8(bytes).ok()
}

/// What the output of the player says after one more piece of it was read.
#[derive(Debug)]
pub enum Reading {
    /// The output is no text.
    Garbled,
    /// The player has closed its output.
    Ended,
    /// No position was written yet.
    Silent,
    /// The position that was written last, as text.
    Position(String),
}

/// What a `Reading` stands for.
pub enum ReadingView {
    Garbled,
    Ended,
    Silent,
    Position(Seq<char>),
}

impl View for Reading {
    type V = ReadingView;

    open spec fn view(&self) -> ReadingView {
        match *self {
            Reading::Garbled => ReadingView::Garbled,
            Reading::Ended => ReadingView::Ended,
            Reading::Silent => ReadingView::Silent,
            Reading::Position(text) => ReadingView::Position(text@),
        }
    }
}

/// The position that the output of the player tells last: what follows the last
/// `STATUS:` on its line, without the white space around it.
pub open spec fn last_position(output: Seq<char>) -> Option<Seq<char>> {
    match field_after_last(output, "STATUS:"@, '\r') {
        Some(field) => Some(trimmed(field)),
        None => None,
    }
}

/// What the output `output` says, of which the last `read` bytes are new.
pub open spec fn reading(output: Seq<u8>, read: nat) -> ReadingView {
    if !valid_utf8(output) {
        ReadingView::Garbled
    } else if read == 0 {
        ReadingView::Ended
    } else {
        match last_position(decode_utf8(output)) {
            Some(text) => ReadingView::Position(text),
            None => ReadingView::Silent,
        }
    }
}

/// Whether progress is reported at `seconds` where it was last reported at
/// `last`.
pub open spec fn report_due(last: u64, seconds: u64) -> bool {
    seconds >= last + REPORT_INTERVAL
}

/// The seconds at which progress is reported while the player tells `times` one
/// after the other and it was last reported at `last`.
pub open spec fn reports(last: u64, times: Seq<u64>) -> Seq<u64>
    decreases times.len(),
{
    if times.len() == 0 {
        Seq::empty()
    } else {
        let before = reports(last, times.drop_last());
        if report_due(last_report(last, before), times.last()) {
            before.push(times.last())
        } else {
            before
        }
    }
}

/// The second of the last of some reports, or `last` where there are none.
pub open spec fn last_report(last: u64, reported: Seq<u64>) -> u64 {
    if reported.len() > 0 {
        reported.last()
    } else {
        last
    }
}

/// The second of the last report after the player told `seconds`, where it was
/// `last` before.
pub open spec fn next_report(last: u64, seconds: u64) -> u64 {
    if report_due(last, seconds) {
        seconds
    } else {
        last
    }
}

/// `Monitor::report`, once for each of `times`, keeps the second of the last of
/// `reports`: it does so of one more time, where it did so of those before.
pub proof fn each_report_is_kept(last: u64, times: Seq<u64>, seconds: u64)
    ensures
        next_report(last_report(last, reports(last, times)), seconds) == last_report(
            last,
            reports(last, times.push(seconds)),
        ),
        report_due(last_report(last, reports(last, times)), seconds) ==> reports(
            last,
            times.push(seconds),
        ) == reports(last, times).push(seconds),
        !report_due(last_report(last, reports(last, times)), seconds) ==> reports(
            last,
            times.push(seconds),
        ) == reports(last, times),
{
    assert(times.push(seconds).drop_last() =~= times);
}

/// `picked` holds what stands in `all` at the rising positions `at`.
pub open spec fn picked_at(picked: Seq<u64>, all: Seq<u64>, at: Seq<int>) -> bool {
    &&& at.len() == picked.len()
    &&& forall|k: int|
        0 <= k < at.len() ==> 0 <= #[trigger] at[k] < all.len() && all[at[k]] == picked[k]
    &&& forall|k: int, l: int| 0 <= k < l < at.len() ==> #[trigger] at[k] < #[trigger] at[l]
}

/// `picked` is what is left of `all` after some of it was taken out.
pub open spec fn subsequence(picked: Seq<u64>, all: Seq<u64>) -> bool {
    exists|at: Seq<int>| picked_at(picked, all, at)
}

/// Two reports lie at least the interval apart, and the first lies as far behind
/// `last`; what is reported are some of the times that the player told, in their
/// order, and after each time none is overdue.
pub proof fn reports_are_spaced(last: u64, times: Seq<u64>)
    ensures
        ({
            let reported = reports(last, times);
            &&& reported.len() > 0 ==> reported[0] >= last + REPORT_INTERVAL
            &&& forall|k: int, l: int|
                0 <= k && l == k + 1 && l < reported.len() ==> #[trigger] reported[l]
                    >= #[trigger] reported[k] + REPORT_INTERVAL
            &&& subsequence(reported, times)
            &&& times.len() > 0 ==> !report_due(last_report(last, reported), times.last())
        }),
    decreases times.len(),
{
    let reported = reports(last, times);
    if times.len() == 0 {
        assert(picked_at(reported, times, Seq::empty()));
    } else {
        let front = times.drop_last();
        let before = reports(last, front);
        reports_are_spaced(last, front);
        assert forall|k: int, l: int|
            0 <= k && l == k + 1 && l < reported.len() implies #[trigger] reported[l]
            >= #[trigger] reported[k] + REPORT_INTERVAL by {
            assert(reported[k] == before[k]);
            if l < before.len() {
                assert(reported[l] == before[l]);
            }
        }
        let at = choose|at: Seq<int>| picked_at(before, front, at);
        if reported.len() > before.len() {
            let more = at.push(times.len() - 1);
            assert forall|k: int| 0 <= k < more.len() implies 0 <= #[trigger] more[k]
                < times.len() && times[more[k]] == reported[k] by {
                if k < at.len() {
                    assert(more[k] == at[k]);
                    assert(times[at[k]] == front[at[k]]);
                }
            }
            assert forall|k: int, l: int| 0 <= k < l < more.len() implies #[trigger] more[k]
                < #[trigger] more[l] by {
                assert(more[k] == at[k]);
                if l < at.len() {
                    assert(more[l] == at[l]);
                }
            }
            assert(picked_at(reported, times, more));
        } else {
            assert forall|k: int| 0 <= k < at.len() implies 0 <= #[trigger] at[k] < times.len()
                && times[at[k]] == reported[k] by {
                assert(times[at[k]] == front[at[k]]);
            }
            assert(picked_at(reported, times, at));
        }
    }
}

/// An episode begins again at the second that was reported last of it.
pub proof fn it_resumes_where_it_was_reported(seconds: u64)
    requires
        seconds * TICKS_PER_SECOND <= u64::MAX,
    ensures
        start_second(Some((seconds * TICKS_PER_SECOND) as u64)) == seconds,
{
}

/// `STATUS:` does not stand again within itself.
proof fn a_marker_does_not_overlap(text: Seq<char>, at: int, j: int)
    requires
        occurs_at(text, "STATUS:"@, at),
        at < j < at + 7,
    ensures
        !occurs_at(text, "STATUS:"@, j),
{
    reveal_strlit("STATUS:");
    let marker = "STATUS:"@;
    if occurs_at(text, marker, j) {
        let first = text.subrange(at, at + 7);
        let second = text.subrange(j, j + 7);
        assert(first[j - at] == second[0]);
        assert(j == at + 5);
        assert(first[6] == second[1]);
    }
}

/// `STATUS:` stands after `from` only where it stands in what follows, and not
/// across the end of the line.
proof fn a_marker_stands_on_its_line(text: Seq<char>, from: int, position: Seq<char>, j: int)
    requires
        0 <= from <= j,
        text.skip(from) == position + seq!['\r'],
        from <= text.len(),
        !occurs_at(position, "STATUS:"@, j - from),
    ensures
        !occurs_at(text, "STATUS:"@, j),
{
    reveal_strlit("STATUS:");
    let marker = "STATUS:"@;
    if occurs_at(text, marker, j) {
        let piece = text.subrange(j, j + 7);
        let line = position + seq!['\r'];
        let k = j - from;
        assert(line.len() == text.len() - from);
        assert(line.subrange(k, k + 7) =~= piece);
        if k + 7 <= position.len() {
            assert(position.subrange(k, k + 7) =~= piece);
        } else {
            assert(piece[6] == line[k + 6]);
        }
    }
}

/// Whatever was written before, the status that was written last is the one that
/// is read.
pub proof fn the_last_status_counts(before: Seq<char>, position: Seq<char>)
    requires
        !position.contains('\r'),
        forall|j: int| !#[trigger] occurs_at(position, "STATUS:"@, j),
    ensures
        last_position(before + "STATUS:"@ + position + seq!['\r']) == Some(trimmed(position)),
{
    let marker = "STATUS:"@;
    let text = before + marker + position + seq!['\r'];
    let at = before.len() as int;
    let from = at + 7;
    assert(marker.len() == 7) by {
        reveal_strlit("STATUS:");
    }
    let rest = text.skip(from);
    assert(rest =~= position + seq!['\r']);
    assert(occurs_at(text, marker, at)) by {
        assert(text.subrange(at, at + marker.len()) =~= marker);
    }
    assert forall|j: int| at < j implies !#[trigger] occurs_at(text, marker, j) by {
        if j < from {
            a_marker_does_not_overlap(text, at, j);
        } else {
            assert(!occurs_at(position, marker, j - from));
            a_marker_stands_on_its_line(text, from, position, j);
        }
    }
    assert(last_occurrence(text, marker) == Some(at)) by {
        last_occurrence_is_last(text, marker);
    }
    assert(before_first(rest, '\r') == position) by {
        assert forall|j: int| 0 <= j < position.len() implies rest[j] != '\r' by {
            assert(position.contains(position[j]));
        }
        before_first_at(rest, '\r', position.len() as int);
        assert(rest.take(position.len() as int) =~= position);
    }
}

/// A character of a number as the player writes it.
pub open spec fn is_numeral(c: char) -> bool {
    '0' <= c <= '9' || c == '.' || c == '-'
}

/// A position that the player writes as a number is read as it was written.
pub proof fn a_number_is_read_as_written(before: Seq<char>, position: Seq<char>)
    requires
        forall|i: int| 0 <= i < position.len() ==> is_numeral(#[trigger] position[i]),
    ensures
        last_position(before + "STATUS:"@ + position + seq!['\r']) == Some(position),
{
    reveal_strlit("STATUS:");
    assert forall|j: int| !#[trigger] occurs_at(position, "STATUS:"@, j) by {
        if occurs_at(position, "STATUS:"@, j) {
            assert(position.subrange(j, j + 7)[0] == position[j]);
            assert(is_numeral(position[j]));
            assert(false);
        }
    }
    the_last_status_counts(before, position);
    if position.len() > 0 {
        assert(is_numeral(position[0]));
        assert(is_numeral(position[position.len() - 1]));
    }
    trimmed_leaves_solid_text(position);
}

/// Follows a running player: all it has written so far, and the second at which
/// progress was last reported.
#[derive(Debug)]
pub struct Monitor {
    pub output: Vec<u8>,
    pub last_reported_time: u64,
}

impl Monitor {
    /// A player that has written nothing.
    pub fn new() -> (m: Monitor)
        ensures
            m.output@ == Seq::<u8>::empty(),
            m.last_reported_time == 0,
    {
        Monitor { output: Vec::new(), last_reported_time: 0 }
    }

    /// Takes a piece of the player's output, which is empty at its end.
    pub fn read(&mut self, piece: &Vec<u8>) -> (r: Reading)
        ensures
            final(self).output@ == old(self).output@ + piece@,
            final(self).last_reported_time == old(self).last_reported_time,
            r@ == reading(final(self).output@, piece@.len()),
    {
        let mut i: usize = 0;
        let ghost before = self.output@;
        let ghost last = self.last_reported_time;
        assert(piece@.take(0) =~= Seq::empty());
        assert(before + piece@.take(0) =~= before);
        while i < piece.len()
            invariant
                i <= piece@.len(),
                self.output@ == before + piece@.take(i as int),
                self.last_reported_time == last,
            decreases piece@.len() - i,
        {
            self.output.push(piece[i]);
            assert(piece@.take(i + 1) =~= piece@.take(i as int).push(piece@[i as int]));
            assert(self.output@ =~= before + piece@.take(i + 1));
            i = i + 1;
        }
        assert(piece@.take(piece@.len() as int) =~= piece@);
        let copy = self.output.clone();
        assert(copy@ =~= self.output@);
        match text_of_bytes(copy) {
            None => Reading::Garbled,
            Some(text) => {
                if piece.len() == 0 {
                    Reading::Ended
                } else {
                    match field_after_last_text(text.as_str(), "STATUS:", '\r') {
                        Some(field) => Reading::Position(trim(field.as_str())),
                        None => Reading::Silent,
                    }
                }
            },
        }
    }

    /// Whether progress is to be reported at `seconds`.
    pub fn due(&self, seconds: u64) -> (b: bool)
        ensures
            b == report_due(self.last_reported_time, seconds),
            b <==> seconds >= self.last_reported_time + REPORT_INTERVAL,
    {
        seconds.saturating_sub(self.last_reported_time) >= REPORT_INTERVAL
    }

    /// Decides whether progress is to be reported at `seconds`, and keeps that it
    /// was.
    pub fn report(&mut self, seconds: u64) -> (due: bool)
        ensures
            due == report_due(old(self).last_reported_time, seconds),
            due <==> seconds >= old(self).last_reported_time + REPORT_INTERVAL,
            due ==> final(self).last_reported_time == seconds,
            !due ==> final(self).last_reported_time == old(self).last_reported_time,
            final(self).output@ == old(self).output@,
            final(self).last_reported_time == next_report(old(self).last_reported_time, seconds),
    {
        if self.due(seconds) {
            self.last_reported_time = seconds;
            true
        } else {
            false
        }
    }

    /// The request that reports progress at `seconds`, where it is due.
    pub fn progress(&mut self, server: &Server, episode_id: &String, seconds: u64) -> (r: Option<
        Request,
    >)
        requires
            report_due(old(self).last_reported_time, seconds) ==> seconds * TICKS_PER_SECOND
                <= u64::MAX,
        ensures
            match r {
                Some(request) => report_due(old(self).last_reported_time, seconds) && request@
                    == server@.progress_request(episode_id@, seconds as nat),
                None => !report_due(old(self).last_reported_time, seconds),
            },
            r is Some <==> seconds >= old(self).last_reported_time + REPORT_INTERVAL,
            final(self).output@ == old(self).output@,
            final(self).last_reported_time == next_report(old(self).last_reported_time, seconds),
    {
        if self.report(seconds) {
            server.progress_request(episode_id, seconds)
        } else {
            None
        }
    }
}

} // verus!
