//! What playing an episode comes to: where it begins, what is asked of the server
//! and the player, and which of the times that the player tells are reported.
use vstd::prelude::*;
use vstd::utf8::decode_utf8;
use vstd::utf8::valid_utf8;

use crate::network::Method;
use crate::network::ReplyView;
use crate::network::ServerView;
use crate::network::status_text;
use crate::playback::last_position;
use crate::playback::last_report;
use crate::playback::next_report;
use crate::playback::player_arguments;
use crate::playback::progress_line;
use crate::playback::reading;
use crate::playback::ReadingView;
use crate::playback::report_due;
use crate::playback::reports;
use crate::playback::resume_line;
use crate::playback::start_second;
use crate::text::a_field_follows_the_last_marker;
use crate::text::decimal;
use crate::text::decimal_has_no_leading_zero;
use crate::text::decimal_reads_back;
use crate::text::decimal_value;
use crate::text::occurs_at;
use crate::text::trimmed;

verus! {

/// A report is made as soon as fifteen seconds have passed since the last one, and
/// not before: whatever times were told until then, one that lies so far behind the
/// last report is reported, and one that does not is not.
pub proof fn no_report_is_withheld(last: u64, times: Seq<u64>, t: u64)
    ensures
        reports(last, Seq::empty()) == Seq::<u64>::empty(),
        t >= last_report(last, reports(last, times)) + 15 ==> reports(last, times.push(t))
            == reports(last, times).push(t),
        t < last_report(last, reports(last, times)) + 15 ==> reports(last, times.push(t))
            == reports(last, times),
{
    assert(times.push(t).drop_last() =~= times);
}

/// The last of some reports is the one at their end, and without any it is the one
/// before them.
pub proof fn the_last_report_is_at_the_end(last: u64, reported: Seq<u64>, t: u64)
    ensures
        last_report(last, Seq::empty()) == last,
        last_report(last, reported.push(t)) == t,
{
}

/// Whether a report is due hangs on the time since the last one alone, and once it
/// is due it stays so until it is made.
pub proof fn a_report_stays_due(last: u64, seconds: u64, later: u64, shift: u64)
    requires
        seconds <= later,
        last + shift <= u64::MAX,
        seconds + shift <= u64::MAX,
    ensures
        report_due(last, seconds) <==> seconds - last >= 15,
        report_due(last, seconds) ==> report_due(last, later),
        report_due(last, seconds) <==> report_due((last + shift) as u64, (seconds + shift) as u64),
        !report_due(seconds, seconds),
        seconds - last >= 15 ==> next_report(last, seconds) == seconds,
        seconds - last < 15 ==> next_report(last, seconds) == last,
{
}

/// A player that tells every second is reported every fifteenth.
pub proof fn every_fifteenth_second_is_reported(last: u64, n: nat, times: Seq<u64>)
    requires
        times.len() == 15 * n,
        forall|i: int| 0 <= i < times.len() ==> #[trigger] times[i] == last + i + 1,
    ensures
        reports(last, times).len() == n,
        n > 0 ==> reports(last, times).last() == last + 15 * n,
        forall|k: int| 0 <= k < n ==> #[trigger] reports(last, times)[k] == last + 15 * (k + 1),
    decreases n,
{
    if n > 0 {
        let m = (n - 1) as nat;
        let front = times.take(15int * m);
        every_fifteenth_second_is_reported(last, m, front);
        quiet_seconds(last, times, m, 14);
        let most = times.take(15int * m + 14);
        assert(times =~= most.push((last + 15 * n) as u64));
        no_report_is_withheld(last, most, (last + 15 * n) as u64);
        assert forall|k: int| 0 <= k < n implies #[trigger] reports(last, times)[k] == last + 15 * (
        k + 1) by {
            if k < m {
                assert(reports(last, times)[k] == reports(last, front)[k]);
            }
        }
    }
}

proof fn quiet_seconds(last: u64, times: Seq<u64>, m: nat, j: nat)
    requires
        j <= 14,
        times.len() == 15 * (m + 1),
        forall|i: int| 0 <= i < times.len() ==> #[trigger] times[i] == last + i + 1,
        last_report(last, reports(last, times.take(15int * m))) == last + 15 * m,
    ensures
        reports(last, times.take(15int * m + j)) == reports(last, times.take(15int * m)),
    decreases j,
{
    if j > 0 {
        quiet_seconds(last, times, m, (j - 1) as nat);
        let before = times.take(15 * m + j - 1);
        let t = times[15 * m + j - 1];
        assert(times.take(15int * m + j) =~= before.push(t));
        no_report_is_withheld(last, before, t);
    }
}

/// An episode begins at the last whole second before the place where it was
/// stopped, of which a second has ten million ticks, and at its beginning where it
/// was not stopped.
pub proof fn it_begins_in_the_second_of_its_stop(ticks: u64)
    ensures
        start_second(Some(ticks)) * 10_000_000 <= ticks,
        ticks < (start_second(Some(ticks)) + 1) * 10_000_000,
        start_second(None) == 0,
{
}

/// The stream of an episode has its id in the address, below that of the server, and
/// the key at its end.
pub proof fn a_stream_has_its_address(server: ServerView, id: Seq<char>)
    ensures
        ({
            let url = server.stream_url(id);
            let a = server.url.len() as int;
            let b = a + 7 + id.len();
            &&& url.len() == b + 18 + server.api_key.len()
            &&& url.take(a) == server.url
            &&& url.subrange(a, a + 7) == "/Items/"@
            &&& url.subrange(a + 7, b) == id
            &&& url.subrange(b, b + 18) == "/Download?api_key="@
            &&& url.skip(b + 18) == server.api_key
        }),
{
    reveal_strlit("/Items/");
    reveal_strlit("/Download?api_key=");
    let url = server.stream_url(id);
    let a = server.url.len() as int;
    let b = a + 7 + id.len();
    assert(url.take(a) =~= server.url);
    assert(url.subrange(a, a + 7) =~= "/Items/"@);
    assert(url.subrange(a + 7, b) =~= id);
    assert(url.subrange(b, b + 18) =~= "/Download?api_key="@);
    assert(url.skip(b + 18) =~= server.api_key);
}

/// What is known of an episode is asked for with the user's id and its own in the
/// address.
pub proof fn an_item_is_asked_for(server: ServerView, id: Seq<char>)
    ensures
        ({
            let request = server.item_request(id);
            &&& request.method == Method::Get
            &&& request.url == server.url + ("/Users/"@ + server.user_id + "/Items/"@ + id)
            &&& request.query.len() == 0
            &&& request.authorization == server.authorization()
        }),
{
}

/// Progress is reported by deleting, with the user's id and the episode's in the
/// address and the position at its end, which reads as ten million ticks for each
/// second.
pub proof fn progress_is_sent_in_ticks(server: ServerView, id: Seq<char>, seconds: nat)
    ensures
        ({
            let request = server.progress_request(id, seconds);
            let front = server.url + ("/Users/"@ + server.user_id + "/PlayingItems/"@ + id
                + "?PositionTicks="@);
            let position = request.url.skip(front.len() as int);
            &&& request.method == Method::Delete
            &&& request.query.len() == 0
            &&& request.authorization == server.authorization()
            &&& request.url.take(front.len() as int) == front
            &&& decimal_value(position) == seconds * 10_000_000
            &&& forall|i: int| 0 <= i < position.len() ==> '0' <= #[trigger] position[i] <= '9'
            &&& seconds > 0 ==> position[0] != '0'
        }),
{
    let request = server.progress_request(id, seconds);
    let front = server.url + ("/Users/"@ + server.user_id + "/PlayingItems/"@ + id
        + "?PositionTicks="@);
    let ticks = seconds * 10_000_000;
    decimal_reads_back(ticks);
    decimal_has_no_leading_zero(ticks);
    assert(request.url =~= front + decimal(ticks));
    assert(request.url.skip(front.len() as int) =~= decimal(ticks));
    assert(request.url.take(front.len() as int) =~= front);
}

/// The player is given the stream, the whole screen, a terminal and the form of its
/// status. One more argument tells where to begin, and reads as the second that is
/// given, where that is not the first.
pub proof fn the_player_is_told_where_to_begin(stream_url: Seq<char>, start: u64)
    ensures
        ({
            let args = player_arguments(stream_url, start);
            &&& args[0] == stream_url
            &&& args[1] == "--fs"@
            &&& args[2] == "--terminal=yes"@
            &&& args[3] == "--term-status-msg=STATUS:${=time-pos}"@
            &&& start == 0 ==> args.len() == 4
            &&& start > 0 ==> {
                &&& args.len() == 5
                &&& args[4].take(8) == "--start="@
                &&& decimal_value(args[4].skip(8)) == start
                &&& forall|i: int|
                    8 <= i < args[4].len() ==> '0' <= #[trigger] args[4][i] <= '9'
                &&& args[4][8] != '0'
            }
        }),
{
    reveal_strlit("--start=");
    if start > 0 {
        let n = start as nat;
        let args = player_arguments(stream_url, start);
        decimal_reads_back(n);
        decimal_has_no_leading_zero(n);
        assert(args[4] == "--start="@ + decimal(n));
        assert(args[4].take(8) =~= "--start="@);
        assert(args[4].skip(8) =~= decimal(n));
        assert forall|i: int| 8 <= i < args[4].len() implies '0' <= #[trigger] args[4][i]
            <= '9' by {
            assert(args[4][i] == decimal(n)[i - 8]);
        }
    }
}

/// A player that is stopped right after a report begins, when it is started again,
/// at the second of that report.
pub proof fn the_player_begins_where_it_was_reported(stream_url: Seq<char>, seconds: u64)
    requires
        0 < seconds,
        seconds * 10_000_000 <= u64::MAX,
    ensures
        ({
            let args = player_arguments(
                stream_url,
                start_second(Some((seconds * 10_000_000) as u64)),
            );
            args.len() == 5 && decimal_value(args[4].skip(8)) == seconds
        }),
{
    the_player_is_told_where_to_begin(stream_url, seconds);
}

/// The output says that it is no text exactly where it is none, and that it ended
/// exactly where it is text and nothing came. Otherwise it says the position that is
/// in it, or that there is none.
pub proof fn the_output_is_read_in_order(output: Seq<u8>, read: nat)
    ensures
        !valid_utf8(output) <==> reading(output, read) is Garbled,
        valid_utf8(output) && read == 0 <==> reading(output, read) is Ended,
        valid_utf8(output) && read > 0 ==> match last_position(decode_utf8(output)) {
            Some(text) => reading(output, read) == ReadingView::Position(text),
            None => reading(output, read) == ReadingView::Silent,
        },
{
}

/// There is a position where `STATUS:` was written. It is what stands from behind
/// the last one to the end of its line or of the output, without the white space
/// around it.
pub proof fn a_position_follows_the_last_status(output: Seq<char>) -> (bounds: (int, int))
    ensures
        ({
            let (from, to) = bounds;
            match last_position(output) {
                None => forall|j: int| !#[trigger] occurs_at(output, "STATUS:"@, j),
                Some(position) => {
                    &&& 7 <= from <= to <= output.len()
                    &&& position == trimmed(output.subrange(from, to))
                    &&& occurs_at(output, "STATUS:"@, from - 7)
                    &&& forall|j: int|
                        j > from - 7 ==> !#[trigger] occurs_at(output, "STATUS:"@, j)
                    &&& forall|j: int| from <= j < to ==> output[j] != '\r'
                    &&& to < output.len() ==> output[to] == '\r'
                },
            }
        }),
{
    reveal_strlit("STATUS:");
    a_field_follows_the_last_marker(output, "STATUS:"@, '\r')
}

/// What is logged of the place where an episode was stopped tells its whole seconds
/// and its ticks, each as it reads in decimal.
pub proof fn the_log_tells_the_stop(ticks: u64) -> (seconds: u64)
    ensures
        seconds * 10_000_000 <= ticks < (seconds + 1) * 10_000_000,
        resume_line(ticks) == "Found resume point at "@ + decimal(seconds as nat) + " seconds ("@
            + decimal(ticks as nat) + " ticks)"@,
{
    start_second(Some(ticks))
}

/// What is logged of a report tells the second and the status of the answer, and
/// without an answer the reason.
pub proof fn the_log_tells_the_reply(seconds: u64, reply: ReplyView)
    ensures
        reply matches ReplyView::Answered { status, .. } ==> progress_line(seconds, reply)
            == "Sent final stop tick at "@ + decimal(seconds as nat) + " sec | Jellyfin Status: "@
            + status_text(status),
        reply matches ReplyView::Failed(error) ==> progress_line(seconds, reply)
            == "Failed to send stop tick: "@ + error,
{
}

} // verus!
