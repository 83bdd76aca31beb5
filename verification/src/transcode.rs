//! Watching a program at work: the progress that `ffmpeg` prints and how a program ends.

use crate::api::join;
use crate::encoding::{decode_lossy, law_printed_text_is_read, printed};
use crate::media::{law_renditions_go_by_their_lines, lines, quality_name, Quality};
use crate::number::{decimal, decimal_text};
use crate::text::{
    blank, contains, first_at, first_put, first_word, following, law_all_behind_follows,
    law_first_word_is_whole, law_what_stands_is_found, leading_word, lemma_last_piece, lemma_trimmed_start,
    lemma_until_space, occurs_at, pieces, split_text, text_after, views, white_space,
};
use vstd::prelude::*;
use vstd::utf8::encode_utf8;

verus! {

/// The three fields of a time that `ffmpeg` prints.
#[derive(Debug)]
pub struct TimeFields {
    pub hours: String,
    pub minutes: String,
    pub seconds: String,
}

/// The fields of the first time in a line, in the form `time=hours:minutes:seconds`: what
/// follows the mark, up to the next white space, if two colons part it.
pub open spec fn line_time(line: Seq<char>) -> Option<Seq<Seq<char>>> {
    match following(line, "time="@) {
        Some(rest) => match first_word(rest) {
            Some(word) => if pieces(word, ':').len() == 3 {
                Some(pieces(word, ':'))
            } else {
                None
            },
            None => None,
        },
        None => None,
    }
}

/// What the fields of a time hold.
pub open spec fn field_texts(fields: TimeFields) -> Seq<Seq<char>> {
    seq![fields.hours@, fields.minutes@, fields.seconds@]
}

/// The words that tell how far a rendition is.
pub open spec fn percent_text(quality: Quality, percent: i32) -> Seq<char> {
    "Transcoding "@ + quality_name(quality)@ + " ("@ + decimal(percent as int) + "%)"@
}

/// An exit code as people read it; a program that a signal ended has none.
pub open spec fn code_text(code: Option<i32>) -> Seq<char> {
    match code {
        Some(number) => "Some("@ + decimal(number as int) + ")"@,
        None => "None"@,
    }
}

/// The error of a program that failed.
pub open spec fn exit_text(label: Seq<char>, code: Option<i32>) -> Seq<char> {
    label + " failed with exit status "@ + code_text(code)
}

/// The fields of the first time in a line of text.
pub fn time_in_line(line: &str) -> (fields: Option<TimeFields>)
    ensures
        match fields {
            Some(f) => line_time(line@) == Some(field_texts(f)),
            None => line_time(line@) is None,
        },
{
    let rest = match text_after(line, "time=") {
        Some(rest) => rest,
        None => {
            return None;
        },
    };
    let word = match leading_word(rest.as_str()) {
        Some(word) => word,
        None => {
            return None;
        },
    };
    let mut parts = split_text(word.as_str(), ':');
    let ghost texts = views(parts@);
    assert(texts.len() == parts@.len());
    if parts.len() != 3 {
        return None;
    }
    assert(texts[0] == parts@[0]@ && texts[1] == parts@[1]@ && texts[2] == parts@[2]@);
    let seconds = parts.remove(2);
    let minutes = parts.remove(1);
    let hours = parts.remove(0);
    let fields = TimeFields { hours, minutes, seconds };
    assert(texts =~= field_texts(fields));
    Some(fields)
}

/// The fields of the first time in a chunk of what `ffmpeg` printed.
pub fn time_in_chunk(chunk: &[u8]) -> (fields: Option<TimeFields>)
    ensures
        match fields {
            Some(f) => line_time(printed(chunk@)) == Some(field_texts(f)),
            None => line_time(printed(chunk@)) is None,
        },
{
    time_in_line(decode_lossy(chunk).as_str())
}

/// The time in a line of `ffmpeg` is found, whatever stands around it: it follows the first
/// mark, with or without white space between them, and goes on to the next white space or to
/// the end of the line.
pub proof fn law_time_is_found(
    front: Seq<char>,
    gap: Seq<char>,
    hours: Seq<char>,
    minutes: Seq<char>,
    seconds: Seq<char>,
    rest: Seq<char>,
)
    requires
        first_at(
            front + "time="@ + gap + clock(hours, minutes, seconds) + rest,
            "time="@,
            front.len() as int,
        ),
        blank(gap),
        plain_field(hours),
        plain_field(minutes),
        plain_field(seconds),
        rest.len() == 0 || white_space(rest[0]),
    ensures
        line_time(front + "time="@ + gap + clock(hours, minutes, seconds) + rest) == Some(
            seq![hours, minutes, seconds],
        ),
{
    reveal_strlit("time=");
    let word = clock(hours, minutes, seconds);
    let line = front + "time="@ + gap + word + rest;
    assert(occurs_at(line, "time="@, front.len() as int));
    let first = choose|i: int| first_at(line, "time="@, i);
    assert(first_at(line, "time="@, first));
    assert(line.skip(first + 5) =~= gap + (word + rest));
    assert forall|i: int| 0 <= i < word.len() implies !white_space(#[trigger] word[i]) by {
        if i < hours.len() {
            assert(word[i] == hours[i]);
        } else if hours.len() < i < hours.len() + 1 + minutes.len() {
            assert(word[i] == minutes[i - hours.len() - 1]);
        } else if i > hours.len() + 1 + minutes.len() {
            assert(word[i] == seconds[i - hours.len() - minutes.len() - 2]);
        }
    }
    assert((word + rest)[0] == word[0]);
    lemma_trimmed_start(gap, word + rest);
    lemma_until_space(word, rest);
    lemma_last_piece(Seq::empty(), ':', hours);
    lemma_last_piece(hours, ':', minutes);
    lemma_last_piece(hours + seq![':'] + minutes, ':', seconds);
    assert(pieces(word, ':') =~= seq![hours, minutes, seconds]);
}

/// A time as `ffmpeg` prints it.
pub open spec fn clock(
    hours: Seq<char>,
    minutes: Seq<char>,
    seconds: Seq<char>,
) -> Seq<char> {
    hours + seq![':'] + minutes + seq![':'] + seconds
}

/// A field of a time holds no colon and no white space.
pub open spec fn plain_field(field: Seq<char>) -> bool {
    forall|i: int| 0 <= i < field.len() ==> #[trigger] field[i] != ':' && !white_space(field[i])
}

/// The words that tell how far a rendition is.
fn percent_message(quality: Quality, percent: i32) -> (message: String)
    ensures
        message@ == percent_text(quality, percent),
{
    let mut message = join("Transcoding ", quality.name(), " (");
    message.append(decimal_text(percent as i64).as_str());
    message.append("%)");
    message
}

/// How a program ended: well, or with the error that tells its exit code.
pub fn exit_verdict(label: &str, success: bool, code: Option<i32>) -> (verdict: Result<(), String>)
    ensures
        match verdict {
            Ok(_) => success,
            Err(message) => !success && message@ == exit_text(label@, code),
        },
{
    if success {
        return Ok(());
    }
    let shown = match code {
        Some(number) => join("Some(", decimal_text(number as i64).as_str(), ")"),
        None => "None".to_string(),
    };
    Err(join(label, " failed with exit status ", shown.as_str()))
}

/// What a running `ffmpeg` is doing.
#[derive(Debug, Clone, Copy, PartialEq, Eq, Structural)]
pub enum Phase {
    /// It prints what it does.
    Printing,
    /// It has stopped printing, and is yet to end.
    Silent,
    /// It has ended.
    Ended,
}

/// What is seen of a running `ffmpeg`.
#[derive(Debug, Clone, Copy, PartialEq, Eq, Structural)]
pub enum Sight {
    /// It printed something that tells, or does not tell, how far it is.
    Printed(Option<i32>),
    /// Nothing more can be read from it.
    Silence,
    /// It ended, well or not, with an exit code or without one.
    Exit(bool, Option<i32>),
}

/// What is to be done next about a running `ffmpeg`.
#[derive(Debug)]
pub enum Watch {
    /// Read on.
    Read,
    /// Report the message, and read on.
    Report(String),
    /// Wait for it to end.
    Await,
    /// Nothing: it ended well.
    Finish,
    /// Nothing: it failed with this error.
    Fail(String),
    /// Nothing: what was seen does not fit what it was doing.
    Ignore,
}

/// What is to be done next, with the texts taken as they read.
pub enum WatchView {
    Read,
    Report(Seq<char>),
    Await,
    Finish,
    Fail(Seq<char>),
    Ignore,
}

impl View for Watch {
    type V = WatchView;

    open spec fn view(&self) -> WatchView {
        match *self {
            Watch::Read => WatchView::Read,
            Watch::Report(message) => WatchView::Report(message@),
            Watch::Await => WatchView::Await,
            Watch::Finish => WatchView::Finish,
            Watch::Fail(message) => WatchView::Fail(message@),
            Watch::Ignore => WatchView::Ignore,
        }
    }
}

/// An `ffmpeg` that makes a rendition, as it is watched.
#[derive(Debug)]
pub struct Watcher {
    /// The words that describe what it does.
    pub label: String,
    /// The rendition that it makes.
    pub quality: Quality,
    /// The percentage that was reported last, or -1.
    pub reported: i32,
    pub phase: Phase,
}

/// What is to be done about a sight: a percentage is reported when it is not the one that
/// was reported last.
pub open spec fn watch_action(w: Watcher, sight: Sight) -> WatchView {
    match (w.phase, sight) {
        (Phase::Printing, Sight::Printed(Some(percent))) => if percent != w.reported {
            WatchView::Report(percent_text(w.quality, percent))
        } else {
            WatchView::Read
        },
        (Phase::Printing, Sight::Printed(None)) => WatchView::Read,
        (Phase::Printing, Sight::Silence) => WatchView::Await,
        (Phase::Silent, Sight::Exit(true, _)) => WatchView::Finish,
        (Phase::Silent, Sight::Exit(false, code)) => WatchView::Fail(exit_text(w.label@, code)),
        _ => WatchView::Ignore,
    }
}

/// What is known after a sight.
pub open spec fn watch_after(w: Watcher, sight: Sight) -> Watcher {
    match (w.phase, sight) {
        (Phase::Printing, Sight::Printed(Some(percent))) => Watcher { reported: percent, ..w },
        (Phase::Printing, Sight::Silence) => Watcher { phase: Phase::Silent, ..w },
        (Phase::Silent, Sight::Exit(_, _)) => Watcher { phase: Phase::Ended, ..w },
        _ => w,
    }
}

impl Watcher {
    /// An `ffmpeg` that was just started.
    pub fn new(label: String, quality: Quality) -> (watcher: Watcher)
        ensures
            watcher.label == label,
            watcher.quality == quality,
            watcher.reported == -1,
            watcher.phase == Phase::Printing,
    {
        Watcher { label, quality, reported: -1, phase: Phase::Printing }
    }

    /// Takes in what is seen, and tells what is to be done.
    pub fn see(&mut self, sight: Sight) -> (todo: Watch)
        ensures
            todo@ == watch_action(*old(self), sight),
            *final(self) == watch_after(*old(self), sight),
    {
        match (self.phase, sight) {
            (Phase::Printing, Sight::Printed(Some(percent))) => {
                if percent != self.reported {
                    self.reported = percent;
                    Watch::Report(percent_message(self.quality, percent))
                } else {
                    Watch::Read
                }
            },
            (Phase::Printing, Sight::Printed(None)) => Watch::Read,
            (Phase::Printing, Sight::Silence) => {
                self.phase = Phase::Silent;
                Watch::Await
            },
            (Phase::Silent, Sight::Exit(success, code)) => {
                self.phase = Phase::Ended;
                match exit_verdict(self.label.as_str(), success, code) {
                    Ok(_) => Watch::Finish,
                    Err(message) => Watch::Fail(message),
                }
            },
            _ => Watch::Ignore,
        }
    }
}

/// What is known after a row of sights.
pub open spec fn watched(w: Watcher, sights: Seq<Sight>) -> Watcher
    decreases sights.len(),
{
    if sights.len() == 0 {
        w
    } else {
        watch_after(watched(w, sights.drop_last()), sights.last())
    }
}

/// A percentage is reported once: after any number of sights that tell it again or tell
/// nothing, it is not reported anew.
pub proof fn law_percentages_are_reported_once(w: Watcher, percent: i32, sights: Seq<Sight>)
    requires
        w.phase == Phase::Printing,
        forall|i: int|
            0 <= i < sights.len() ==> #[trigger] sights[i] == Sight::Printed(None) || sights[i]
                == Sight::Printed(Some(percent)),
    ensures
        watch_action(
            watched(watch_after(w, Sight::Printed(Some(percent))), sights),
            Sight::Printed(Some(percent)),
        ) == WatchView::Read,
        watched(watch_after(w, Sight::Printed(Some(percent))), sights).phase == Phase::Printing,
    decreases sights.len(),
{
    if sights.len() > 0 {
        assert(forall|i: int|
            0 <= i < sights.drop_last().len() ==> sights.drop_last()[i] == sights[i]);
        law_percentages_are_reported_once(w, percent, sights.drop_last());
        assert(sights.last() == sights[sights.len() - 1]);
    }
}

/// A run ends well exactly when the program ends well after it has gone silent.
pub proof fn law_finish_means_success(w: Watcher, sight: Sight)
    ensures
        watch_action(w, sight) == WatchView::Finish <==> {
            &&& w.phase == Phase::Silent
            &&& sight matches Sight::Exit(true, _)
        },
{
}

/// A percentage other than the last is reported, with the lines of the rendition, and is the last
/// from then on; the last one, or none, is not reported and changes nothing.
pub proof fn law_changes_are_reported(w: Watcher, percent: i32)
    requires
        w.phase == Phase::Printing,
    ensures
        ({
            let todo = watch_action(w, Sight::Printed(Some(percent)));
            let next = watch_after(w, Sight::Printed(Some(percent)));
            &&& next.reported == percent
            &&& next.phase == Phase::Printing
            &&& next.quality == w.quality
            &&& next.label == w.label
            &&& percent == w.reported ==> todo == WatchView::Read
            &&& percent != w.reported ==> {
                &&& todo matches WatchView::Report(message)
                &&& message == "Transcoding "@ + decimal(lines(w.quality)) + "p ("@ + decimal(
                    percent as int,
                ) + "%)"@
            }
        }),
        watch_action(w, Sight::Printed(None)) == WatchView::Read,
        watch_after(w, Sight::Printed(None)) == w,
{
    law_renditions_go_by_their_lines(w.quality);
    reveal_strlit("p");
    reveal_strlit(" (");
    reveal_strlit("p (");
    assert(percent_text(w.quality, percent) =~= "Transcoding "@ + decimal(lines(w.quality)) + "p ("@
        + decimal(percent as int) + "%)"@);
}

/// A program that has gone silent is waited for, and judged by how it ends: one that fails is
/// told by its label and its exit code.
pub proof fn law_silent_programs_are_judged(w: Watcher, silent: Watcher, code: Option<i32>)
    requires
        w.phase == Phase::Printing,
        silent == watch_after(w, Sight::Silence),
    ensures
        watch_action(w, Sight::Silence) == WatchView::Await,
        silent.phase == Phase::Silent,
        silent.label == w.label,
        watch_action(silent, Sight::Exit(true, code)) == WatchView::Finish,
        watch_action(silent, Sight::Exit(false, code)) matches WatchView::Fail(message) && message
            == exit_text(w.label@, code),
        watch_after(silent, Sight::Exit(true, code)).phase == Phase::Ended,
        watch_after(silent, Sight::Exit(false, code)).phase == Phase::Ended,
{
}

/// What does not fit what a program was doing is ignored, and changes nothing.
pub proof fn law_ignored_sights_change_nothing(w: Watcher, sight: Sight)
    requires
        watch_action(w, sight) == WatchView::Ignore,
    ensures
        watch_after(w, sight) == w,
        w.phase == Phase::Ended || (w.phase == Phase::Silent && !(sight is Exit)) || (w.phase
            == Phase::Printing && sight is Exit),
{
}

/// The error of a program that failed is its label, a fixed phrase and its exit code: the numeral
/// in brackets, or the word for none.
pub proof fn law_exit_code_is_told(label: Seq<char>, code: i32)
    ensures
        exit_text(label, Some(code)) == label + " failed with exit status Some("@ + decimal(
            code as int,
        ) + ")"@,
        exit_text(label, None) == label + " failed with exit status None"@,
{
    reveal_strlit(" failed with exit status ");
    reveal_strlit(" failed with exit status Some(");
    reveal_strlit(" failed with exit status None");
    reveal_strlit("Some(");
    reveal_strlit("None");
    assert(exit_text(label, Some(code)) =~= label + " failed with exit status Some("@ + decimal(
        code as int,
    ) + ")"@);
    assert(exit_text(label, None) =~= label + " failed with exit status None"@);
}

/// Where there is no mark, or no word behind the first one, there is no time.
pub proof fn law_no_mark_no_time(front: Seq<char>, gap: Seq<char>)
    requires
        blank(gap),
    ensures
        !contains(front, "time="@) ==> line_time(front) is None,
        first_put(front, "time="@, gap) ==> line_time(front + "time="@ + gap) is None,
{
    law_all_behind_follows(front, "time="@, gap);
    law_first_word_is_whole(gap, Seq::empty(), Seq::empty());
}

/// The pieces of a text are one at least, and a separator adds one.
proof fn lemma_pieces_grow(text: Seq<char>, separator: char, more: Seq<char>)
    ensures
        pieces(text, separator).len() >= 1,
        pieces(text + more, separator).len() >= pieces(text, separator).len(),
    decreases text.len() + more.len(),
{
    if more.len() > 0 {
        lemma_pieces_grow(text, separator, more.drop_last());
        assert((text + more).drop_last() =~= text + more.drop_last());
    } else {
        assert(text + more =~= text);
        if text.len() > 0 {
            lemma_pieces_grow(text.drop_last(), separator, Seq::empty());
        }
    }
}

/// A time has three fields: a word behind the mark with fewer colons than two, or with more, is no
/// time, and a later mark does not count.
pub proof fn law_times_have_three_fields(
    front: Seq<char>,
    gap: Seq<char>,
    fields: (Seq<char>, Seq<char>, Seq<char>, Seq<char>),
    word: Seq<char>,
    rest: Seq<char>,
)
    requires
        first_put(front, "time="@, gap + word + rest),
        blank(gap),
        plain_field(fields.0),
        plain_field(fields.1),
        plain_field(fields.2),
        word.len() > 0,
        forall|i: int| 0 <= i < word.len() ==> !white_space(#[trigger] word[i]),
        rest.len() == 0 || white_space(rest[0]),
        word == fields.0 || word == fields.0 + seq![':'] + fields.1 || word == clock(
            fields.0,
            fields.1,
            fields.2,
        ) + seq![':'] + fields.3,
    ensures
        line_time(front + "time="@ + (gap + word + rest)) is None,
{
    law_all_behind_follows(front, "time="@, gap + word + rest);
    law_first_word_is_whole(gap, word, rest);
    lemma_last_piece(Seq::empty(), ':', fields.0);
    lemma_last_piece(fields.0, ':', fields.1);
    lemma_last_piece(fields.0 + seq![':'] + fields.1, ':', fields.2);
    let times = clock(fields.0, fields.1, fields.2);
    assert((times + seq![':']).drop_last() =~= times);
    assert(pieces(times + seq![':'], ':').len() == 4);
    lemma_pieces_grow(times + seq![':'], ':', fields.3);
}

/// A program is judged by whether it ended well, and an error tells its label and its exit code.
pub proof fn law_exits_are_judged(
    label: &str,
    success: bool,
    code: i32,
    verdicts: (Result<(), String>, Result<(), String>),
)
    requires
        call_ensures(exit_verdict, (label, success, Some(code)), verdicts.0),
        call_ensures(exit_verdict, (label, success, None), verdicts.1),
    ensures
        verdicts.0 is Ok <==> success,
        verdicts.1 is Ok <==> success,
        verdicts.0 matches Err(message) ==> message@ == label@ + " failed with exit status Some("@
            + decimal(code as int) + ")"@,
        verdicts.1 matches Err(message) ==> message@ == label@ + " failed with exit status None"@,
{
    law_exit_code_is_told(label@, code);
}

/// The time that `ffmpeg` prints is found in the bytes that it writes, field by field.
pub proof fn law_printed_time_is_found(
    chunk: &[u8],
    front: Seq<char>,
    times: (Seq<char>, Seq<char>, Seq<char>),
    rest: Seq<char>,
    found: Option<TimeFields>,
)
    requires
        call_ensures(time_in_chunk, (chunk,), found),
        plain_field(times.0),
        plain_field(times.1),
        plain_field(times.2),
        rest.len() == 0 || white_space(rest[0]),
        chunk@ == encode_utf8(front + "time="@ + clock(times.0, times.1, times.2) + rest),
        first_put(front, "time="@, clock(times.0, times.1, times.2) + rest),
    ensures
        found matches Some(fields) && fields.hours@ == times.0 && fields.minutes@ == times.1
            && fields.seconds@ == times.2,
{
    let word = clock(times.0, times.1, times.2);
    let line = front + "time="@ + (word + rest);
    assert(front + "time="@ + word + rest =~= line);
    assert(front + "time="@ + Seq::<char>::empty() + word + rest =~= line);
    law_printed_text_is_read(line);
    law_what_stands_is_found(front, "time="@, word + rest);
    assert(line.subrange(front.len() as int, (front.len() + "time="@.len()) as int) =~= "time="@);
    assert(occurs_at(line, "time="@, front.len() as int));
    assert(first_at(line, "time="@, front.len() as int)) by {
        assert forall|j: int| occurs_at(line, "time="@, j) implies front.len() <= j by {
            if 0 <= j < front.len() {
                assert(!occurs_at(front + "time="@ + (word + rest), "time="@, j));
            }
        }
    }
    law_time_is_found(front, Seq::empty(), times.0, times.1, times.2, rest);
    let fields = found->0;
    let texts = field_texts(fields);
    assert(texts == seq![times.0, times.1, times.2]);
    assert(texts[0] == fields.hours@ && texts[1] == fields.minutes@ && texts[2]
        == fields.seconds@);
}

/// A watcher reports a percentage exactly if it is not the last one, and keeps it in mind.
pub proof fn law_watchers_report_changes(watcher: &mut Watcher, percent: i32, todo: Watch)
    requires
        call_ensures(Watcher::see, (watcher, Sight::Printed(Some(percent))), todo),
        old(watcher).phase == Phase::Printing,
    ensures
        todo@ is Report <==> percent != old(watcher).reported,
        todo@ is Read <==> percent == old(watcher).reported,
        todo@ matches WatchView::Report(message) ==> message == "Transcoding "@ + decimal(
            lines(old(watcher).quality),
        ) + "p ("@ + decimal(percent as int) + "%)"@,
        final(watcher).reported == percent,
        final(watcher).quality == old(watcher).quality,
        final(watcher).label == old(watcher).label,
        final(watcher).phase == Phase::Printing,
{
    law_changes_are_reported(*old(watcher), percent);
}

/// A watcher judges a program that went silent by how it ends.
pub proof fn law_watchers_judge_the_exit(
    watcher: &mut Watcher,
    success: bool,
    code: i32,
    todo: Watch,
)
    requires
        call_ensures(Watcher::see, (watcher, Sight::Exit(success, Some(code))), todo),
        old(watcher).phase == Phase::Silent,
    ensures
        todo@ is Finish <==> success,
        todo@ is Fail <==> !success,
        todo@ matches WatchView::Fail(message) ==> message == old(watcher).label@
            + " failed with exit status Some("@ + decimal(code as int) + ")"@,
        final(watcher).phase == Phase::Ended,
{
    law_exit_code_is_told(old(watcher).label@, code);
}

} // verus!
