//! Console logs: the last lines of a log, and lines as they are written.

use crate::api::{ApiError, ApiErrorView};
use crate::json::{parsed, read};
use crate::model::{empty_list, push_to, Model};
use crate::text::{
    cat2, cat4, chars_of, decimal, joined, number, pieces, position, same_text, split_all, text_of,
    trim_returns, without_trailing_returns,
};
use std::collections::VecDeque;
use vstd::prelude::*;

verus! {

/// Most lines that a request may ask for from the end of a log.
pub const MAX_TAIL_LINES: usize = 10_000;

/// Most bytes that are read from a log at once.
pub const MAX_READ_CHUNK: u64 = 65_536;

/// Most bytes of a line that is not complete yet.
pub const MAX_PARTIAL_LINE: usize = 1_048_576;

/// Which part of a log is asked for.
#[derive(Debug, PartialEq, Eq)]
pub struct LogsQuery {
    /// Whether to wait for more lines.
    pub follow: bool,
    /// How many lines from the end to start with.
    pub tail: Option<usize>,
    /// `json` to leave out lines that are no JSON.
    pub format: Option<String>,
}

/// Mathematical model of a [`LogsQuery`].
pub struct LogsQueryView {
    pub follow: bool,
    pub tail: Option<usize>,
    pub format: Option<Seq<char>>,
}

impl Model for LogsQuery {
    type V = LogsQueryView;

    open spec fn model(&self) -> LogsQueryView {
        LogsQueryView {
            follow: self.follow.model(),
            tail: self.tail.model(),
            format: self.format.model(),
        }
    }

    fn dup(&self) -> (copy: Self) {
        LogsQuery {
            follow: self.follow.dup(),
            tail: self.tail.dup(),
            format: self.format.dup(),
        }
    }
}

/// What checking a request for a log gives.
pub open spec fn logs_checked(query: LogsQueryView) -> Result<(), ApiErrorView> {
    match query.tail {
        Some(lines) => if lines > MAX_TAIL_LINES {
            Err(
                ApiErrorView::BadRequest(
                    "tail value "@ + decimal(lines as nat) + " exceeds maximum of "@ + decimal(
                        MAX_TAIL_LINES as nat,
                    ),
                ),
            )
        } else {
            Ok(())
        },
        None => Ok(()),
    }
}

/// Checks a request for a log.
pub fn check_logs_query(query: &LogsQuery) -> (checked: Result<(), ApiError>)
    ensures
        checked.model() == logs_checked(query.model()),
{
    if let Some(lines) = query.tail {
        if lines > MAX_TAIL_LINES {
            return Err(
                ApiError::BadRequest(
                    cat4(
                        "tail value ",
                        number(lines as u64).as_str(),
                        " exceeds maximum of ",
                        number(MAX_TAIL_LINES as u64).as_str(),
                    ),
                ),
            );
        }
    }
    Ok(())
}

/// Whether only lines that are JSON are asked for.
pub open spec fn wants_json(query: LogsQueryView) -> bool {
    query.format == Some("json"@)
}

/// Whether only lines that are JSON are asked for.
pub fn json_only(query: &LogsQuery) -> (only: bool)
    ensures
        only == wants_json(query.model()),
{
    match &query.format {
        Some(format) => same_text(format.as_str(), "json"),
        None => false,
    }
}

/// The last `n` values, or all of them where there are fewer.
pub open spec fn last_of<T>(values: Seq<T>, n: nat) -> Seq<T> {
    if values.len() <= n {
        values
    } else {
        values.skip(values.len() - n)
    }
}

/// Law: keeping the last `n` values of a sequence while it grows by one value
/// after the other gives the last `n` values of the whole sequence.
pub proof fn law_last_of_grows<T>(values: Seq<T>, value: T, n: nat)
    ensures
        last_of(last_of(values, n).push(value), n) == last_of(values.push(value), n),
{
    assert(last_of(last_of(values, n).push(value), n) =~= last_of(values.push(value), n));
}

/// Model of a queue of lines.
pub open spec fn queued(lines: Seq<String>) -> Seq<Seq<char>> {
    Seq::new(lines.len(), |i: int| lines[i]@)
}

/// The last lines of a log that is read from its start.
pub struct TailBuffer {
    limit: usize,
    lines: VecDeque<String>,
}

impl TailBuffer {
    /// Most lines that are kept.
    pub closed spec fn limit(&self) -> nat {
        self.limit as nat
    }

    /// The lines that are kept.
    pub closed spec fn kept(&self) -> Seq<Seq<char>> {
        queued(self.lines@)
    }

    #[verifier::type_invariant]
    spec fn within_limit(&self) -> bool {
        self.lines@.len() <= self.limit
    }

    /// A buffer for the last `limit` lines.
    pub fn new(limit: usize) -> (buffer: TailBuffer)
        ensures
            buffer.limit() == limit,
            buffer.kept() == Seq::<Seq<char>>::empty(),
    {
        let buffer: TailBuffer = TailBuffer { limit, lines: VecDeque::new() };
        assert(buffer.kept() =~= Seq::<Seq<char>>::empty());
        buffer
    }

    /// Takes the next line of the log.
    pub fn push(&mut self, line: String)
        ensures
            final(self).limit() == old(self).limit(),
            final(self).kept() == last_of(old(self).kept().push(line@), old(self).limit()),
    {
        proof {
            use_type_invariant(&*self);
        }
        let ghost before = self.kept();
        let limit: usize = self.limit;
        let mut lines: VecDeque<String> = VecDeque::new();
        std::mem::swap(&mut lines, &mut self.lines);
        if limit == 0 {
            assert(self.kept() =~= last_of(before.push(line@), 0));
            return;
        }
        if lines.len() == limit {
            lines.pop_front();
        }
        lines.push_back(line);
        assert(queued(lines@) =~= last_of(before.push(line@), limit as nat));
        self.lines = lines;
    }

    /// The lines that were kept.
    pub fn into_lines(self) -> (lines: Vec<String>)
        ensures
            lines.model() == self.kept(),
    {
        let ghost all = self.kept();
        let mut queue: VecDeque<String> = self.lines;
        let mut lines: Vec<String> = empty_list();
        assert(lines.model() + queued(queue@) =~= all);
        while queue.len() > 0
            invariant
                lines.model() + queued(queue@) == all,
            decreases queue.len(),
        {
            let ghost rest = queued(queue@);
            let ghost before = lines.model();
            match queue.pop_front() {
                Some(line) => {
                    push_to(&mut lines, line);
                    assert(before + rest =~= lines.model() + queued(queue@));
                },
                None => {},
            }
        }
        assert(lines.model() =~= all);
        lines
    }
}

/// How many bytes are read next from a log of `length` bytes at `position`.
pub open spec fn chunk_at(position: u64, length: u64) -> Option<u64> {
    if position >= length {
        None
    } else if length - position < MAX_READ_CHUNK {
        Some((length - position) as u64)
    } else {
        Some(MAX_READ_CHUNK)
    }
}

/// Decides how many bytes are read next from a log.
pub fn next_chunk(position: u64, length: u64) -> (count: Option<u64>)
    ensures
        count == chunk_at(position, length),
        count is Some ==> 0 < count->0 <= MAX_READ_CHUNK && position + count->0 <= length,
{
    if position >= length {
        None
    } else if length - position < MAX_READ_CHUNK {
        Some(length - position)
    } else {
        Some(MAX_READ_CHUNK)
    }
}

/// The lines that are shown.
pub open spec fn shown(lines: Seq<Seq<char>>, only_json: bool) -> Seq<Seq<char>> {
    if only_json {
        lines.filter(|line: Seq<char>| parsed(line) is Some)
    } else {
        lines
    }
}

/// Keeps the lines that are shown.
pub fn show_lines(lines: &Vec<String>, only_json: bool) -> (kept: Vec<String>)
    ensures
        kept.model() == shown(lines.model(), only_json),
{
    if !only_json {
        return lines.dup();
    }
    let mut kept: Vec<String> = empty_list();
    let ghost all = lines.model();
    let mut i: usize = 0;
    assert(shown(all.take(0), true) =~= Seq::<Seq<char>>::empty()) by {
        reveal(Seq::filter);
    }
    while i < lines.len()
        invariant
            i <= lines.len(),
            lines.model() == all,
            kept.model() == shown(all.take(i as int), true),
        decreases lines.len() - i,
    {
        assert(all.take(i + 1).drop_last() =~= all.take(i as int));
        assert(all.take(i + 1).last() == lines[i as int]@);
        reveal(Seq::filter);
        if read(lines[i].as_str()).is_some() {
            push_to(&mut kept, lines[i].dup());
        }
        i += 1;
    }
    assert(all.take(all.len() as int) =~= all);
    kept
}

/// The complete lines of a text, without the line ends.
pub open spec fn complete_lines(text: Seq<char>) -> Seq<Seq<char>> {
    let parts = pieces(text, '\n');
    Seq::new((parts.len() - 1) as nat, |i: int| without_trailing_returns(parts[i]))
}

/// What follows the last complete line of a text.
pub open spec fn rest_of(text: Seq<char>) -> Seq<char> {
    pieces(text, '\n').last()
}

/// Splits a text into its complete lines and what follows them.
pub fn split_lines(text: &str) -> (parts: (Vec<String>, String))
    ensures
        parts.0.model() == complete_lines(text@),
        parts.1@ == rest_of(text@),
{
    let parts: Vec<String> = split_all(text, '\n');
    let ghost all = parts.model();
    let mut lines: Vec<String> = empty_list();
    let mut i: usize = 0;
    let last: usize = parts.len() - 1;
    while i < last
        invariant
            i <= last,
            last == parts.len() - 1,
            parts.model() == all,
            all == pieces(text@, '\n'),
            lines.model() == complete_lines(text@).take(i as int),
        decreases last - i,
    {
        let chars: Vec<char> = chars_of(parts[i].as_str());
        let end: usize = trim_returns(&chars, 0, chars.len());
        assert(chars@.subrange(0, chars@.len() as int) =~= all[i as int]);
        push_to(&mut lines, text_of(&chars, 0, end));
        assert(complete_lines(text@).take(i + 1) =~= complete_lines(text@).take(i as int).push(
            complete_lines(text@)[i as int],
        ));
        i += 1;
    }
    assert(complete_lines(text@).take(last as int) =~= complete_lines(text@));
    (lines, parts[last].dup())
}

/// A log as it is sent to a client.
#[derive(Debug, PartialEq, Eq)]
pub struct LogStream {
    /// Whether to wait for more lines.
    pub follow: bool,
    /// Whether lines that are no JSON are left out.
    pub only_json: bool,
    /// Where the log is read next.
    pub position: u64,
    /// What was read of a line that is not complete yet.
    pub partial: String,
    /// Whether nothing more is sent.
    pub ended: bool,
}

/// Mathematical model of a [`LogStream`].
pub struct LogStreamView {
    pub follow: bool,
    pub only_json: bool,
    pub position: u64,
    pub partial: Seq<char>,
    pub ended: bool,
}

impl Model for LogStream {
    type V = LogStreamView;

    open spec fn model(&self) -> LogStreamView {
        LogStreamView {
            follow: self.follow.model(),
            only_json: self.only_json.model(),
            position: self.position.model(),
            partial: self.partial.model(),
            ended: self.ended.model(),
        }
    }

    fn dup(&self) -> (copy: Self) {
        LogStream {
            follow: self.follow.dup(),
            only_json: self.only_json.dup(),
            position: self.position.dup(),
            partial: self.partial.dup(),
            ended: self.ended.dup(),
        }
    }
}

/// A log before anything was read but the last lines, if they were asked for.
pub open spec fn stream_opened(query: LogsQueryView, tail_end: u64) -> LogStreamView {
    LogStreamView {
        follow: query.follow,
        only_json: wants_json(query),
        position: if query.tail is Some {
            tail_end
        } else {
            0
        },
        partial: Seq::empty(),
        ended: query.tail is Some && !query.follow,
    }
}

/// Whether a line that is not complete is too long to be kept.
pub open spec fn too_long(partial: Seq<char>) -> bool {
    vstd::utf8::encode_utf8(partial).len() as usize > MAX_PARTIAL_LINE
}

/// The log, and what is sent, after `data` was read.
pub open spec fn fed(stream: LogStreamView, data: Seq<char>) -> (LogStreamView, Seq<Seq<char>>) {
    if data.len() == 0 {
        (stream, Seq::empty())
    } else {
        let text = stream.partial + data;
        let lines = shown(complete_lines(text), stream.only_json);
        let rest = rest_of(text);
        if too_long(rest) {
            (LogStreamView { partial: Seq::empty(), ..stream }, lines.push(rest))
        } else {
            (LogStreamView { partial: rest, ..stream }, lines)
        }
    }
}

/// The log, and what is sent, after reading gave `chunk`: the text and the new
/// position, or the text of an error.
pub open spec fn advanced(
    stream: LogStreamView,
    chunk: Result<(Seq<char>, u64), Seq<char>>,
) -> (LogStreamView, Seq<Seq<char>>) {
    match chunk {
        Err(reason) => (
            LogStreamView { ended: true, ..stream },
            seq!["error: "@ + reason],
        ),
        Ok(read) => {
            let after = fed(LogStreamView { position: read.1, ..stream }, read.0);
            if stream.follow {
                after
            } else {
                (
                    LogStreamView { ended: true, ..after.0 },
                    if after.0.partial.len() > 0 {
                        after.1.push(after.0.partial)
                    } else {
                        after.1
                    },
                )
            }
        },
    }
}

impl LogStream {
    /// Opens a log. `tail_end` is where the log ended when its last lines were
    /// read.
    pub fn open(query: &LogsQuery, tail_end: u64) -> (stream: LogStream)
        ensures
            stream.model() == stream_opened(query.model(), tail_end),
    {
        LogStream {
            follow: query.follow,
            only_json: json_only(query),
            position: if query.tail.is_some() {
                tail_end
            } else {
                0
            },
            partial: String::new(),
            ended: query.tail.is_some() && !query.follow,
        }
    }

    fn feed(&mut self, data: &str) -> (sent: Vec<String>)
        ensures
            (final(self).model(), sent.model()) == fed(old(self).model(), data@),
    {
        if data.is_empty() {
            return empty_list();
        }
        let whole: String = cat2(self.partial.as_str(), data);
        let parts: (Vec<String>, String) = split_lines(whole.as_str());
        let mut sent: Vec<String> = show_lines(&parts.0, self.only_json);
        if parts.1.as_str().len() > MAX_PARTIAL_LINE {
            push_to(&mut sent, parts.1);
            self.partial = String::new();
        } else {
            self.partial = parts.1;
        }
        sent
    }

    /// Takes what reading the log gave, and tells what is sent.
    pub fn advance(&mut self, chunk: Result<(String, u64), String>) -> (sent: Vec<String>)
        ensures
            (final(self).model(), sent.model()) == advanced(old(self).model(), chunk.model()),
    {
        match chunk {
            Err(reason) => {
                self.ended = true;
                crate::model::one_of(cat2("error: ", reason.as_str()))
            },
            Ok(read) => {
                self.position = read.1;
                let mut sent: Vec<String> = self.feed(read.0.as_str());
                if !self.follow {
                    if !self.partial.as_str().is_empty() {
                        push_to(&mut sent, self.partial.dup());
                    }
                    self.ended = true;
                }
                sent
            },
        }
    }
}

proof fn lemma_joined_front(first: Seq<char>, rest: Seq<Seq<char>>, separator: Seq<char>)
    requires
        rest.len() > 0,
    ensures
        joined(seq![first] + rest, separator) == first + separator + joined(rest, separator),
    decreases rest.len(),
{
    let all = seq![first] + rest;
    assert(all.drop_last() =~= seq![first] + rest.drop_last());
    if rest.len() == 1 {
        assert(all.drop_last() =~= seq![first]);
        assert(joined(all.drop_last(), separator) == first);
        assert(joined(rest, separator) == rest[0]);
        assert(all.last() == rest[0]);
    } else {
        lemma_joined_front(first, rest.drop_last(), separator);
        assert(all.last() == rest.last());
        assert(first + separator + joined(rest.drop_last(), separator) + separator + rest.last()
            =~= first + separator + (joined(rest.drop_last(), separator) + separator
            + rest.last()));
    }
}

/// Law: splitting a text at a character loses nothing: the pieces joined by that
/// character are the text.
pub proof fn law_pieces_make_the_text(text: Seq<char>, c: char)
    ensures
        joined(pieces(text, c), seq![c]) == text,
        pieces(text, c).len() > 0,
    decreases text.len(),
{
    crate::text::lemma_position(text, c);
    let at = position(text, c);
    if at < text.len() {
        let rest = text.skip(at + 1);
        law_pieces_make_the_text(rest, c);
        lemma_joined_front(text.take(at), pieces(rest, c), seq![c]);
        assert(text.take(at) + seq![c] + rest =~= text);
    }
}

/// Law: pieces that do not hold a character come back when they are joined by it
/// and split again.
pub proof fn law_joined_pieces_split(parts: Seq<Seq<char>>, c: char)
    requires
        parts.len() > 0,
        forall|i: int| 0 <= i < parts.len() ==> !(#[trigger] parts[i]).contains(c),
    ensures
        pieces(joined(parts, seq![c]), c) == parts,
    decreases parts.len(),
{
    let first = parts[0];
    let rest = parts.skip(1);
    if parts.len() == 1 {
        assert(joined(parts, seq![c]) == first);
        crate::text::lemma_position(first, c);
        assert(pieces(first, c) =~= parts);
    } else {
        assert(parts =~= seq![first] + rest);
        lemma_joined_front(first, rest, seq![c]);
        let text = first + seq![c] + joined(rest, seq![c]);
        assert forall|i: int| 0 <= i < first.len() implies text[i] != c by {
            assert(text[i] == first[i]);
            assert(first.contains(first[i]));
        }
        assert(text[first.len() as int] == c);
        crate::text::lemma_position_is(text, c, first.len() as int);
        assert(text.take(first.len() as int) =~= first);
        assert(text.skip(first.len() as int + 1) =~= joined(rest, seq![c]));
        assert forall|i: int| 0 <= i < rest.len() implies !(#[trigger] rest[i]).contains(c) by {
            assert(rest[i] == parts[i + 1]);
        }
        law_joined_pieces_split(rest, c);
        assert(pieces(text, c) =~= parts);
    }
}

/// Law: how a log is cut into chunks does not matter. Reading two chunks one
/// after the other sends the same, and leaves the log in the same state, as
/// reading both at once, unless the line that is left unfinished between them is
/// too long to be kept.
pub proof fn law_chunks_do_not_matter(stream: LogStreamView, first: Seq<char>, second: Seq<char>)
    requires
        first.len() > 0 ==> !too_long(rest_of(stream.partial + first)),
    ensures
        fed(stream, first).1 + fed(fed(stream, first).0, second).1 == fed(stream, first + second).1,
        fed(fed(stream, first).0, second).0 == fed(stream, first + second).0,
{
    let one = fed(stream, first);
    let two = fed(one.0, second);
    let both = fed(stream, first + second);
    if first.len() == 0 {
        assert(first + second =~= second);
        assert(one.1 + two.1 =~= both.1);
    } else if second.len() == 0 {
        assert(first + second =~= first);
        assert(one.1 + two.1 =~= both.1);
    } else {
        let a = stream.partial + first;
        lemma_split_append(a, second);
        assert(stream.partial + (first + second) =~= a + second);
        let left = complete_lines(a);
        let right = complete_lines(rest_of(a) + second);
        assert(shown(left + right, stream.only_json) == shown(left, stream.only_json) + shown(
            right,
            stream.only_json,
        )) by {
            if stream.only_json {
                Seq::filter_distributes_over_add(
                    left,
                    right,
                    |line: Seq<char>| parsed(line) is Some,
                );
            }
        }
        assert(one.1 + two.1 =~= both.1);
    }
}

/// Splitting a text that grows continues with what followed its last line.
proof fn lemma_split_append(a: Seq<char>, b: Seq<char>)
    ensures
        complete_lines(a + b) == complete_lines(a) + complete_lines(rest_of(a) + b),
        rest_of(a + b) == rest_of(rest_of(a) + b),
    decreases a.len(),
{
    let c = '\n';
    crate::text::lemma_position(a, c);
    let at = position(a, c);
    law_pieces_make_the_text(a, c);
    law_pieces_make_the_text(a + b, c);
    if at < a.len() {
        let rest = a.skip(at + 1);
        lemma_split_append(rest, b);
        law_pieces_make_the_text(rest, c);
        law_pieces_make_the_text(rest + b, c);
        assert forall|i: int| 0 <= i < at implies (a + b)[i] != c by {}
        crate::text::lemma_position_is(a + b, c, at);
        assert((a + b).take(at) =~= a.take(at));
        assert((a + b).skip(at + 1) =~= rest + b);
        let pa = pieces(a, c);
        let pr = pieces(rest, c);
        let pab = pieces(a + b, c);
        let prb = pieces(rest + b, c);
        assert(pa =~= seq![a.take(at)] + pr);
        assert(pab =~= seq![a.take(at)] + prb);
        assert(pa.last() == pr.last());
        assert(pab.last() == prb.last());
        let line = without_trailing_returns(a.take(at));
        assert(complete_lines(a) =~= seq![line] + complete_lines(rest)) by {
            assert forall|i: int| 0 <= i < complete_lines(a).len() implies complete_lines(a)[i]
                == (seq![line] + complete_lines(rest))[i] by {
                if i > 0 {
                    assert(pa[i] == pr[i - 1]);
                }
            }
        }
        assert(complete_lines(a + b) =~= seq![line] + complete_lines(rest + b)) by {
            assert forall|i: int|
                0 <= i < complete_lines(a + b).len() implies complete_lines(a + b)[i] == (seq![line]
                + complete_lines(rest + b))[i] by {
                if i > 0 {
                    assert(pab[i] == prb[i - 1]);
                }
            }
        }
        assert(complete_lines(a + b) =~= complete_lines(a) + complete_lines(rest_of(a) + b));
    } else {
        assert(pieces(a, c) =~= seq![a]);
        assert(complete_lines(a) =~= Seq::<Seq<char>>::empty());
        assert(complete_lines(a + b) =~= complete_lines(a) + complete_lines(rest_of(a) + b));
    }
}

/// Law: a request for more lines from the end than are kept is refused, and no other.
pub proof fn law_long_tails_are_refused(query: LogsQueryView)
    ensures
        logs_checked(query) is Err <==> query.tail is Some && query.tail->0 > 10_000,
        logs_checked(query) matches Err(error) ==> error is BadRequest,
        wants_json(query) <==> query.format is Some && query.format->0 == "json"@,
{
}

/// Law: a log is read up to its end and no further, in chunks that are as large as they may be.
pub proof fn law_log_is_read_to_its_end(position: u64, length: u64)
    ensures
        chunk_at(position, length) is None <==> position >= length,
        chunk_at(position, length) matches Some(count) ==> 0 < count <= 65_536 && position + count
            <= length && (count == 65_536 || position + count == length),
{
}

/// Law: the last values are the end of the values, as many as asked for or all of them.
pub proof fn law_last_values_are_the_end<T>(values: Seq<T>, n: nat)
    ensures
        last_of(values, n).is_suffix_of(values),
        last_of(values, n).len() == if values.len() <= n {
            values.len()
        } else {
            n
        },
{
    let kept = last_of(values, n);
    assert(kept =~= values.subrange(values.len() - kept.len(), values.len() as int));
}

/// Law: where only JSON is asked for, the lines that are shown are the lines of the log that are JSON;
/// otherwise all of them are shown.
pub proof fn law_shown_lines_are_those_asked_for(lines: Seq<Seq<char>>, line: Seq<char>)
    ensures
        shown(lines, false) == lines,
        shown(lines, true).contains(line) <==> lines.contains(line) && parsed(line) is Some,
        shown(lines.push(line), true) == if parsed(line) is Some {
            shown(lines, true).push(line)
        } else {
            shown(lines, true)
        },
{
    let wanted = |line: Seq<char>| parsed(line) is Some;
    if lines.contains(line) && parsed(line) is Some {
        let i = lines.index_of(line);
        lines.lemma_filter_contains(wanted, i);
    }
    if shown(lines, true).contains(line) {
        lines.lemma_filter_contains_rev(wanted, line);
        let k = shown(lines, true).index_of(line);
        lines.lemma_filter_pred(wanted, k);
    }
    reveal(Seq::filter);
    assert(lines.push(line).drop_last() =~= lines);
}

/// Law: a log starts at its beginning, or where its last lines end if those were asked for; it is sent
/// as long as it is followed, or until all of it was read.
pub proof fn law_log_is_opened_as_asked(query: LogsQueryView, tail_end: u64)
    ensures
        query.tail is Some ==> stream_opened(query, tail_end).position == tail_end,
        query.tail is None ==> stream_opened(query, tail_end).position == 0,
        stream_opened(query, tail_end).follow == query.follow,
        stream_opened(query, tail_end).only_json <==> query.format is Some && query.format->0
            == "json"@,
        stream_opened(query, tail_end).partial.len() == 0,
        stream_opened(query, tail_end).ended <==> query.tail is Some && !query.follow,
{
}

/// Law: a log that cannot be read is ended and tells why. A log that is followed goes on from the new
/// position; any other is ended, and what was read of its last line is sent too.
pub proof fn law_log_goes_on_while_followed(
    stream: LogStreamView,
    chunk: Result<(Seq<char>, u64), Seq<char>>,
)
    ensures
        chunk is Err ==> advanced(stream, chunk).0.ended && advanced(stream, chunk).0.position
            == stream.position && advanced(stream, chunk).1.len() == 1 && chunk->Err_0.is_suffix_of(
            advanced(stream, chunk).1[0],
        ),
        chunk is Ok ==> advanced(stream, chunk).0.position == (chunk->Ok_0).1 && advanced(
            stream,
            chunk,
        ).0.ended == (stream.ended || !stream.follow),
        chunk is Ok && !stream.follow && (chunk->Ok_0).0.len() > 0 && advanced(
            stream,
            chunk,
        ).0.partial.len() > 0 ==> advanced(stream, chunk).1.len() > 0 && advanced(
            stream,
            chunk,
        ).1.last() == advanced(stream, chunk).0.partial,
        advanced(stream, chunk).0.follow == stream.follow && advanced(stream, chunk).0.only_json
            == stream.only_json,
{
    if chunk is Err {
        let line = "error: "@ + chunk->Err_0;
        assert(line.subrange(line.len() - chunk->Err_0.len(), line.len() as int) =~= chunk->Err_0);
    }
}

/// Law: nothing is lost of what is read: the lines of a text, with their ends, and what follows them
/// are the text, where no line ends with a carriage return.
pub proof fn law_complete_lines_lose_nothing(lines: Seq<Seq<char>>, rest: Seq<char>)
    requires
        forall|i: int|
            0 <= i < lines.len() ==> !(#[trigger] lines[i]).contains('\n') && !lines[i].contains(
                '\r',
            ),
        !rest.contains('\n'),
    ensures
        complete_lines(joined(lines.push(rest), seq!['\n'])) == lines,
        rest_of(joined(lines.push(rest), seq!['\n'])) == rest,
{
    let parts = lines.push(rest);
    assert forall|i: int| 0 <= i < parts.len() implies !(#[trigger] parts[i]).contains('\n') by {
        if i < lines.len() {
            assert(parts[i] == lines[i]);
        }
    }
    law_joined_pieces_split(parts, '\n');
    let text = joined(parts, seq!['\n']);
    assert forall|i: int| 0 <= i < lines.len() implies #[trigger] complete_lines(text)[i]
        == lines[i] by {
        crate::text::law_trailing_returns_are_taken_off(lines[i]);
        let line = lines[i];
        let kept = crate::text::without_trailing_returns(line);
        assert(parts[i] == line);
        if kept.len() < line.len() {
            assert(line[kept.len() as int] == '\r');
            assert(line.contains('\r'));
        }
        assert(kept =~= line);
    }
    assert(complete_lines(text) =~= lines);
}

} // verus!
