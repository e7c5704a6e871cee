//! Reading reset requests from message headers.
//!
//! A request names its sender in the `From` line and the identifier in the
//! `Subject` line, behind the tag `ICS@BUPT#`. A subject that does not begin
//! with the tag names no identifier, and the message makes no request. Lines
//! end in CR LF; a line is a field where `": "` parts its name from its
//! value; of several fields with one name the last counts.

use vstd::prelude::*;
use crate::error::Failure;
use crate::text::{
    after_last, chars_of, decimal, find_pair, first_occurrence, occurs_at, part, push_decimal,
    range_equals, skip_leading, skip_trailing, trimmed, without_leading, without_trailing,
    CharClass,
};

verus! {

/// A request to reset the password of `student_id`, sent from `email`.
#[derive(Debug)]
pub struct ResetPasswordRequest {
    pub email: String,
    pub student_id: String,
}

/// A message from which no request could be read, kept for the log.
#[derive(Debug)]
pub struct RawEmail {
    pub id: u32,
    pub raw: Option<String>,
}

/// The outcome of one poll: the requests that were read, and the messages
/// that gave none.
#[derive(Debug)]
pub struct UnreadMails {
    pub parsed: Vec<ResetPasswordRequest>,
    pub raw: Vec<RawEmail>,
}

/// Why a header gives no request.
#[derive(Clone, Copy, Debug, PartialEq, Eq, Structural)]
pub enum HeaderDefect {
    /// No `From` field.
    NoSender,
    /// No `Subject` field, or one that does not begin with the tag.
    NoStudentId,
}

/// What has been read of a header so far.
pub struct HeaderFields {
    pub email: Option<Seq<char>>,
    pub student_id: Option<Seq<char>>,
}

/// The tag in front of the identifier in a subject.
pub open spec fn subject_tag() -> Seq<char> {
    "ICS@BUPT#"@
}

/// The address in the value of a `From` field: the last word of the value,
/// without the angle brackets around it.
pub open spec fn sender_address(value: Seq<char>) -> Seq<char> {
    without_trailing(
        without_leading(after_last(value, ' '), CharClass::Only('<')),
        CharClass::Only('>'),
    )
}

/// The identifier in the value of a `Subject` field. The value, without the
/// whitespace around it, must begin with the tag; the identifier is what
/// follows the tag, the tag taken once. Any other subject names none.
pub open spec fn subject_identifier(value: Seq<char>) -> Option<Seq<char>> {
    if occurs_at(trimmed(value), subject_tag(), 0) {
        Some(trimmed(value).skip(subject_tag().len() as int))
    } else {
        None
    }
}

/// The fields after one more line has been read.
pub open spec fn note_line(found: HeaderFields, line: Seq<char>) -> HeaderFields {
    match first_occurrence(line, seq![':', ' ']) {
        None => found,
        Some(i) => {
            let name = line.take(i);
            let value = line.skip(i + 2);
            if name == "From"@ {
                HeaderFields { email: Some(sender_address(value)), student_id: found.student_id }
            } else if name == "Subject"@ {
                HeaderFields { email: found.email, student_id: subject_identifier(value) }
            } else {
                found
            }
        },
    }
}

/// The fields after all lines of `text` have been read, starting from
/// `found`.
pub open spec fn scan_header(text: Seq<char>, found: HeaderFields) -> HeaderFields
    decreases text.len(),
{
    match first_occurrence(text, seq!['\r', '\n']) {
        None => note_line(found, text),
        Some(i) => scan_header(text.skip(i + 2), note_line(found, text.take(i))),
    }
}

/// The fields of a header.
pub open spec fn header_fields(header: Seq<char>) -> HeaderFields {
    scan_header(header, HeaderFields { email: None, student_id: None })
}

/// The request that a header makes, or what it lacks. The sender is looked
/// for first.
pub open spec fn header_request(header: Seq<char>) -> Result<(Seq<char>, Seq<char>), HeaderDefect> {
    let fields = header_fields(header);
    match fields.email {
        None => Err(HeaderDefect::NoSender),
        Some(email) => match fields.student_id {
            None => Err(HeaderDefect::NoStudentId),
            Some(student_id) => Ok((email, student_id)),
        },
    }
}

/// Positions in a header between which a field's content stands.
struct Span {
    start: usize,
    end: usize,
}

/// The spans of the two fields, as far as they have been found.
struct Spans {
    email: Option<Span>,
    student_id: Option<Span>,
}

impl Spans {
    spec fn fits(self, length: nat) -> bool {
        &&& self.email matches Some(span) ==> span.start <= span.end <= length
        &&& self.student_id matches Some(span) ==> span.start <= span.end <= length
    }

    spec fn fields(self, text: Seq<char>) -> HeaderFields {
        HeaderFields {
            email: match self.email {
                Some(span) => Some(part(text, span.start as int, span.end as int)),
                None => None,
            },
            student_id: match self.student_id {
                Some(span) => Some(part(text, span.start as int, span.end as int)),
                None => None,
            },
        }
    }
}

/// Finds the address in the value `text[start..end]` of a `From` field.
fn sender_span(text: &Vec<char>, start: usize, end: usize) -> (span: Span)
    requires
        start <= end <= text@.len(),
    ensures
        start <= span.start <= span.end <= end,
        part(text@, span.start as int, span.end as int) == sender_address(
            part(text@, start as int, end as int),
        ),
{
    let word = skip_trailing(text, start, end, CharClass::AllBut(' '));
    proof {
        let value = part(text@, start as int, end as int);
        assert(part(text@, word as int, end as int) =~= after_last(value, ' '));
    }
    let first = skip_leading(text, word, end, CharClass::Only('<'));
    let last = skip_trailing(text, first, end, CharClass::Only('>'));
    Span { start: first, end: last }
}

/// Finds the identifier in the value `text[start..end]` of a `Subject`
/// field, if the value names one.
fn identifier_span(text: &Vec<char>, start: usize, end: usize, tag: &Vec<char>) -> (found: Option<
    Span,
>)
    requires
        start <= end <= text@.len(),
        tag@ == subject_tag(),
    ensures
        match found {
            Some(span) => start <= span.start <= span.end <= end && subject_identifier(
                part(text@, start as int, end as int),
            ) == Some(part(text@, span.start as int, span.end as int)),
            None => subject_identifier(part(text@, start as int, end as int)) is None,
        },
{
    let first = skip_leading(text, start, end, CharClass::Whitespace);
    let last = skip_trailing(text, first, end, CharClass::Whitespace);
    let width = tag.len();
    let ghost inner = part(text@, first as int, last as int);
    if last - first >= width && range_equals(text, first, first + width, tag) {
        proof {
            assert(inner.subrange(0, width as int) =~= part(text@, first as int, first + width));
            assert(inner.skip(width as int) =~= part(text@, first + width, last as int));
        }
        Some(Span { start: first + width, end: last })
    } else {
        proof {
            if last - first >= width {
                assert(inner.subrange(0, width as int) =~= part(
                    text@,
                    first as int,
                    first + width,
                ));
            }
        }
        None
    }
}

/// Reads the line `text[start..end]`.
fn read_line(
    text: &Vec<char>,
    start: usize,
    end: usize,
    from: &Vec<char>,
    subject: &Vec<char>,
    tag: &Vec<char>,
    found: Spans,
) -> (next: Spans)
    requires
        start <= end <= text@.len(),
        from@ == "From"@,
        subject@ == "Subject"@,
        tag@ == subject_tag(),
        found.fits(text@.len()),
    ensures
        next.fits(text@.len()),
        next.fields(text@) == note_line(found.fields(text@), part(text@, start as int, end as int)),
{
    let ghost line = part(text@, start as int, end as int);
    match find_pair(text, start, end, ':', ' ') {
        None => found,
        Some(colon) => {
            proof {
                assert(part(text@, start as int, colon as int) =~= line.take(colon - start));
                assert(part(text@, colon + 2, end as int) =~= line.skip(colon - start + 2));
            }
            if range_equals(text, start, colon, from) {
                let span = sender_span(text, colon + 2, end);
                Spans { email: Some(span), student_id: found.student_id }
            } else if range_equals(text, start, colon, subject) {
                let span = identifier_span(text, colon + 2, end, tag);
                Spans { email: found.email, student_id: span }
            } else {
                found
            }
        },
    }
}

/// Reads all lines of a header.
fn read_header(text: &Vec<char>) -> (found: Spans)
    ensures
        found.fits(text@.len()),
        found.fields(text@) == header_fields(text@),
{
    let from = chars_of("From");
    let subject = chars_of("Subject");
    let tag = chars_of("ICS@BUPT#");
    let length = text.len();
    let mut found = Spans { email: None, student_id: None };
    let mut start: usize = 0;
    assert(part(text@, 0, length as int) =~= text@);
    loop
        invariant
            start <= length == text@.len(),
            from@ == "From"@,
            subject@ == "Subject"@,
            tag@ == subject_tag(),
            found.fits(text@.len()),
            header_fields(text@) == scan_header(
                part(text@, start as int, length as int),
                found.fields(text@),
            ),
        ensures
            found.fits(text@.len()),
            found.fields(text@) == header_fields(text@),
        decreases length - start,
    {
        let ghost rest = part(text@, start as int, length as int);
        match find_pair(text, start, length, '\r', '\n') {
            None => {
                found = read_line(text, start, length, &from, &subject, &tag, found);
                break ;
            },
            Some(at) => {
                proof {
                    assert(part(text@, start as int, at as int) =~= rest.take(at - start));
                    assert(part(text@, at + 2, length as int) =~= rest.skip(at - start + 2));
                }
                found = read_line(text, start, at, &from, &subject, &tag, found);
                start = at + 2;
            },
        }
    }
    found
}

/// Reads the request that a message header makes.
pub fn parse_mail_header(header: &str) -> (outcome: Result<ResetPasswordRequest, HeaderDefect>)
    ensures
        match outcome {
            Ok(request) => header_request(header@) == Ok::<(Seq<char>, Seq<char>), HeaderDefect>(
                (request.email@, request.student_id@),
            ),
            Err(defect) => header_request(header@) == Err::<(Seq<char>, Seq<char>), HeaderDefect>(
                defect,
            ),
        },
{
    let text = chars_of(header);
    let found = read_header(&text);
    match found.email {
        None => Err(HeaderDefect::NoSender),
        Some(email) => match found.student_id {
            None => Err(HeaderDefect::NoStudentId),
            Some(student_id) => {
                let email = String::from_str(header.substring_char(email.start, email.end));
                let student_id = String::from_str(
                    header.substring_char(student_id.start, student_id.end),
                );
                Ok(ResetPasswordRequest { email, student_id })
            },
        },
    }
}

/// The content of a [`ResetPasswordRequest`].
pub struct RequestView {
    pub email: Seq<char>,
    pub student_id: Seq<char>,
}

impl View for ResetPasswordRequest {
    type V = RequestView;

    open spec fn view(&self) -> RequestView {
        RequestView { email: self.email@, student_id: self.student_id@ }
    }
}

/// The content of a [`RawEmail`].
pub struct RawView {
    pub id: u32,
    pub raw: Option<Seq<char>>,
}

impl View for RawEmail {
    type V = RawView;

    open spec fn view(&self) -> RawView {
        RawView {
            id: self.id,
            raw: match self.raw {
                Some(text) => Some(text@),
                None => None,
            },
        }
    }
}

/// The content of [`UnreadMails`].
pub struct UnreadView {
    pub parsed: Seq<RequestView>,
    pub raw: Seq<RawView>,
}

impl View for UnreadMails {
    type V = UnreadView;

    open spec fn view(&self) -> UnreadView {
        UnreadView {
            parsed: self.parsed@.map_values(|r: ResetPasswordRequest| r@),
            raw: self.raw@.map_values(|r: RawEmail| r@),
        }
    }
}

/// The view of a header that may be missing.
pub open spec fn header_view(header: Option<String>) -> Option<Seq<char>> {
    match header {
        Some(text) => Some(text@),
        None => None,
    }
}

/// A batch after the message `id` has been sorted into it. A message whose
/// header makes a request adds the request; any other, and one whose header
/// could not be had, is kept raw.
pub open spec fn sorted_in(batch: UnreadView, id: u32, header: Option<Seq<char>>) -> UnreadView {
    match header {
        Some(text) => match header_request(text) {
            Ok((email, student_id)) => UnreadView {
                parsed: batch.parsed.push(RequestView { email, student_id }),
                raw: batch.raw,
            },
            Err(_) => UnreadView {
                parsed: batch.parsed,
                raw: batch.raw.push(RawView { id, raw: Some(text) }),
            },
        },
        None => UnreadView { parsed: batch.parsed, raw: batch.raw.push(RawView { id, raw: None }) },
    }
}

impl UnreadMails {
    /// A batch without messages.
    pub fn new() -> (batch: UnreadMails)
        ensures
            batch@.parsed.len() == 0,
            batch@.raw.len() == 0,
    {
        UnreadMails { parsed: Vec::new(), raw: Vec::new() }
    }

    /// Sorts the message `id` into the batch, by what its header says.
    pub fn record(&mut self, id: u32, header: Option<String>)
        ensures
            final(self)@ == sorted_in(old(self)@, id, header_view(header)),
    {
        let ghost before = self@;
        match header {
            None => {
                self.raw.push(RawEmail { id, raw: None });
                assert(self@.raw =~= before.raw.push(RawView { id, raw: None }));
                assert(self@.parsed =~= before.parsed);
            },
            Some(text) => match parse_mail_header(text.as_str()) {
                Ok(request) => {
                    let ghost view = request@;
                    self.parsed.push(request);
                    assert(self@.parsed =~= before.parsed.push(view));
                    assert(self@.raw =~= before.raw);
                },
                Err(_) => {
                    let ghost view = RawView { id, raw: Some(text@) };
                    self.raw.push(RawEmail { id, raw: Some(text) });
                    assert(self@.raw =~= before.raw.push(view));
                    assert(self@.parsed =~= before.parsed);
                },
            },
        }
    }
}

/// The search that finds the messages not yet seen.
pub fn unseen_query() -> (query: &'static str)
    ensures
        query@ == "UNSEEN"@,
{
    "UNSEEN"
}

/// The part of a message that a poll fetches: its header, and no more.
pub fn header_query() -> (query: &'static str)
    ensures
        query@ == "RFC822.HEADER"@,
{
    "RFC822.HEADER"
}

/// The change of flags that marks a message as seen.
pub fn seen_flags() -> (flags: &'static str)
    ensures
        flags@ == "+FLAGS (\\Seen)"@,
{
    "+FLAGS (\\Seen)"
}

/// The range that asks for the one message `id`.
pub open spec fn fetch_range(id: u32) -> Seq<char> {
    decimal(id as nat) + seq![':'] + decimal(id as nat)
}

/// The sequence set that names the messages `ids`: their numbers, with
/// commas between them.
pub open spec fn sequence_set(ids: Seq<u32>) -> Seq<char>
    decreases ids.len(),
{
    if ids.len() == 0 {
        Seq::empty()
    } else if ids.len() == 1 {
        decimal(ids[0] as nat)
    } else {
        sequence_set(ids.drop_last()) + seq![','] + decimal(ids.last() as nat)
    }
}

/// Writes the range that asks for the one message `id`.
pub fn fetch_range_of(id: u32) -> (range: String)
    ensures
        range@ == fetch_range(id),
{
    let mut range = String::new();
    push_decimal(&mut range, id as u64);
    proof {
        reveal_strlit(":");
    }
    range.append(":");
    push_decimal(&mut range, id as u64);
    assert(range@ =~= fetch_range(id));
    range
}

/// Writes the sequence set that names the messages `ids`.
pub fn seen_sequence_set(ids: &Vec<u32>) -> (set: String)
    ensures
        set@ == sequence_set(ids@),
{
    let mut set = String::new();
    let mut i: usize = 0;
    while i < ids.len()
        invariant
            i <= ids@.len(),
            set@ == sequence_set(ids@.take(i as int)),
        decreases ids@.len() - i,
    {
        let ghost before = set@;
        if i > 0 {
            proof {
                reveal_strlit(",");
            }
            set.append(",");
        }
        push_decimal(&mut set, ids[i] as u64);
        proof {
            let head = ids@.take(i + 1);
            assert(head.drop_last() =~= ids@.take(i as int));
            assert(head.last() == ids@[i as int]);
            if i > 0 {
                assert(set@ =~= before + seq![','] + decimal(ids@[i as int] as nat));
            } else {
                assert(set@ =~= decimal(ids@[i as int] as nat));
            }
        }
        i += 1;
    }
    assert(ids@.take(i as int) =~= ids@);
    set
}

/// Where a poll of the mailbox stands.
#[derive(Clone, Copy, Debug, PartialEq, Eq, Structural)]
pub enum PollPhase {
    /// The unseen messages are being looked for.
    Searching,
    /// The header of one message is being fetched.
    Fetching,
    /// The messages are being marked as seen.
    Marking,
    /// The poll has ended.
    Closed,
}

/// What the mail server answered.
pub enum PollEvent {
    /// The search gave these message numbers.
    Found(Vec<u32>),
    /// The header that was asked for; `None` when the message gave none.
    Header(Option<String>),
    /// The messages are marked.
    Marked,
    /// The server refused the operation, or could not be reached.
    Failed,
}

/// What to ask of the mail server next.
pub enum PollAction {
    /// Search the folder for unseen messages.
    Search,
    /// Fetch the header of the message in this range.
    Fetch(String),
    /// Add the flag `\\Seen` to the messages of this sequence set.
    MarkSeen(String),
    /// The poll is over; this is what it read.
    Deliver(UnreadMails),
    /// The poll is over and gave nothing.
    Abort(Failure),
}

/// One poll of the mailbox: every unseen message is fetched and sorted, then
/// all of them are marked as seen in one step, whatever they held.
pub struct PollSession {
    phase: PollPhase,
    ids: Vec<u32>,
    cursor: usize,
    batch: UnreadMails,
}

impl PollSession {
    #[verifier::type_invariant]
    spec fn well_formed(self) -> bool {
        &&& self.cursor <= self.ids@.len()
        &&& self.phase == PollPhase::Fetching ==> self.cursor < self.ids@.len()
        &&& self.phase == PollPhase::Marking ==> self.cursor == self.ids@.len()
    }

    /// Where the poll stands.
    pub closed spec fn phase(self) -> PollPhase {
        self.phase
    }

    /// The messages that the search found.
    pub closed spec fn ids(self) -> Seq<u32> {
        self.ids@
    }

    /// How many of the messages have been sorted.
    pub closed spec fn cursor(self) -> nat {
        self.cursor as nat
    }

    /// What has been sorted so far.
    pub closed spec fn batch(self) -> UnreadView {
        self.batch@
    }

    /// Begins a poll.
    pub fn start() -> (begun: (PollSession, PollAction))
        ensures
            begun.0.phase() == PollPhase::Searching,
            begun.0.ids() == Seq::<u32>::empty(),
            begun.0.cursor() == 0,
            begun.0.batch().parsed.len() == 0,
            begun.0.batch().raw.len() == 0,
            begun.1 is Search,
    {
        let session = PollSession {
            phase: PollPhase::Searching,
            ids: Vec::new(),
            cursor: 0,
            batch: UnreadMails::new(),
        };
        (session, PollAction::Search)
    }

    /// Whether the poll has ended.
    pub fn is_closed(&self) -> (closed: bool)
        ensures
            closed == (self.phase() == PollPhase::Closed),
    {
        self.phase == PollPhase::Closed
    }

    /// Takes the server's answer and says what to ask next.
    pub fn advance(self, event: PollEvent) -> (next: (PollSession, PollAction))
        ensures
            poll_step(self, event, next.0, next.1),
    {
        proof {
            use_type_invariant(&self);
        }
        let PollSession { phase, ids, cursor, batch } = self;
        match phase {
            PollPhase::Searching => match event {
                PollEvent::Found(found) => {
                    if found.len() == 0 {
                        let closed = PollSession {
                            phase: PollPhase::Closed,
                            ids: found,
                            cursor: 0,
                            batch: UnreadMails::new(),
                        };
                        (closed, PollAction::Deliver(batch))
                    } else {
                        let range = fetch_range_of(found[0]);
                        let fetching = PollSession {
                            phase: PollPhase::Fetching,
                            ids: found,
                            cursor: 0,
                            batch,
                        };
                        (fetching, PollAction::Fetch(range))
                    }
                },
                _ => (
                    PollSession { phase: PollPhase::Closed, ids, cursor, batch },
                    PollAction::Abort(Failure::MailTransportError),
                ),
            },
            PollPhase::Fetching => {
                let header = match event {
                    PollEvent::Header(header) => header,
                    PollEvent::Failed => None,
                    _ => {
                        return (
                            PollSession { phase: PollPhase::Closed, ids, cursor, batch },
                            PollAction::Abort(Failure::MailTransportError),
                        );
                    },
                };
                let total = ids.len();
                let mut batch = batch;
                batch.record(ids[cursor], header);
                let cursor = cursor + 1;
                if cursor < total {
                    let range = fetch_range_of(ids[cursor]);
                    (
                        PollSession { phase: PollPhase::Fetching, ids, cursor, batch },
                        PollAction::Fetch(range),
                    )
                } else {
                    let set = seen_sequence_set(&ids);
                    (
                        PollSession { phase: PollPhase::Marking, ids, cursor, batch },
                        PollAction::MarkSeen(set),
                    )
                }
            },
            PollPhase::Marking => match event {
                PollEvent::Marked => (
                    PollSession {
                        phase: PollPhase::Closed,
                        ids,
                        cursor,
                        batch: UnreadMails::new(),
                    },
                    PollAction::Deliver(batch),
                ),
                _ => (
                    PollSession { phase: PollPhase::Closed, ids, cursor, batch },
                    PollAction::Abort(Failure::MailTransportError),
                ),
            },
            PollPhase::Closed => (
                PollSession { phase: PollPhase::Closed, ids, cursor, batch },
                PollAction::Abort(Failure::MailTransportError),
            ),
        }
    }
}

/// The poll after one message has been sorted: the next is fetched, or,
/// after the last, all are marked.
pub open spec fn after_header(
    before: PollSession,
    header: Option<Seq<char>>,
    after: PollSession,
    action: PollAction,
) -> bool {
    &&& before.cursor() < before.ids().len()
    &&& after.ids() == before.ids()
    &&& after.cursor() == before.cursor() + 1
    &&& after.batch() == sorted_in(before.batch(), before.ids()[before.cursor() as int], header)
    &&& if after.cursor() < after.ids().len() {
        &&& after.phase() == PollPhase::Fetching
        &&& action matches PollAction::Fetch(range)
        &&& range@ == fetch_range(after.ids()[after.cursor() as int])
    } else {
        &&& after.phase() == PollPhase::Marking
        &&& action matches PollAction::MarkSeen(set)
        &&& set@ == sequence_set(after.ids())
    }
}

/// The poll ends without a batch.
pub open spec fn aborted(after: PollSession, action: PollAction) -> bool {
    &&& after.phase() == PollPhase::Closed
    &&& action matches PollAction::Abort(failure)
    &&& failure == Failure::MailTransportError
}

/// One step of a poll.
///
/// The search gives the messages; with none the poll ends at once, with an
/// empty batch and nothing to mark. Each header is sorted into the batch, a
/// failed fetch like a missing header. After the last, all messages are
/// marked together, and only when that is done is the batch handed over. An
/// answer that the poll was not waiting for ends it.
pub open spec fn poll_step(
    before: PollSession,
    event: PollEvent,
    after: PollSession,
    action: PollAction,
) -> bool {
    match before.phase() {
        PollPhase::Searching => match event {
            PollEvent::Found(found) => {
                &&& after.ids() == found@
                &&& after.cursor() == 0
                &&& if found@.len() == 0 {
                    &&& after.phase() == PollPhase::Closed
                    &&& action matches PollAction::Deliver(batch)
                    &&& batch@ == before.batch()
                } else {
                    &&& after.phase() == PollPhase::Fetching
                    &&& after.batch() == before.batch()
                    &&& action matches PollAction::Fetch(range)
                    &&& range@ == fetch_range(found@[0])
                }
            },
            _ => aborted(after, action),
        },
        PollPhase::Fetching => match event {
            PollEvent::Header(header) => after_header(before, header_view(header), after, action),
            PollEvent::Failed => after_header(before, None, after, action),
            _ => aborted(after, action),
        },
        PollPhase::Marking => match event {
            PollEvent::Marked => {
                &&& after.phase() == PollPhase::Closed
                &&& action matches PollAction::Deliver(batch)
                &&& batch@ == before.batch()
            },
            _ => aborted(after, action),
        },
        PollPhase::Closed => aborted(after, action),
    }
}

/// Every message of a poll lands in the batch exactly once: among the
/// requests or among the raw messages.
pub proof fn lemma_each_message_is_sorted_once(
    batch: UnreadView,
    id: u32,
    header: Option<Seq<char>>,
)
    ensures
        sorted_in(batch, id, header).parsed.len() + sorted_in(batch, id, header).raw.len()
            == batch.parsed.len() + batch.raw.len() + 1,
        sorted_in(batch, id, header).parsed.len() >= batch.parsed.len(),
        sorted_in(batch, id, header).raw.len() >= batch.raw.len(),
{
}

/// A poll hands its batch over only when the messages have been marked as
/// seen, or when the search found none; and it asks for the marking only
/// when the last message has been sorted, for all messages at once.
pub proof fn lemma_batch_is_delivered_only_when_marked(
    before: PollSession,
    event: PollEvent,
    after: PollSession,
    action: PollAction,
)
    requires
        poll_step(before, event, after, action),
    ensures
        action is Deliver ==> (before.phase() == PollPhase::Marking && event is Marked) || (
        before.phase() == PollPhase::Searching && event is Found && event->Found_0@.len() == 0),
        action matches PollAction::MarkSeen(set) ==> {
            &&& before.phase() == PollPhase::Fetching
            &&& before.cursor() + 1 == before.ids().len()
            &&& set@ == sequence_set(before.ids())
        },
{
}

} // verus!
