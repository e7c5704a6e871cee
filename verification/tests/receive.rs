use tenzin::error::Failure;
use tenzin::mail::receive::{
    fetch_range_of, header_query, parse_mail_header, seen_flags, seen_sequence_set, unseen_query,
    HeaderDefect, PollAction, PollEvent, PollSession, UnreadMails,
};

/// The same grammar, written with the string methods of std.
fn parse_with_std(header: &str) -> Result<(String, String), HeaderDefect> {
    let mut email = None;
    let mut student_id = None;
    for line in header.split("\r\n") {
        if let Some((name, value)) = line.split_once(": ") {
            match name {
                "From" => {
                    let word = value.split(' ').last().unwrap();
                    email = Some(word.trim_start_matches('<').trim_end_matches('>').to_string());
                }
                "Subject" => {
                    student_id = value.trim().strip_prefix("ICS@BUPT#").map(|id| id.to_string());
                }
                _ => {}
            }
        }
    }
    match (email, student_id) {
        (None, _) => Err(HeaderDefect::NoSender),
        (Some(_), None) => Err(HeaderDefect::NoStudentId),
        (Some(email), Some(student_id)) => Ok((email, student_id)),
    }
}

fn parsed(header: &str) -> Result<(String, String), HeaderDefect> {
    parse_mail_header(header).map(|request| (request.email, request.student_id))
}

const REQUEST: &str = "Return-Path: <student@bupt.edu.cn>\r\nFrom: Student <student@bupt.edu.cn>\r\nTo: reset@bupt.edu.cn\r\nSubject: ICS@BUPT#2021000001\r\nDate: Mon, 1 Jan 2024 00:00:00 +0800\r\n\r\n";

#[test]
fn request_is_read_from_sender_and_subject() {
    let request = parse_mail_header(REQUEST).unwrap();
    assert_eq!(request.email, "student@bupt.edu.cn");
    assert_eq!(request.student_id, "2021000001");
}

#[test]
fn sender_is_the_last_word_without_brackets() {
    let cases = [
        ("From: student@bupt.edu.cn\r\nSubject: ICS@BUPT#x", "student@bupt.edu.cn"),
        ("From: <student@bupt.edu.cn>\r\nSubject: ICS@BUPT#x", "student@bupt.edu.cn"),
        ("From: A B C <<a@b>>\r\nSubject: ICS@BUPT#x", "a@b"),
        ("From: \"Last, First\" <a@b>\r\nSubject: ICS@BUPT#x", "a@b"),
        ("From: a@b \r\nSubject: ICS@BUPT#x", ""),
        ("From: \r\nSubject: ICS@BUPT#x", ""),
        ("From: <>\r\nSubject: ICS@BUPT#x", ""),
        ("From: a<b>c\r\nSubject: ICS@BUPT#x", "a<b>c"),
        ("From: x\t<a@b>\r\nSubject: ICS@BUPT#x", "x\t<a@b"),
        ("From: >a@b<\r\nSubject: ICS@BUPT#x", ">a@b<"),
    ];
    for (header, email) in cases {
        assert_eq!(parse_mail_header(header).unwrap().email, email, "{:?}", header);
    }
}

#[test]
fn identifier_stands_behind_the_tag() {
    let cases = [
        ("From: a@b\r\nSubject: ICS@BUPT#2021000001", "2021000001"),
        ("From: a@b\r\nSubject:   ICS@BUPT#2021000001  ", "2021000001"),
        ("From: a@b\r\nSubject: ICS@BUPT#ICS@BUPT#2021000001", "ICS@BUPT#2021000001"),
        ("From: a@b\r\nSubject: ICS@BUPT# 2021000001", " 2021000001"),
        ("From: a@b\r\nSubject: ICS@BUPT#", ""),
        ("From: a@b\r\nSubject: \u{3000}ICS@BUPT#1\u{a0}", "1"),
        ("From: a@b\r\nSubject: ICS@BUPT#1 2", "1 2"),
        ("From: a@b\r\nSubject: ICS@BUPT#学生", "学生"),
    ];
    for (header, id) in cases {
        assert_eq!(parse_mail_header(header).unwrap().student_id, id, "{:?}", header);
    }
}

#[test]
fn subject_without_the_tag_names_no_identifier() {
    let subjects = [
        "hello",
        "2021000001",
        "Re: ICS@BUPT#1",
        "ics@bupt#1",
        "ICS@BUPT 1",
        "ICS@BUPT",
        "#ICS@BUPT#1",
        "",
        "   ",
        "x ICS@BUPT#1",
    ];
    for subject in subjects {
        let header = format!("From: student@bupt.edu.cn\r\nSubject: {}\r\n", subject);
        assert_eq!(parsed(&header), Err(HeaderDefect::NoStudentId), "{:?}", header);
    }
    assert_eq!(
        parsed("From: student@bupt.edu.cn\r\nSubject: hello\r\n"),
        Err(HeaderDefect::NoStudentId)
    );
}

#[test]
fn message_with_an_untagged_subject_is_kept_raw() {
    let header = "From: student@bupt.edu.cn\r\nSubject: hello\r\n";
    let mut batch = UnreadMails::new();
    batch.record(7, Some(header.to_string()));
    assert!(batch.parsed.is_empty());
    assert_eq!(batch.raw.len(), 1);
    assert_eq!(batch.raw[0].id, 7);
    assert_eq!(batch.raw[0].raw.as_deref(), Some(header));
}

#[test]
fn an_untagged_subject_after_a_tagged_one_counts() {
    let header = "From: a@b\r\nSubject: ICS@BUPT#1\r\nSubject: hello\r\n";
    assert_eq!(parsed(header), Err(HeaderDefect::NoStudentId));
    let header = "From: a@b\r\nSubject: hello\r\nSubject: ICS@BUPT#1\r\n";
    assert_eq!(parsed(header), Ok(("a@b".to_string(), "1".to_string())));
}

#[test]
fn the_last_field_of_a_name_counts() {
    let header = "From: a@b\r\nSubject: ICS@BUPT#1\r\nFrom: c@d\r\nSubject: ICS@BUPT#2\r\n";
    let request = parse_mail_header(header).unwrap();
    assert_eq!(request.email, "c@d");
    assert_eq!(request.student_id, "2");
}

#[test]
fn header_without_sender_or_subject_gives_no_request() {
    assert!(matches!(parse_mail_header(""), Err(HeaderDefect::NoSender)));
    assert!(matches!(parse_mail_header("Subject: ICS@BUPT#1\r\n"), Err(HeaderDefect::NoSender)));
    assert!(matches!(parse_mail_header("From: a@b\r\n"), Err(HeaderDefect::NoStudentId)));
    assert!(matches!(
        parse_mail_header("from: a@b\r\nsubject: ICS@BUPT#1\r\n"),
        Err(HeaderDefect::NoSender)
    ));
    assert!(matches!(
        parse_mail_header("From:a@b\r\nSubject: ICS@BUPT#1\r\n"),
        Err(HeaderDefect::NoSender)
    ));
    assert!(matches!(
        parse_mail_header(" From: a@b\r\nSubject: ICS@BUPT#1\r\n"),
        Err(HeaderDefect::NoSender)
    ));
    assert!(matches!(
        parse_mail_header("From: a@b\r\nX-Subject: ICS@BUPT#1\r\n"),
        Err(HeaderDefect::NoStudentId)
    ));
}

#[test]
fn lines_end_in_cr_lf_only() {
    let request = parse_mail_header("From: a@b\nSubject: ICS@BUPT#1").unwrap_err();
    assert_eq!(request, HeaderDefect::NoStudentId);
    let request = parse_mail_header("X: y\r\r\nFrom: a@b\r\nSubject: ICS@BUPT#1\r").unwrap();
    assert_eq!(request.email, "a@b");
    assert_eq!(request.student_id, "1");
}

#[test]
fn headers_are_read_as_std_reads_them() {
    let pieces = [
        "From", "Subject", ": ", ":", " ", "\r\n", "\r", "\n", "<", ">", "ICS@BUPT#", "a@b.c",
        "2021000001", "\t", "\u{3000}", "学",
    ];
    let mut state: u64 = 0x2545F4914F6CDD1D;
    for _ in 0..4000 {
        let mut header = String::new();
        state ^= state << 13;
        state ^= state >> 7;
        state ^= state << 17;
        let length = (state % 14) as usize;
        for _ in 0..length {
            state ^= state << 13;
            state ^= state >> 7;
            state ^= state << 17;
            header.push_str(pieces[(state % pieces.len() as u64) as usize]);
        }
        assert_eq!(parsed(&header), parse_with_std(&header), "{:?}", header);
    }
    for header in [REQUEST, "", "From: ", "Subject: ", ": ", "From: : \r\nSubject: : "] {
        assert_eq!(parsed(header), parse_with_std(header), "{:?}", header);
    }
}

#[test]
fn fetch_range_names_one_message() {
    assert_eq!(fetch_range_of(5), "5:5");
    assert_eq!(fetch_range_of(0), "0:0");
    assert_eq!(fetch_range_of(4294967295), "4294967295:4294967295");
}

#[test]
fn sequence_set_lists_the_messages() {
    assert_eq!(seen_sequence_set(&vec![]), "");
    assert_eq!(seen_sequence_set(&vec![7]), "7");
    assert_eq!(seen_sequence_set(&vec![1, 2, 3]), "1,2,3");
    assert_eq!(seen_sequence_set(&vec![10, 0, 4294967295, 10]), "10,0,4294967295,10");
}

#[test]
fn batch_sorts_messages_by_their_headers() {
    let mut batch = UnreadMails::new();
    assert!(batch.parsed.is_empty());
    assert!(batch.raw.is_empty());
    batch.record(3, Some(REQUEST.to_string()));
    batch.record(4, Some("Subject: hello\r\n".to_string()));
    batch.record(5, None);
    batch.record(6, Some("From: c@d\r\nSubject: ICS@BUPT#9\r\n".to_string()));
    assert_eq!(batch.parsed.len(), 2);
    assert_eq!(batch.parsed[0].email, "student@bupt.edu.cn");
    assert_eq!(batch.parsed[0].student_id, "2021000001");
    assert_eq!(batch.parsed[1].email, "c@d");
    assert_eq!(batch.parsed[1].student_id, "9");
    assert_eq!(batch.raw.len(), 2);
    assert_eq!(batch.raw[0].id, 4);
    assert_eq!(batch.raw[0].raw.as_deref(), Some("Subject: hello\r\n"));
    assert_eq!(batch.raw[1].id, 5);
    assert_eq!(batch.raw[1].raw, None);
}

fn fetch_of(action: PollAction) -> String {
    match action {
        PollAction::Fetch(range) => range,
        _ => panic!("the poll does not fetch"),
    }
}

#[test]
fn poll_fetches_each_message_and_marks_all_of_them() {
    let (session, action) = PollSession::start();
    assert!(matches!(action, PollAction::Search));
    assert!(!session.is_closed());
    let (session, action) = session.advance(PollEvent::Found(vec![12, 5, 30]));
    assert_eq!(fetch_of(action), "12:12");
    let (session, action) = session.advance(PollEvent::Header(Some(REQUEST.to_string())));
    assert_eq!(fetch_of(action), "5:5");
    let (session, action) = session.advance(PollEvent::Header(Some("nothing".to_string())));
    assert_eq!(fetch_of(action), "30:30");
    let (session, action) = session.advance(PollEvent::Header(None));
    match action {
        PollAction::MarkSeen(set) => assert_eq!(set, "12,5,30"),
        _ => panic!("the poll does not mark the messages"),
    }
    assert!(!session.is_closed());
    let (session, action) = session.advance(PollEvent::Marked);
    assert!(session.is_closed());
    match action {
        PollAction::Deliver(batch) => {
            assert_eq!(batch.parsed.len(), 1);
            assert_eq!(batch.parsed[0].student_id, "2021000001");
            assert_eq!(batch.raw.len(), 2);
            assert_eq!(batch.raw[0].id, 5);
            assert_eq!(batch.raw[0].raw.as_deref(), Some("nothing"));
            assert_eq!(batch.raw[1].id, 30);
            assert_eq!(batch.raw[1].raw, None);
        }
        _ => panic!("the poll does not deliver"),
    }
}

#[test]
fn message_without_request_is_marked_all_the_same() {
    let (session, _) = PollSession::start();
    let (session, action) = session.advance(PollEvent::Found(vec![8]));
    assert_eq!(fetch_of(action), "8:8");
    let (_, action) = session.advance(PollEvent::Header(Some("Subject: hi\r\n".to_string())));
    match action {
        PollAction::MarkSeen(set) => assert_eq!(set, "8"),
        _ => panic!("the poll does not mark the message"),
    }
}

#[test]
fn failed_fetch_counts_as_a_message_without_header() {
    let (session, _) = PollSession::start();
    let (session, _) = session.advance(PollEvent::Found(vec![8, 9]));
    let (session, action) = session.advance(PollEvent::Failed);
    assert_eq!(fetch_of(action), "9:9");
    let (session, action) = session.advance(PollEvent::Failed);
    assert!(matches!(action, PollAction::MarkSeen(_)));
    let (_, action) = session.advance(PollEvent::Marked);
    match action {
        PollAction::Deliver(batch) => {
            assert!(batch.parsed.is_empty());
            assert_eq!(batch.raw.len(), 2);
            assert_eq!(batch.raw[0].id, 8);
            assert_eq!(batch.raw[1].id, 9);
            assert_eq!(batch.raw[0].raw, None);
        }
        _ => panic!("the poll does not deliver"),
    }
}

#[test]
fn poll_without_messages_marks_nothing() {
    let (session, _) = PollSession::start();
    let (session, action) = session.advance(PollEvent::Found(vec![]));
    assert!(session.is_closed());
    match action {
        PollAction::Deliver(batch) => {
            assert!(batch.parsed.is_empty());
            assert!(batch.raw.is_empty());
        }
        _ => panic!("the poll does not deliver"),
    }
}

#[test]
fn poll_that_cannot_search_or_mark_gives_nothing() {
    let (session, _) = PollSession::start();
    let (session, action) = session.advance(PollEvent::Failed);
    assert!(session.is_closed());
    assert!(matches!(action, PollAction::Abort(Failure::MailTransportError)));
    let (_, action) = session.advance(PollEvent::Found(vec![1]));
    assert!(matches!(action, PollAction::Abort(Failure::MailTransportError)));

    let (session, _) = PollSession::start();
    let (session, _) = session.advance(PollEvent::Found(vec![1]));
    let (session, _) = session.advance(PollEvent::Header(Some(REQUEST.to_string())));
    let (session, action) = session.advance(PollEvent::Failed);
    assert!(session.is_closed());
    assert!(matches!(action, PollAction::Abort(Failure::MailTransportError)));
}

#[test]
fn answer_that_was_not_waited_for_ends_the_poll() {
    let (session, _) = PollSession::start();
    let (session, action) = session.advance(PollEvent::Marked);
    assert!(session.is_closed());
    assert!(matches!(action, PollAction::Abort(Failure::MailTransportError)));

    let (session, _) = PollSession::start();
    let (session, _) = session.advance(PollEvent::Found(vec![1, 2]));
    let (session, action) = session.advance(PollEvent::Marked);
    assert!(session.is_closed());
    assert!(matches!(action, PollAction::Abort(Failure::MailTransportError)));

    let (session, _) = PollSession::start();
    let (session, _) = session.advance(PollEvent::Found(vec![1]));
    let (session, _) = session.advance(PollEvent::Header(None));
    let (session, action) = session.advance(PollEvent::Header(None));
    assert!(session.is_closed());
    assert!(matches!(action, PollAction::Abort(Failure::MailTransportError)));
}

#[test]
fn poll_asks_for_unseen_messages_and_their_headers_only() {
    assert_eq!(unseen_query(), "UNSEEN");
    assert_eq!(header_query(), "RFC822.HEADER");
    assert_eq!(seen_flags(), "+FLAGS (\\Seen)");
}
