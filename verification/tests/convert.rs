use smtp_test_server::{
    convert_email, session_on_chunk, session_on_line, session_start, Auth, ConversionError, Data,
    Email, MailMessage, MailPart, ParseError, Response, Step,
};

fn two_part_message(from: &str, to: &str, subject: &str, text: &str, html: &str) -> Vec<u8> {
    let mut raw = String::new();
    raw.push_str(&format!("From: {from}\r\n"));
    raw.push_str(&format!("To: {to}\r\n"));
    raw.push_str(&format!("Subject: {subject}\r\n"));
    raw.push_str("MIME-Version: 1.0\r\n");
    raw.push_str("Content-Type: multipart/alternative; boundary=\"sep\"\r\n");
    raw.push_str("\r\n");
    raw.push_str("--sep\r\n");
    raw.push_str("Content-Type: text/plain; charset=utf-8\r\n");
    raw.push_str("\r\n");
    raw.push_str(&format!("{text}\r\n\r\n"));
    raw.push_str("--sep\r\n");
    raw.push_str("Content-Type: text/html; charset=utf-8\r\n");
    raw.push_str("\r\n");
    raw.push_str(&format!("{html}\r\n\r\n"));
    raw.push_str("--sep--\r\n");
    raw.into_bytes()
}

fn data(raw: Vec<u8>, from: &str, to: &str) -> Data {
    Data {
        email: raw,
        address_from: from.to_string(),
        address_to: to.to_string(),
    }
}

#[test]
fn round_trip() {
    // A message built with a given sender, recipient, subject and two
    // bodies comes back as the same structured email, the bodies
    // carrying the parser's trailing CRLF.
    let raw = two_part_message(
        "Sender <sender@example.com>",
        "Recipient <recipient@example.com>",
        "Hello world",
        "Welcome",
        "<p>Welcome</p>",
    );
    let email = Email::parse(data(raw, "sender@example.com", "recipient@example.com")).unwrap();
    assert_eq!(&email.address_from, "sender@example.com");
    assert_eq!(&email.address_to, "recipient@example.com");
    assert_eq!(email.get_from(), "Sender <sender@example.com>");
    assert_eq!(email.get_to(), "Recipient <recipient@example.com>");
    assert_eq!(&email.subject, "Hello world");
    assert_eq!(&email.body_text, "Welcome\r\n");
    assert_eq!(&email.body_html, "<p>Welcome</p>\r\n");
}

#[test]
fn anon_only_full_receive() {
    // The whole receiving side at once: an anonymous client walks the
    // state machine through the fixed exchange, and the captured
    // envelope converts into the structured email.
    let raw = two_part_message("A <a@x.com>", "B <b@x.com>", "s", "x", "<p>x</p>");
    let server = "127.0.0.1";
    let client = "127.0.0.1";
    let auth = Auth::AcceptAnonOnly;
    let (_, mut state) = session_start(server);
    let lines = [
        "EHLO [127.0.0.1]\r\n",
        "MAIL FROM:<a@x.com>\r\n",
        "RCPT TO:<b@x.com>\r\n",
        "DATA\r\n",
    ];
    for line in lines {
        match session_on_line(state, line.to_string(), server, client, &auth)
            .unwrap()
            .next
        {
            Step::Read(next) => state = next,
            Step::Done(other) => panic!("session ended early: {other:?}"),
        }
    }
    let step = session_on_chunk(state, raw);
    state = match step.next {
        Step::Read(next) => next,
        Step::Done(other) => panic!("session ended early: {other:?}"),
    };
    for line in ["\r\n.\r\n", "QUIT\r\n"] {
        match session_on_line(state, line.to_string(), server, client, &auth)
            .unwrap()
            .next
        {
            Step::Read(next) => state = next,
            Step::Done(Response::Email(captured)) => {
                let email = Email::parse(captured).unwrap();
                assert_eq!(&email.address_from, "a@x.com");
                assert_eq!(&email.address_to, "b@x.com");
                return;
            }
            Step::Done(other) => panic!("unexpected outcome: {other:?}"),
        }
    }
    panic!("the session did not conclude");
}

#[test]
fn three_parts_rejected() {
    let mut raw = String::new();
    raw.push_str("From: A <a@x.com>\r\n");
    raw.push_str("To: B <b@x.com>\r\n");
    raw.push_str("Subject: s\r\n");
    raw.push_str("Content-Type: multipart/alternative; boundary=\"sep\"\r\n\r\n");
    for _ in 0..3 {
        raw.push_str("--sep\r\nContent-Type: text/plain\r\n\r\nx\r\n");
    }
    raw.push_str("--sep--\r\n");
    let r = Email::parse(data(raw.into_bytes(), "a@x.com", "b@x.com"));
    match r {
        Err(ParseError::Convert(ConversionError::UnexpectedPartCount(n))) => assert_eq!(n, 3),
        other => panic!("expected a part-count error, got {other:?}"),
    }
}

#[test]
fn swapped_parts_rejected() {
    let mut raw = String::new();
    raw.push_str("From: A <a@x.com>\r\n");
    raw.push_str("To: B <b@x.com>\r\n");
    raw.push_str("Subject: s\r\n");
    raw.push_str("Content-Type: multipart/alternative; boundary=\"sep\"\r\n\r\n");
    raw.push_str("--sep\r\nContent-Type: text/html\r\n\r\n<p>x</p>\r\n");
    raw.push_str("--sep\r\nContent-Type: text/plain\r\n\r\nx\r\n");
    raw.push_str("--sep--\r\n");
    let r = Email::parse(data(raw.into_bytes(), "a@x.com", "b@x.com"));
    match r {
        Err(ParseError::Convert(ConversionError::UnexpectedPartMime { actual, expected })) => {
            assert_eq!(actual, "text/html");
            assert_eq!(expected, "text/plain");
        }
        other => panic!("expected a mime mismatch, got {other:?}"),
    }
}

#[test]
fn second_part_mime_rejected() {
    let mail = MailMessage {
        headers: vec![
            ("From".to_string(), "A <a@x.com>".to_string()),
            ("To".to_string(), "B <b@x.com>".to_string()),
            ("Subject".to_string(), "s".to_string()),
        ],
        parts: vec![
            MailPart { mime: "text/plain".to_string(), body: "x".to_string() },
            MailPart { mime: "text/rich".to_string(), body: "y".to_string() },
        ],
    };
    let r = convert_email("a@x.com".to_string(), "b@x.com".to_string(), mail);
    match r {
        Err(ConversionError::UnexpectedPartMime { actual, expected }) => {
            assert_eq!(actual, "text/rich");
            assert_eq!(expected, "text/html");
        }
        other => panic!("expected a mime mismatch, got {other:?}"),
    }
}

#[test]
fn single_part_message_rejected() {
    let mut raw = String::new();
    raw.push_str("From: A <a@x.com>\r\n");
    raw.push_str("To: B <b@x.com>\r\n");
    raw.push_str("Subject: s\r\n");
    raw.push_str("Content-Type: text/plain\r\n\r\n");
    raw.push_str("just text\r\n");
    let r = Email::parse(data(raw.into_bytes(), "a@x.com", "b@x.com"));
    match r {
        Err(ParseError::Convert(ConversionError::UnexpectedPartCount(n))) => assert_eq!(n, 0),
        other => panic!("expected a part-count error, got {other:?}"),
    }
}

#[test]
fn from_mismatch_rejected() {
    let raw = two_part_message(
        "X <other@x.com>",
        "B <b@x.com>",
        "s",
        "x",
        "<p>x</p>",
    );
    let r = Email::parse(data(raw, "a@x.com", "b@x.com"));
    match r {
        Err(ParseError::Convert(ConversionError::FromAddressMismatch { smtp, email })) => {
            assert_eq!(smtp, "a@x.com");
            assert_eq!(email, "X <other@x.com>");
        }
        other => panic!("expected a sender mismatch, got {other:?}"),
    }
}

#[test]
fn to_mismatch_rejected() {
    let raw = two_part_message("A <a@x.com>", "X <other@x.com>", "s", "x", "<p>x</p>");
    let r = Email::parse(data(raw, "a@x.com", "b@x.com"));
    match r {
        Err(ParseError::Convert(ConversionError::ToAddressMismatch { smtp, email })) => {
            assert_eq!(smtp, "b@x.com");
            assert_eq!(email, "X <other@x.com>");
        }
        other => panic!("expected a recipient mismatch, got {other:?}"),
    }
}

#[test]
fn missing_headers_rejected() {
    let mk = |headers: &str| {
        let mut raw = String::new();
        raw.push_str(headers);
        raw.push_str("Content-Type: multipart/alternative; boundary=\"sep\"\r\n\r\n");
        raw.push_str("--sep\r\nContent-Type: text/plain\r\n\r\nx\r\n");
        raw.push_str("--sep\r\nContent-Type: text/html\r\n\r\n<p>x</p>\r\n");
        raw.push_str("--sep--\r\n");
        raw.into_bytes()
    };
    let r = Email::parse(data(
        mk("To: B <b@x.com>\r\nSubject: s\r\n"),
        "a@x.com",
        "b@x.com",
    ));
    assert!(matches!(
        r,
        Err(ParseError::Convert(ConversionError::MisingFromAddress))
    ));
    let r = Email::parse(data(
        mk("From: A <a@x.com>\r\nSubject: s\r\n"),
        "a@x.com",
        "b@x.com",
    ));
    assert!(matches!(
        r,
        Err(ParseError::Convert(ConversionError::MisingToAddress))
    ));
    let r = Email::parse(data(
        mk("From: A <a@x.com>\r\nTo: B <b@x.com>\r\n"),
        "a@x.com",
        "b@x.com",
    ));
    assert!(matches!(
        r,
        Err(ParseError::Convert(ConversionError::MisingSubject))
    ));
}

#[test]
fn duplicate_headers_rejected() {
    let mk = |headers: &str| {
        let mut raw = String::new();
        raw.push_str(headers);
        raw.push_str("Content-Type: multipart/alternative; boundary=\"sep\"\r\n\r\n");
        raw.push_str("--sep\r\nContent-Type: text/plain\r\n\r\nx\r\n");
        raw.push_str("--sep\r\nContent-Type: text/html\r\n\r\n<p>x</p>\r\n");
        raw.push_str("--sep--\r\n");
        raw.into_bytes()
    };
    let r = Email::parse(data(
        mk("From: A <a@x.com>\r\nFrom: C <c@x.com>\r\nTo: B <b@x.com>\r\nSubject: s\r\n"),
        "a@x.com",
        "b@x.com",
    ));
    match r {
        Err(ParseError::Convert(ConversionError::MultipleFromAddresses(values))) => {
            assert_eq!(values, vec!["A <a@x.com>".to_string(), "C <c@x.com>".to_string()]);
        }
        other => panic!("expected a duplicate-sender error, got {other:?}"),
    }
    let r = Email::parse(data(
        mk("From: A <a@x.com>\r\nTo: B <b@x.com>\r\nTo: B <b@x.com>\r\nSubject: s\r\n"),
        "a@x.com",
        "b@x.com",
    ));
    assert!(matches!(
        r,
        Err(ParseError::Convert(ConversionError::MultipleToAddresses(_)))
    ));
    let r = Email::parse(data(
        mk("From: A <a@x.com>\r\nTo: B <b@x.com>\r\nSubject: s\r\nSubject: t\r\n"),
        "a@x.com",
        "b@x.com",
    ));
    assert!(matches!(
        r,
        Err(ParseError::Convert(ConversionError::MultipleSubjects(_)))
    ));
}

#[test]
fn undecodable_body_is_a_parse_error() {
    let mut raw = String::new();
    raw.push_str("From: A <a@x.com>\r\n");
    raw.push_str("To: B <b@x.com>\r\n");
    raw.push_str("Subject: s\r\n");
    raw.push_str("Content-Type: multipart/alternative; boundary=\"sep\"\r\n\r\n");
    raw.push_str("--sep\r\nContent-Type: text/plain\r\nContent-Transfer-Encoding: base64\r\n\r\n!!!not-base64!!!\r\n");
    raw.push_str("--sep\r\nContent-Type: text/html\r\n\r\n<p>x</p>\r\n");
    raw.push_str("--sep--\r\n");
    let r = Email::parse(data(raw.into_bytes(), "a@x.com", "b@x.com"));
    assert!(matches!(r, Err(ParseError::Parse(_))));
}

#[test]
fn convert_on_a_prepared_message() {
    // The converter itself, on an already-parsed message value.
    let mail = MailMessage {
        headers: vec![
            ("From".to_string(), "A <a@x.com>".to_string()),
            ("To".to_string(), "B <b@x.com>".to_string()),
            ("Subject".to_string(), "greetings\r\n".to_string()),
            ("X-Trace".to_string(), "one".to_string()),
            ("X-Trace".to_string(), "two".to_string()),
        ],
        parts: vec![
            MailPart { mime: "text/plain".to_string(), body: "hi".to_string() },
            MailPart { mime: "text/html".to_string(), body: "<p>hi</p>".to_string() },
        ],
    };
    let email = convert_email("a@x.com".to_string(), "b@x.com".to_string(), mail).unwrap();
    assert_eq!(&email.subject, "greetings", "the trailing CRLF is stripped");
    assert_eq!(&email.body_text, "hi");
    assert_eq!(&email.body_html, "<p>hi</p>");
    // One entry per header name; the later duplicate overwrote the earlier.
    let trace: Vec<&(String, String)> =
        email.headers.iter().filter(|(k, _)| k == "X-Trace").collect();
    assert_eq!(trace.len(), 1);
    assert_eq!(trace[0].1, "two");
}

#[test]
fn header_lookup_ignores_ascii_case() {
    // The parser's header lookup matches names without regard to case.
    let mail = MailMessage {
        headers: vec![
            ("FROM".to_string(), "A <a@x.com>".to_string()),
            ("to".to_string(), "B <b@x.com>".to_string()),
            ("subject".to_string(), "s".to_string()),
        ],
        parts: vec![
            MailPart { mime: "text/plain".to_string(), body: "x".to_string() },
            MailPart { mime: "text/html".to_string(), body: "y".to_string() },
        ],
    };
    let email = convert_email("a@x.com".to_string(), "b@x.com".to_string(), mail).unwrap();
    assert_eq!(&email.subject, "s");
}
