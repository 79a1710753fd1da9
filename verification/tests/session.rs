use base64ct::Encoding;

use smtp_test_server::{
    session_on_chunk, session_on_line, session_start, Auth, Data, Response, SessionState,
    SmtpError, Step,
};

enum Feed {
    Line(&'static str),
    Chunk(&'static [u8]),
}

/// Drives one session over the given received chunks, collecting every
/// line the machine answers. Returns the writes and either the
/// session's outcome (`Some` if it concluded, `None` if it still waits
/// for more input) or the protocol error that ended it.
fn drive(
    server: &str,
    client: &str,
    auth: &Auth,
    feeds: &[Feed],
) -> (Vec<String>, Result<Option<Response<Data>>, SmtpError>) {
    let (mut all, mut state): (Vec<String>, SessionState) = session_start(server);
    for feed in feeds {
        let step = match feed {
            Feed::Chunk(bytes) => session_on_chunk(state, bytes.to_vec()),
            Feed::Line(line) => {
                match session_on_line(state, line.to_string(), server, client, auth) {
                    Ok(step) => step,
                    Err(e) => return (all, Err(e)),
                }
            }
        };
        all.extend(step.writes);
        match step.next {
            Step::Read(next) => state = next,
            Step::Done(outcome) => return (all, Ok(Some(outcome))),
        }
    }
    (all, Ok(None))
}

fn mail_feeds() -> Vec<Feed> {
    vec![
        Feed::Line("MAIL FROM:<a@x.com>\r\n"),
        Feed::Line("RCPT TO:<b@x.com>\r\n"),
        Feed::Line("DATA\r\n"),
        Feed::Chunk(b"some message bytes"),
        Feed::Line("\r\n.\r\n"),
        Feed::Line("QUIT\r\n"),
    ]
}

fn assert_full_exchange(writes: &[String], outcome: Result<Option<Response<Data>>, SmtpError>) {
    let expected_tail = [
        "250 Ok\r\n",
        "250 Ok\r\n",
        "354 Go\r\n",
        "250 Ok\r\n",
        "221 Ok\r\n",
    ];
    let tail = &writes[writes.len() - expected_tail.len()..];
    assert_eq!(tail, &expected_tail);
    match outcome {
        Ok(Some(Response::Email(data))) => {
            assert_eq!(data.address_from, "a@x.com");
            assert_eq!(data.address_to, "b@x.com");
            assert_eq!(data.email, b"some message bytes".to_vec());
        }
        other => panic!("expected a completed transaction, got {other:?}"),
    }
}

#[test]
fn test_send_anon_only() {
    let mut feeds = vec![Feed::Line("EHLO [127.0.0.1]\r\n")];
    feeds.extend(mail_feeds());
    let (writes, outcome) = drive("127.0.0.1", "127.0.0.1", &Auth::AcceptAnonOnly, &feeds);
    assert_eq!(writes[0], "220 127.0.0.1\r\n");
    assert_eq!(writes[1], "250-127.0.0.1\r\n");
    assert_eq!(writes[2], "250 AUTH PLAIN\r\n");
    assert_full_exchange(&writes, outcome);
}

#[test]
fn test_send_anon_accepted() {
    let mut feeds = vec![Feed::Line("EHLO [10.0.0.7]\r\n")];
    feeds.extend(mail_feeds());
    let (writes, outcome) = drive("192.168.0.1", "10.0.0.7", &Auth::AcceptAll, &feeds);
    assert_eq!(writes[0], "220 192.168.0.1\r\n");
    assert_full_exchange(&writes, outcome);
}

#[test]
fn test_send_login_accepted() {
    // AcceptAll takes any credentials whatsoever.
    let mut feeds = vec![
        Feed::Line("EHLO [127.0.0.1]\r\n"),
        Feed::Line("AUTH PLAIN anything-at-all\r\n"),
    ];
    feeds.extend(mail_feeds());
    let (writes, outcome) = drive("127.0.0.1", "127.0.0.1", &Auth::AcceptAll, &feeds);
    assert_eq!(writes[3], "235 Authentication successful\r\n");
    assert_full_exchange(&writes, outcome);
}

fn login_auth_line(username: &str, password: &str) -> String {
    let mut blob = Vec::new();
    blob.push(0u8);
    blob.extend(username.bytes());
    blob.push(0u8);
    blob.extend(password.bytes());
    let encoded = base64ct::Base64::encode_string(&blob);
    format!("AUTH PLAIN {encoded}\r\n")
}

#[test]
fn test_send_login_ok() {
    let auth = Auth::Login {
        username: "user".to_string(),
        password: "pwd".to_string(),
    };
    let line = login_auth_line("user", "pwd");
    let mut feeds = vec![Feed::Line("EHLO [127.0.0.1]\r\n")];
    feeds.push(Feed::Line(Box::leak(line.into_boxed_str())));
    feeds.extend(mail_feeds());
    let (writes, outcome) = drive("127.0.0.1", "127.0.0.1", &auth, &feeds);
    assert_eq!(writes[3], "235 Authentication successful\r\n");
    assert_full_exchange(&writes, outcome);
}

#[test]
fn login_line_exact() {
    // The one accepted line, written out: the Base64 of
    // \0user\0pwd is AHVzZXIAcHdk.
    let auth = Auth::Login {
        username: "user".to_string(),
        password: "pwd".to_string(),
    };
    let feeds = vec![
        Feed::Line("EHLO [127.0.0.1]\r\n"),
        Feed::Line("AUTH PLAIN AHVzZXIAcHdk\r\n"),
    ];
    let (writes, outcome) = drive("127.0.0.1", "127.0.0.1", &auth, &feeds);
    assert_eq!(writes[3], "235 Authentication successful\r\n");
    assert!(matches!(outcome, Ok(None)), "the session waits for a command");
}

#[test]
fn test_login_fail() {
    let auth = Auth::Login {
        username: "user".to_string(),
        password: "pwd".to_string(),
    };
    let line = login_auth_line("user", "xxx");
    let feeds = vec![
        Feed::Line("EHLO [127.0.0.1]\r\n"),
        Feed::Line(Box::leak(line.into_boxed_str())),
        Feed::Line("QUIT\r\n"),
    ];
    let (writes, outcome) = drive("127.0.0.1", "127.0.0.1", &auth, &feeds);
    assert_eq!(writes[3], "535 Authentication failed\r\n");
    assert_eq!(writes[4], "221 Ok\r\n");
    assert!(matches!(outcome, Ok(Some(Response::Quit))));
}

#[test]
fn test_anon_only_auth_fail() {
    let line = login_auth_line("user", "pwd");
    let feeds = vec![
        Feed::Line("EHLO [127.0.0.1]\r\n"),
        Feed::Line(Box::leak(line.into_boxed_str())),
        Feed::Line("QUIT\r\n"),
    ];
    let (writes, outcome) = drive("127.0.0.1", "127.0.0.1", &Auth::AcceptAnonOnly, &feeds);
    assert_eq!(writes[3], "535 Authentication failed\r\n");
    assert!(matches!(outcome, Ok(Some(Response::Quit))));
}

#[test]
fn test_auth_anon_fail() {
    // A client that skips authentication when a login is mandated.
    let auth = Auth::Login {
        username: "user".to_string(),
        password: "pwd".to_string(),
    };
    let feeds = vec![
        Feed::Line("EHLO [127.0.0.1]\r\n"),
        Feed::Line("MAIL FROM:<a@x.com>\r\n"),
        Feed::Line("QUIT\r\n"),
    ];
    let (writes, outcome) = drive("127.0.0.1", "127.0.0.1", &auth, &feeds);
    assert_eq!(writes[3], "535 Authentication failed\r\n");
    assert!(matches!(outcome, Ok(Some(Response::Quit))));
}

#[test]
fn noop_short_circuit() {
    let feeds = vec![
        Feed::Line("EHLO [127.0.0.1]\r\n"),
        Feed::Line("NOOP\r\n"),
        Feed::Line("QUIT\r\n"),
    ];
    let (writes, outcome) = drive("127.0.0.1", "127.0.0.1", &Auth::AcceptAll, &feeds);
    assert_eq!(writes[3], "250 Ok\r\n");
    assert_eq!(writes[4], "221 Ok\r\n");
    assert!(matches!(outcome, Ok(Some(Response::Continue))));
}

#[test]
fn greeting_mismatch() {
    let feeds = vec![Feed::Line("HELO x\r\n")];
    let (_, outcome) = drive("127.0.0.1", "127.0.0.1", &Auth::AcceptAll, &feeds);
    match outcome {
        Err(SmtpError::UnexpectedData { expected, actual }) => {
            assert_eq!(expected, "EHLO [127.0.0.1]\r\n");
            assert_eq!(actual, "HELO x\r\n");
        }
        other => panic!("expected a data mismatch, got {other:?}"),
    }
}

#[test]
fn unknown_command() {
    let feeds = vec![
        Feed::Line("EHLO [127.0.0.1]\r\n"),
        Feed::Line("VRFY who\r\n"),
    ];
    let (_, outcome) = drive("127.0.0.1", "127.0.0.1", &Auth::AcceptAll, &feeds);
    match outcome {
        Err(SmtpError::UnexpectedContinuation { actual }) => {
            assert_eq!(actual, "VRFY who\r\n");
        }
        other => panic!("expected an unexpected continuation, got {other:?}"),
    }
}

#[test]
fn malformed_mail_from() {
    let feeds = vec![
        Feed::Line("EHLO [127.0.0.1]\r\n"),
        Feed::Line("MAIL FROM:a@x.com\r\n"),
    ];
    let (_, outcome) = drive("127.0.0.1", "127.0.0.1", &Auth::AcceptAll, &feeds);
    match outcome {
        Err(SmtpError::UnexpectedData { expected, actual }) => {
            assert_eq!(expected, "MAIL FROM:<...>\r\n");
            assert_eq!(actual, "MAIL FROM:a@x.com\r\n");
        }
        other => panic!("expected a data mismatch, got {other:?}"),
    }
}

#[test]
fn missing_terminator() {
    let feeds = vec![
        Feed::Line("EHLO [127.0.0.1]\r\n"),
        Feed::Line("MAIL FROM:<a@x.com>\r\n"),
        Feed::Line("RCPT TO:<b@x.com>\r\n"),
        Feed::Line("DATA\r\n"),
        Feed::Chunk(b"body"),
        Feed::Line("more\r\n"),
    ];
    let (_, outcome) = drive("127.0.0.1", "127.0.0.1", &Auth::AcceptAll, &feeds);
    match outcome {
        Err(SmtpError::UnexpectedData { expected, actual }) => {
            assert_eq!(expected, "\r\n.\r\n");
            assert_eq!(actual, "more\r\n");
        }
        other => panic!("expected a data mismatch, got {other:?}"),
    }
}

#[test]
fn expect_address_cuts_the_address() {
    let r = smtp_test_server::expect_address("RCPT TO:<b@x.com>\r\n".to_string(), "RCPT TO");
    assert_eq!(r.unwrap(), "b@x.com");
    let r = smtp_test_server::expect_address("RCPT TO:<>\r\n".to_string(), "RCPT TO");
    assert_eq!(r.unwrap(), "");
    let r = smtp_test_server::expect_address("RCPT TO:<b@x.com>".to_string(), "RCPT TO");
    assert!(matches!(r, Err(SmtpError::UnexpectedData { .. })));
}
