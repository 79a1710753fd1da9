use smtp_test_server::{
    auth_from_config, finish_session, task_action, Auth, Data, Email, Error, Response,
    TaskAction, DEFAULT_PORT,
};

fn raw_message() -> Vec<u8> {
    let mut raw = String::new();
    raw.push_str("From: A <a@x.com>\r\n");
    raw.push_str("To: B <b@x.com>\r\n");
    raw.push_str("Subject: s\r\n");
    raw.push_str("Content-Type: multipart/alternative; boundary=\"sep\"\r\n\r\n");
    raw.push_str("--sep\r\nContent-Type: text/plain\r\n\r\nx\r\n");
    raw.push_str("--sep\r\nContent-Type: text/html\r\n\r\n<p>x</p>\r\n");
    raw.push_str("--sep--\r\n");
    raw.into_bytes()
}

#[test]
fn default_port() {
    assert_eq!(DEFAULT_PORT, 587);
}

#[test]
fn config_selects_the_policy() {
    let auth = auth_from_config(Some(("u".to_string(), "p".to_string())), true);
    assert!(
        matches!(&auth, Auth::Login { username, password } if username == "u" && password == "p")
    );
    let auth = auth_from_config(Some(("u".to_string(), "p".to_string())), false);
    assert!(matches!(&auth, Auth::Login { .. }));
    assert!(matches!(auth_from_config(None, true), Auth::AcceptAnonOnly));
    assert!(matches!(auth_from_config(None, false), Auth::AcceptAll));
}

#[test]
fn signals_pass_through_finish() {
    assert!(matches!(
        finish_session(Response::Continue),
        Ok(Response::Continue)
    ));
    assert!(matches!(finish_session(Response::Quit), Ok(Response::Quit)));
}

#[test]
fn captured_envelope_is_parsed_by_finish() {
    let data = Data {
        email: raw_message(),
        address_from: "a@x.com".to_string(),
        address_to: "b@x.com".to_string(),
    };
    match finish_session(Response::Email(data)) {
        Ok(Response::Email(email)) => {
            assert_eq!(&email.address_from, "a@x.com");
            assert_eq!(&email.address_to, "b@x.com");
        }
        other => panic!("expected a parsed email, got {other:?}"),
    }
    let bad = Data {
        email: raw_message(),
        address_from: "elsewhere@x.com".to_string(),
        address_to: "b@x.com".to_string(),
    };
    assert!(matches!(
        finish_session(Response::Email(bad)),
        Err(Error::Parse(_))
    ));
}

#[test]
fn task_rule() {
    assert!(matches!(
        task_action(Ok(Response::Continue)),
        TaskAction::Proceed
    ));
    assert!(matches!(task_action(Ok(Response::Quit)), TaskAction::Stop));
    let delivered = task_action(Err(Error::Accept("gone".to_string())));
    assert!(matches!(delivered, TaskAction::Deliver(Err(Error::Accept(_)))));
    let data = Data {
        email: raw_message(),
        address_from: "a@x.com".to_string(),
        address_to: "b@x.com".to_string(),
    };
    let email: Email = match Email::parse(data) {
        Ok(email) => email,
        Err(e) => panic!("unexpected parse failure: {e:?}"),
    };
    assert!(matches!(
        task_action(Ok(Response::Email(email))),
        TaskAction::Deliver(Ok(_))
    ));
}
