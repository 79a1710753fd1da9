//! The SMTP wire-protocol state machine.
//!
//! One session is a fixed command sequence: greeting, optional
//! authentication, then either a `NOOP` short-circuit or a
//! `MAIL`/`RCPT`/`DATA` transaction, and finally `QUIT`. The machine is
//! driven one received chunk at a time: the caller writes the returned
//! response lines, performs the next read and hands the result back.
//! Every transition is specified by [`on_line_spec`] over the character
//! views of the exchanged lines.

use vstd::prelude::*;
use vstd::string::StrSliceExecFns;
use vstd::string::StringExecFns;
use vstd::utf8::encode_utf8;

use base64ct::Encoding;

use crate::strutil::{seq_starts_with, seq_ends_with, str_starts_with, str_ends_with, str_eq};

verus! {

/// An error during an SMTP exchange.
#[derive(Debug)]
pub enum Error {
    /// An underlying transport failure, by its message.
    Io(String),
    /// A received line did not match the required literal or pattern.
    UnexpectedData { expected: String, actual: String },
    /// A received command line was not recognized.
    UnexpectedContinuation { actual: String },
}

/// The authentication details for an SMTP server.
#[derive(Clone, Debug)]
pub enum Auth {
    /// Require clients to login with the provided credentials.
    Login { username: String, password: String },
    /// Accept only anonymous clients.
    AcceptAnonOnly,
    /// Accept any client, even ones that try to login using credentials.
    AcceptAll,
}

/// The outcome of one full session.
#[derive(Debug)]
pub enum Response<T> {
    /// The transaction completed with a payload.
    Email(T),
    /// The session should restart its exchange on the same connection.
    Continue,
    /// The session must terminate and the connection be closed.
    Quit,
}

/// A raw envelope captured by a completed transaction.
#[derive(Debug)]
pub struct Data {
    /// The raw MIME payload.
    pub email: Vec<u8>,
    /// The sender address, bare, without angle brackets.
    pub address_from: String,
    /// The recipient address, bare, without angle brackets.
    pub address_to: String,
}

/// Where the machine stands inside one session, named after what the
/// next received chunk must be.
#[derive(Debug)]
pub enum SessionState {
    /// The greeting was written; the `EHLO` line is owed.
    AwaitEhlo,
    /// Capabilities were written; an `AUTH` line or a command is owed.
    AwaitAuth,
    /// Authentication succeeded; a command line is owed.
    AwaitCommand,
    /// A `NOOP` was acknowledged; `QUIT` is owed.
    AwaitQuitNoop,
    /// Authentication failed; `QUIT` is owed before closing.
    AwaitQuitAuthFail,
    /// `MAIL FROM` was acknowledged; `RCPT TO` is owed.
    AwaitRcpt { address_from: String },
    /// `RCPT TO` was acknowledged; `DATA` is owed.
    AwaitDataCommand { address_from: String, address_to: String },
    /// `354 Go` was written; the raw message bytes are owed.
    AwaitBody { address_from: String, address_to: String },
    /// The body arrived; the literal terminator line is owed.
    AwaitTerminator { address_from: String, address_to: String, email: Vec<u8> },
    /// The transaction is complete; `QUIT` is owed.
    AwaitQuitEmail { address_from: String, address_to: String, email: Vec<u8> },
}

/// What to do after a step: write the lines, then either read the next
/// chunk in the given state or finish with the session's outcome.
#[derive(Debug)]
pub enum Step {
    Read(SessionState),
    Done(Response<Data>),
}

/// The response lines owed to the peer after a step, and what follows.
#[derive(Debug)]
pub struct StepResult {
    pub writes: Vec<String>,
    pub next: Step,
}

// ----- mathematical models -----

/// Model of [`Error`].
#[verifier::ext_equal]
pub enum ErrorV {
    Io(Seq<char>),
    UnexpectedData { expected: Seq<char>, actual: Seq<char> },
    UnexpectedContinuation { actual: Seq<char> },
}

/// Model of [`Auth`].
#[verifier::ext_equal]
pub enum AuthV {
    Login { username: Seq<char>, password: Seq<char> },
    AcceptAnonOnly,
    AcceptAll,
}

/// Model of [`Response`].
#[verifier::ext_equal]
pub enum ResponseV<T> {
    Email(T),
    Continue,
    Quit,
}

/// Model of [`Data`].
#[verifier::ext_equal]
pub struct DataV {
    pub email: Seq<u8>,
    pub address_from: Seq<char>,
    pub address_to: Seq<char>,
}

/// Model of [`SessionState`].
#[verifier::ext_equal]
pub enum StateV {
    AwaitEhlo,
    AwaitAuth,
    AwaitCommand,
    AwaitQuitNoop,
    AwaitQuitAuthFail,
    AwaitRcpt { address_from: Seq<char> },
    AwaitDataCommand { address_from: Seq<char>, address_to: Seq<char> },
    AwaitBody { address_from: Seq<char>, address_to: Seq<char> },
    AwaitTerminator { address_from: Seq<char>, address_to: Seq<char>, email: Seq<u8> },
    AwaitQuitEmail { address_from: Seq<char>, address_to: Seq<char>, email: Seq<u8> },
}

/// Model of [`Step`].
#[verifier::ext_equal]
pub enum StepV {
    Read(StateV),
    Done(ResponseV<DataV>),
}

/// Model of [`StepResult`].
#[verifier::ext_equal]
pub struct StepResultV {
    pub writes: Seq<Seq<char>>,
    pub next: StepV,
}

impl View for Error {
    type V = ErrorV;

    open spec fn view(&self) -> ErrorV {
        match self {
            Error::Io(m) => ErrorV::Io(m@),
            Error::UnexpectedData { expected, actual } => (ErrorV::UnexpectedData {
                expected: expected@,
                actual: actual@,
            }),
            Error::UnexpectedContinuation { actual } => (ErrorV::UnexpectedContinuation {
                actual: actual@,
            }),
        }
    }
}

impl View for Auth {
    type V = AuthV;

    open spec fn view(&self) -> AuthV {
        match self {
            Auth::Login { username, password } => (AuthV::Login {
                username: username@,
                password: password@,
            }),
            Auth::AcceptAnonOnly => AuthV::AcceptAnonOnly,
            Auth::AcceptAll => AuthV::AcceptAll,
        }
    }
}

impl<T: View> View for Response<T> {
    type V = ResponseV<T::V>;

    open spec fn view(&self) -> ResponseV<T::V> {
        match self {
            Response::Email(t) => ResponseV::Email(t@),
            Response::Continue => ResponseV::Continue,
            Response::Quit => ResponseV::Quit,
        }
    }
}

impl View for Data {
    type V = DataV;

    open spec fn view(&self) -> DataV {
        DataV { email: self.email@, address_from: self.address_from@, address_to: self.address_to@ }
    }
}

impl View for SessionState {
    type V = StateV;

    open spec fn view(&self) -> StateV {
        match self {
            SessionState::AwaitEhlo => StateV::AwaitEhlo,
            SessionState::AwaitAuth => StateV::AwaitAuth,
            SessionState::AwaitCommand => StateV::AwaitCommand,
            SessionState::AwaitQuitNoop => StateV::AwaitQuitNoop,
            SessionState::AwaitQuitAuthFail => StateV::AwaitQuitAuthFail,
            SessionState::AwaitRcpt { address_from } => (StateV::AwaitRcpt {
                address_from: address_from@,
            }),
            SessionState::AwaitDataCommand { address_from, address_to } => (StateV::AwaitDataCommand {
                address_from: address_from@,
                address_to: address_to@,
            }),
            SessionState::AwaitBody { address_from, address_to } => (StateV::AwaitBody {
                address_from: address_from@,
                address_to: address_to@,
            }),
            SessionState::AwaitTerminator { address_from, address_to, email } => (StateV::AwaitTerminator {
                address_from: address_from@,
                address_to: address_to@,
                email: email@,
            }),
            SessionState::AwaitQuitEmail { address_from, address_to, email } => (StateV::AwaitQuitEmail {
                address_from: address_from@,
                address_to: address_to@,
                email: email@,
            }),
        }
    }
}

impl View for Step {
    type V = StepV;

    open spec fn view(&self) -> StepV {
        match self {
            Step::Read(s) => StepV::Read(s@),
            Step::Done(r) => StepV::Done(r@),
        }
    }
}

impl View for StepResult {
    type V = StepResultV;

    open spec fn view(&self) -> StepResultV {
        StepResultV { writes: self.writes.deep_view(), next: self.next@ }
    }
}

// ----- the lines of the exchange -----

/// What `base64ct::Base64::encode_string` returns: the standard padded
/// Base64 encoding of the input, a function of the bytes alone.
pub uninterp spec fn base64_of(data: Seq<u8>) -> Seq<char>;

/// The greeting the server opens with.
pub open spec fn greeting_line(server: Seq<char>) -> Seq<char> {
    "220 "@ + server + "\r\n"@
}

/// The one `EHLO` line the server accepts.
pub open spec fn ehlo_line(client: Seq<char>) -> Seq<char> {
    "EHLO ["@ + client + "]\r\n"@
}

/// The first capability line.
pub open spec fn capability_line(server: Seq<char>) -> Seq<char> {
    "250-"@ + server + "\r\n"@
}

/// The credential bytes carried by `AUTH PLAIN`:
/// `\0username\0password`, with the strings as their UTF-8 bytes.
pub open spec fn cred_blob(username: Seq<char>, password: Seq<char>) -> Seq<u8> {
    seq![0u8] + encode_utf8(username) + seq![0u8] + encode_utf8(password)
}

/// The one `AUTH PLAIN` line a Login policy accepts.
pub open spec fn login_line(username: Seq<char>, password: Seq<char>) -> Seq<char> {
    "AUTH PLAIN "@ + base64_of(cred_blob(username, password)) + "\r\n"@
}

// ----- address parsing -----

/// `line` has the shape `<command>:<...>\r\n` with an address between
/// the angle brackets.
pub open spec fn is_address_line(line: Seq<char>, command: Seq<char>) -> bool {
    seq_starts_with(line, command + ":<"@) && seq_ends_with(line, ">\r\n"@)
}

/// The address between the brackets of a well-shaped command line.
pub open spec fn address_of(line: Seq<char>, command: Seq<char>) -> Seq<char> {
    line.subrange(command.len() as int + 2, line.len() - 3)
}

/// What [`expect_address`] returns.
pub open spec fn expect_address_spec(line: Seq<char>, command: Seq<char>) -> Result<
    Seq<char>,
    ErrorV,
> {
    if is_address_line(line, command) {
        Ok(address_of(line, command))
    } else {
        Err(
            ErrorV::UnexpectedData {
                expected: command + ":<...>\r\n"@,
                actual: line,
            },
        )
    }
}

/// A well-shaped address line is long enough that the address subrange
/// is meaningful: the closing bracket of the prefix cannot reach into
/// the `>\r\n` suffix.
proof fn lemma_address_line_long_enough(line: Seq<char>, command: Seq<char>)
    requires
        is_address_line(line, command),
    ensures
        command.len() + 2 <= line.len() - 3,
{
    reveal_strlit(":<");
    reveal_strlit(">\r\n");
    let p = command + ":<"@;
    let n = line.len() as int;
    assert(line.subrange(0, p.len() as int)[p.len() - 1] == p[p.len() - 1]);
    assert(line[p.len() - 1] == '<');
    assert(line.subrange(n - 3, n)[0] == ">\r\n"@[0]);
    assert(line.subrange(n - 3, n)[1] == ">\r\n"@[1]);
    assert(line.subrange(n - 3, n)[2] == ">\r\n"@[2]);
    assert(line[n - 3] == '>');
    assert(line[n - 2] == '\r');
    assert(line[n - 1] == '\n');
}

/// Cuts the address out of a line of the shape `<command>:<...>\r\n`,
/// or reports the expected pattern and the offending line.
pub fn expect_address(data: String, command: &str) -> (r: Result<String, Error>)
    ensures
        match r {
            Ok(a) => {
                &&& expect_address_spec(data@, command@) is Ok
                &&& a@ == expect_address_spec(data@, command@)->Ok_0
            },
            Err(e) => {
                &&& expect_address_spec(data@, command@) is Err
                &&& e@ == expect_address_spec(data@, command@)->Err_0
            },
        },
{
    let prefix = command.to_owned().concat(":<");
    proof {
        reveal_strlit(":<");
        reveal_strlit(">\r\n");
    }
    if str_starts_with(data.as_str(), prefix.as_str()) && str_ends_with(data.as_str(), ">\r\n") {
        proof {
            lemma_address_line_long_enough(data@, command@);
        }
        let start = prefix.unicode_len();
        let end = data.as_str().unicode_len() - 3;
        let part = data.as_str().substring_char(start, end).to_owned();
        Ok(part)
    } else {
        Err(Error::UnexpectedData { expected: command.to_owned().concat(":<...>\r\n"), actual: data })
    }
}

// ----- the transition function, in specification form -----

/// The step taken when an authentication attempt succeeds.
pub open spec fn auth_ok_step() -> Result<StepResultV, ErrorV> {
    Ok(
        StepResultV {
            writes: seq!["235 Authentication successful\r\n"@],
            next: StepV::Read(StateV::AwaitCommand),
        },
    )
}

/// The step taken when an authentication attempt is rejected.
pub open spec fn auth_fail_step() -> Result<StepResultV, ErrorV> {
    Ok(
        StepResultV {
            writes: seq!["535 Authentication failed\r\n"@],
            next: StepV::Read(StateV::AwaitQuitAuthFail),
        },
    )
}

/// A state whose only acceptable line is `QUIT`, answered with `221`
/// and the given conclusion.
pub open spec fn expect_quit_spec(line: Seq<char>, done: StepV) -> Result<StepResultV, ErrorV> {
    if line == "QUIT\r\n"@ {
        Ok(StepResultV { writes: seq!["221 Ok\r\n"@], next: done })
    } else {
        Err(ErrorV::UnexpectedData { expected: "QUIT\r\n"@, actual: line })
    }
}

/// Command dispatch: a `NOOP` short-circuit, the start of a `MAIL`
/// transaction, or an unrecognized continuation.
pub open spec fn dispatch_spec(line: Seq<char>) -> Result<StepResultV, ErrorV> {
    if line == "NOOP\r\n"@ {
        Ok(StepResultV { writes: seq!["250 Ok\r\n"@], next: StepV::Read(StateV::AwaitQuitNoop) })
    } else if seq_starts_with(line, "MAIL"@) {
        match expect_address_spec(line, "MAIL FROM"@) {
            Ok(a) => Ok(
                StepResultV {
                    writes: seq!["250 Ok\r\n"@],
                    next: StepV::Read(StateV::AwaitRcpt { address_from: a }),
                },
            ),
            Err(e) => Err(e),
        }
    } else {
        Err(ErrorV::UnexpectedContinuation { actual: line })
    }
}

/// The full transition on one received line. The `AwaitBody` state is
/// the one state fed bytes instead, by [`on_chunk_spec`].
pub open spec fn on_line_spec(
    state: StateV,
    line: Seq<char>,
    server: Seq<char>,
    client: Seq<char>,
    auth: AuthV,
) -> Result<StepResultV, ErrorV> {
    match state {
        StateV::AwaitEhlo => if line == ehlo_line(client) {
            Ok(
                StepResultV {
                    writes: seq![capability_line(server), "250 AUTH PLAIN\r\n"@],
                    next: StepV::Read(StateV::AwaitAuth),
                },
            )
        } else {
            Err(ErrorV::UnexpectedData { expected: ehlo_line(client), actual: line })
        },
        StateV::AwaitAuth => if seq_starts_with(line, "AUTH"@) {
            match auth {
                AuthV::Login { username, password } => if line == login_line(username, password) {
                    auth_ok_step()
                } else {
                    auth_fail_step()
                },
                AuthV::AcceptAnonOnly => auth_fail_step(),
                AuthV::AcceptAll => auth_ok_step(),
            }
        } else {
            match auth {
                AuthV::Login { username, password } => auth_fail_step(),
                AuthV::AcceptAnonOnly => dispatch_spec(line),
                AuthV::AcceptAll => dispatch_spec(line),
            }
        },
        StateV::AwaitCommand => dispatch_spec(line),
        StateV::AwaitQuitNoop => expect_quit_spec(line, StepV::Done(ResponseV::Continue)),
        StateV::AwaitQuitAuthFail => expect_quit_spec(line, StepV::Done(ResponseV::Quit)),
        StateV::AwaitRcpt { address_from } => match expect_address_spec(line, "RCPT TO"@) {
            Ok(a) => Ok(
                StepResultV {
                    writes: seq!["250 Ok\r\n"@],
                    next: StepV::Read(
                        StateV::AwaitDataCommand { address_from, address_to: a },
                    ),
                },
            ),
            Err(e) => Err(e),
        },
        StateV::AwaitDataCommand { address_from, address_to } => if line == "DATA\r\n"@ {
            Ok(
                StepResultV {
                    writes: seq!["354 Go\r\n"@],
                    next: StepV::Read(StateV::AwaitBody { address_from, address_to }),
                },
            )
        } else {
            Err(ErrorV::UnexpectedData { expected: "DATA\r\n"@, actual: line })
        },
        StateV::AwaitBody { address_from, address_to } => arbitrary(),
        StateV::AwaitTerminator { address_from, address_to, email } => if line == "\r\n.\r\n"@ {
            Ok(
                StepResultV {
                    writes: seq!["250 Ok\r\n"@],
                    next: StepV::Read(
                        StateV::AwaitQuitEmail { address_from, address_to, email },
                    ),
                },
            )
        } else {
            Err(ErrorV::UnexpectedData { expected: "\r\n.\r\n"@, actual: line })
        },
        StateV::AwaitQuitEmail { address_from, address_to, email } => expect_quit_spec(
            line,
            StepV::Done(ResponseV::Email(DataV { email, address_from, address_to })),
        ),
    }
}

/// The transition on the one raw byte read of a session: the body is
/// captured whole and the terminator line is owed next.
pub open spec fn on_chunk_spec(state: StateV, chunk: Seq<u8>) -> StepResultV
    recommends
        state is AwaitBody,
{
    match state {
        StateV::AwaitBody { address_from, address_to } => (StepResultV {
            writes: Seq::empty(),
            next: StepV::Read(
                StateV::AwaitTerminator { address_from, address_to, email: chunk },
            ),
        }),
        _ => arbitrary(),
    }
}

/// An executable step result agrees with a specified one.
pub open spec fn step_matches(r: Result<StepResult, Error>, m: Result<StepResultV, ErrorV>) -> bool {
    match r {
        Ok(x) => m is Ok && x@ == m->Ok_0,
        Err(e) => m is Err && e@ == m->Err_0,
    }
}

// ----- executable steps -----

/// Relies on `base64ct::Base64::encode_string`: the standard padded
/// Base64 encoding of the input bytes, named [`base64_of`]. The length
/// bound keeps the encoded length within `usize`, where the encoder
/// would panic.
#[verifier::external_body]
fn base64_encode(data: &Vec<u8>) -> (r: String)
    requires
        4 * data@.len() <= usize::MAX,
    ensures
        r@ == base64_of(data@),
{
    base64ct::Base64::encode_string(data.as_slice())
}

/// The Base64 credential blob a Login policy expects: the encoding of
/// `\0username\0password`.
fn encode_password(username: &str, password: &str) -> (r: String)
    requires
        4 * cred_blob(username@, password@).len() <= usize::MAX,
    ensures
        r@ == base64_of(cred_blob(username@, password@)),
{
    let ubytes = username.as_bytes_vec();
    let pbytes = password.as_bytes_vec();
    let mut data: Vec<u8> = Vec::new();
    data.push(0);
    let mut i: usize = 0;
    while i < ubytes.len()
        invariant
            i <= ubytes@.len(),
            ubytes@ == encode_utf8(username@),
            data@ == seq![0u8] + ubytes@.subrange(0, i as int),
        decreases ubytes@.len() - i,
    {
        data.push(ubytes[i]);
        assert(data@ =~= seq![0u8] + ubytes@.subrange(0, i + 1));
        i += 1;
    }
    assert(ubytes@.subrange(0, ubytes@.len() as int) =~= ubytes@);
    data.push(0);
    let mut j: usize = 0;
    while j < pbytes.len()
        invariant
            j <= pbytes@.len(),
            ubytes@ == encode_utf8(username@),
            pbytes@ == encode_utf8(password@),
            data@ == seq![0u8] + ubytes@ + seq![0u8] + pbytes@.subrange(0, j as int),
        decreases pbytes@.len() - j,
    {
        data.push(pbytes[j]);
        assert(data@ =~= seq![0u8] + ubytes@ + seq![0u8] + pbytes@.subrange(0, j + 1));
        j += 1;
    }
    assert(data@ =~= cred_blob(username@, password@));
    base64_encode(&data)
}

/// The exact `AUTH PLAIN` line a Login policy accepts.
fn auth_plain_line(username: &str, password: &str) -> (r: String)
    requires
        4 * cred_blob(username@, password@).len() <= usize::MAX,
    ensures
        r@ == login_line(username@, password@),
{
    let encoded = encode_password(username, password);
    let r = String::from_str("AUTH PLAIN ").concat(encoded.as_str()).concat("\r\n");
    assert(r@ =~= login_line(username@, password@));
    r
}

/// One response line, then read again in the given state.
fn step_read(message: &str, next: SessionState) -> (r: StepResult)
    ensures
        r@ == (StepResultV { writes: seq![message@], next: StepV::Read(next@) }),
{
    let mut writes: Vec<String> = Vec::new();
    writes.push(message.to_owned());
    let r = StepResult { writes, next: Step::Read(next) };
    assert(r@.writes =~= seq![message@]);
    r
}

/// Two response lines, then read again in the given state.
fn step_read_two(first: String, second: &str, next: SessionState) -> (r: StepResult)
    ensures
        r@ == (StepResultV { writes: seq![first@, second@], next: StepV::Read(next@) }),
{
    let ghost first_view = first@;
    let mut writes: Vec<String> = Vec::new();
    writes.push(first);
    writes.push(second.to_owned());
    let r = StepResult { writes, next: Step::Read(next) };
    assert(r@.writes =~= seq![first_view, second@]);
    r
}

/// Command dispatch on a received line.
fn dispatch(line: String) -> (r: Result<StepResult, Error>)
    ensures
        step_matches(r, dispatch_spec(line@)),
{
    if str_eq(line.as_str(), "NOOP\r\n") {
        Ok(step_read("250 Ok\r\n", SessionState::AwaitQuitNoop))
    } else if str_starts_with(line.as_str(), "MAIL") {
        match expect_address(line, "MAIL FROM") {
            Ok(address_from) => Ok(
                step_read("250 Ok\r\n", SessionState::AwaitRcpt { address_from }),
            ),
            Err(e) => Err(e),
        }
    } else {
        Err(Error::UnexpectedContinuation { actual: line })
    }
}

/// `QUIT` is owed: acknowledge it and conclude, or report the mismatch.
fn expect_quit(line: String, done: Response<Data>) -> (r: Result<StepResult, Error>)
    ensures
        step_matches(r, expect_quit_spec(line@, StepV::Done(done@))),
{
    if str_eq(line.as_str(), "QUIT\r\n") {
        let mut writes: Vec<String> = Vec::new();
        writes.push("221 Ok\r\n".to_owned());
        let r = StepResult { writes, next: Step::Done(done) };
        assert(r@.writes =~= seq!["221 Ok\r\n"@]);
        Ok(r)
    } else {
        Err(Error::UnexpectedData { expected: "QUIT\r\n".to_owned(), actual: line })
    }
}

/// Opens a session: the greeting to write, and the state awaiting the
/// peer's `EHLO`.
pub fn session_start(server_address: &str) -> (r: (Vec<String>, SessionState))
    ensures
        r.0.deep_view() =~= seq![greeting_line(server_address@)],
        r.1@ == StateV::AwaitEhlo,
{
    let greeting = String::from_str("220 ").concat(server_address).concat("\r\n");
    assert(greeting@ =~= greeting_line(server_address@));
    let mut writes: Vec<String> = Vec::new();
    writes.push(greeting);
    (writes, SessionState::AwaitEhlo)
}

/// Whether the next read of the session is the one raw byte read.
pub fn wants_chunk(state: &SessionState) -> (b: bool)
    ensures
        b == (state@ is AwaitBody),
{
    match state {
        SessionState::AwaitBody { .. } => true,
        _ => false,
    }
}

/// Drives the machine one received line forward: the answer lines to
/// write, and either the next state to read in or the session's
/// conclusion. Exactly [`on_line_spec`] of the views.
pub fn session_on_line(
    state: SessionState,
    line: String,
    server_address: &str,
    client_address: &str,
    auth: &Auth,
) -> (r: Result<StepResult, Error>)
    requires
        !(state@ is AwaitBody),
        (auth@ matches AuthV::Login { username, password } ==> 4 * cred_blob(
            username,
            password,
        ).len() <= usize::MAX),
    ensures
        step_matches(r, on_line_spec(state@, line@, server_address@, client_address@, auth@)),
{
    match state {
        SessionState::AwaitEhlo => {
            let expected = String::from_str("EHLO [").concat(client_address).concat("]\r\n");
            assert(expected@ =~= ehlo_line(client_address@));
            if line == expected {
                let capability = String::from_str("250-").concat(server_address).concat("\r\n");
                assert(capability@ =~= capability_line(server_address@));
                Ok(step_read_two(capability, "250 AUTH PLAIN\r\n", SessionState::AwaitAuth))
            } else {
                Err(Error::UnexpectedData { expected, actual: line })
            }
        },
        SessionState::AwaitAuth => {
            if str_starts_with(line.as_str(), "AUTH") {
                match auth {
                    Auth::Login { username, password } => {
                        let expected = auth_plain_line(username.as_str(), password.as_str());
                        if line == expected {
                            Ok(
                                step_read(
                                    "235 Authentication successful\r\n",
                                    SessionState::AwaitCommand,
                                ),
                            )
                        } else {
                            Ok(
                                step_read(
                                    "535 Authentication failed\r\n",
                                    SessionState::AwaitQuitAuthFail,
                                ),
                            )
                        }
                    },
                    Auth::AcceptAnonOnly => Ok(
                        step_read("535 Authentication failed\r\n", SessionState::AwaitQuitAuthFail),
                    ),
                    Auth::AcceptAll => Ok(
                        step_read("235 Authentication successful\r\n", SessionState::AwaitCommand),
                    ),
                }
            } else {
                match auth {
                    Auth::Login { .. } => Ok(
                        step_read("535 Authentication failed\r\n", SessionState::AwaitQuitAuthFail),
                    ),
                    Auth::AcceptAnonOnly => dispatch(line),
                    Auth::AcceptAll => dispatch(line),
                }
            }
        },
        SessionState::AwaitCommand => dispatch(line),
        SessionState::AwaitQuitNoop => expect_quit(line, Response::Continue),
        SessionState::AwaitQuitAuthFail => expect_quit(line, Response::Quit),
        SessionState::AwaitRcpt { address_from } => {
            match expect_address(line, "RCPT TO") {
                Ok(address_to) => Ok(
                    step_read(
                        "250 Ok\r\n",
                        SessionState::AwaitDataCommand { address_from, address_to },
                    ),
                ),
                Err(e) => Err(e),
            }
        },
        SessionState::AwaitDataCommand { address_from, address_to } => {
            if str_eq(line.as_str(), "DATA\r\n") {
                Ok(
                    step_read("354 Go\r\n", SessionState::AwaitBody { address_from, address_to }),
                )
            } else {
                Err(Error::UnexpectedData { expected: "DATA\r\n".to_owned(), actual: line })
            }
        },
        SessionState::AwaitBody { .. } => vstd::pervasive::unreached(),
        SessionState::AwaitTerminator { address_from, address_to, email } => {
            if str_eq(line.as_str(), "\r\n.\r\n") {
                Ok(
                    step_read(
                        "250 Ok\r\n",
                        SessionState::AwaitQuitEmail { address_from, address_to, email },
                    ),
                )
            } else {
                Err(Error::UnexpectedData { expected: "\r\n.\r\n".to_owned(), actual: line })
            }
        },
        SessionState::AwaitQuitEmail { address_from, address_to, email } => expect_quit(
            line,
            Response::Email(Data { email, address_from, address_to }),
        ),
    }
}

/// Captures the raw message bytes: the one read of a session that is
/// handed bytes rather than a line. Nothing is written; the terminator
/// line is owed next.
pub fn session_on_chunk(state: SessionState, chunk: Vec<u8>) -> (r: StepResult)
    requires
        state@ is AwaitBody,
    ensures
        r@ == on_chunk_spec(state@, chunk@),
{
    match state {
        SessionState::AwaitBody { address_from, address_to } => {
            let writes: Vec<String> = Vec::new();
            let r = StepResult {
                writes,
                next: Step::Read(
                    SessionState::AwaitTerminator { address_from, address_to, email: chunk },
                ),
            };
            assert(r@.writes =~= Seq::<Seq<char>>::empty());
            r
        },
        _ => vstd::pervasive::unreached(),
    }
}

// ----- the accepted paths, as proved laws -----

/// A command line carrying an address: `<command>:<address>\r\n` with
/// the address between angle brackets.
pub open spec fn address_line(command: Seq<char>, address: Seq<char>) -> Seq<char> {
    command + ":<"@ + address + ">\r\n"@
}

/// Formatting an address into a command line and parsing it back is the
/// identity: such a line is always accepted and yields the address.
pub proof fn lemma_expect_address_roundtrip(command: Seq<char>, address: Seq<char>)
    ensures
        expect_address_spec(address_line(command, address), command) == Ok::<Seq<char>, ErrorV>(
            address,
        ),
{
    reveal_strlit(":<");
    reveal_strlit(">\r\n");
    let line = address_line(command, address);
    assert(line.subrange(0, (command + ":<"@).len() as int) =~= command + ":<"@);
    assert(line.subrange(line.len() - 3, line.len() as int) =~= ">\r\n"@);
    assert(address_of(line, command) =~= address);
}

/// The one accepted transaction: from the command stage, the
/// `MAIL`/`RCPT`/`DATA` sequence with bracketed addresses, one body
/// chunk, the literal terminator and `QUIT` walk the machine straight
/// through to an `Email` outcome carrying exactly the envelope and the
/// chunk, whatever the addresses, the body and the policy.
pub proof fn lemma_transaction_path(
    address_from: Seq<char>,
    address_to: Seq<char>,
    body: Seq<u8>,
    server: Seq<char>,
    client: Seq<char>,
    auth: AuthV,
)
    ensures
        on_line_spec(StateV::AwaitEhlo, ehlo_line(client), server, client, auth) == Ok::<
            StepResultV,
            ErrorV,
        >(
            StepResultV {
                writes: seq![capability_line(server), "250 AUTH PLAIN\r\n"@],
                next: StepV::Read(StateV::AwaitAuth),
            },
        ),
        on_line_spec(
            StateV::AwaitCommand,
            address_line("MAIL FROM"@, address_from),
            server,
            client,
            auth,
        ) == Ok::<StepResultV, ErrorV>(
            StepResultV {
                writes: seq!["250 Ok\r\n"@],
                next: StepV::Read(StateV::AwaitRcpt { address_from }),
            },
        ),
        on_line_spec(
            StateV::AwaitRcpt { address_from },
            address_line("RCPT TO"@, address_to),
            server,
            client,
            auth,
        ) == Ok::<StepResultV, ErrorV>(
            StepResultV {
                writes: seq!["250 Ok\r\n"@],
                next: StepV::Read(StateV::AwaitDataCommand { address_from, address_to }),
            },
        ),
        on_line_spec(
            StateV::AwaitDataCommand { address_from, address_to },
            "DATA\r\n"@,
            server,
            client,
            auth,
        ) == Ok::<StepResultV, ErrorV>(
            StepResultV {
                writes: seq!["354 Go\r\n"@],
                next: StepV::Read(StateV::AwaitBody { address_from, address_to }),
            },
        ),
        on_chunk_spec(StateV::AwaitBody { address_from, address_to }, body) == (StepResultV {
            writes: Seq::empty(),
            next: StepV::Read(StateV::AwaitTerminator { address_from, address_to, email: body }),
        }),
        on_line_spec(
            StateV::AwaitTerminator { address_from, address_to, email: body },
            "\r\n.\r\n"@,
            server,
            client,
            auth,
        ) == Ok::<StepResultV, ErrorV>(
            StepResultV {
                writes: seq!["250 Ok\r\n"@],
                next: StepV::Read(StateV::AwaitQuitEmail { address_from, address_to, email: body }),
            },
        ),
        on_line_spec(
            StateV::AwaitQuitEmail { address_from, address_to, email: body },
            "QUIT\r\n"@,
            server,
            client,
            auth,
        ) == Ok::<StepResultV, ErrorV>(
            StepResultV {
                writes: seq!["221 Ok\r\n"@],
                next: StepV::Done(
                    ResponseV::Email(DataV { email: body, address_from, address_to }),
                ),
            },
        ),
{
    let mail_line = address_line("MAIL FROM"@, address_from);
    lemma_expect_address_roundtrip("MAIL FROM"@, address_from);
    lemma_expect_address_roundtrip("RCPT TO"@, address_to);
    reveal_strlit("MAIL FROM");
    reveal_strlit("MAIL");
    reveal_strlit("NOOP\r\n");
    reveal_strlit(":<");
    assert(mail_line[0] == 'M');
    if mail_line == "NOOP\r\n"@ {
        assert("NOOP\r\n"@[0] == 'N');
        assert(false);
    }
    assert(mail_line.subrange(0, 4) =~= "MAIL"@);
    assert(seq_starts_with(mail_line, "MAIL"@));
}

// ----- the authentication policies, as proved laws -----

/// Under a `Login` policy the authentication stage accepts exactly the
/// `AUTH PLAIN` line carrying the Base64 of `\0username\0password`:
/// that line is answered `235` and the session moves on to the command
/// stage; any other `AUTH` line is answered `535` and leads to the
/// failure state; a client that skips authentication is turned away the
/// same way.
pub proof fn lemma_login_policy(
    username: Seq<char>,
    password: Seq<char>,
    line: Seq<char>,
    server: Seq<char>,
    client: Seq<char>,
)
    ensures
        ({
            let r = on_line_spec(
                StateV::AwaitAuth,
                line,
                server,
                client,
                AuthV::Login { username, password },
            );
            &&& (seq_starts_with(line, "AUTH"@) && line == login_line(username, password)) ==> r
                == auth_ok_step()
            &&& (seq_starts_with(line, "AUTH"@) && line != login_line(username, password)) ==> r
                == auth_fail_step()
            &&& !seq_starts_with(line, "AUTH"@) ==> r == auth_fail_step()
        }),
{
}

/// Under `AcceptAnonOnly` every `AUTH` line whatsoever is rejected,
/// while a client that skips authentication has its line handled
/// exactly as the command stage would.
pub proof fn lemma_accept_anon_only_policy(line: Seq<char>, server: Seq<char>, client: Seq<char>)
    ensures
        ({
            let r = on_line_spec(StateV::AwaitAuth, line, server, client, AuthV::AcceptAnonOnly);
            &&& seq_starts_with(line, "AUTH"@) ==> r == auth_fail_step()
            &&& !seq_starts_with(line, "AUTH"@) ==> r == dispatch_spec(line) && r == on_line_spec(
                StateV::AwaitCommand,
                line,
                server,
                client,
                AuthV::AcceptAnonOnly,
            )
        }),
{
}

/// Under `AcceptAll` every `AUTH` line whatsoever is accepted, and a
/// client that skips authentication has its line handled exactly as the
/// command stage would.
pub proof fn lemma_accept_all_policy(line: Seq<char>, server: Seq<char>, client: Seq<char>)
    ensures
        ({
            let r = on_line_spec(StateV::AwaitAuth, line, server, client, AuthV::AcceptAll);
            &&& seq_starts_with(line, "AUTH"@) ==> r == auth_ok_step()
            &&& !seq_starts_with(line, "AUTH"@) ==> r == dispatch_spec(line) && r == on_line_spec(
                StateV::AwaitCommand,
                line,
                server,
                client,
                AuthV::AcceptAll,
            )
        }),
{
}

/// After a rejected authentication the server owes nothing but the
/// `221` goodbye: the one acceptable line is `QUIT`, and the session
/// then ends with a `Quit` outcome, for every policy.
pub proof fn lemma_auth_fail_quits(
    line: Seq<char>,
    server: Seq<char>,
    client: Seq<char>,
    auth: AuthV,
)
    ensures
        line == "QUIT\r\n"@ ==> on_line_spec(StateV::AwaitQuitAuthFail, line, server, client, auth)
            == Ok::<StepResultV, ErrorV>(
            StepResultV { writes: seq!["221 Ok\r\n"@], next: StepV::Done(ResponseV::Quit) },
        ),
        line != "QUIT\r\n"@ ==> on_line_spec(StateV::AwaitQuitAuthFail, line, server, client, auth)
            == Err::<StepResultV, ErrorV>(
            ErrorV::UnexpectedData { expected: "QUIT\r\n"@, actual: line },
        ),
{
}

} // verus!
