//! The received-message validator and converter.
//!
//! A completed transaction leaves a raw envelope: sender, recipient and
//! the captured MIME bytes. The bytes are parsed by the `mailparse`
//! crate behind one trusted wrapper; everything after that — the
//! `From`/`To`/`Subject` occurrence and consistency checks, the
//! two-part shape of the payload and the final [`Email`] value — is
//! verified against [`convert_spec`].

use vstd::prelude::*;
use vstd::string::StrSliceExecFns;
use vstd::string::StringExecFns;

use crate::strutil::{
    seq_contains_sub, seq_ends_with, seq_eq_ignore_ascii_case, str_contains, str_ends_with,
    str_eq, str_eq_ignore_ascii_case,
};

verus! {

/// A parsed email as received by the server.
#[derive(Debug)]
#[non_exhaustive]
pub struct Email {
    /// The email address of the sender, as received in the SMTP
    /// exchange; it does not include a name.
    pub address_from: String,
    /// The email address of the recipient, as received in the SMTP
    /// exchange; it does not include a name.
    pub address_to: String,
    /// The subject of this email, taken from the headers.
    pub subject: String,
    /// The headers, one entry per name: a later occurrence of a name
    /// overwrites an earlier one.
    pub headers: Vec<(String, String)>,
    /// The text part of this email.
    pub body_text: String,
    /// The html part of this email.
    pub body_html: String,
}

/// An error during email parsing.
#[derive(Debug)]
pub enum ParseError {
    /// The payload is not valid MIME; carries the parser's message.
    Parse(String),
    /// The payload parsed but failed validation.
    Convert(ConversionError),
}

/// An error during conversion of a parsed payload into an [`Email`].
#[derive(Debug)]
pub enum ConversionError {
    MisingFromAddress,
    MultipleFromAddresses(Vec<String>),
    FromAddressMismatch { smtp: String, email: String },
    MisingToAddress,
    MultipleToAddresses(Vec<String>),
    ToAddressMismatch { smtp: String, email: String },
    MisingSubject,
    MultipleSubjects(Vec<String>),
    UnexpectedPartCount(usize),
    UnexpectedPartMime { actual: String, expected: &'static str },
}

/// One top-level body part of a parsed payload: its declared MIME type
/// and its decoded body.
#[derive(Debug)]
pub struct MailPart {
    pub mime: String,
    pub body: String,
}

/// What the library reads out of a parsed MIME message: the top-level
/// headers in order, and the top-level parts.
#[derive(Debug)]
pub struct MailMessage {
    pub headers: Vec<(String, String)>,
    pub parts: Vec<MailPart>,
}

// ----- mathematical models -----

/// Model of [`MailPart`].
#[verifier::ext_equal]
pub struct MailPartV {
    pub mime: Seq<char>,
    pub body: Seq<char>,
}

/// Model of [`MailMessage`].
#[verifier::ext_equal]
pub struct MailMessageV {
    pub headers: Seq<(Seq<char>, Seq<char>)>,
    pub parts: Seq<MailPartV>,
}

/// Model of [`Email`]: the header list is abstracted to the mapping it
/// denotes, a later occurrence of a name overwriting an earlier one.
#[verifier::ext_equal]
pub struct EmailV {
    pub address_from: Seq<char>,
    pub address_to: Seq<char>,
    pub subject: Seq<char>,
    pub headers: Map<Seq<char>, Seq<char>>,
    pub body_text: Seq<char>,
    pub body_html: Seq<char>,
}

/// Model of [`ConversionError`].
#[verifier::ext_equal]
pub enum ConversionErrorV {
    MisingFromAddress,
    MultipleFromAddresses(Seq<Seq<char>>),
    FromAddressMismatch { smtp: Seq<char>, email: Seq<char> },
    MisingToAddress,
    MultipleToAddresses(Seq<Seq<char>>),
    ToAddressMismatch { smtp: Seq<char>, email: Seq<char> },
    MisingSubject,
    MultipleSubjects(Seq<Seq<char>>),
    UnexpectedPartCount(nat),
    UnexpectedPartMime { actual: Seq<char>, expected: Seq<char> },
}

/// Model of [`ParseError`].
#[verifier::ext_equal]
pub enum ParseErrorV {
    Parse(Seq<char>),
    Convert(ConversionErrorV),
}

impl View for MailPart {
    type V = MailPartV;

    open spec fn view(&self) -> MailPartV {
        MailPartV { mime: self.mime@, body: self.body@ }
    }
}

impl DeepView for MailPart {
    type V = MailPartV;

    open spec fn deep_view(&self) -> MailPartV {
        self.view()
    }
}

impl View for MailMessage {
    type V = MailMessageV;

    open spec fn view(&self) -> MailMessageV {
        MailMessageV { headers: self.headers.deep_view(), parts: self.parts.deep_view() }
    }
}

impl View for Email {
    type V = EmailV;

    open spec fn view(&self) -> EmailV {
        EmailV {
            address_from: self.address_from@,
            address_to: self.address_to@,
            subject: self.subject@,
            headers: entries_map(self.headers.deep_view()),
            body_text: self.body_text@,
            body_html: self.body_html@,
        }
    }
}

impl View for ConversionError {
    type V = ConversionErrorV;

    open spec fn view(&self) -> ConversionErrorV {
        match self {
            ConversionError::MisingFromAddress => ConversionErrorV::MisingFromAddress,
            ConversionError::MultipleFromAddresses(v) => ConversionErrorV::MultipleFromAddresses(
                v.deep_view(),
            ),
            ConversionError::FromAddressMismatch { smtp, email } => (ConversionErrorV::FromAddressMismatch {
                smtp: smtp@,
                email: email@,
            }),
            ConversionError::MisingToAddress => ConversionErrorV::MisingToAddress,
            ConversionError::MultipleToAddresses(v) => ConversionErrorV::MultipleToAddresses(
                v.deep_view(),
            ),
            ConversionError::ToAddressMismatch { smtp, email } => (ConversionErrorV::ToAddressMismatch {
                smtp: smtp@,
                email: email@,
            }),
            ConversionError::MisingSubject => ConversionErrorV::MisingSubject,
            ConversionError::MultipleSubjects(v) => ConversionErrorV::MultipleSubjects(
                v.deep_view(),
            ),
            ConversionError::UnexpectedPartCount(n) => ConversionErrorV::UnexpectedPartCount(
                *n as nat,
            ),
            ConversionError::UnexpectedPartMime { actual, expected } => (ConversionErrorV::UnexpectedPartMime {
                actual: actual@,
                expected: expected@,
            }),
        }
    }
}

impl View for ParseError {
    type V = ParseErrorV;

    open spec fn view(&self) -> ParseErrorV {
        match self {
            ParseError::Parse(m) => ParseErrorV::Parse(m@),
            ParseError::Convert(c) => ParseErrorV::Convert(c@),
        }
    }
}

// ----- the header list as a mapping -----

/// No header name occurs twice.
pub open spec fn unique_keys(hs: Seq<(Seq<char>, Seq<char>)>) -> bool {
    forall|i: int, j: int| 0 <= i < j < hs.len() ==> hs[i].0 != hs[j].0
}

/// The mapping denoted by a header list: entries inserted in order, so
/// a later occurrence of a name overwrites an earlier one.
pub open spec fn entries_map(hs: Seq<(Seq<char>, Seq<char>)>) -> Map<Seq<char>, Seq<char>>
    decreases hs.len(),
{
    if hs.len() == 0 {
        Map::empty()
    } else {
        entries_map(hs.drop_last()).insert(hs.last().0, hs.last().1)
    }
}

/// A name is in the mapping exactly when some entry carries it.
proof fn lemma_entries_contains(hs: Seq<(Seq<char>, Seq<char>)>, key: Seq<char>)
    ensures
        entries_map(hs).contains_key(key) <==> exists|i: int|
            0 <= i < hs.len() && hs[i].0 == key,
    decreases hs.len(),
{
    if hs.len() > 0 {
        lemma_entries_contains(hs.drop_last(), key);
        if hs.last().0 == key {
            assert(hs[hs.len() - 1].0 == key);
        } else if entries_map(hs).contains_key(key) {
            let i = choose|i: int| 0 <= i < hs.drop_last().len() && hs.drop_last()[i].0 == key;
            assert(hs[i].0 == key);
        } else {
            assert forall|i: int| 0 <= i < hs.len() implies hs[i].0 != key by {
                if i < hs.len() - 1 {
                    assert(hs.drop_last()[i].0 != key);
                }
            }
        }
    }
}

/// With unique names, the mapping sends an entry's name to its value.
proof fn lemma_entries_lookup(hs: Seq<(Seq<char>, Seq<char>)>, i: int)
    requires
        unique_keys(hs),
        0 <= i < hs.len(),
    ensures
        entries_map(hs).contains_key(hs[i].0),
        entries_map(hs)[hs[i].0] == hs[i].1,
    decreases hs.len(),
{
    if i == hs.len() - 1 {
    } else {
        assert(unique_keys(hs.drop_last()));
        assert(hs.drop_last()[i] == hs[i]);
        lemma_entries_lookup(hs.drop_last(), i);
        assert(hs[i].0 != hs.last().0);
    }
}

/// Overwriting the value of an entry, under unique names, is insertion
/// into the mapping.
proof fn lemma_entries_update(hs: Seq<(Seq<char>, Seq<char>)>, j: int, value: Seq<char>)
    requires
        unique_keys(hs),
        0 <= j < hs.len(),
    ensures
        entries_map(hs.update(j, (hs[j].0, value))) == entries_map(hs).insert(hs[j].0, value),
    decreases hs.len(),
{
    let updated = hs.update(j, (hs[j].0, value));
    if j == hs.len() - 1 {
        assert(updated.drop_last() =~= hs.drop_last());
        assert(updated.last() == (hs[j].0, value));
        assert(entries_map(updated) =~= entries_map(hs).insert(hs[j].0, value));
    } else {
        assert(unique_keys(hs.drop_last()));
        assert(hs.drop_last()[j] == hs[j]);
        lemma_entries_update(hs.drop_last(), j, value);
        assert(updated.drop_last() =~= hs.drop_last().update(j, (hs[j].0, value)));
        assert(updated.last() == hs.last());
        assert(hs[j].0 != hs.last().0);
        assert(entries_map(updated) =~= entries_map(hs).insert(hs[j].0, value));
    }
}

/// The values of all headers carrying the given name (without regard to
/// ASCII case), in order; the header lookup of the mail parser.
pub open spec fn header_values(hs: Seq<(Seq<char>, Seq<char>)>, key: Seq<char>) -> Seq<Seq<char>>
    decreases hs.len(),
{
    if hs.len() == 0 {
        Seq::empty()
    } else {
        let rest = header_values(hs.drop_last(), key);
        if seq_eq_ignore_ascii_case(hs.last().0, key) {
            rest.push(hs.last().1)
        } else {
            rest
        }
    }
}

/// A single trailing CRLF stripped, if present.
pub open spec fn strip_crlf(s: Seq<char>) -> Seq<char> {
    if seq_ends_with(s, "\r\n"@) {
        s.subrange(0, s.len() - 2)
    } else {
        s
    }
}

// ----- what conversion returns -----

/// What [`convert_email`] returns, on the models: the occurrence and
/// consistency checks in their order, then the two-part shape, then the
/// assembled email.
pub open spec fn convert_spec(
    address_from: Seq<char>,
    address_to: Seq<char>,
    mail: MailMessageV,
) -> Result<EmailV, ConversionErrorV> {
    let froms = header_values(mail.headers, "From"@);
    let tos = header_values(mail.headers, "To"@);
    let subjects = header_values(mail.headers, "Subject"@);
    if froms.len() > 1 {
        Err(ConversionErrorV::MultipleFromAddresses(froms))
    } else if froms.len() == 0 {
        Err(ConversionErrorV::MisingFromAddress)
    } else if !seq_contains_sub(froms.last(), "<"@ + address_from + ">"@) {
        Err(ConversionErrorV::FromAddressMismatch { smtp: address_from, email: froms.last() })
    } else if tos.len() > 1 {
        Err(ConversionErrorV::MultipleToAddresses(tos))
    } else if tos.len() == 0 {
        Err(ConversionErrorV::MisingToAddress)
    } else if !seq_contains_sub(tos.last(), "<"@ + address_to + ">"@) {
        Err(ConversionErrorV::ToAddressMismatch { smtp: address_to, email: tos.last() })
    } else if subjects.len() > 1 {
        Err(ConversionErrorV::MultipleSubjects(subjects))
    } else if subjects.len() == 0 {
        Err(ConversionErrorV::MisingSubject)
    } else if mail.parts.len() != 2 {
        Err(ConversionErrorV::UnexpectedPartCount(mail.parts.len()))
    } else if mail.parts[0].mime != "text/plain"@ {
        Err(
            ConversionErrorV::UnexpectedPartMime {
                actual: mail.parts[0].mime,
                expected: "text/plain"@,
            },
        )
    } else if mail.parts[1].mime != "text/html"@ {
        Err(
            ConversionErrorV::UnexpectedPartMime {
                actual: mail.parts[1].mime,
                expected: "text/html"@,
            },
        )
    } else {
        Ok(
            EmailV {
                address_from,
                address_to,
                subject: strip_crlf(subjects.last()),
                headers: entries_map(mail.headers),
                body_text: mail.parts[0].body,
                body_html: mail.parts[1].body,
            },
        )
    }
}

/// The `From`/`To`/`Subject` checks of conversion all pass: each occurs
/// exactly once and the address headers contain their bracketed
/// envelope counterpart.
pub open spec fn headers_accepted(
    address_from: Seq<char>,
    address_to: Seq<char>,
    mail: MailMessageV,
) -> bool {
    let froms = header_values(mail.headers, "From"@);
    let tos = header_values(mail.headers, "To"@);
    let subjects = header_values(mail.headers, "Subject"@);
    &&& froms.len() == 1
    &&& seq_contains_sub(froms.last(), "<"@ + address_from + ">"@)
    &&& tos.len() == 1
    &&& seq_contains_sub(tos.last(), "<"@ + address_to + ">"@)
    &&& subjects.len() == 1
}

/// A well-formed payload is accepted whole: when the header checks
/// pass and the two parts declare `text/plain` then `text/html`, the
/// email carries the envelope addresses, the CRLF-stripped subject, the
/// mapping the headers denote, and both decoded bodies unchanged.
pub proof fn lemma_accepted_payload(
    address_from: Seq<char>,
    address_to: Seq<char>,
    mail: MailMessageV,
)
    requires
        headers_accepted(address_from, address_to, mail),
        mail.parts.len() == 2,
        mail.parts[0].mime == "text/plain"@,
        mail.parts[1].mime == "text/html"@,
    ensures
        convert_spec(address_from, address_to, mail) == Ok::<EmailV, ConversionErrorV>(
            EmailV {
                address_from,
                address_to,
                subject: strip_crlf(header_values(mail.headers, "Subject"@).last()),
                headers: entries_map(mail.headers),
                body_text: mail.parts[0].body,
                body_html: mail.parts[1].body,
            },
        ),
{
}

/// A `From` header value that does not contain the bracketed envelope
/// sender is rejected with a mismatch error naming both values.
pub proof fn lemma_from_mismatch_rejected(
    address_from: Seq<char>,
    address_to: Seq<char>,
    mail: MailMessageV,
)
    requires
        header_values(mail.headers, "From"@).len() == 1,
        !seq_contains_sub(
            header_values(mail.headers, "From"@).last(),
            "<"@ + address_from + ">"@,
        ),
    ensures
        convert_spec(address_from, address_to, mail) == Err::<EmailV, ConversionErrorV>(
            ConversionErrorV::FromAddressMismatch {
                smtp: address_from,
                email: header_values(mail.headers, "From"@).last(),
            },
        ),
{
}

/// A payload whose number of top-level parts is not two is rejected
/// with a count error naming that number.
pub proof fn lemma_part_count_rejected(
    address_from: Seq<char>,
    address_to: Seq<char>,
    mail: MailMessageV,
)
    requires
        headers_accepted(address_from, address_to, mail),
        mail.parts.len() != 2,
    ensures
        convert_spec(address_from, address_to, mail) == Err::<EmailV, ConversionErrorV>(
            ConversionErrorV::UnexpectedPartCount(mail.parts.len()),
        ),
{
}

/// A first part whose declared type is not `text/plain` — the parts
/// swapped, say — is rejected with a mismatch naming the actual and the
/// expected type.
pub proof fn lemma_part_mime_rejected(
    address_from: Seq<char>,
    address_to: Seq<char>,
    mail: MailMessageV,
)
    requires
        headers_accepted(address_from, address_to, mail),
        mail.parts.len() == 2,
        mail.parts[0].mime != "text/plain"@,
    ensures
        convert_spec(address_from, address_to, mail) == Err::<EmailV, ConversionErrorV>(
            ConversionErrorV::UnexpectedPartMime {
                actual: mail.parts[0].mime,
                expected: "text/plain"@,
            },
        ),
{
}

/// An executable conversion result agrees with a specified one.
pub open spec fn convert_matches(
    r: Result<Email, ConversionError>,
    m: Result<EmailV, ConversionErrorV>,
) -> bool {
    match r {
        Ok(e) => m is Ok && e@ == m->Ok_0,
        Err(e) => m is Err && e@ == m->Err_0,
    }
}

/// What parsing the raw payload returns: the headers and top-level
/// parts that `mailparse` reads out of the bytes, or the parser's
/// error message — a function of the bytes alone.
pub uninterp spec fn mail_parse(data: Seq<u8>) -> Result<MailMessageV, Seq<char>>;

/// What [`Email::parse`] returns, on the models.
pub open spec fn parse_spec(data: crate::smtp::DataV) -> Result<EmailV, ParseErrorV> {
    match mail_parse(data.email) {
        Err(e) => Err(ParseErrorV::Parse(e)),
        Ok(mail) => match convert_spec(data.address_from, data.address_to, mail) {
            Ok(email) => Ok(email),
            Err(c) => Err(ParseErrorV::Convert(c)),
        },
    }
}

/// An executable parse result agrees with a specified one.
pub open spec fn parse_matches(
    r: Result<Email, ParseError>,
    m: Result<EmailV, ParseErrorV>,
) -> bool {
    match r {
        Ok(e) => m is Ok && e@ == m->Ok_0,
        Err(e) => m is Err && e@ == m->Err_0,
    }
}

// ----- executable conversion -----

/// Relies on `mailparse::parse_mail` to parse the payload, with
/// `MailHeader::get_key`/`get_value` for the headers and, per top-level
/// part, the declared `ctype.mimetype` and `ParsedMail::get_body` for
/// the decoded body; a failure of the parse or of a body decode is the
/// error's message. The whole outcome is named [`mail_parse`].
#[verifier::external_body]
fn parse_mime(data: &Vec<u8>) -> (r: Result<MailMessage, String>)
    ensures
        match r {
            Ok(m) => mail_parse(data@) is Ok && m@ == mail_parse(data@)->Ok_0,
            Err(e) => mail_parse(data@) is Err && e@ == mail_parse(data@)->Err_0,
        },
{
    let mail = match mailparse::parse_mail(data.as_slice()) {
        Ok(mail) => mail,
        Err(e) => return Err(format!("{e}")),
    };
    let headers = mail.headers.iter().map(|h| (h.get_key(), h.get_value())).collect();
    let mut parts = Vec::new();
    for part in &mail.subparts {
        match part.get_body() {
            Ok(body) => parts.push(MailPart { mime: part.ctype.mimetype.clone(), body }),
            Err(e) => return Err(format!("{e}")),
        }
    }
    Ok(MailMessage { headers, parts })
}

/// The values of all headers carrying the given name, without regard
/// to ASCII case, in order.
fn get_all_values(headers: &Vec<(String, String)>, key: &str) -> (r: Vec<String>)
    ensures
        r.deep_view() == header_values(headers.deep_view(), key@),
{
    let mut r: Vec<String> = Vec::new();
    assert(r.deep_view() =~= Seq::<Seq<char>>::empty());
    assert(headers.deep_view().subrange(0, 0) =~= Seq::<(Seq<char>, Seq<char>)>::empty());
    let mut i: usize = 0;
    while i < headers.len()
        invariant
            i <= headers@.len(),
            r.deep_view() == header_values(headers.deep_view().subrange(0, i as int), key@),
        decreases headers@.len() - i,
    {
        proof {
            let hs = headers.deep_view();
            assert(hs.subrange(0, i + 1).drop_last() =~= hs.subrange(0, i as int));
            assert(hs.subrange(0, i + 1).last() == hs[i as int]);
            assert(hs[i as int].0 == headers@[i as int].0@);
            assert(hs[i as int].1 == headers@[i as int].1@);
        }
        if str_eq_ignore_ascii_case(headers[i].0.as_str(), key) {
            r.push(headers[i].1.clone());
            assert(r.deep_view() =~= header_values(
                headers.deep_view().subrange(0, i + 1),
                key@,
            ));
        } else {
            assert(r.deep_view() =~= header_values(
                headers.deep_view().subrange(0, i + 1),
                key@,
            ));
        }
        i += 1;
    }
    proof {
        let hs = headers.deep_view();
        assert(hs.subrange(0, hs.len() as int) =~= hs);
    }
    r
}

/// The position of the first entry carrying exactly this name, if any.
fn find_key(entries: &Vec<(String, String)>, key: &String) -> (r: Option<usize>)
    ensures
        match r {
            Some(j) => j < entries@.len() && entries.deep_view()[j as int].0 == key@,
            None => forall|k: int|
                0 <= k < entries@.len() ==> entries.deep_view()[k].0 != key@,
        },
{
    let mut j: usize = 0;
    while j < entries.len()
        invariant
            j <= entries@.len(),
            forall|k: int| 0 <= k < j ==> entries.deep_view()[k].0 != key@,
        decreases entries@.len() - j,
    {
        if str_eq(entries[j].0.as_str(), key.as_str()) {
            assert(entries.deep_view()[j as int].0 == key@);
            return Some(j);
        }
        assert(entries.deep_view()[j as int].0 != key@);
        j += 1;
    }
    None
}

/// Collapses a header list to one entry per name, a later occurrence
/// overwriting an earlier one; the denoted mapping is unchanged.
fn dedup_headers(headers: Vec<(String, String)>) -> (r: Vec<(String, String)>)
    ensures
        unique_keys(r.deep_view()),
        entries_map(r.deep_view()) == entries_map(headers.deep_view()),
{
    let mut out: Vec<(String, String)> = Vec::new();
    assert(out.deep_view() =~= Seq::<(Seq<char>, Seq<char>)>::empty());
    assert(headers.deep_view().subrange(0, 0) =~= Seq::<(Seq<char>, Seq<char>)>::empty());
    let mut i: usize = 0;
    while i < headers.len()
        invariant
            i <= headers@.len(),
            unique_keys(out.deep_view()),
            entries_map(out.deep_view()) == entries_map(headers.deep_view().subrange(0, i as int)),
        decreases headers@.len() - i,
    {
        let key = headers[i].0.clone();
        let value = headers[i].1.clone();
        proof {
            let hs = headers.deep_view();
            assert(hs.subrange(0, i + 1).drop_last() =~= hs.subrange(0, i as int));
            assert(hs.subrange(0, i + 1).last() == hs[i as int]);
            assert(hs[i as int].0 == headers@[i as int].0@);
            assert(hs[i as int].1 == headers@[i as int].1@);
        }
        let ghost old_out = out.deep_view();
        match find_key(&out, &key) {
            Some(j) => {
                out[j] = (key, value);
                proof {
                    assert(out.deep_view() =~= old_out.update(
                        j as int,
                        (old_out[j as int].0, value@),
                    ));
                    lemma_entries_update(old_out, j as int, value@);
                    assert(unique_keys(out.deep_view()));
                }
            },
            None => {
                out.push((key, value));
                proof {
                    assert(out.deep_view() =~= old_out.push((key@, value@)));
                    assert(out.deep_view().drop_last() =~= old_out);
                    assert(unique_keys(out.deep_view()));
                }
            },
        }
        i += 1;
    }
    proof {
        let hs = headers.deep_view();
        assert(hs.subrange(0, hs.len() as int) =~= hs);
    }
    out
}

/// Converts a parsed payload into an [`Email`], validating the
/// envelope/header consistency and the two-part text+html shape;
/// exactly [`convert_spec`] of the models.
pub fn convert_email(address_from: String, address_to: String, mail: MailMessage) -> (r: Result<
    Email,
    ConversionError,
>)
    ensures
        convert_matches(r, convert_spec(address_from@, address_to@, mail@)),
        r is Ok ==> r->Ok_0.wf(),
{
    let mut froms = get_all_values(&mail.headers, "From");
    if froms.len() > 1 {
        return Err(ConversionError::MultipleFromAddresses(froms));
    }
    let from_addr = match froms.pop() {
        Some(v) => v,
        None => {
            return Err(ConversionError::MisingFromAddress);
        },
    };
    let from_needle = String::from_str("<").concat(address_from.as_str()).concat(">");
    assert(from_needle@ =~= "<"@ + address_from@ + ">"@);
    if !str_contains(from_addr.as_str(), from_needle.as_str()) {
        return Err(ConversionError::FromAddressMismatch { smtp: address_from, email: from_addr });
    }
    let mut tos = get_all_values(&mail.headers, "To");
    if tos.len() > 1 {
        return Err(ConversionError::MultipleToAddresses(tos));
    }
    let to_addr = match tos.pop() {
        Some(v) => v,
        None => {
            return Err(ConversionError::MisingToAddress);
        },
    };
    let to_needle = String::from_str("<").concat(address_to.as_str()).concat(">");
    assert(to_needle@ =~= "<"@ + address_to@ + ">"@);
    if !str_contains(to_addr.as_str(), to_needle.as_str()) {
        return Err(ConversionError::ToAddressMismatch { smtp: address_to, email: to_addr });
    }
    let mut subjects = get_all_values(&mail.headers, "Subject");
    if subjects.len() > 1 {
        return Err(ConversionError::MultipleSubjects(subjects));
    }
    let subject_raw = match subjects.pop() {
        Some(v) => v,
        None => {
            return Err(ConversionError::MisingSubject);
        },
    };
    let subject = if str_ends_with(subject_raw.as_str(), "\r\n") {
        proof {
            reveal_strlit("\r\n");
        }
        let len = subject_raw.as_str().unicode_len();
        subject_raw.as_str().substring_char(0, len - 2).to_owned()
    } else {
        subject_raw
    };
    if mail.parts.len() != 2 {
        return Err(ConversionError::UnexpectedPartCount(mail.parts.len()));
    }
    if !str_eq(mail.parts[0].mime.as_str(), "text/plain") {
        return Err(
            ConversionError::UnexpectedPartMime {
                actual: mail.parts[0].mime.clone(),
                expected: "text/plain",
            },
        );
    }
    if !str_eq(mail.parts[1].mime.as_str(), "text/html") {
        return Err(
            ConversionError::UnexpectedPartMime {
                actual: mail.parts[1].mime.clone(),
                expected: "text/html",
            },
        );
    }
    let mut parts = mail.parts;
    let part2 = match parts.pop() {
        Some(p) => p,
        None => vstd::pervasive::unreached(),
    };
    let part1 = match parts.pop() {
        Some(p) => p,
        None => vstd::pervasive::unreached(),
    };
    let headers = dedup_headers(mail.headers);
    let email = Email {
        address_from,
        address_to,
        subject,
        headers,
        body_text: part1.body,
        body_html: part2.body,
    };
    assert(email@ =~= convert_spec(email.address_from@, email.address_to@, mail@)->Ok_0);
    Ok(email)
}

impl Email {
    /// The header list carries each name at most once, so that it
    /// denotes its mapping entry by entry.
    pub open spec fn wf(&self) -> bool {
        unique_keys(self.headers.deep_view())
    }

    /// Parses and validates a raw envelope captured by a completed
    /// transaction; exactly [`parse_spec`] of the model.
    pub fn parse(data: crate::smtp::Data) -> (r: Result<Email, ParseError>)
        ensures
            parse_matches(r, parse_spec(data@)),
            r is Ok ==> r->Ok_0.wf(),
    {
        match parse_mime(&data.email) {
            Err(e) => Err(ParseError::Parse(e)),
            Ok(mail) => match convert_email(data.address_from, data.address_to, mail) {
                Ok(email) => Ok(email),
                Err(e) => Err(ParseError::Convert(e)),
            },
        }
    }

    /// The value of the header carrying exactly this name.
    fn get_header(&self, key: &str) -> (r: &str)
        requires
            self.wf(),
            self@.headers.contains_key(key@),
        ensures
            r@ == self@.headers[key@],
    {
        proof {
            lemma_entries_contains(self.headers.deep_view(), key@);
        }
        let mut i: usize = 0;
        while i < self.headers.len()
            invariant
                i <= self.headers@.len(),
                self.wf(),
                self@.headers.contains_key(key@),
                exists|k: int|
                    0 <= k < self.headers.deep_view().len()
                        && self.headers.deep_view()[k].0 == key@,
                forall|k: int| 0 <= k < i ==> self.headers.deep_view()[k].0 != key@,
            decreases self.headers@.len() - i,
        {
            if str_eq(self.headers[i].0.as_str(), key) {
                proof {
                    lemma_entries_lookup(self.headers.deep_view(), i as int);
                }
                return self.headers[i].1.as_str();
            }
            assert(self.headers.deep_view()[i as int].0 != key@);
            i += 1;
        }
        vstd::pervasive::unreached()
    }

    /// Get the complete `From` header, which includes the name and
    /// email address.
    pub fn get_from(&self) -> (r: &str)
        requires
            self.wf(),
            self@.headers.contains_key("From"@),
        ensures
            r@ == self@.headers["From"@],
    {
        self.get_header("From")
    }

    /// Get the complete `To` header, which includes the name and
    /// email address.
    pub fn get_to(&self) -> (r: &str)
        requires
            self.wf(),
            self@.headers.contains_key("To"@),
        ensures
            r@ == self@.headers["To"@],
    {
        self.get_header("To")
    }
}

} // verus!
