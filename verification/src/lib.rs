//! A minimal single-purpose SMTP endpoint for testing mail senders.
//!
//! The library holds the verified core: the SMTP wire-protocol state
//! machine, driven one line at a time, and the validator/converter that
//! turns a captured raw envelope and MIME payload into a structured
//! [`Email`]. The surrounding networking shell (listener, connections,
//! channels) lives outside the library and feeds the state machine with
//! the lines and chunks it reads.

pub mod config;
pub mod email;
pub mod server;
pub mod smtp;
pub mod strutil;

pub use config::Config;
pub use email::{ConversionError, Email, MailMessage, MailPart, ParseError, convert_email};
pub use server::{DEFAULT_PORT, Error, TaskAction, auth_from_config, finish_session, task_action};
pub use smtp::{Auth, Data, Error as SmtpError, Response, SessionState, Step, StepResult};
pub use smtp::{expect_address, session_on_chunk, session_on_line, session_start, wants_chunk};
