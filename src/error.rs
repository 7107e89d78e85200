use vstd::prelude::*;

use crate::text::{decimal, push_decimal_nat};

verus! {

/// Every way an upload can fail. Errors of outside libraries arrive here as
/// their message text.
#[derive(Clone, Debug)]
pub enum Error {
    MissingField(String),
    Multipart(String),
    FileTooLarge { size: usize, max_size: usize },
    InvalidFileType(String),
    Configuration(String),
    Database(String),
    ServerInit(String),
    S3Upload(String),
    PathParse(String),
    JsonParsing(String),
    WebhookSend(String),
    Migration(String),
}

pub type Result<T> = core::result::Result<T, Error>;

/// The HTTP status of an error: 400 for what the caller sent, 500 otherwise.
pub open spec fn status_of(e: Error) -> u16 {
    match e {
        Error::MissingField(_) | Error::FileTooLarge { .. } | Error::InvalidFileType(_) => 400,
        _ => 500,
    }
}

/// The response text of an error, naming its kind.
pub open spec fn message_of(e: Error) -> Seq<char> {
    match e {
        Error::MissingField(m) => "Missing required field or filename: "@ + m@,
        Error::Multipart(m) => "Multipart processing error: "@ + m@,
        Error::FileTooLarge { size, max_size } => "File too large: "@ + decimal(size as int)
            + " bytes (max: "@ + decimal(max_size as int) + " bytes)"@,
        Error::InvalidFileType(m) => "Invalid file type: "@ + m@,
        Error::Configuration(m) => "Configuration error: "@ + m@,
        Error::Database(m) => "Database error: "@ + m@,
        Error::ServerInit(m) => "Server Initialization Error: "@ + m@,
        Error::S3Upload(m) => "S3 Upload Error: "@ + m@,
        Error::PathParse(m) => "Invalid object path: "@ + m@,
        Error::JsonParsing(m) => "Json Parsing Error: "@ + m@,
        Error::WebhookSend(m) => "Webhook Send Error: "@ + m@,
        Error::Migration(m) => "DB migration error: "@ + m@,
    }
}

fn prefixed(prefix: &str, m: &String) -> (r: String)
    ensures
        r@ == prefix@ + m@,
{
    let mut r = String::from_str(prefix);
    r.append(m.as_str());
    r
}

impl Error {
    pub fn status_code(&self) -> (r: u16)
        ensures
            r == status_of(*self),
    {
        match self {
            Error::MissingField(_) | Error::FileTooLarge { .. } | Error::InvalidFileType(_) => 400,
            _ => 500,
        }
    }

    pub fn message(&self) -> (r: String)
        ensures
            r@ == message_of(*self),
    {
        match self {
            Error::MissingField(m) => prefixed("Missing required field or filename: ", m),
            Error::Multipart(m) => prefixed("Multipart processing error: ", m),
            Error::FileTooLarge { size, max_size } => {
                let mut r = String::from_str("File too large: ");
                push_decimal_nat(&mut r, *size as u64);
                r.append(" bytes (max: ");
                push_decimal_nat(&mut r, *max_size as u64);
                r.append(" bytes)");
                r
            },
            Error::InvalidFileType(m) => prefixed("Invalid file type: ", m),
            Error::Configuration(m) => prefixed("Configuration error: ", m),
            Error::Database(m) => prefixed("Database error: ", m),
            Error::ServerInit(m) => prefixed("Server Initialization Error: ", m),
            Error::S3Upload(m) => prefixed("S3 Upload Error: ", m),
            Error::PathParse(m) => prefixed("Invalid object path: ", m),
            Error::JsonParsing(m) => prefixed("Json Parsing Error: ", m),
            Error::WebhookSend(m) => prefixed("Webhook Send Error: ", m),
            Error::Migration(m) => prefixed("DB migration error: ", m),
        }
    }
}

} // verus!
