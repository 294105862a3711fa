//! The error type shared by every operation of the library.

use vstd::prelude::*;
use vstd::string::StringExecFns;
use crate::text::{decimal_string, decimal_text};

verus! {

/// `solana_program::program_error::ProgramError`, held without a look
/// inside.
#[verifier::external_type_specification]
#[verifier::external_body]
pub struct ExProgramError(solana_program::program_error::ProgramError);

/// `std::io::Error`, held without a look inside.
#[verifier::external_type_specification]
#[verifier::external_body]
pub struct ExIoError(std::io::Error);

/// Why an operation did not produce a result.
#[derive(Debug)]
pub enum Error {
    /// An error code of the remote program, carried through unchanged.
    SolanaProgram(solana_program::program_error::ProgramError),
    /// A failure reported by a byte-level writer.
    Borsh(std::io::Error),
    /// A digest could not be computed from the given metadata.
    Bubblegum(String),
    /// An input had the wrong length or an undefined code; the text names
    /// the field.
    InvalidParameter(String),
    /// A value could not be brought into its wire form.
    Conversion(String),
}

/// `solana_program`'s `Display` text for a program error.  Nothing is
/// claimed about the text.
#[verifier::external_body]
fn program_error_text(e: &solana_program::program_error::ProgramError) -> String {
    format!("{}", e)
}

/// `std`'s `Display` text for an I/O error.  Nothing is claimed about the
/// text.
#[verifier::external_body]
fn io_error_text(e: &std::io::Error) -> String {
    format!("{}", e)
}

/// What is said of a field that must hold thirty-two bytes and does not.
pub open spec fn wrong_length_text(field: Seq<char>) -> Seq<char> {
    field + " must be 32 bytes"@
}

/// What is said of a number that stands for no variant of `what`.
pub open spec fn undefined_code_text(what: Seq<char>, code: u8) -> Seq<char> {
    "Invalid "@ + what + ": "@ + decimal_text(code)
}

impl Error {
    /// The error for a field that must hold thirty-two bytes and does not.
    pub fn wrong_length(field: &str) -> (e: Error)
        ensures
            e matches Error::InvalidParameter(m) && m@ == wrong_length_text(field@),
    {
        Error::InvalidParameter(String::from_str(field).concat(" must be 32 bytes"))
    }

    /// The error for a number that stands for no variant of `what`.
    pub fn undefined_code(what: &str, code: u8) -> (e: Error)
        ensures
            e matches Error::InvalidParameter(m) && m@ == undefined_code_text(what@, code),
    {
        let number = decimal_string(code);
        Error::InvalidParameter(
            String::from_str("Invalid ").concat(what).concat(": ").concat(number.as_str()),
        )
    }

    /// The text that introduces the detail of each kind of error.
    pub open spec fn prefix(&self) -> Seq<char> {
        match self {
            Error::SolanaProgram(_) => "Solana SDK error: "@,
            Error::Borsh(_) => "Borsh serialization error: "@,
            Error::Bubblegum(_) => "Bubblegum error: "@,
            Error::InvalidParameter(_) => "Invalid parameter: "@,
            Error::Conversion(_) => "Conversion error: "@,
        }
    }

    /// The human-readable message: the prefix of the kind, then the detail.
    pub fn to_string(&self) -> (text: String)
        ensures
            self.prefix().is_prefix_of(text@),
            self matches Error::Bubblegum(m) ==> text@ == self.prefix() + m@,
            self matches Error::InvalidParameter(m) ==> text@ == self.prefix() + m@,
            self matches Error::Conversion(m) ==> text@ == self.prefix() + m@,
    {
        match self {
            Error::SolanaProgram(e) => {
                let detail = program_error_text(e);
                proof {
                    lemma_prefix_stays(self.prefix(), detail@);
                }
                String::from_str("Solana SDK error: ").concat(detail.as_str())
            },
            Error::Borsh(e) => {
                let detail = io_error_text(e);
                proof {
                    lemma_prefix_stays(self.prefix(), detail@);
                }
                String::from_str("Borsh serialization error: ").concat(detail.as_str())
            },
            Error::Bubblegum(m) => {
                proof {
                    lemma_prefix_stays(self.prefix(), m@);
                }
                String::from_str("Bubblegum error: ").concat(m.as_str())
            },
            Error::InvalidParameter(m) => {
                proof {
                    lemma_prefix_stays(self.prefix(), m@);
                }
                String::from_str("Invalid parameter: ").concat(m.as_str())
            },
            Error::Conversion(m) => {
                proof {
                    lemma_prefix_stays(self.prefix(), m@);
                }
                String::from_str("Conversion error: ").concat(m.as_str())
            },
        }
    }
}

/// A text that was put behind a prefix begins with the prefix.
pub proof fn lemma_prefix_stays(prefix: Seq<char>, rest: Seq<char>)
    ensures
        prefix.is_prefix_of(prefix + rest),
{
}

} // verus!
