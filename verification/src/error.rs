//! The ways in which a scan fails.

use vstd::prelude::*;
use vstd::string::StringExecFns;

verus! {

/// Why no matches could be produced.
#[derive(Debug, Clone, PartialEq, Eq)]
pub enum ScanError {
    /// The image does not begin with the ELF signature.
    NotElf,
    /// The image begins with the ELF signature and its structure could not
    /// be read; `complaint` says what was wrong with it.
    MalformedHeader { complaint: String },
    /// The pattern is no regular expression. This fails the whole
    /// invocation, whatever the image holds.
    InvalidPattern { pattern: String, complaint: String },
}

/// A `ScanError` with its texts as sequences of characters.
pub enum ScanErrorView {
    NotElf,
    MalformedHeader { complaint: Seq<char> },
    InvalidPattern { pattern: Seq<char>, complaint: Seq<char> },
}

impl View for ScanError {
    type V = ScanErrorView;

    open spec fn view(&self) -> ScanErrorView {
        match self {
            ScanError::NotElf => ScanErrorView::NotElf,
            ScanError::MalformedHeader { complaint } => ScanErrorView::MalformedHeader {
                complaint: complaint@,
            },
            ScanError::InvalidPattern { pattern, complaint } => ScanErrorView::InvalidPattern {
                pattern: pattern@,
                complaint: complaint@,
            },
        }
    }
}

impl ScanErrorView {
    /// The words in which the error is told to a user, for the file at
    /// `path`. A broken image is named by its path; a broken pattern is
    /// quoted, since it belongs to no file.
    pub open spec fn describe(self, path: Seq<char>) -> Seq<char> {
        match self {
            ScanErrorView::NotElf => "Not an ELF file "@ + path,
            ScanErrorView::MalformedHeader { complaint } => "Failed to parse ELF "@ + path + ": "@
                + complaint,
            ScanErrorView::InvalidPattern { pattern, complaint } => "Invalid regex '"@ + pattern
                + "': "@ + complaint,
        }
    }
}

impl ScanError {
    /// Words the error for a user, for the file at `path`.
    pub fn describe(&self, path: &str) -> (text: String)
        ensures
            text@ == self@.describe(path@),
    {
        match self {
            ScanError::NotElf => {
                let mut text = String::from_str("Not an ELF file ");
                text.append(path);
                text
            },
            ScanError::MalformedHeader { complaint } => {
                let mut text = String::from_str("Failed to parse ELF ");
                text.append(path);
                text.append(": ");
                text.append(complaint.as_str());
                text
            },
            ScanError::InvalidPattern { pattern, complaint } => {
                let mut text = String::from_str("Invalid regex '");
                text.append(pattern.as_str());
                text.append("': ");
                text.append(complaint.as_str());
                text
            },
        }
    }

    /// Whether the error belongs to the invocation rather than to one image:
    /// no image can be scanned with the pattern that caused it.
    pub fn is_fatal(&self) -> (fatal: bool)
        ensures
            fatal == (self@ is InvalidPattern),
    {
        match self {
            ScanError::InvalidPattern { .. } => true,
            _ => false,
        }
    }

    /// Whether the image is simply not an ELF file, which a caller passes
    /// over in silence.
    pub fn is_not_elf(&self) -> (skip: bool)
        ensures
            skip == (self@ is NotElf),
    {
        match self {
            ScanError::NotElf => true,
            _ => false,
        }
    }
}

} // verus!
