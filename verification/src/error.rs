//! The three ways the file-writing operation can fail, each carrying the
//! underlying cause as text and rendered as a distinct human-readable message.

use vstd::prelude::*;
use vstd::string::StringExecFns;

verus! {

/// Failure of the file-writing operation.
///
/// The payload of each variant is the underlying cause (the decoder's or the
/// operating system's own description), carried verbatim.
#[derive(Debug)]
pub enum FileWriteError {
    /// The payload is not valid base64; nothing was written.
    Decode(String),
    /// The target file could not be created; nothing was written.
    Create(String),
    /// The file was created but writing the bytes failed partway; the file
    /// may be left in a truncated state.
    Write(String),
}

impl FileWriteError {
    /// The fixed text that introduces this kind of failure.
    pub open spec fn prefix_spec(&self) -> Seq<char> {
        match self {
            FileWriteError::Decode(_) => "Failed to decode base64: "@,
            FileWriteError::Create(_) => "Failed to create file: "@,
            FileWriteError::Write(_) => "Failed to write file: "@,
        }
    }

    /// The underlying cause carried by this error.
    pub open spec fn detail_spec(&self) -> Seq<char> {
        match self {
            FileWriteError::Decode(d) => d@,
            FileWriteError::Create(d) => d@,
            FileWriteError::Write(d) => d@,
        }
    }

    /// Whether `self` and `other` are the same kind of failure, whatever
    /// their underlying causes.
    pub open spec fn same_kind(&self, other: &FileWriteError) -> bool {
        match (self, other) {
            (FileWriteError::Decode(_), FileWriteError::Decode(_)) => true,
            (FileWriteError::Create(_), FileWriteError::Create(_)) => true,
            (FileWriteError::Write(_), FileWriteError::Write(_)) => true,
            _ => false,
        }
    }

    /// The message of this error: the kind's fixed prefix followed by the
    /// underlying cause.
    pub open spec fn message_spec(&self) -> Seq<char> {
        self.prefix_spec() + self.detail_spec()
    }

    /// The full human-readable message for this error: the kind's fixed
    /// prefix followed by the underlying cause.
    pub fn message(&self) -> (msg: String)
        ensures
            msg@ == self.message_spec(),
    {
        let (prefix, detail): (&str, &String) = match self {
            FileWriteError::Decode(d) => ("Failed to decode base64: ", d),
            FileWriteError::Create(d) => ("Failed to create file: ", d),
            FileWriteError::Write(d) => ("Failed to write file: ", d),
        };
        let mut msg = String::from_str(prefix);
        msg.append(detail.as_str());
        msg
    }
}

/// The three kinds of failure are told apart by their messages alone:
/// errors of different kinds render to different text, whatever causes
/// they carry.
pub proof fn lemma_messages_distinct(e1: &FileWriteError, e2: &FileWriteError)
    requires
        !e1.same_kind(e2),
    ensures
        e1.message_spec() != e2.message_spec(),
{
    reveal_strlit("Failed to decode base64: ");
    reveal_strlit("Failed to create file: ");
    reveal_strlit("Failed to write file: ");
    // The prefixes first differ at index 10 (`d`, `c` or `w`), which lies
    // inside every prefix, so it survives into the full message.
    assert(e1.message_spec()[10] == e1.prefix_spec()[10]);
    assert(e2.message_spec()[10] == e2.prefix_spec()[10]);
}

} // verus!
