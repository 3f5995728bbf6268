//! Reading one file as text: checking the path, and classifying a file that
//! could not be decoded.

use vstd::prelude::*;

use crate::text::chars_of;
use crate::tool::{enclose, FileContentParams, SearchTool};

verus! {

/// A control byte other than tab, line feed and carriage return.
pub open spec fn is_control(b: u8) -> bool {
    b < 32 && b != 9 && b != 10 && b != 13
}

/// How many bytes of `b` are control bytes.
pub open spec fn control_count(b: Seq<u8>) -> nat
    decreases b.len(),
{
    if b.len() == 0 {
        0
    } else {
        control_count(b.drop_last()) + if is_control(b.last()) {
            1nat
        } else {
            0nat
        }
    }
}

/// The binary-file heuristic: a NUL byte, or more than a tenth of the bytes
/// (rounded down) being control bytes.
pub open spec fn looks_binary_spec(b: Seq<u8>) -> bool {
    b.contains(0u8) || control_count(b) > b.len() / 10
}

/// Whether `bytes` looks like the content of a binary file.
pub fn looks_binary(bytes: &[u8]) -> (r: bool)
    ensures
        r == looks_binary_spec(bytes@),
{
    let mut i: usize = 0;
    let mut controls: usize = 0;
    let mut nul = false;
    while i < bytes.len()
        invariant
            i <= bytes@.len(),
            controls == control_count(bytes@.take(i as int)),
            controls <= i,
            nul == (exists|k: int| 0 <= k < i && #[trigger] bytes@[k] == 0u8),
        decreases bytes@.len() - i,
    {
        let b = bytes[i];
        assert(bytes@.take(i + 1).drop_last() =~= bytes@.take(i as int));
        if b < 32 && b != 9 && b != 10 && b != 13 {
            controls = controls + 1;
        }
        nul = nul || b == 0;
        i = i + 1;
    }
    assert(bytes@.take(i as int) =~= bytes@);
    assert(nul == bytes@.contains(0u8));
    nul || controls > bytes.len() / 10
}

/// Why a file could not be read as text.
#[derive(Debug)]
pub enum FileError {
    /// The path does not exist.
    NotFound { path: String },
    /// The path exists but is not a regular file.
    NotAFile { path: String },
    /// The file could not be decoded and looks like a binary file.
    BinaryFile { path: String },
    /// The file could not be decoded, though it does not look binary.
    DecodeError { path: String, detail: String },
    /// The file could not be read at all.
    ReadError { path: String, detail: String },
}

impl FileError {
    /// The path that the error is about.
    pub open spec fn path_spec(&self) -> Seq<char> {
        match self {
            FileError::NotFound { path } => path@,
            FileError::NotAFile { path } => path@,
            FileError::BinaryFile { path } => path@,
            FileError::DecodeError { path, .. } => path@,
            FileError::ReadError { path, .. } => path@,
        }
    }

    /// The human-readable message of the error.
    pub open spec fn message_spec(&self) -> Seq<char> {
        match self {
            FileError::NotFound { path } => "The specified path '"@ + path@ + "' does not exist"@,
            FileError::NotAFile { path } => "The specified path '"@ + path@ + "' is not a file"@,
            FileError::BinaryFile { path } => "The file '"@ + path@
                + "' appears to be a binary file and cannot be displayed as text"@,
            FileError::DecodeError { path, detail } => "The file '"@ + path@
                + "' could not be read as text: "@ + detail@,
            FileError::ReadError { path, detail } => "Error reading file '"@ + path@ + "': "@
                + detail@,
        }
    }

    /// The human-readable message of the error.
    pub fn message(&self) -> (r: String)
        ensures
            r@ == self.message_spec(),
    {
        match self {
            FileError::NotFound { path } => enclose(
                "The specified path '",
                path.as_str(),
                "' does not exist",
            ),
            FileError::NotAFile { path } => enclose(
                "The specified path '",
                path.as_str(),
                "' is not a file",
            ),
            FileError::BinaryFile { path } => enclose(
                "The file '",
                path.as_str(),
                "' appears to be a binary file and cannot be displayed as text",
            ),
            FileError::DecodeError { path, detail } => {
                let mut s = enclose("The file '", path.as_str(), "' could not be read as text: ");
                s.append(detail.as_str());
                s
            },
            FileError::ReadError { path, detail } => {
                let mut s = enclose("Error reading file '", path.as_str(), "': ");
                s.append(detail.as_str());
                s
            },
        }
    }
}

/// What to do after the attempt to read a file as text.
#[derive(Debug)]
pub enum ReadAction {
    /// Read the raw bytes of the file, to classify the failure `detail`.
    ReadRaw { detail: String },
    /// Answer the request.
    Reply(Result<String, FileError>),
}

/// The answer to a file request whose path exists and is a file, given the
/// decoded text.
pub open spec fn text_reply(content: Seq<char>) -> Seq<char> {
    if content.len() == 0 {
        "File is empty."@
    } else {
        content
    }
}

/// Whether `r` is the answer to checking `path`, given whether it exists and
/// whether it is a regular file.
pub open spec fn file_check_spec(
    path: Seq<char>,
    exists: bool,
    is_file: bool,
    r: Result<(), FileError>,
) -> bool {
    if !exists {
        r matches Err(FileError::NotFound { path: p }) && p@ == path
    } else if !is_file {
        r matches Err(FileError::NotAFile { path: p }) && p@ == path
    } else {
        r is Ok
    }
}

/// Whether `r` classifies the file `path`, which could not be decoded with
/// the failure `detail`, given what reading its raw bytes gave.
pub open spec fn raw_failure_spec(
    path: Seq<char>,
    detail: Seq<char>,
    raw: Result<Vec<u8>, String>,
    r: FileError,
) -> bool {
    match raw {
        Ok(bytes) => if looks_binary_spec(bytes@) {
            r matches FileError::BinaryFile { path: p } && p@ == path
        } else {
            r matches FileError::DecodeError { path: p, detail: d } && p@ == path && d@ == detail
        },
        Err(e) => r matches FileError::ReadError { path: p, detail: d } && p@ == path && d@ == e@,
    }
}

/// Whether `r` is what follows the attempt to read the file `path` as text.
pub open spec fn text_step_spec(path: Seq<char>, text: Result<String, String>, r: ReadAction) -> bool {
    match text {
        Ok(content) => if content@.contains('\0') {
            r matches ReadAction::Reply(Err(FileError::BinaryFile { path: p })) && p@ == path
        } else {
            r matches ReadAction::Reply(Ok(s)) && s@ == text_reply(content@)
        },
        Err(e) => r matches ReadAction::ReadRaw { detail } && detail@ == e@,
    }
}

/// Whether `s` holds a NUL character.
pub fn has_nul(s: &str) -> (r: bool)
    ensures
        r == s@.contains('\0'),
{
    let cs = chars_of(s);
    let mut i: usize = 0;
    while i < cs.len()
        invariant
            i <= cs@.len(),
            cs@ == s@,
            forall|k: int| 0 <= k < i ==> cs@[k] != '\0',
        decreases cs@.len() - i,
    {
        if cs[i] == '\0' {
            return true;
        }
        i = i + 1;
    }
    false
}

impl SearchTool {
    /// Checks the path of a file request, given whether it exists and whether
    /// it is a regular file.
    pub fn check_file_path(&self, params: &FileContentParams, exists: bool, is_file: bool) -> (r:
        Result<(), FileError>)
        ensures
            file_check_spec(params.file_path@, exists, is_file, r),
    {
        if !exists {
            Err(FileError::NotFound { path: params.file_path.clone() })
        } else if !is_file {
            Err(FileError::NotAFile { path: params.file_path.clone() })
        } else {
            Ok(())
        }
    }

    /// Decides what follows the attempt to read the requested file as text:
    /// a text that holds a NUL character is a binary file; any other text is
    /// the answer (or the empty-file marker); a failure asks for the raw bytes.
    pub fn on_text_read(&self, params: &FileContentParams, text: Result<String, String>) -> (r:
        ReadAction)
        ensures
            text_step_spec(params.file_path@, text, r),
    {
        match text {
            Ok(content) => {
                if has_nul(content.as_str()) {
                    ReadAction::Reply(Err(FileError::BinaryFile { path: params.file_path.clone() }))
                } else if content.as_str().is_empty() {
                    ReadAction::Reply(Ok(String::from_str("File is empty.")))
                } else {
                    ReadAction::Reply(Ok(content))
                }
            },
            Err(e) => ReadAction::ReadRaw { detail: e },
        }
    }

    /// Classifies a file that could not be decoded with the failure `detail`,
    /// given what reading its raw bytes gave.
    pub fn on_raw_read(&self, params: &FileContentParams, detail: String, raw: Result<
        Vec<u8>,
        String,
    >) -> (r: FileError)
        ensures
            raw_failure_spec(params.file_path@, detail@, raw, r),
    {
        match raw {
            Ok(bytes) => {
                if looks_binary(bytes.as_slice()) {
                    FileError::BinaryFile { path: params.file_path.clone() }
                } else {
                    FileError::DecodeError { path: params.file_path.clone(), detail }
                }
            },
            Err(e) => FileError::ReadError { path: params.file_path.clone(), detail: e },
        }
    }
}

} // verus!
