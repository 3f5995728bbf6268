use search_tool::reader::looks_binary;
use search_tool::{FileContentParams, FileError, ReadAction, SearchTool};

fn params(path: &str) -> FileContentParams {
    FileContentParams { file_path: path.to_string() }
}

fn reply_of(action: ReadAction) -> Result<String, FileError> {
    match action {
        ReadAction::Reply(r) => r,
        ReadAction::ReadRaw { detail } => panic!("asked for raw bytes: {}", detail),
    }
}

#[test]
fn text_file_is_returned_whole() {
    let tool = SearchTool::new();
    let p = params("notes.txt");
    assert!(tool.check_file_path(&p, true, true).is_ok());
    let content = "first line\n  second line  \n".to_string();
    let r = reply_of(tool.on_text_read(&p, Ok(content.clone())));
    assert_eq!(r.unwrap(), content);
}

#[test]
fn empty_file_gives_marker() {
    let tool = SearchTool::new();
    let p = params("empty.txt");
    assert!(tool.check_file_path(&p, true, true).is_ok());
    let r = reply_of(tool.on_text_read(&p, Ok(String::new())));
    assert_eq!(r.unwrap(), "File is empty.");
}

#[test]
fn undecodable_text_asks_for_raw_bytes() {
    let tool = SearchTool::new();
    let p = params("blob.bin");
    match tool.on_text_read(&p, Err("stream did not contain valid UTF-8".to_string())) {
        ReadAction::ReadRaw { detail } => assert_eq!(detail, "stream did not contain valid UTF-8"),
        ReadAction::Reply(_) => panic!("expected a raw read"),
    }
}

#[test]
fn nul_byte_is_binary_file() {
    let tool = SearchTool::new();
    let p = params("blob.bin");
    let e = tool.on_raw_read(&p, "bad".to_string(), Ok(vec![0xff, b'a', 0, b'b']));
    assert!(matches!(e, FileError::BinaryFile { .. }));
    assert_eq!(
        e.message(),
        "The file 'blob.bin' appears to be a binary file and cannot be displayed as text"
    );
}

#[test]
fn decoded_text_with_nul_is_binary_file() {
    let tool = SearchTool::new();
    let p = params("nul.txt");
    match tool.on_text_read(&p, Ok("abc\0def".to_string())) {
        ReadAction::Reply(Err(e)) => {
            assert!(matches!(e, FileError::BinaryFile { .. }));
            assert_eq!(
                e.message(),
                "The file 'nul.txt' appears to be a binary file and cannot be displayed as text"
            );
        }
        other => panic!("expected a binary-file error, got {:?}", other),
    }
}

#[test]
fn many_control_bytes_is_binary_file() {
    let tool = SearchTool::new();
    let p = params("ctl.bin");
    let mut bytes = vec![b'a'; 9];
    bytes.push(1);
    bytes.push(2);
    bytes.push(0xff);
    let e = tool.on_raw_read(&p, "bad".to_string(), Ok(bytes));
    assert!(matches!(e, FileError::BinaryFile { .. }));
}

#[test]
fn invalid_text_that_is_not_binary_is_decode_error() {
    let tool = SearchTool::new();
    let p = params("latin1.txt");
    let detail = "stream did not contain valid UTF-8".to_string();
    let e = tool.on_raw_read(&p, detail, Ok(b"caf\xe9 au lait\n".to_vec()));
    assert!(matches!(e, FileError::DecodeError { .. }));
    assert_eq!(
        e.message(),
        "The file 'latin1.txt' could not be read as text: stream did not contain valid UTF-8"
    );
}

#[test]
fn failed_raw_read_is_read_error() {
    let tool = SearchTool::new();
    let p = params("locked.txt");
    let e = tool.on_raw_read(&p, "x".to_string(), Err("Permission denied (os error 13)".to_string()));
    assert!(matches!(e, FileError::ReadError { .. }));
    assert_eq!(e.message(), "Error reading file 'locked.txt': Permission denied (os error 13)");
}

#[test]
fn missing_file_is_not_found() {
    let tool = SearchTool::new();
    let p = params("/no/such/file.txt");
    let e = tool.check_file_path(&p, false, false).unwrap_err();
    assert!(matches!(e, FileError::NotFound { .. }));
    assert_eq!(e.message(), "The specified path '/no/such/file.txt' does not exist");
}

#[test]
fn directory_is_not_a_file() {
    let tool = SearchTool::new();
    let p = params("/tmp");
    let e = tool.check_file_path(&p, true, false).unwrap_err();
    assert!(matches!(e, FileError::NotAFile { .. }));
    assert_eq!(e.message(), "The specified path '/tmp' is not a file");
}

#[test]
fn binary_heuristic_on_bytes() {
    assert!(!looks_binary(b""));
    assert!(!looks_binary(b"plain text\twith tabs\r\n"));
    assert!(looks_binary(b"a\0b"));
    // ten bytes: one control byte is not more than a tenth
    assert!(!looks_binary(b"abcdefghi\x01"));
    // ten bytes: two control bytes are
    assert!(looks_binary(b"abcdefgh\x01\x02"));
}
