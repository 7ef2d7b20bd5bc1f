use serde::ser::{Serialize, SerializeStruct, Serializer};
use xet_streaming::file_info::XetFileInfo;
use xet_streaming::text::push_decimal;

/// Serializes as the fields of a file information, in their order.
struct Reference<'a> {
    hash: &'a str,
    file_size: u64,
    sha256: Option<&'a str>,
}

impl Serialize for Reference<'_> {
    fn serialize<S: Serializer>(&self, serializer: S) -> Result<S::Ok, S::Error> {
        let len = if self.sha256.is_some() { 3 } else { 2 };
        let mut fields = serializer.serialize_struct("XetFileInfo", len)?;
        fields.serialize_field("hash", self.hash)?;
        fields.serialize_field("file_size", &self.file_size)?;
        if let Some(sha256) = self.sha256 {
            fields.serialize_field("sha256", sha256)?;
        }
        fields.end()
    }
}

#[test]
fn new_has_no_sha256() {
    let info = XetFileInfo::new("abc".to_string(), 42);
    assert_eq!(info.hash(), "abc");
    assert_eq!(info.file_size(), 42);
    assert_eq!(info.sha256(), None);
}

#[test]
fn with_sha256_has_one() {
    let info = XetFileInfo::with_sha256("abc".to_string(), 42, "def".to_string());
    assert_eq!(info.hash(), "abc");
    assert_eq!(info.file_size(), 42);
    assert_eq!(info.sha256(), Some("def"));
}

#[test]
fn equality_clone_and_default() {
    let info = XetFileInfo::with_sha256("abc".to_string(), 42, "def".to_string());
    assert_eq!(info.clone(), info);
    assert_ne!(info, XetFileInfo::new("abc".to_string(), 42));
    assert_ne!(info, XetFileInfo::with_sha256("abd".to_string(), 42, "def".to_string()));
    assert_ne!(info, XetFileInfo::with_sha256("abc".to_string(), 43, "def".to_string()));
    assert_ne!(info, XetFileInfo::with_sha256("abc".to_string(), 42, "deg".to_string()));
    assert_eq!(XetFileInfo::default(), XetFileInfo::new(String::new(), 0));
}

#[test]
fn pointer_file_without_sha256() {
    let info = XetFileInfo::new("abc".to_string(), 42);
    assert_eq!(info.as_pointer_file().unwrap(), r#"{"hash":"abc","file_size":42}"#);
}

#[test]
fn pointer_file_with_sha256() {
    let info = XetFileInfo::with_sha256("abc".to_string(), 0, "def".to_string());
    assert_eq!(
        info.as_pointer_file().unwrap(),
        r#"{"hash":"abc","file_size":0,"sha256":"def"}"#
    );
}

#[test]
fn pointer_file_escapes() {
    let info = XetFileInfo::new("a\"b\\c/\u{8}\u{9}\n\u{c}\r\u{1}\u{1f}\u{7f}\u{e9}".to_string(), 7);
    assert_eq!(
        info.as_pointer_file().unwrap(),
        "{\"hash\":\"a\\\"b\\\\c/\\b\\t\\n\\f\\r\\u0001\\u001f\u{7f}\u{e9}\",\"file_size\":7}"
    );
}

#[test]
fn pointer_file_is_the_json_of_the_fields() {
    let every_low: String = (0u8..128).map(|b| b as char).collect();
    let texts = ["", "a", "\"", "\\", "\\\"", "\u{1f600} \u{2028}", every_low.as_str()];
    for hash in texts {
        for file_size in [0, 9, 10, 99, 100, 1_000_000, u64::MAX] {
            for sha256 in [None, Some(""), Some("\n"), Some(every_low.as_str())] {
                let info = match sha256 {
                    None => XetFileInfo::new(hash.to_string(), file_size),
                    Some(sha) => {
                        XetFileInfo::with_sha256(hash.to_string(), file_size, sha.to_string())
                    },
                };
                let expected = serde_json::to_string(&Reference { hash, file_size, sha256 }).unwrap();
                let pointer = info.as_pointer_file().unwrap();
                assert_eq!(pointer, expected);

                // Reading the text back gives the fields.
                let value: serde_json::Value = serde_json::from_str(&pointer).unwrap();
                assert_eq!(value["hash"].as_str(), Some(hash));
                assert_eq!(value["file_size"].as_u64(), Some(file_size));
                assert_eq!(value.get("sha256").map(|sha| sha.as_str().unwrap()), sha256);
            }
        }
    }
}

#[test]
fn different_files_have_different_pointer_files() {
    let a = XetFileInfo::new("a\",\"file_size\":1,\"sha256\":\"b".to_string(), 2);
    let b = XetFileInfo::with_sha256("a".to_string(), 1, "b\"}".to_string());
    assert_ne!(a.as_pointer_file().unwrap(), b.as_pointer_file().unwrap());
}

#[test]
fn decimal_text() {
    for n in [0, 1, 9, 10, 11, 99, 100, 12345678901234567890, u64::MAX] {
        let mut text = "n = ".to_string();
        push_decimal(&mut text, n);
        assert_eq!(text, format!("n = {}", n));
    }
}
