//! What a pointer file says: a reader of compact JSON objects, and what it
//! reads in the pointer file of each file.

use vstd::prelude::*;

use crate::file_info::{FileInfo, XetFileInfo};
use crate::pointer_file::{escape, escaped, hex_digit, pointer_tail, pointer_text, quoted};
use crate::text::{decimal, is_number, law_decimal_reads_back, number};

verus! {

/// A value within a JSON object.
pub enum JsonValue {
    Text(Seq<char>),
    Number(nat),
}

/// A key of a JSON object and its value.
pub struct JsonField {
    pub key: Seq<char>,
    pub value: JsonValue,
}

/// The character that a backslash and this letter stand for.
pub open spec fn named_character(letter: char) -> Option<char> {
    if letter == '"' || letter == '\\' {
        Some(letter)
    } else if letter == 'b' {
        Some('\x08')
    } else if letter == 't' {
        Some('\t')
    } else if letter == 'n' {
        Some('\n')
    } else if letter == 'f' {
        Some('\x0c')
    } else if letter == 'r' {
        Some('\r')
    } else {
        None
    }
}

/// The value of a hexadecimal digit in lower case.
pub open spec fn hex_value(c: char) -> Option<int> {
    if '0' <= c <= '9' {
        Some(c as int - '0' as int)
    } else if 'a' <= c <= 'f' {
        Some(c as int - 'a' as int + 10)
    } else {
        None
    }
}

/// Whether a character has a letter that stands for it behind a backslash.
pub open spec fn has_name(c: char) -> bool {
    exists|letter: char| #[trigger] named_character(letter) == Some(c)
}

/// Reads one character of a JSON string, in its shortest form, and what is
/// left behind it.
pub open spec fn read_character(text: Seq<char>) -> Option<(char, Seq<char>)> {
    if text.len() == 0 || text[0] == '"' || (text[0] as int) < 0x20 {
        None
    } else if text[0] != '\\' {
        Some((text[0], text.skip(1)))
    } else if text.len() < 2 {
        None
    } else if text[1] != 'u' {
        match named_character(text[1]) {
            Some(c) => Some((c, text.skip(2))),
            None => None,
        }
    } else if text.len() < 6 || text[2] != '0' || text[3] != '0' {
        None
    } else {
        match (hex_value(text[4]), hex_value(text[5])) {
            (Some(high), Some(low)) => {
                let c = (high * 16 + low) as char;
                if (c as int) < 0x20 && !has_name(c) {
                    Some((c, text.skip(6)))
                } else {
                    None
                }
            },
            _ => None,
        }
    }
}

/// Reads the characters of a JSON string up to its closing quotation mark, and
/// what is left behind that.
pub open spec fn read_characters(text: Seq<char>) -> Option<(Seq<char>, Seq<char>)>
    decreases text.len(),
{
    if text.len() > 0 && text[0] == '"' {
        Some((Seq::empty(), text.skip(1)))
    } else {
        match read_character(text) {
            Some((c, rest)) => match read_characters(rest) {
                Some((others, left)) => Some((seq![c] + others, left)),
                None => None,
            },
            None => None,
        }
    }
}

/// Reads a JSON string, and what is left behind it.
pub open spec fn read_string(text: Seq<char>) -> Option<(Seq<char>, Seq<char>)> {
    if text.len() > 0 && text[0] == '"' {
        read_characters(text.skip(1))
    } else {
        None
    }
}

/// How many digits a text starts with.
pub open spec fn leading_digits(text: Seq<char>) -> int
    decreases text.len(),
{
    if text.len() > 0 && '0' <= text[0] <= '9' {
        1 + leading_digits(text.skip(1))
    } else {
        0
    }
}

/// Reads a natural number, and what is left behind it.
pub open spec fn read_number(text: Seq<char>) -> Option<(nat, Seq<char>)> {
    let n = leading_digits(text);
    if is_number(text.take(n)) {
        Some((number(text.take(n)), text.skip(n)))
    } else {
        None
    }
}

/// Reads a value, and what is left behind it.
pub open spec fn read_value(text: Seq<char>) -> Option<(JsonValue, Seq<char>)> {
    if text.len() > 0 && text[0] == '"' {
        match read_string(text) {
            Some((string, rest)) => Some((JsonValue::Text(string), rest)),
            None => None,
        }
    } else {
        match read_number(text) {
            Some((n, rest)) => Some((JsonValue::Number(n), rest)),
            None => None,
        }
    }
}

/// Reads a key, a colon and a value, and what is left behind them.
pub open spec fn read_field(text: Seq<char>) -> Option<(JsonField, Seq<char>)> {
    match read_string(text) {
        Some((key, rest)) => if rest.len() > 0 && rest[0] == ':' {
            match read_value(rest.skip(1)) {
                Some((value, left)) => Some((JsonField { key, value }, left)),
                None => None,
            }
        } else {
            None
        },
        None => None,
    }
}

/// Reads fields with commas between them, up to the brace that ends both the
/// object and the text.
pub open spec fn read_fields(text: Seq<char>) -> Option<Seq<JsonField>>
    decreases text.len(),
{
    match read_field(text) {
        Some((field, rest)) => if rest.len() == 0 || rest.len() >= text.len() {
            None
        } else if rest[0] == '}' && rest.len() == 1 {
            Some(seq![field])
        } else if rest[0] == ',' {
            match read_fields(rest.skip(1)) {
                Some(others) => Some(seq![field] + others),
                None => None,
            }
        } else {
            None
        },
        None => None,
    }
}

/// Reads a text that is a compact JSON object of strings and natural numbers.
pub open spec fn read_object(text: Seq<char>) -> Option<Seq<JsonField>> {
    if text.len() > 0 && text[0] == '{' {
        read_fields(text.skip(1))
    } else {
        None
    }
}

/// A character reads back from its escaped form.
proof fn lemma_reads_character(c: char, x: Seq<char>)
    ensures
        read_character(escape(c) + x) == Some((c, x)),
        escape(c).len() > 0,
        escape(c)[0] != '"',
{
    let text = escape(c) + x;
    let n = escape(c).len() as int;
    assert(text.skip(n) =~= x);
    assert forall|i: int| 0 <= i < n implies #[trigger] text[i] == escape(c)[i] by {}
    if n == 2 {
        assert(text[0] == '\\');
        assert(text[1] == escape(c)[1]);
    } else if n == 6 {
        assert(text[1] == 'u');
        assert(text[2] == '0');
        assert(text[3] == '0');
        assert(text[4] == hex_digit(c as int / 16));
        assert(text[5] == hex_digit(c as int % 16));
        assert(hex_value(text[4]) == Some(c as int / 16));
        assert(hex_value(text[5]) == Some(c as int % 16));
        assert((c as int / 16) * 16 + c as int % 16 == c as int);
        assert(!has_name(c));
    } else {
        assert(text[0] == c);
    }
}

/// A text reads back from its escaped form, up to the closing quotation mark.
proof fn lemma_reads_characters(s: Seq<char>, x: Seq<char>)
    ensures
        read_characters(escaped(s) + seq!['"'] + x) == Some((s, x)),
    decreases s.len(),
{
    let text = escaped(s) + seq!['"'] + x;
    if s.len() == 0 {
        assert(text.skip(1) =~= x);
        assert(s =~= Seq::empty());
    } else {
        let rest = escaped(s.drop_first()) + seq!['"'] + x;
        assert(text =~= escape(s[0]) + rest);
        lemma_reads_character(s[0], rest);
        assert(text[0] == escape(s[0])[0]);
        lemma_reads_characters(s.drop_first(), x);
        assert(s =~= seq![s[0]] + s.drop_first());
    }
}

/// A text reads back from its JSON string.
proof fn lemma_reads_string(s: Seq<char>, x: Seq<char>)
    ensures
        read_string(quoted(s) + x) == Some((s, x)),
        read_value(quoted(s) + x) == Some((JsonValue::Text(s), x)),
{
    let text = quoted(s) + x;
    assert(text[0] == '"');
    assert(text.skip(1) =~= escaped(s) + seq!['"'] + x);
    lemma_reads_characters(s, x);
}

/// A text starts with the digits that stand before its first other character.
proof fn lemma_leading_digits(text: Seq<char>, n: int)
    requires
        0 <= n < text.len(),
        forall|i: int| 0 <= i < n ==> '0' <= #[trigger] text[i] <= '9',
        !('0' <= text[n] <= '9'),
    ensures
        leading_digits(text) == n,
    decreases n,
{
    if n > 0 {
        assert('0' <= text[0] <= '9');
        let rest = text.skip(1);
        assert forall|i: int| 0 <= i < n - 1 implies '0' <= #[trigger] rest[i] <= '9' by {
            assert(rest[i] == text[i + 1]);
        }
        lemma_leading_digits(rest, n - 1);
    }
}

/// A number reads back from its decimal text.
proof fn lemma_reads_number(n: nat, x: Seq<char>)
    requires
        x.len() > 0,
        !('0' <= x[0] <= '9'),
    ensures
        read_value(decimal(n) + x) == Some((JsonValue::Number(n), x)),
{
    let text = decimal(n) + x;
    let digits = decimal(n).len() as int;
    law_decimal_reads_back(n);
    assert forall|i: int| 0 <= i < digits implies '0' <= #[trigger] text[i] <= '9' by {
        assert(text[i] == decimal(n)[i]);
    }
    assert(text[digits] == x[0]);
    lemma_leading_digits(text, digits);
    assert(text.take(digits) =~= decimal(n));
    assert(text.skip(digits) =~= x);
    assert('0' <= text[0] <= '9');
}

/// A field reads back from its key, a colon and the text of its value.
proof fn lemma_reads_field(key: Seq<char>, text: Seq<char>, value: JsonValue, x: Seq<char>)
    requires
        read_value(text) == Some((value, x)),
    ensures
        read_field(quoted(key) + seq![':'] + text) == Some((JsonField { key, value }, x)),
{
    let rest = seq![':'] + text;
    assert(quoted(key) + seq![':'] + text =~= quoted(key) + rest);
    lemma_reads_string(key, rest);
    assert(rest[0] == ':');
    assert(rest.skip(1) =~= text);
}

/// The text of a field: its key, a colon and the text of its value.
spec fn field_text(key: Seq<char>, text: Seq<char>) -> Seq<char> {
    quoted(key) + seq![':'] + text
}

/// The last field of an object reads back.
proof fn lemma_reads_last(key: Seq<char>, text: Seq<char>, value: JsonValue)
    requires
        read_value(text) == Some((value, seq!['}'])),
    ensures
        read_fields(field_text(key, text)) == Some(seq![JsonField { key, value }]),
{
    lemma_reads_field(key, text, value, seq!['}']);
    assert(field_text(key, text).len() > 1);
}

/// A field of an object reads back, and so do those behind it.
proof fn lemma_reads_more(
    key: Seq<char>,
    text: Seq<char>,
    value: JsonValue,
    more: Seq<char>,
    fields: Seq<JsonField>,
)
    requires
        read_value(text) == Some((value, seq![','] + more)),
        text.len() > more.len(),
        read_fields(more) == Some(fields),
    ensures
        read_fields(field_text(key, text)) == Some(seq![JsonField { key, value }] + fields),
{
    lemma_reads_field(key, text, value, seq![','] + more);
    assert((seq![','] + more).skip(1) =~= more);
    assert((seq![','] + more)[0] == ',');
}

/// A text of characters that need no escape is its own escaped form.
proof fn lemma_plain(s: Seq<char>)
    requires
        forall|i: int|
            0 <= i < s.len() ==> (#[trigger] s[i]) as int >= 0x20 && s[i] != '"' && s[i] != '\\',
    ensures
        escaped(s) == s,
    decreases s.len(),
{
    if s.len() > 0 {
        assert forall|i: int| 0 <= i < s.drop_first().len() implies (
        #[trigger] s.drop_first()[i]) as int >= 0x20 && s.drop_first()[i] != '"'
            && s.drop_first()[i] != '\\' by {
            assert(s.drop_first()[i] == s[i + 1]);
        }
        lemma_plain(s.drop_first());
        assert(escape(s[0]) =~= seq![s[0]]);
        assert(s =~= seq![s[0]] + s.drop_first());
    } else {
        assert(s =~= Seq::empty());
    }
}

/// What stands behind the file size in a pointer file.
spec fn after_size(sha256: Option<Seq<char>>) -> Seq<char> {
    match sha256 {
        Some(sha256) => seq![','] + field_text("sha256"@, quoted(sha256) + seq!['}']),
        None => seq!['}'],
    }
}

/// The fields of a pointer file, one behind the other.
proof fn lemma_layout(info: FileInfo)
    ensures
        pointer_text(info) == seq!['{'] + field_text(
            "hash"@,
            quoted(info.hash) + (seq![','] + field_text(
                "file_size"@,
                decimal(info.file_size as nat) + after_size(info.sha256),
            )),
        ),
{
    lemma_keys();
    assert(pointer_tail(info.sha256) =~= after_size(info.sha256));
    assert(pointer_text(info) =~= seq!['{'] + field_text(
        "hash"@,
        quoted(info.hash) + (seq![','] + field_text(
            "file_size"@,
            decimal(info.file_size as nat) + after_size(info.sha256),
        )),
    ));
}

/// The fixed parts of a pointer file.
proof fn lemma_keys()
    ensures
        "{\"hash\":"@ == seq!['{'] + quoted("hash"@) + seq![':'],
        ",\"file_size\":"@ == seq![','] + quoted("file_size"@) + seq![':'],
        ",\"sha256\":"@ == seq![','] + quoted("sha256"@) + seq![':'],
        "}"@ == seq!['}'],
{
    reveal_strlit("hash");
    reveal_strlit("file_size");
    reveal_strlit("sha256");
    reveal_strlit("{\"hash\":");
    reveal_strlit(",\"file_size\":");
    reveal_strlit(",\"sha256\":");
    reveal_strlit("}");
    lemma_plain("hash"@);
    lemma_plain("file_size"@);
    lemma_plain("sha256"@);
    assert("{\"hash\":"@ =~= seq!['{'] + quoted("hash"@) + seq![':']);
    assert(",\"file_size\":"@ =~= seq![','] + quoted("file_size"@) + seq![':']);
    assert(",\"sha256\":"@ =~= seq![','] + quoted("sha256"@) + seq![':']);
    assert("}"@ =~= seq!['}']);
}

/// A pointer file is a compact JSON object. Under its keys, in this order,
/// stand the hash of the file, its size and, where it is known and only there,
/// its SHA256 hash.
pub proof fn law_pointer_file_reads_back(info: FileInfo)
    ensures
        read_object(pointer_text(info)) matches Some(fields) && {
            &&& fields.len() == (if info.sha256 is Some {
                3int
            } else {
                2int
            })
            &&& fields[0] == (JsonField { key: "hash"@, value: JsonValue::Text(info.hash) })
            &&& fields[1] == (JsonField {
                key: "file_size"@,
                value: JsonValue::Number(info.file_size as nat),
            })
            &&& info.sha256 matches Some(sha256) ==> fields[2] == (JsonField {
                key: "sha256"@,
                value: JsonValue::Text(sha256),
            })
        },
{
    let end = seq!['}'];
    let size = JsonField {
        key: "file_size"@,
        value: JsonValue::Number(info.file_size as nat),
    };
    lemma_layout(info);
    let after_size = after_size(info.sha256);
    let size_text = decimal(info.file_size as nat) + after_size;
    let size_field = field_text("file_size"@, size_text);
    let hash_text = quoted(info.hash) + (seq![','] + size_field);
    lemma_reads_number(info.file_size as nat, after_size);
    lemma_reads_string(info.hash, seq![','] + size_field);
    match info.sha256 {
        Some(sha256) => {
            let sha_text = quoted(sha256) + end;
            let sha = JsonField { key: "sha256"@, value: JsonValue::Text(sha256) };
            lemma_reads_string(sha256, end);
            lemma_reads_last("sha256"@, sha_text, sha.value);
            lemma_reads_more(
                "file_size"@,
                size_text,
                size.value,
                field_text("sha256"@, sha_text),
                seq![sha],
            );
            lemma_reads_more(
                "hash"@,
                hash_text,
                JsonValue::Text(info.hash),
                size_field,
                seq![size] + seq![sha],
            );
        },
        None => {
            lemma_reads_last("file_size"@, size_text, size.value);
            lemma_reads_more(
                "hash"@,
                hash_text,
                JsonValue::Text(info.hash),
                size_field,
                seq![size],
            );
        },
    }
    assert(pointer_text(info).skip(1) =~= field_text("hash"@, hash_text));
}

/// The pointer file of file information without a SHA256 hash says what the
/// information was created with.
pub proof fn law_new_pointer_file(
    hash: String,
    file_size: u64,
    info: XetFileInfo,
    pointer: Result<String, serde_json::Error>,
)
    requires
        call_ensures(XetFileInfo::new, (hash, file_size), info),
        call_ensures(XetFileInfo::as_pointer_file, (&info,), pointer),
    ensures
        pointer matches Ok(text) && read_object(text@) == Some(
            seq![
                JsonField { key: "hash"@, value: JsonValue::Text(hash@) },
                JsonField { key: "file_size"@, value: JsonValue::Number(file_size as nat) },
            ],
        ),
{
    law_pointer_file_reads_back(info@);
    assert(read_object(pointer->Ok_0@)->0 =~= seq![
        JsonField { key: "hash"@, value: JsonValue::Text(hash@) },
        JsonField { key: "file_size"@, value: JsonValue::Number(file_size as nat) },
    ]);
}

/// The pointer file of file information with a SHA256 hash says what the
/// information was created with.
pub proof fn law_sha256_pointer_file(
    hash: String,
    file_size: u64,
    sha256: String,
    info: XetFileInfo,
    pointer: Result<String, serde_json::Error>,
)
    requires
        call_ensures(XetFileInfo::with_sha256, (hash, file_size, sha256), info),
        call_ensures(XetFileInfo::as_pointer_file, (&info,), pointer),
    ensures
        pointer matches Ok(text) && read_object(text@) == Some(
            seq![
                JsonField { key: "hash"@, value: JsonValue::Text(hash@) },
                JsonField { key: "file_size"@, value: JsonValue::Number(file_size as nat) },
                JsonField { key: "sha256"@, value: JsonValue::Text(sha256@) },
            ],
        ),
{
    law_pointer_file_reads_back(info@);
    assert(read_object(pointer->Ok_0@)->0 =~= seq![
        JsonField { key: "hash"@, value: JsonValue::Text(hash@) },
        JsonField { key: "file_size"@, value: JsonValue::Number(file_size as nat) },
        JsonField { key: "sha256"@, value: JsonValue::Text(sha256@) },
    ]);
}

} // verus!
