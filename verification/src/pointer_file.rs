//! The pointer file: the JSON text that stands in for an uploaded file.

use vstd::prelude::*;
use vstd::string::*;

use crate::file_info::{FileInfo, XetFileInfo};
use crate::text::{decimal, digit, push_decimal};

verus! {

/// `serde_json::Error`: why a value has no JSON text.
#[verifier::external_type_specification]
#[verifier::external_body]
pub struct ExJsonError(serde_json::Error);

/// The character of a hexadecimal digit, in lower case.
pub open spec fn hex_digit(d: int) -> char {
    if d < 10 {
        digit(d as nat)
    } else {
        (87 + d) as char
    }
}

/// Whether a character has an escape of two characters in JSON, and the second
/// of them.
pub open spec fn short_escape(c: char) -> Option<char> {
    if c == '"' || c == '\\' {
        Some(c)
    } else if c as int == 0x08 {
        Some('b')
    } else if c as int == 0x09 {
        Some('t')
    } else if c as int == 0x0a {
        Some('n')
    } else if c as int == 0x0c {
        Some('f')
    } else if c as int == 0x0d {
        Some('r')
    } else {
        None
    }
}

/// A character within a JSON string: control characters, the quotation mark
/// and the backslash are escaped, all others stand for themselves.
pub open spec fn escape(c: char) -> Seq<char> {
    match short_escape(c) {
        Some(letter) => seq!['\\', letter],
        None => if (c as int) < 0x20 {
            seq!['\\', 'u', '0', '0', hex_digit(c as int / 16), hex_digit(c as int % 16)]
        } else {
            seq![c]
        },
    }
}

/// The characters of a text within a JSON string.
pub open spec fn escaped(text: Seq<char>) -> Seq<char>
    decreases text.len(),
{
    if text.len() == 0 {
        Seq::empty()
    } else {
        escape(text[0]) + escaped(text.drop_first())
    }
}

/// The JSON string of a text.
pub open spec fn quoted(text: Seq<char>) -> Seq<char> {
    seq!['"'] + escaped(text) + seq!['"']
}

/// The rest of a pointer file after the file size.
pub open spec fn pointer_tail(sha256: Option<Seq<char>>) -> Seq<char> {
    match sha256 {
        Some(sha256) => ",\"sha256\":"@ + quoted(sha256) + "}"@,
        None => "}"@,
    }
}

/// A pointer file up to the file size.
pub open spec fn pointer_head(hash: Seq<char>, file_size: u64) -> Seq<char> {
    "{\"hash\":"@ + quoted(hash) + ",\"file_size\":"@ + decimal(file_size as nat)
}

/// The pointer file: a JSON object with the hash, the file size and, where
/// there is one, the SHA256 hash.
pub open spec fn pointer_text(info: FileInfo) -> Seq<char> {
    pointer_head(info.hash, info.file_size) + pointer_tail(info.sha256)
}

/// Whether a text has the key of the SHA256 hash behind the file size.
pub open spec fn has_sha256_key(text: Seq<char>) -> bool {
    exists|hash: Seq<char>, file_size: u64, rest: Seq<char>|
        text == #[trigger] (pointer_head(hash, file_size) + (",\"sha256\":"@ + rest))
}

/// Calls `serde_json::to_string` on a string slice: its JSON text is the text
/// between quotation marks, escaped, and a string slice always has one.
#[verifier::external_body]
fn json_string(text: &str) -> (json: Result<String, serde_json::Error>)
    ensures
        json matches Ok(json) && json@ == quoted(text@),
{
    serde_json::to_string(text)
}

impl XetFileInfo {
    /// Returns the pointer file.
    pub fn as_pointer_file(&self) -> (pointer: Result<String, serde_json::Error>)
        ensures
            pointer matches Ok(text) && text@ == pointer_text(self@),
    {
        let mut text = "{\"hash\":".to_owned();
        match json_string(self.hash()) {
            Ok(hash) => text.append(hash.as_str()),
            Err(error) => {
                return Err(error);
            },
        }
        text.append(",\"file_size\":");
        push_decimal(&mut text, self.file_size());
        match self.sha256() {
            Some(sha256) => {
                text.append(",\"sha256\":");
                match json_string(sha256) {
                    Ok(sha256) => text.append(sha256.as_str()),
                    Err(error) => {
                        return Err(error);
                    },
                }
            },
            None => {},
        }
        text.append("}");
        assert(text@ =~= pointer_text(self@));
        Ok(text)
    }
}

/// An escaped character can be told apart from what follows it.
proof fn lemma_escape_prefix(c: char, d: char, x: Seq<char>, y: Seq<char>)
    requires
        escape(c) + x == escape(d) + y,
    ensures
        c == d,
        x == y,
{
    let e = escape(c) + x;
    assert(e[0] == escape(c)[0]);
    assert(e[0] == escape(d)[0]);
    if escape(c).len() > 1 && escape(d).len() > 1 {
        assert(e[1] == escape(c)[1]);
        assert(e[1] == escape(d)[1]);
        if escape(c).len() == 6 && escape(d).len() == 6 {
            assert(e[4] == escape(c)[4]);
            assert(e[4] == escape(d)[4]);
            assert(e[5] == escape(c)[5]);
            assert(e[5] == escape(d)[5]);
        }
    }
    assert(c == d);
    assert(x =~= e.skip(escape(c).len() as int));
    assert(y =~= e.skip(escape(d).len() as int));
}

/// An escaped text up to its closing quotation mark can be told apart from
/// what follows it.
proof fn lemma_escaped_prefix(s: Seq<char>, t: Seq<char>, x: Seq<char>, y: Seq<char>)
    requires
        escaped(s) + seq!['"'] + x == escaped(t) + seq!['"'] + y,
    ensures
        s == t,
        x == y,
    decreases s.len(),
{
    let e = escaped(s) + seq!['"'] + x;
    if s.len() == 0 || t.len() == 0 {
        if s.len() > 0 {
            assert(e[0] == escape(s[0])[0]);
            assert(e[0] == '"');
        } else if t.len() > 0 {
            assert(e[0] == escape(t[0])[0]);
            assert(e[0] == '"');
        }
        assert(s =~= t);
        assert(x =~= e.skip(1));
        assert(y =~= e.skip(1));
    } else {
        let s_rest = escaped(s.drop_first()) + seq!['"'] + x;
        let t_rest = escaped(t.drop_first()) + seq!['"'] + y;
        assert(e =~= escape(s[0]) + s_rest);
        assert(e =~= escape(t[0]) + t_rest);
        lemma_escape_prefix(s[0], t[0], s_rest, t_rest);
        lemma_escaped_prefix(s.drop_first(), t.drop_first(), x, y);
        assert(s =~= seq![s[0]] + s.drop_first());
        assert(t =~= seq![t[0]] + t.drop_first());
    }
}

/// A JSON string can be told apart from what follows it.
proof fn lemma_quoted_prefix(s: Seq<char>, t: Seq<char>, x: Seq<char>, y: Seq<char>)
    requires
        quoted(s) + x == quoted(t) + y,
    ensures
        s == t,
        x == y,
{
    let e = quoted(s) + x;
    assert(e.skip(1) =~= escaped(s) + seq!['"'] + x);
    assert(e.skip(1) =~= escaped(t) + seq!['"'] + y);
    lemma_escaped_prefix(s, t, x, y);
}

/// Whether a character is a decimal digit.
spec fn is_digit(c: char) -> bool {
    48 <= c as int <= 57
}

/// Decimal text consists of digits, and different numbers have different text.
proof fn lemma_decimal(n: nat, m: nat)
    ensures
        decimal(n).len() > 0,
        forall|i: int| 0 <= i < decimal(n).len() ==> is_digit(#[trigger] decimal(n)[i]),
        decimal(n) == decimal(m) ==> n == m,
    decreases n,
{
    if n >= 10 {
        lemma_decimal(n / 10, m / 10);
        assert(decimal(n).drop_last() =~= decimal(n / 10));
        if m >= 10 {
            assert(decimal(m).drop_last() =~= decimal(m / 10));
        }
    } else if m >= 10 {
        lemma_decimal_nonempty(m / 10);
    }
    if decimal(n) == decimal(m) {
        assert(decimal(n).last() == digit(n % 10));
        assert(decimal(m).last() == digit(m % 10));
    }
}

/// Decimal text is not empty.
proof fn lemma_decimal_nonempty(n: nat)
    ensures
        decimal(n).len() > 0,
{
}

/// Decimal text can be told apart from what follows it, unless that starts
/// with a digit.
proof fn lemma_decimal_prefix(n: nat, m: nat, x: Seq<char>, y: Seq<char>)
    requires
        decimal(n) + x == decimal(m) + y,
        x.len() > 0 && !is_digit(x[0]),
        y.len() > 0 && !is_digit(y[0]),
    ensures
        n == m,
        x == y,
{
    let e = decimal(n) + x;
    lemma_decimal(n, m);
    lemma_decimal(m, n);
    if decimal(n).len() < decimal(m).len() {
        assert(e[decimal(n).len() as int] == x[0]);
        assert(e[decimal(n).len() as int] == decimal(m)[decimal(n).len() as int]);
    } else if decimal(m).len() < decimal(n).len() {
        assert(e[decimal(m).len() as int] == y[0]);
        assert(e[decimal(m).len() as int] == decimal(n)[decimal(m).len() as int]);
    }
    assert(decimal(n) =~= e.take(decimal(n).len() as int));
    assert(decimal(m) =~= e.take(decimal(m).len() as int));
    assert(x =~= e.skip(decimal(n).len() as int));
    assert(y =~= e.skip(decimal(m).len() as int));
}

/// The parts of a pointer file can be told apart: its hash, its file size and
/// what follows, unless that starts with a digit.
proof fn lemma_head_prefix(
    hash: Seq<char>,
    file_size: u64,
    x: Seq<char>,
    other_hash: Seq<char>,
    other_size: u64,
    y: Seq<char>,
)
    requires
        pointer_head(hash, file_size) + x == pointer_head(other_hash, other_size) + y,
        x.len() > 0 && !is_digit(x[0]),
        y.len() > 0 && !is_digit(y[0]),
    ensures
        hash == other_hash,
        file_size == other_size,
        x == y,
{
    let head = "{\"hash\":"@;
    let key = ",\"file_size\":"@;
    let e = pointer_head(hash, file_size) + x;
    let size = decimal(file_size as nat) + x;
    let size_y = decimal(other_size as nat) + y;
    assert(e.skip(head.len() as int) =~= quoted(hash) + (key + size));
    assert(e.skip(head.len() as int) =~= quoted(other_hash) + (key + size_y));
    lemma_quoted_prefix(hash, other_hash, key + size, key + size_y);
    assert(size =~= (key + size).skip(key.len() as int));
    assert(size_y =~= (key + size_y).skip(key.len() as int));
    lemma_decimal_prefix(file_size as nat, other_size as nat, x, y);
}

/// What follows the file size starts with a comma or ends the object.
proof fn lemma_tail_start(sha256: Option<Seq<char>>)
    ensures
        pointer_tail(sha256).len() > 0,
        sha256 is Some ==> pointer_tail(sha256)[0] == ',',
        sha256 is None ==> pointer_tail(sha256)[0] == '}',
{
    reveal_strlit(",\"sha256\":");
    reveal_strlit("}");
}

/// A pointer file identifies its file: file information has the same pointer
/// file exactly when it is the same.
pub proof fn law_pointer_file_identifies(a: FileInfo, b: FileInfo)
    ensures
        pointer_text(a) == pointer_text(b) <==> a == b,
{
    if pointer_text(a) == pointer_text(b) {
        let sha = ",\"sha256\":"@;
        let end = "}"@;
        let tail = pointer_tail(a.sha256);
        lemma_tail_start(a.sha256);
        lemma_tail_start(b.sha256);
        lemma_head_prefix(
            a.hash,
            a.file_size,
            tail,
            b.hash,
            b.file_size,
            pointer_tail(b.sha256),
        );
        if a.sha256 is Some && b.sha256 is Some {
            let a_sha = a.sha256->0;
            let b_sha = b.sha256->0;
            assert(tail.skip(sha.len() as int) =~= quoted(a_sha) + end);
            assert(tail.skip(sha.len() as int) =~= quoted(b_sha) + end);
            lemma_quoted_prefix(a_sha, b_sha, end, end);
        }
        assert(a =~= b);
    }
}

/// A pointer file has the key of the SHA256 hash exactly when the file's SHA256
/// hash is known.
pub proof fn law_sha256_key_when_known(info: FileInfo)
    ensures
        has_sha256_key(pointer_text(info)) <==> info.sha256 is Some,
{
    let text = pointer_text(info);
    let key = ",\"sha256\":"@;
    reveal_strlit(",\"sha256\":");
    lemma_tail_start(info.sha256);
    match info.sha256 {
        Some(sha256) => {
            let rest = quoted(sha256) + "}"@;
            assert(text =~= pointer_head(info.hash, info.file_size) + (key + rest));
        },
        None => {
            if has_sha256_key(text) {
                let (hash, file_size, rest) = choose|
                    hash: Seq<char>,
                    file_size: u64,
                    rest: Seq<char>,
                | text == #[trigger] (pointer_head(hash, file_size) + (key + rest));
                lemma_head_prefix(
                    info.hash,
                    info.file_size,
                    pointer_tail(info.sha256),
                    hash,
                    file_size,
                    key + rest,
                );
            }
        },
    }
}

} // verus!
