use vstd::prelude::*;

verus! {

/// The characters with the Unicode property White_Space, which is what
/// `char::is_whitespace` tests.
pub open spec fn is_white_space(c: char) -> bool {
    let n = c as u32;
    (0x09 <= n <= 0x0d) || n == 0x20 || n == 0x85 || n == 0xa0 || n == 0x1680 || (0x2000 <= n
        <= 0x200a) || n == 0x2028 || n == 0x2029 || n == 0x202f || n == 0x205f || n == 0x3000
}

/// The text without its leading white space.
pub open spec fn trim_start(s: Seq<char>) -> Seq<char>
    decreases s.len(),
{
    if s.len() > 0 && is_white_space(s[0]) {
        trim_start(s.drop_first())
    } else {
        s
    }
}

/// The text without its trailing white space.
pub open spec fn trim_end(s: Seq<char>) -> Seq<char>
    decreases s.len(),
{
    if s.len() > 0 && is_white_space(s.last()) {
        trim_end(s.drop_last())
    } else {
        s
    }
}

/// The text without leading and trailing white space.
pub open spec fn trimmed(s: Seq<char>) -> Seq<char> {
    trim_end(trim_start(s))
}

/// Relies on `str::trim`: the text without leading and trailing white space,
/// as the Unicode property White_Space defines it.
#[verifier::external_body]
pub(crate) fn trim_text(s: &str) -> (r: String)
    ensures
        r@ == trimmed(s@),
{
    s.trim().to_string()
}

/// A lower-case hexadecimal digit.
pub open spec fn hex_digit(n: u32) -> char {
    "0123456789abcdef"@[n as int]
}

/// How one character stands inside a JSON string: the quote, the backslash
/// and the control characters below U+0020 are escaped, the rest stand as
/// they are.
pub open spec fn escape_char(c: char) -> Seq<char> {
    let n = c as u32;
    if c == '"' {
        seq!['\\', '"']
    } else if c == '\\' {
        seq!['\\', '\\']
    } else if n == 0x08 {
        seq!['\\', 'b']
    } else if n == 0x09 {
        seq!['\\', 't']
    } else if n == 0x0a {
        seq!['\\', 'n']
    } else if n == 0x0c {
        seq!['\\', 'f']
    } else if n == 0x0d {
        seq!['\\', 'r']
    } else if n < 0x20 {
        seq!['\\', 'u', '0', '0', hex_digit(n / 16), hex_digit(n % 16)]
    } else {
        seq![c]
    }
}

/// The characters of a text, each escaped.
pub open spec fn escaped(s: Seq<char>) -> Seq<char>
    decreases s.len(),
{
    if s.len() == 0 {
        Seq::empty()
    } else {
        escaped(s.drop_last()) + escape_char(s.last())
    }
}

/// The JSON string literal of a text, as `serde_json::to_string` writes it.
pub open spec fn json_string(s: Seq<char>) -> Seq<char> {
    seq!['"'] + escaped(s) + seq!['"']
}

/// Relies on `serde_json::to_string` on a `str`: the text between quotes,
/// each character escaped by the table in `format_escaped_str` and
/// `write_char_escape`. Serialising a `str` into the in-memory buffer does
/// not fail.
#[verifier::external_body]
fn encode_json_string(s: &str) -> (r: Option<String>)
    ensures
        r is Some,
        r matches Some(t) ==> t@ == json_string(s@),
{
    serde_json::to_string(s).ok()
}

pub open spec fn bool_text(b: bool) -> Seq<char> {
    if b {
        "true"@
    } else {
        "false"@
    }
}

/// The JSON object `{"name": ..., "private": ...}` around an already encoded name.
pub open spec fn body_frame(encoded_name: Seq<char>, private: bool) -> Seq<char> {
    "{\"name\":"@ + encoded_name + ",\"private\":"@ + bool_text(private) + "}"@
}

/// The body of the repository-creation request.
pub open spec fn repository_body_text(name: Seq<char>, private: bool) -> Seq<char> {
    body_frame(json_string(name), private)
}

/// Frames an encoded JSON string as the body of the repository-creation request.
pub fn frame_repository_body(encoded_name: &str, private: bool) -> (r: String)
    ensures
        r@ == body_frame(encoded_name@, private),
{
    let mut body = String::from_str("{\"name\":");
    body.append(encoded_name);
    body.append(",\"private\":");
    if private {
        body.append("true");
    } else {
        body.append("false");
    }
    body.append("}");
    body
}

/// The body of the repository-creation request: a JSON object holding the
/// repository's name and visibility.
pub fn repository_body(name: &str, private: bool) -> (r: Option<String>)
    ensures
        r is Some,
        r matches Some(b) ==> b@ == repository_body_text(name@, private),
{
    match encode_json_string(name) {
        Some(encoded) => Some(frame_repository_body(encoded.as_str(), private)),
        None => None,
    }
}

/// The web page of a hosted repository.
pub open spec fn repository_page(owner: Seq<char>, name: Seq<char>) -> Seq<char> {
    "https://github.com/"@ + owner + "/"@ + name
}

/// The URL that the local repository pushes to.
pub open spec fn remote_url(owner: Seq<char>, name: Seq<char>) -> Seq<char> {
    repository_page(owner, name) + ".git"@
}

/// The web page of the repository `name` of `owner`.
pub fn page_of(owner: &str, name: &str) -> (r: String)
    ensures
        r@ == repository_page(owner@, name@),
{
    let mut page = String::from_str("https://github.com/");
    page.append(owner);
    page.append("/");
    page.append(name);
    page
}

/// The push URL of the repository `name` of `owner`.
pub fn url_of(owner: &str, name: &str) -> (r: String)
    ensures
        r@ == remote_url(owner@, name@),
{
    let mut url = page_of(owner, name);
    url.append(".git");
    url
}

} // verus!
