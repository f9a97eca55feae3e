//! Input checks of the API; each failure is a bad request with a message.
use vstd::prelude::*;
use crate::error::PloyerError;
use vstd::utf8::encode_utf8;
use crate::text::{concat2, starts_with, push_decimal};

verus! {

/// The Unicode `White_Space` characters.
pub open spec fn is_white_space(c: char) -> bool {
    ('\u{9}' <= c <= '\u{d}') || c == ' ' || c == '\u{85}' || c == '\u{a0}' || c == '\u{1680}'
        || ('\u{2000}' <= c <= '\u{200a}') || c == '\u{2028}' || c == '\u{2029}'
        || c == '\u{202f}' || c == '\u{205f}' || c == '\u{3000}'
}

/// Empty, or white space only.
pub open spec fn is_blank(s: Seq<char>) -> bool {
    forall|i: int| 0 <= i < s.len() ==> is_white_space(#[trigger] s[i])
}

pub open spec fn is_key_char(c: char) -> bool {
    ('a' <= c <= 'z') || ('A' <= c <= 'Z') || ('0' <= c <= '9') || c == '_'
}

pub open spec fn contains_char(s: Seq<char>, c: char) -> bool {
    exists|i: int| 0 <= i < s.len() && s[i] == c
}

/// Byte length of the UTF-8 form of a string.
pub open spec fn byte_len(s: Seq<char>) -> nat {
    encode_utf8(s).len()
}

fn white_space(c: char) -> (r: bool)
    ensures
        r == is_white_space(c),
{
    ('\u{9}' <= c && c <= '\u{d}') || c == ' ' || c == '\u{85}' || c == '\u{a0}' || c == '\u{1680}'
        || ('\u{2000}' <= c && c <= '\u{200a}') || c == '\u{2028}' || c == '\u{2029}'
        || c == '\u{202f}' || c == '\u{205f}' || c == '\u{3000}'
}

fn blank(s: &str) -> (r: bool)
    ensures
        r == is_blank(s@),
{
    let n = s.unicode_len();
    let mut i: usize = 0;
    while i < n
        invariant
            n == s@.len(),
            0 <= i <= n,
            forall|j: int| 0 <= j < i ==> is_white_space(#[trigger] s@[j]),
        decreases n - i,
    {
        if !white_space(s.get_char(i)) {
            return false;
        }
        i = i + 1;
    }
    true
}

fn has_char(s: &str, c: char) -> (r: bool)
    ensures
        r == contains_char(s@, c),
{
    let n = s.unicode_len();
    let mut i: usize = 0;
    while i < n
        invariant
            n == s@.len(),
            0 <= i <= n,
            forall|j: int| 0 <= j < i ==> s@[j] != c,
        decreases n - i,
    {
        if s.get_char(i) == c {
            return true;
        }
        i = i + 1;
    }
    false
}

fn bad(msg: &str) -> (r: PloyerError)
    ensures
        r is BadRequest,
        r->BadRequest_0@ == msg@,
{
    PloyerError::BadRequest(String::from_str(msg))
}

/// A required field: not blank and at most `max_len` bytes.
pub fn required(value: &str, field: &str, max_len: usize) -> (r: Result<(), PloyerError>)
    ensures
        r is Ok <==> !is_blank(value@) && byte_len(value@) <= max_len,
        r matches Err(e) ==> e is BadRequest,
        is_blank(value@) ==> (r matches Err(e) && e->BadRequest_0@ == field@ + " is required"@),
{
    if blank(value) {
        return Err(PloyerError::BadRequest(concat2(field, " is required")));
    }
    if value.as_bytes().len() > max_len {
        let mut m = concat2(field, " must be ");
        push_decimal(&mut m, max_len as u64);
        m.append(" characters or fewer");
        return Err(PloyerError::BadRequest(m));
    }
    Ok(())
}

/// An email address: not blank, holding `@` and `.`, at most 254 characters.
pub fn email(value: &str) -> (r: Result<(), PloyerError>)
    ensures
        r is Ok <==> !is_blank(value@) && contains_char(value@, '@') && contains_char(value@, '.')
            && value@.len() <= 254,
        r matches Err(e) ==> e is BadRequest,
{
    if blank(value) {
        return Err(bad("Email is required"));
    }
    if !has_char(value, '@') || !has_char(value, '.') {
        return Err(bad("Invalid email address"));
    }
    if value.unicode_len() > 254 {
        return Err(bad("Email must be 254 characters or fewer"));
    }
    Ok(())
}

/// A password of 8 to 128 bytes.
pub fn password(value: &str) -> (r: Result<(), PloyerError>)
    ensures
        r is Ok <==> 8 <= byte_len(value@) <= 128,
        r matches Err(e) ==> e is BadRequest,
{
    let n = value.as_bytes().len();
    if n < 8 {
        return Err(bad("Password must be at least 8 characters"));
    }
    if n > 128 {
        return Err(bad("Password must be 128 characters or fewer"));
    }
    Ok(())
}

pub open spec fn has_prefix(s: Seq<char>, p: Seq<char>) -> bool {
    p.len() <= s.len() && s.subrange(0, p.len() as int) == p
}

/// `http://`, `https://`, `git@` or `ssh://` in front, at most 2048 bytes.
pub open spec fn valid_git_url(s: Seq<char>) -> bool {
    (has_prefix(s, "http://"@) || has_prefix(s, "https://"@) || has_prefix(s, "git@"@) || has_prefix(
        s,
        "ssh://"@,
    )) && byte_len(s) <= 2048
}

/// A clone URL: `http://`, `https://`, `git@` or `ssh://`, at most 2048 bytes.
pub fn git_url(value: &str) -> (r: Result<(), PloyerError>)
    ensures
        r is Ok <==> valid_git_url(value@),
        r matches Err(e) ==> e is BadRequest,
{
    let valid = starts_with(value, "http://") || starts_with(value, "https://") || starts_with(
        value,
        "git@",
    ) || starts_with(value, "ssh://");
    if !valid {
        return Err(bad("git_url must start with http://, https://, git@, or ssh://"));
    }
    if value.as_bytes().len() > 2048 {
        return Err(bad("git_url must be 2048 characters or fewer"));
    }
    Ok(())
}

/// A TCP port: anything but zero.
pub fn port(value: u16) -> (r: Result<(), PloyerError>)
    ensures
        r is Ok <==> value != 0,
        r matches Err(e) ==> e is BadRequest,
{
    if value == 0 {
        return Err(bad("Port must be between 1 and 65535"));
    }
    Ok(())
}

/// An environment-variable key: one to 256 bytes of `[A-Za-z0-9_]`.
pub fn env_key(value: &str) -> (r: Result<(), PloyerError>)
    ensures
        r is Ok <==> !is_blank(value@) && byte_len(value@) <= 256 && forall|i: int|
            0 <= i < value@.len() ==> is_key_char(#[trigger] value@[i]),
        r matches Err(e) ==> e is BadRequest,
{
    if blank(value) {
        return Err(bad("Environment variable key is required"));
    }
    if value.as_bytes().len() > 256 {
        return Err(bad("Environment variable key must be 256 characters or fewer"));
    }
    let n = value.unicode_len();
    let mut i: usize = 0;
    while i < n
        invariant
            n == value@.len(),
            0 <= i <= n,
            forall|j: int| 0 <= j < i ==> is_key_char(#[trigger] value@[j]),
        decreases n - i,
    {
        let c = value.get_char(i);
        if !(('a' <= c && c <= 'z') || ('A' <= c && c <= 'Z') || ('0' <= c && c <= '9') || c
            == '_') {
            return Err(bad("Environment variable key may only contain letters, digits, and underscores"));
        }
        i = i + 1;
    }
    Ok(())
}

/// The checks of a new or changed application: a name of at most 100 bytes,
/// a server identifier of at most 36, a well-formed clone URL and a nonzero
/// port when they are given. The first failing check gives the error.
pub fn application_fields(
    name: &str,
    server_id: &str,
    git_url_value: Option<&str>,
    port_value: Option<u16>,
) -> (r: Result<(), PloyerError>)
    ensures
        r is Ok <==> (!is_blank(name@) && byte_len(name@) <= 100) && (!is_blank(server_id@)
            && byte_len(server_id@) <= 36) && (git_url_value matches Some(u) ==> valid_git_url(u@))
            && (port_value matches Some(p) ==> p != 0),
        r matches Err(e) ==> e is BadRequest,
{
    required(name, "Name", 100)?;
    required(server_id, "Server ID", 36)?;
    if let Some(u) = git_url_value {
        git_url(u)?;
    }
    if let Some(p) = port_value {
        port(p)?;
    }
    Ok(())
}

} // verus!
