//! The two-phase resumable upload to Drive.
//!
//! Phase one initiates a session: a `POST` to the upload path with
//! `uploadType=resumable`, the file metadata as a JSON body, and the
//! upload's content type and length announced in headers.  A 200 answer
//! must carry a `Location` header with the session URL; phase two `PUT`s
//! the raw bytes to that URL.
//!
//! The JSON body is built here, byte for byte: object keys in camel case
//! and declaration order, absent optional fields as `null`, strings with
//! `"`, `\` and control characters escaped.

use vstd::prelude::*;
use vstd::string::*;
use crate::drive::client::Client;
use crate::drive::client::File;
use crate::drive::client::GoogleDriveError;
use crate::drive::client::spec_lead_slash;
use crate::drive::client::spec_query_suffix;
use crate::drive::client::spec_query_views;
use crate::encoding::hex_lower;
use crate::encoding::push_str_chars;
use crate::encoding::spec_hex_lower;
use crate::encoding::string_from_chars;
use crate::error::Error;
use crate::util::construct_request;
use crate::util::spec_bearer;

verus! {

/// One character of a JSON string, escaped: `"` and `\` behind a
/// backslash, the named control characters as their short escapes, the
/// remaining control characters as `\u00` and two lowercase hex digits,
/// everything else as itself.
pub open spec fn spec_json_escape_char(c: char) -> Seq<char> {
    if c == '"' {
        seq!['\\', '"']
    } else if c == '\\' {
        seq!['\\', '\\']
    } else if c == '\u{8}' {
        seq!['\\', 'b']
    } else if c == '\t' {
        seq!['\\', 't']
    } else if c == '\n' {
        seq!['\\', 'n']
    } else if c == '\u{c}' {
        seq!['\\', 'f']
    } else if c == '\r' {
        seq!['\\', 'r']
    } else if (c as u32) < 0x20 {
        seq![
            '\\',
            'u',
            '0',
            '0',
            spec_hex_lower((c as u32 / 16) as u8),
            spec_hex_lower((c as u32 % 16) as u8),
        ]
    } else {
        seq![c]
    }
}

/// A whole JSON string body, escaped character by character.
pub open spec fn spec_json_escaped(s: Seq<char>) -> Seq<char>
    decreases s.len(),
{
    if s.len() == 0 {
        Seq::empty()
    } else {
        spec_json_escape_char(s[0]) + spec_json_escaped(s.drop_first())
    }
}

/// A JSON string: the escaped body between double quotes.
pub open spec fn spec_json_string(s: Seq<char>) -> Seq<char> {
    seq!['"'] + spec_json_escaped(s) + seq!['"']
}

/// An optional JSON string: `null` when absent.
pub open spec fn spec_json_opt_string(o: Option<String>) -> Seq<char> {
    match o {
        Some(s) => spec_json_string(s@),
        None => "null"@,
    }
}

/// An optional JSON boolean: `null` when absent.
pub open spec fn spec_json_opt_bool(o: Option<bool>) -> Seq<char> {
    match o {
        Some(true) => "true"@,
        Some(false) => "false"@,
        None => "null"@,
    }
}

/// The elements of a JSON string array, joined with commas.
pub open spec fn spec_json_array_elems(v: Seq<String>) -> Seq<char>
    decreases v.len(),
{
    if v.len() == 0 {
        Seq::empty()
    } else if v.len() == 1 {
        spec_json_string(v[0]@)
    } else {
        spec_json_string(v[0]@) + seq![','] + spec_json_array_elems(v.drop_first())
    }
}

/// A JSON array of strings.
pub open spec fn spec_json_array(v: Seq<String>) -> Seq<char> {
    seq!['['] + spec_json_array_elems(v) + seq![']']
}

/// The JSON object a [`File`] metadata record serializes to: the fields in
/// declaration order, keys in camel case, absent options as `null`.
pub open spec fn spec_file_json(f: File) -> Seq<char> {
    "{\"kind\":"@ + spec_json_opt_string(f.kind) + ",\"id\":"@ + spec_json_opt_string(f.id)
        + ",\"name\":"@ + spec_json_string(f.name@) + ",\"mimeType\":"@ + spec_json_string(
        f.mime_type@,
    ) + ",\"description\":"@ + spec_json_opt_string(f.description) + ",\"createdTime\":"@
        + spec_json_opt_string(f.created_time) + ",\"modifiedTime\":"@ + spec_json_opt_string(
        f.modified_time,
    ) + ",\"parents\":"@ + spec_json_array(f.parents@) + ",\"starred\":"@ + spec_json_opt_bool(
        f.starred,
    ) + ",\"viewedByMeTime\":"@ + spec_json_opt_string(f.viewed_by_me_time)
        + ",\"writersCanShare\":"@ + spec_json_opt_string(f.writers_can_share) + "}"@
}

/// Escaping a concatenation is the concatenation of the escapes.
proof fn lemma_json_escaped_snoc(s: Seq<char>, c: char)
    ensures
        spec_json_escaped(s.push(c)) == spec_json_escaped(s) + spec_json_escape_char(c),
    decreases s.len(),
{
    if s.len() == 0 {
        assert(s =~= Seq::<char>::empty());
        assert(spec_json_escaped(Seq::<char>::empty()) == Seq::<char>::empty());
        assert(s.push(c).drop_first() =~= Seq::<char>::empty());
        assert(s.push(c)[0] == c);
        assert(spec_json_escaped(s.push(c)) == spec_json_escape_char(c) + Seq::<char>::empty());
        assert(spec_json_escape_char(c) + Seq::<char>::empty() =~= spec_json_escape_char(c));
        assert(Seq::<char>::empty() + spec_json_escape_char(c) =~= spec_json_escape_char(c));
    } else {
        assert(s.push(c).drop_first() =~= s.drop_first().push(c));
        lemma_json_escaped_snoc(s.drop_first(), c);
        assert(spec_json_escaped(s.push(c)) =~= spec_json_escaped(s) + spec_json_escape_char(c));
    }
}

/// Appending one more element extends a joined array body by a comma and
/// the element (or is the element itself, when the array was empty).
proof fn lemma_json_array_elems_snoc(v: Seq<String>, s: String)
    ensures
        spec_json_array_elems(v.push(s)) == if v.len() == 0 {
            spec_json_string(s@)
        } else {
            spec_json_array_elems(v) + seq![','] + spec_json_string(s@)
        },
    decreases v.len(),
{
    if v.len() == 0 {
        assert(v.push(s)[0] == s);
        assert(v.push(s).len() == 1);
    } else {
        assert(v.push(s).drop_first() =~= v.drop_first().push(s));
        lemma_json_array_elems_snoc(v.drop_first(), s);
        if v.len() == 1 {
            assert(spec_json_array_elems(v) == spec_json_string(v[0]@));
            assert(v.push(s)[0] == v[0]);
        } else {
            assert(spec_json_array_elems(v.push(s)) =~= spec_json_array_elems(v) + seq![',']
                + spec_json_string(s@));
        }
    }
}

/// Append the escaped body of a JSON string to `out`.
fn push_json_escaped(out: &mut Vec<char>, s: &str)
    ensures
        final(out)@ == old(out)@ + spec_json_escaped(s@),
{
    let n = s.unicode_len();
    let mut i: usize = 0;
    while i < n
        invariant
            i <= n,
            n == s@.len(),
            out@ == old(out)@ + spec_json_escaped(s@.subrange(0, i as int)),
        decreases n - i,
    {
        let c = s.get_char(i);
        if c == '"' {
            out.push('\\');
            out.push('"');
        } else if c == '\\' {
            out.push('\\');
            out.push('\\');
        } else if c == '\u{8}' {
            out.push('\\');
            out.push('b');
        } else if c == '\t' {
            out.push('\\');
            out.push('t');
        } else if c == '\n' {
            out.push('\\');
            out.push('n');
        } else if c == '\u{c}' {
            out.push('\\');
            out.push('f');
        } else if c == '\r' {
            out.push('\\');
            out.push('r');
        } else {
            let code = c as u32;
            if code < 0x20 {
                out.push('\\');
                out.push('u');
                out.push('0');
                out.push('0');
                out.push(hex_lower((code / 16) as u8));
                out.push(hex_lower((code % 16) as u8));
            } else {
                out.push(c);
            }
        }
        proof {
            assert(s@.subrange(0, i + 1 as int) =~= s@.subrange(0, i as int).push(s@[i as int]));
            lemma_json_escaped_snoc(s@.subrange(0, i as int), s@[i as int]);
            assert(out@ =~= old(out)@ + spec_json_escaped(s@.subrange(0, i + 1 as int)));
        }
        i = i + 1;
    }
    proof {
        assert(s@.subrange(0, n as int) =~= s@);
    }
}

/// Append a JSON string (quotes and escaped body) to `out`.
fn push_json_string(out: &mut Vec<char>, s: &str)
    ensures
        final(out)@ == old(out)@ + spec_json_string(s@),
{
    out.push('"');
    push_json_escaped(out, s);
    out.push('"');
    proof {
        assert(old(out)@ + spec_json_string(s@) =~= ((old(out)@ + seq!['"']) + spec_json_escaped(
            s@,
        )).push('"'));
    }
}

/// Append an optional JSON string (`null` when absent) to `out`.
fn push_json_opt_string(out: &mut Vec<char>, o: &Option<String>)
    ensures
        final(out)@ == old(out)@ + spec_json_opt_string(*o),
{
    match o {
        Some(s) => push_json_string(out, s.as_str()),
        None => push_str_chars(out, "null"),
    }
}

/// Append an optional JSON boolean (`null` when absent) to `out`.
fn push_json_opt_bool(out: &mut Vec<char>, o: &Option<bool>)
    ensures
        final(out)@ == old(out)@ + spec_json_opt_bool(*o),
{
    match o {
        Some(b) => {
            if *b {
                push_str_chars(out, "true")
            } else {
                push_str_chars(out, "false")
            }
        },
        None => push_str_chars(out, "null"),
    }
}

/// Append a JSON array of strings to `out`.
fn push_json_array(out: &mut Vec<char>, v: &Vec<String>)
    ensures
        final(out)@ == old(out)@ + spec_json_array(v@),
{
    out.push('[');
    let mut i: usize = 0;
    while i < v.len()
        invariant
            i <= v.len(),
            out@ == old(out)@ + seq!['['] + spec_json_array_elems(v@.subrange(0, i as int)),
        decreases v.len() - i,
    {
        if i > 0 {
            out.push(',');
        }
        push_json_string(out, v[i].as_str());
        proof {
            assert(v@.subrange(0, i + 1 as int) =~= v@.subrange(0, i as int).push(v@[i as int]));
            lemma_json_array_elems_snoc(v@.subrange(0, i as int), v@[i as int]);
            assert(out@ =~= old(out)@ + seq!['['] + spec_json_array_elems(
                v@.subrange(0, i + 1 as int),
            ));
        }
        i = i + 1;
    }
    out.push(']');
    proof {
        assert(v@.subrange(0, v@.len() as int) =~= v@);
        assert(out@ =~= old(out)@ + spec_json_array(v@));
    }
}

/// The JSON text a metadata record is sent as.
pub fn metadata_json(metadata: &File) -> (r: String)
    ensures
        r@ == spec_file_json(*metadata),
{
    let mut out: Vec<char> = Vec::new();
    push_str_chars(&mut out, "{\"kind\":");
    push_json_opt_string(&mut out, &metadata.kind);
    push_str_chars(&mut out, ",\"id\":");
    push_json_opt_string(&mut out, &metadata.id);
    push_str_chars(&mut out, ",\"name\":");
    push_json_string(&mut out, metadata.name.as_str());
    push_str_chars(&mut out, ",\"mimeType\":");
    push_json_string(&mut out, metadata.mime_type.as_str());
    push_str_chars(&mut out, ",\"description\":");
    push_json_opt_string(&mut out, &metadata.description);
    push_str_chars(&mut out, ",\"createdTime\":");
    push_json_opt_string(&mut out, &metadata.created_time);
    push_str_chars(&mut out, ",\"modifiedTime\":");
    push_json_opt_string(&mut out, &metadata.modified_time);
    push_str_chars(&mut out, ",\"parents\":");
    push_json_array(&mut out, &metadata.parents);
    push_str_chars(&mut out, ",\"starred\":");
    push_json_opt_bool(&mut out, &metadata.starred);
    push_str_chars(&mut out, ",\"viewedByMeTime\":");
    push_json_opt_string(&mut out, &metadata.viewed_by_me_time);
    push_str_chars(&mut out, ",\"writersCanShare\":");
    push_json_opt_string(&mut out, &metadata.writers_can_share);
    push_str_chars(&mut out, "}");
    proof {
        assert(out@ =~= spec_file_json(*metadata));
    }
    string_from_chars(out)
}

/// The URI a resumable upload is initiated at: the upload path with
/// `uploadType=resumable`.
pub open spec fn spec_resume_uri() -> Seq<char> {
    "https://www.googleapis.com"@ + spec_lead_slash("upload/drive/v3/files"@)
        + spec_query_suffix(
        seq![
            (
                vstd::utf8::encode_utf8("uploadType"@),
                vstd::utf8::encode_utf8("resumable"@),
            ),
        ],
    )
}

/// The parts of the phase-one request that initiates a resumable upload.
#[derive(Debug)]
pub struct ResumeRequest {
    /// The URI to `POST` to.
    pub uri: String,
    /// The `authorization` header value.
    pub authorization: String,
    /// The `X-Upload-Content-Type` header value: the file's own type.
    pub upload_content_type: String,
    /// The `X-Upload-Content-Length` header value: the byte count of the
    /// upload to come.
    pub upload_content_length: usize,
    /// The `Content-Type` header value of this request: JSON.
    pub content_type: String,
    /// The body: the metadata record as JSON text.
    pub body: String,
}

/// The parts of the phase-two request that transfers the bytes.
#[derive(Debug)]
pub struct UploadRequest {
    /// The session URL to `PUT` to.
    pub uri: String,
    /// The `authorization` header value.
    pub authorization: String,
    /// The `Content-Type` header value: the file's own type.
    pub content_type: String,
    /// The `Content-Length` header value: the byte count of the body.
    pub content_length: usize,
    /// The body: the file bytes, unchanged.
    pub body: Vec<u8>,
}

/// Build the phase-one request: the resumable-initiation URI, the bearer
/// header for `token`, the upload's announced type and length, and the
/// metadata as a JSON body.
pub fn resume_request(token: &str, data_len: usize, metadata: &File) -> (r: ResumeRequest)
    ensures
        r.uri@ == spec_resume_uri(),
        r.authorization@ == spec_bearer(token@),
        r.upload_content_type@ == metadata.mime_type@,
        r.upload_content_length == data_len,
        r.content_type@ == "application/json"@,
        r.body@ == spec_file_json(*metadata),
{
    let mut params: Vec<(String, String)> = Vec::new();
    params.push((String::from_str("uploadType"), String::from_str("resumable")));
    let uri = Client::build_uri("upload/drive/v3/files", &params);
    proof {
        assert(spec_query_views(params@) =~= seq![
            (
                vstd::utf8::encode_utf8("uploadType"@),
                vstd::utf8::encode_utf8("resumable"@),
            ),
        ]);
    }
    let auth = construct_request(token, &Vec::new());
    ResumeRequest {
        uri,
        authorization: auth.authorization,
        upload_content_type: metadata.mime_type.clone(),
        upload_content_length: data_len,
        content_type: String::from_str("application/json"),
        body: metadata_json(metadata),
    }
}

/// Read the phase-one response: a 200 with a `Location` header yields the
/// session URL; a 200 without one is [`GoogleDriveError::ResumeUrlNotFound`];
/// any other status is [`GoogleDriveError::UnexpectedResponse`].  The
/// response body travels into the error for diagnostics.
pub fn resume_url(status: u16, location: Option<String>, response: String) -> (r: Result<
    String,
    Error,
>)
    ensures
        status == 200 ==> (location matches Some(l) ==> r == Ok::<String, Error>(l)),
        status == 200 && location is None ==> r == Err::<String, Error>(
            Error::GooleDrive((GoogleDriveError::ResumeUrlNotFound { response })),
        ),
        status != 200 ==> r == Err::<String, Error>(
            Error::GooleDrive((GoogleDriveError::UnexpectedResponse { status, response })),
        ),
{
    if status == 200 {
        match location {
            Some(l) => Ok(l),
            None => Err(Error::GooleDrive(GoogleDriveError::ResumeUrlNotFound { response })),
        }
    } else {
        Err(Error::GooleDrive(GoogleDriveError::UnexpectedResponse { status, response }))
    }
}

/// Build the phase-two request: `PUT` the bytes, unchanged, to the session
/// URL, under the file's own content type and exact length.
pub fn upload_request(token: &str, url: String, data: Vec<u8>, metadata: &File) -> (r:
    UploadRequest)
    ensures
        r.uri == url,
        r.authorization@ == spec_bearer(token@),
        r.content_type@ == metadata.mime_type@,
        r.content_length == data@.len(),
        r.body@ == data@,
{
    let auth = construct_request(token, &Vec::new());
    let content_length = data.len();
    UploadRequest {
        uri: url,
        authorization: auth.authorization,
        content_type: metadata.mime_type.clone(),
        content_length,
        body: data,
    }
}

/// Advance the upload after phase one: on a 200 with a `Location`, the
/// phase-two request for that session URL; otherwise the typed error of
/// [`resume_url`], with nothing sent.
pub fn upload_file(
    token: &str,
    status: u16,
    location: Option<String>,
    response: String,
    data: Vec<u8>,
    metadata: &File,
) -> (r: Result<UploadRequest, Error>)
    ensures
        status == 200 ==> (location matches Some(l) ==> r matches Ok(u) && u.uri == l
            && u.authorization@ == spec_bearer(token@) && u.content_type@ == metadata.mime_type@
            && u.content_length == data@.len() && u.body@ == data@),
        status == 200 && location is None ==> r == Err::<UploadRequest, Error>(
            Error::GooleDrive((GoogleDriveError::ResumeUrlNotFound { response })),
        ),
        status != 200 ==> r == Err::<UploadRequest, Error>(
            Error::GooleDrive((GoogleDriveError::UnexpectedResponse { status, response })),
        ),
{
    match resume_url(status, location, response) {
        Ok(url) => Ok(upload_request(token, url, data, metadata)),
        Err(e) => Err(e),
    }
}

} // verus!
