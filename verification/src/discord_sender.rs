use vstd::prelude::*;
use vstd::string::{StringExecFns, StrSliceExecFns, StringSliceAdditionalSpecFns};
use crate::text::{dec_digits, push_u16_decimal};

verus! {

/// Why a delivery failed. The three kinds are fatal to one entry's delivery
/// only: a local read fault, a connection-level fault before any response,
/// and a rejection by the remote endpoint.
#[derive(Debug)]
pub enum UploadError {
    /// The path has no usable final component to name the attachment after.
    NoFileName,
    /// The file could not be read before sending.
    FileRead(String),
    /// The request never produced a response.
    Transport(String),
    /// The endpoint answered with a non-success status; `body` carries its
    /// diagnostic text, or a fixed placeholder where none could be read.
    Remote { status: u16, body: String },
}

impl UploadError {
    /// A human-readable rendering of the error; for a remote rejection it
    /// carries both the numeric status and the response body text.
    pub fn message(&self) -> (m: String)
        ensures
            self matches UploadError::NoFileName ==> m@ == "Failed to get file name"@,
            self matches UploadError::FileRead(c) ==> m@ == c@,
            self matches UploadError::Transport(c) ==> m@ == c@,
            self matches UploadError::Remote { status, body }
                ==> m@ == "Discord API returned error: "@ + dec_digits(status as int) + " - "@ + body@,
    {
        match self {
            UploadError::NoFileName => "Failed to get file name".to_owned(),
            UploadError::FileRead(c) => c.clone(),
            UploadError::Transport(c) => c.clone(),
            UploadError::Remote { status, body } => {
                let mut m = "Discord API returned error: ".to_owned();
                push_u16_decimal(&mut m, *status);
                m.append(" - ");
                m.append(body.as_str());
                assert(m@ =~= "Discord API returned error: "@ + dec_digits(*status as int) + " - "@ + body@);
                m
            }
        }
    }
}

/// `s` is where the final path component of `p` starts: everything from `s`
/// on is free of '/' and, unless `s` is 0, a '/' stands just before it.
pub open spec fn is_name_start(p: Seq<u8>, s: int) -> bool {
    &&& 0 <= s <= p.len()
    &&& forall|j: int| s <= j < p.len() ==> p[j] != 47u8
    &&& s > 0 ==> p[s - 1] == 47u8
}

/// At most one position starts the final component, so "the file name of a
/// path" is well defined.
pub proof fn lemma_name_start_unique(p: Seq<u8>, a: int, b: int)
    requires
        is_name_start(p, a),
        is_name_start(p, b),
    ensures
        a == b,
{
    if a < b {
        assert(p[b - 1] == 47u8);
        assert(p[b - 1] != 47u8);
    } else if b < a {
        assert(p[a - 1] == 47u8);
        assert(p[a - 1] != 47u8);
    }
}

/// A usable attachment name: non-empty and not a bare current- or
/// parent-directory marker.
pub open spec fn valid_file_name(n: Seq<u8>) -> bool {
    n.len() > 0 && n != seq![46u8] && n != seq![46u8, 46u8]
}

/// The path's final component is a usable attachment name.
pub open spec fn has_file_name(p: Seq<u8>) -> bool {
    exists|s: int| is_name_start(p, s)
        && valid_file_name(p.subrange(s, p.len() as int))
}

/// The bytes of the path's final component, or `None` where that component
/// is empty, ".", or "..": such a path names no file to attach.
pub fn file_name_bytes(path: &str) -> (r: Option<Vec<u8>>)
    ensures
        r matches Some(n) ==> exists|s: int|
            is_name_start(path.spec_bytes(), s)
            && n@ == path.spec_bytes().subrange(s, path.spec_bytes().len() as int)
            && valid_file_name(n@),
        (r is Some) == has_file_name(path.spec_bytes()),
{
    let bs = path.as_bytes();
    let mut s: usize = bs.len();
    while s > 0 && bs[s - 1] != 47
        invariant
            s <= bs@.len(),
            bs@ == path.spec_bytes(),
            forall|j: int| s <= j < bs@.len() ==> bs@[j] != 47u8,
        decreases s,
    {
        s = s - 1;
    }
    assert(is_name_start(path.spec_bytes(), s as int));
    let mut name: Vec<u8> = Vec::new();
    let mut j: usize = s;
    while j < bs.len()
        invariant
            s <= j <= bs@.len(),
            bs@ == path.spec_bytes(),
            name@ == bs@.subrange(s as int, j as int),
        decreases bs@.len() - j,
    {
        name.push(bs[j]);
        assert(name@ =~= bs@.subrange(s as int, j + 1));
        j = j + 1;
    }
    let ok = if name.len() == 0 {
        false
    } else if name.len() == 1 && name[0] == 46 {
        false
    } else if name.len() == 2 && name[0] == 46 && name[1] == 46 {
        false
    } else {
        true
    };
    proof {
        if name@ == seq![46u8] {
            assert(name@.len() == 1 && name@[0] == 46u8);
        }
        if name@ == seq![46u8, 46u8] {
            assert(name@.len() == 2 && name@[0] == 46u8 && name@[1] == 46u8);
        }
        if name@.len() == 1 && name@[0] == 46u8 {
            assert(name@ =~= seq![46u8]);
        }
        if name@.len() == 2 && name@[0] == 46u8 && name@[1] == 46u8 {
            assert(name@ =~= seq![46u8, 46u8]);
        }
        if !ok {
            assert forall|t: int| is_name_start(path.spec_bytes(), t)
                implies !valid_file_name(path.spec_bytes().subrange(t, path.spec_bytes().len() as int)) by {
                lemma_name_start_unique(path.spec_bytes(), t, s as int);
            }
        }
    }
    if ok {
        Some(name)
    } else {
        None
    }
}

/// `needle` occurs as a contiguous run somewhere in `hay`.
pub open spec fn contains_bytes(hay: Seq<u8>, needle: Seq<u8>) -> bool {
    exists|i: int| 0 <= i && i + needle.len() <= hay.len()
        && #[trigger] hay.subrange(i, i + needle.len()) == needle
}

/// Anything contained in `hay` is no longer than `hay`.
pub proof fn lemma_contained_len(hay: Seq<u8>, needle: Seq<u8>)
    requires
        contains_bytes(hay, needle),
    ensures
        needle.len() <= hay.len(),
{
    let i = choose|i: int| 0 <= i && i + needle.len() <= hay.len()
        && #[trigger] hay.subrange(i, i + needle.len()) == needle;
}

fn matches_at(hay: &Vec<u8>, needle: &Vec<u8>, i: usize) -> (r: bool)
    requires
        i + needle@.len() <= hay@.len(),
    ensures
        r == (hay@.subrange(i as int, i as int + needle@.len() as int) == needle@),
{
    let hay_len = hay.len();
    let mut j: usize = 0;
    while j < needle.len()
        invariant
            j <= needle@.len(),
            i + needle@.len() <= hay@.len(),
            hay_len == hay@.len(),
            forall|k: int| 0 <= k < j ==> hay@[i + k] == needle@[k],
        decreases needle@.len() - j,
    {
        if hay[i + j] != needle[j] {
            proof {
                assert(hay@.subrange(i as int, i as int + needle@.len() as int)[j as int] == hay@[i + j]);
            }
            return false;
        }
        j = j + 1;
    }
    proof {
        assert(hay@.subrange(i as int, i as int + needle@.len() as int) =~= needle@);
    }
    true
}

/// Whether `needle` occurs anywhere in `hay`.
pub fn bytes_contain(hay: &Vec<u8>, needle: &Vec<u8>) -> (r: bool)
    ensures
        r == contains_bytes(hay@, needle@),
{
    let hay_len = hay.len();
    let ned_len = needle.len();
    if ned_len == 0 {
        proof {
            assert(hay@.subrange(0, 0 + needle@.len() as int) =~= needle@);
            assert(contains_bytes(hay@, needle@));
        }
        return true;
    }
    if ned_len > hay_len {
        proof {
            if contains_bytes(hay@, needle@) {
                lemma_contained_len(hay@, needle@);
            }
        }
        return false;
    }
    let bound = hay_len - ned_len;
    let mut i: usize = 0;
    while i <= bound
        invariant
            hay_len == hay@.len(),
            ned_len == needle@.len(),
            1 <= ned_len <= hay_len,
            bound == hay@.len() - needle@.len(),
            forall|t: int| 0 <= t < i ==> #[trigger] hay@.subrange(t, t + needle@.len() as int) != needle@,
        decreases bound + 1 - i,
    {
        if matches_at(hay, needle, i) {
            return true;
        }
        i = i + 1;
    }
    false
}

/// A separator that occurs in neither the attachment bytes nor the caption
/// bytes, so the multipart framing cannot collide with the data it carries.
pub fn fresh_boundary(contents: &Vec<u8>, caption: &Vec<u8>) -> (b: Vec<u8>)
    ensures
        !contains_bytes(contents@, b@),
        !contains_bytes(caption@, b@),
        b@.len() >= 1,
{
    let mut b: Vec<u8> = Vec::new();
    b.push(70);
    b.push(111);
    b.push(114);
    b.push(109);
    b.push(66);
    b.push(111);
    b.push(117);
    b.push(110);
    b.push(100);
    b.push(97);
    b.push(114);
    b.push(121);
    while bytes_contain(contents, &b) || bytes_contain(caption, &b)
        invariant
            b@.len() >= 1,
        decreases contents@.len() + caption@.len() + 1 - b@.len(),
    {
        proof {
            if contains_bytes(contents@, b@) {
                lemma_contained_len(contents@, b@);
            } else {
                lemma_contained_len(caption@, b@);
            }
        }
        b.push(120);
    }
    b
}

/// The multipart/form-data payload: the attachment bytes as one binary part
/// under the fixed name "file" with the given filename, then, if a caption
/// is given, one text part under the fixed name "content", then the closing
/// delimiter. The filename is embedded verbatim: a name holding a quote or
/// a line break would break the header line's framing (the part delimiter
/// itself cannot be forged, since the boundary is chosen fresh against the
/// data), so callers with such names must sanitize them first.
pub open spec fn multipart_body_spec(boundary: Seq<u8>, name: Seq<u8>, contents: Seq<u8>, caption: Option<Seq<u8>>) -> Seq<u8> {
    ("--").spec_bytes() + boundary + ("\r\n").spec_bytes()
        + ("Content-Disposition: form-data; name=\"file\"; filename=\"").spec_bytes()
        + name + ("\"\r\n\r\n").spec_bytes()
        + contents + ("\r\n").spec_bytes()
        + (match caption {
            Some(c) => ("--").spec_bytes() + boundary + ("\r\n").spec_bytes()
                + ("Content-Disposition: form-data; name=\"content\"\r\n\r\n").spec_bytes()
                + c + ("\r\n").spec_bytes(),
            None => Seq::<u8>::empty(),
        })
        + ("--").spec_bytes() + boundary + ("--\r\n").spec_bytes()
}

/// The caption bytes an optional caption part carries.
pub open spec fn opt_bytes(o: Option<&Vec<u8>>) -> Option<Seq<u8>> {
    match o {
        Some(c) => Some(c@),
        None => None,
    }
}

/// Builds the multipart payload, byte for byte as `multipart_body_spec`
/// states it.
pub fn build_multipart_body(boundary: &Vec<u8>, name: &Vec<u8>, contents: &Vec<u8>, caption: Option<&Vec<u8>>) -> (body: Vec<u8>)
    ensures
        body@ == multipart_body_spec(boundary@, name@, contents@, opt_bytes(caption)),
{
    let mut body: Vec<u8> = Vec::new();
    body.extend_from_slice("--".as_bytes());
    body.extend_from_slice(boundary.as_slice());
    body.extend_from_slice("\r\n".as_bytes());
    body.extend_from_slice("Content-Disposition: form-data; name=\"file\"; filename=\"".as_bytes());
    body.extend_from_slice(name.as_slice());
    body.extend_from_slice("\"\r\n\r\n".as_bytes());
    body.extend_from_slice(contents.as_slice());
    body.extend_from_slice("\r\n".as_bytes());
    match caption {
        Some(c) => {
            body.extend_from_slice("--".as_bytes());
            body.extend_from_slice(boundary.as_slice());
            body.extend_from_slice("\r\n".as_bytes());
            body.extend_from_slice("Content-Disposition: form-data; name=\"content\"\r\n\r\n".as_bytes());
            body.extend_from_slice(c.as_slice());
            body.extend_from_slice("\r\n".as_bytes());
        }
        None => {}
    }
    body.extend_from_slice("--".as_bytes());
    body.extend_from_slice(boundary.as_slice());
    body.extend_from_slice("--\r\n".as_bytes());
    assert(body@ =~= multipart_body_spec(boundary@, name@, contents@, opt_bytes(caption)));
    body
}

/// The Content-Type header value that announces the chosen boundary.
pub fn content_type_for(boundary: &Vec<u8>) -> (ct: Vec<u8>)
    ensures
        ct@ == ("multipart/form-data; boundary=").spec_bytes() + boundary@,
{
    let mut ct: Vec<u8> = Vec::new();
    ct.extend_from_slice("multipart/form-data; boundary=".as_bytes());
    ct.extend_from_slice(boundary.as_slice());
    assert(ct@ =~= ("multipart/form-data; boundary=").spec_bytes() + boundary@);
    ct
}

/// The 2xx class: the remote accepted the delivery.
pub open spec fn is_success_status(status: u16) -> bool {
    200 <= status < 300
}

/// Classifies a received response: success exactly on a 2xx status;
/// anything else is a remote rejection carrying the status and the response
/// body text, with a fixed placeholder where the body could not be read.
pub fn classify_response(status: u16, body: Option<String>) -> (r: Result<(), UploadError>)
    ensures
        (r is Ok) <==> is_success_status(status),
        !is_success_status(status) ==> (r matches Err(e)
            && e matches UploadError::Remote { status: s, body: b }
            && s == status
            && b@ == (match body {
                Some(t) => t@,
                None => "No error message"@,
            })),
{
    if 200 <= status && status < 300 {
        Ok(())
    } else {
        let b = match body {
            Some(t) => t,
            None => "No error message".to_owned(),
        };
        Err(UploadError::Remote { status, body: b })
    }
}

/// `r` is the rejection of a path that names no file.
pub open spec fn returned_no_file_name(r: Result<(), UploadError>) -> bool {
    match r {
        Err(UploadError::NoFileName) => true,
        _ => false,
    }
}

/// A remote rejection in `r` always carries a non-success status: a 2xx
/// response can never surface as an error.
pub open spec fn remote_rejections_not_success(r: Result<(), UploadError>) -> bool {
    match r {
        Err(UploadError::Remote { status, .. }) => !is_success_status(status),
        _ => true,
    }
}

/// Relies on tokio::fs::read, driven to completion on a single-threaded
/// runtime, to read a file fully into memory. What comes back depends on
/// what is on disk, so nothing is assumed of it.
#[verifier::external_body]
fn read_file_bytes(path: &str) -> (r: Result<Vec<u8>, String>)
{
    let rt = match tokio::runtime::Builder::new_current_thread().build() {
        Ok(rt) => rt,
        Err(e) => return Err(format!("Failed to read file {path:?}: {e}")),
    };
    match rt.block_on(tokio::fs::read(path)) {
        Ok(bytes) => Ok(bytes),
        Err(e) => Err(format!("Failed to read file {path:?}: {e}")),
    }
}

/// Relies on reqwest's blocking client: posts `body` to `url` under the
/// given Content-Type and hands back the response status with the response
/// text (`None` where the text cannot be read), or the transport-level
/// fault where no response arrived. Nothing is assumed of the outcome: the
/// verified classification takes it as an argument.
#[verifier::external_body]
fn http_post(url: &str, content_type: &Vec<u8>, body: &Vec<u8>) -> (r: Result<(u16, Option<String>), String>)
{
    let ct = match reqwest::header::HeaderValue::from_bytes(content_type.as_slice()) {
        Ok(ct) => ct,
        Err(e) => return Err(format!("Failed to send request to Discord: {e}")),
    };
    let client = reqwest::blocking::Client::new();
    match client.post(url).header(reqwest::header::CONTENT_TYPE, ct).body(body.clone()).send() {
        Ok(resp) => {
            let status = resp.status().as_u16();
            Ok((status, resp.text().ok()))
        }
        Err(e) => Err(format!("Failed to send request to Discord: {e}")),
    }
}

/// Delivers files to a webhook endpoint as multipart uploads.
pub struct DiscordSender;

impl DiscordSender {
    /// Reads `file_path` fully and posts it to `webhook_url` as one
    /// multipart request: the file bytes under the fixed part name "file",
    /// named after the path's final component, and `message`, if given, as
    /// a text part under the fixed name "content". A path with no usable
    /// final component is rejected before anything is read or sent; after
    /// that the outcome is a local read failure, a transport failure, a
    /// remote rejection, or success, which is exactly a 2xx response
    /// (`classify_response` states the rule).
    pub fn send_file(webhook_url: &str, file_path: &str, message: Option<&str>) -> (r: Result<(), UploadError>)
        ensures
            returned_no_file_name(r) == !has_file_name(file_path.spec_bytes()),
            remote_rejections_not_success(r),
    {
        let name = match file_name_bytes(file_path) {
            Some(n) => n,
            None => {
                return Err(UploadError::NoFileName);
            }
        };
        let contents = match read_file_bytes(file_path) {
            Ok(c) => c,
            Err(m) => {
                return Err(UploadError::FileRead(m));
            }
        };
        let caption_bytes = match message {
            Some(m) => m.as_bytes_vec(),
            None => Vec::new(),
        };
        let boundary = fresh_boundary(&contents, &caption_bytes);
        let caption_part = match message {
            Some(_) => Some(&caption_bytes),
            None => None,
        };
        let body = build_multipart_body(&boundary, &name, &contents, caption_part);
        let ct = content_type_for(&boundary);
        match http_post(webhook_url, &ct, &body) {
            Ok((status, text)) => classify_response(status, text),
            Err(m) => Err(UploadError::Transport(m)),
        }
    }
}

} // verus!
