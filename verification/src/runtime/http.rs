use vstd::prelude::*;
use vstd::slice::slice_subrange;
use vstd::utf8::{decode_utf8, encode_utf8, valid_utf8};

use crate::util::text::{find, parse_decimal, position, spec_parse_decimal};

verus! {

/// One header of a request: its name in lower case, and its value.
#[derive(Debug, Clone, PartialEq, Eq)]
pub struct Header {
    pub name: String,
    pub value: String,
}

/// A header with its texts as sequences of characters.
pub struct HeaderView {
    pub name: Seq<char>,
    pub value: Seq<char>,
}

impl View for Header {
    type V = HeaderView;

    open spec fn view(&self) -> HeaderView {
        HeaderView { name: self.name@, value: self.value@ }
    }
}

/// An HTTP request that was read out of the target's memory. In the
/// method, the path and the version every byte stands for the character
/// with that code.
#[derive(Debug, Clone, PartialEq, Eq)]
pub struct HttpRequest {
    pub method: Vec<u8>,
    pub path: Vec<u8>,
    pub version: Vec<u8>,
    pub headers: Vec<Header>,
    pub body: Vec<u8>,
}

/// A request as mathematical sequences.
pub struct HttpRequestView {
    pub method: Seq<u8>,
    pub path: Seq<u8>,
    pub version: Seq<u8>,
    pub headers: Seq<HeaderView>,
    pub body: Seq<u8>,
}

/// The headers as values.
pub open spec fn header_views(headers: Seq<Header>) -> Seq<HeaderView> {
    headers.map_values(|header: Header| header@)
}

impl View for HttpRequest {
    type V = HttpRequestView;

    open spec fn view(&self) -> HttpRequestView {
        HttpRequestView {
            method: self.method@,
            path: self.path@,
            version: self.version@,
            headers: header_views(self.headers@),
            body: self.body@,
        }
    }
}

/// The text in lower case, as Unicode defines it.
pub uninterp spec fn lowercased(text: Seq<char>) -> Seq<char>;

/// What a gzip stream holds once it is decompressed, if it is one.
pub uninterp spec fn gunzipped(stream: Seq<u8>) -> Option<Seq<u8>>;

/// `String::from_utf8`: the text that the bytes encode in UTF-8, if they
/// are valid UTF-8, and nothing otherwise.
#[verifier::external_body]
fn utf8(bytes: &[u8]) -> (text: Option<String>)
    ensures
        text is Some <==> valid_utf8(bytes@),
        text matches Some(decoded) ==> decoded@ == decode_utf8(bytes@),
{
    String::from_utf8(bytes.to_vec()).ok()
}

/// `str::to_lowercase`: the text in lower case.
#[verifier::external_body]
fn lowercase(text: &str) -> (lower: String)
    ensures
        lower@ == lowercased(text@),
{
    text.to_lowercase()
}

/// `flate2::read::GzDecoder`, read to its end: the decompressed content of
/// a gzip stream, or nothing if the bytes are no gzip stream.
#[verifier::external_body]
fn gunzip(stream: &[u8]) -> (content: Option<Vec<u8>>)
    ensures
        content is Some == gunzipped(stream@) is Some,
        content matches Some(bytes) ==> gunzipped(stream@) == Some(bytes@),
{
    let mut content = Vec::new();
    match std::io::Read::read_to_end(&mut flate2::read::GzDecoder::new(stream), &mut content) {
        Ok(_) => Some(content),
        Err(_) => None,
    }
}

/// The end of the token that begins at `from`: the index of the first
/// `stop` at or after `from`, or the length of the text if there is none.
pub open spec fn token_end(text: Seq<u8>, from: int, stop: u8) -> int {
    from + position(text.subrange(from, text.len() as int), stop)
}

/// The index after the byte at `at`, or `at` itself at the end of the text.
pub open spec fn past(text: Seq<u8>, at: int) -> int {
    if at < text.len() {
        at + 1
    } else {
        at
    }
}

/// Where the method of a request ends: at the first blank.
pub open spec fn method_end(text: Seq<u8>) -> int {
    token_end(text, 0, 0x20)
}

/// Where the path of a request ends: at the first blank after the method.
pub open spec fn path_end(text: Seq<u8>) -> int {
    token_end(text, past(text, method_end(text)), 0x20)
}

/// Where the version of a request ends: at the first carriage return after
/// the path.
pub open spec fn version_end(text: Seq<u8>) -> int {
    token_end(text, past(text, path_end(text)), 0x0d)
}

/// Where the headers of a request begin: after the carriage return that
/// ends the version and one more byte, which is the line feed.
pub open spec fn headers_start(text: Seq<u8>) -> int {
    past(text, past(text, version_end(text)))
}

/// The header that a line `name:value` holds. The name is everything before
/// the first colon, in lower case. The value is what follows the colon
/// without its first character, which is the blank after the colon and
/// must be there as an ASCII character. Name and value are UTF-8.
pub open spec fn header_of(line: Seq<u8>) -> Option<HeaderView> {
    let colon = position(line, 0x3a) as int;
    let name = line.subrange(0, colon);
    let value = line.subrange(colon + 2, line.len() as int);
    if colon + 1 < line.len() && line[colon + 1] < 0x80 && valid_utf8(name) && valid_utf8(value) {
        Some(HeaderView { name: lowercased(decode_utf8(name)), value: decode_utf8(value) })
    } else {
        None
    }
}

/// `headers` and then the headers of `rest`, with the end of `rest`.
pub open spec fn after_headers(
    headers: Seq<HeaderView>,
    rest: Option<(Seq<HeaderView>, int)>,
) -> Option<(Seq<HeaderView>, int)> {
    match rest {
        Some((more, end)) => Some((headers + more, end)),
        None => None,
    }
}

/// The headers of a request from the line that began at `start` and was
/// read up to `at`, with the index at which the body begins.
///
/// A line ends at a carriage return that a line feed follows, and must hold
/// a header. The headers end where a carriage return and a line feed follow
/// the end of a line at once; a carriage return there that something else
/// follows is passed over together with what follows it. A text that ends
/// before its headers do has none.
pub open spec fn headers_from(text: Seq<u8>, start: int, at: int) -> Option<(Seq<HeaderView>, int)>
    decreases text.len() - at,
{
    if at < 0 || at >= text.len() {
        None
    } else if text[at] == 0x0d && at + 1 < text.len() && text[at + 1] == 0x0a {
        let next = at + 2;
        match header_of(text.subrange(start, at)) {
            None => None,
            Some(header) => if next < text.len() && text[next] == 0x0d {
                if next + 1 >= text.len() {
                    None
                } else if text[next + 1] == 0x0a {
                    Some((seq![header], next + 2))
                } else {
                    after_headers(seq![header], headers_from(text, next + 2, next + 2))
                }
            } else {
                after_headers(seq![header], headers_from(text, next, next))
            },
        }
    } else {
        headers_from(text, start, at + 1)
    }
}

/// The value of the last of the first `n` headers whose name is `name`,
/// given as the bytes of its UTF-8 encoding.
pub open spec fn last_named(headers: Seq<HeaderView>, n: nat, name: Seq<u8>) -> Option<Seq<char>>
    decreases n,
{
    if n == 0 {
        None
    } else if encode_utf8(headers[n - 1].name) == name {
        Some(headers[n - 1].value)
    } else {
        last_named(headers, (n - 1) as nat, name)
    }
}

/// The bytes of `content-length`.
pub open spec fn content_length_name() -> Seq<u8> {
    seq![
        0x63u8,
        0x6fu8,
        0x6eu8,
        0x74u8,
        0x65u8,
        0x6eu8,
        0x74u8,
        0x2du8,
        0x6cu8,
        0x65u8,
        0x6eu8,
        0x67u8,
        0x74u8,
        0x68u8,
    ]
}

/// The bytes of `content-encoding`.
pub open spec fn content_encoding_name() -> Seq<u8> {
    seq![
        0x63u8,
        0x6fu8,
        0x6eu8,
        0x74u8,
        0x65u8,
        0x6eu8,
        0x74u8,
        0x2du8,
        0x65u8,
        0x6eu8,
        0x63u8,
        0x6fu8,
        0x64u8,
        0x69u8,
        0x6eu8,
        0x67u8,
    ]
}

/// The bytes of `gzip`.
pub open spec fn gzip_name() -> Seq<u8> {
    seq![0x67u8, 0x7au8, 0x69u8, 0x70u8]
}

/// The number of bytes that the headers give the body: the value of the
/// last `content-length` header, if there is one and it is a decimal
/// number that fits the machine.
pub open spec fn content_length(headers: Seq<HeaderView>) -> Option<usize> {
    match last_named(headers, headers.len(), content_length_name()) {
        Some(value) => match spec_parse_decimal(encode_utf8(value)) {
            Some(length) => if length <= usize::MAX {
                Some(length as usize)
            } else {
                None
            },
            None => None,
        },
        None => None,
    }
}

/// Tells whether the headers say that the body is a gzip stream: the value
/// of the last `content-encoding` header is `gzip`.
pub open spec fn is_gzip(headers: Seq<HeaderView>) -> bool {
    match last_named(headers, headers.len(), content_encoding_name()) {
        Some(value) => encode_utf8(value) == gzip_name(),
        None => false,
    }
}

/// What follows the headers, cut to the length that the headers give the
/// body, if they give one.
pub open spec fn cut_body(rest: Seq<u8>, headers: Seq<HeaderView>) -> Seq<u8> {
    match content_length(headers) {
        Some(length) => if length < rest.len() {
            rest.subrange(0, length as int)
        } else {
            rest
        },
        None => rest,
    }
}

/// The body of a request whose decompression gave `decoded`: the body as it
/// came and, after it, what it holds decompressed. A body that could not be
/// decompressed makes no request.
pub open spec fn spec_decoded_body(body: Seq<u8>, decoded: Option<Seq<u8>>) -> Option<Seq<u8>> {
    match decoded {
        Some(content) => Some(body + content),
        None => None,
    }
}

/// The body of a request: what follows the headers, cut to the length that
/// the headers give, and decompressed if the headers say that it is a gzip
/// stream.
pub open spec fn body_of(rest: Seq<u8>, headers: Seq<HeaderView>) -> Option<Seq<u8>> {
    let body = cut_body(rest, headers);
    if is_gzip(headers) {
        spec_decoded_body(body, gunzipped(body))
    } else {
        Some(body)
    }
}

/// The request that `text` holds: a method, a path and a version with a
/// blank between them, a carriage return and a line feed, the headers, and
/// the body.
pub open spec fn spec_parse_http_request(text: Seq<u8>) -> Option<HttpRequestView> {
    match headers_from(text, headers_start(text), headers_start(text)) {
        None => None,
        Some((headers, body_at)) => match body_of(
            text.subrange(body_at, text.len() as int),
            headers,
        ) {
            None => None,
            Some(body) => Some(
                HttpRequestView {
                    method: text.subrange(0, method_end(text)),
                    path: text.subrange(past(text, method_end(text)), path_end(text)),
                    version: text.subrange(past(text, path_end(text)), version_end(text)),
                    headers,
                    body,
                },
            ),
        },
    }
}

/// Finds the end of the token that begins at `from`.
fn token(text: &[u8], from: usize, stop: u8) -> (end: usize)
    requires
        from <= text@.len(),
    ensures
        end == token_end(text@, from as int, stop),
        from <= end <= text@.len(),
{
    from + find(slice_subrange(text, from, text.len()), stop)
}

/// Steps over the byte at `at`, if there is one.
fn step(text: &[u8], at: usize) -> (next: usize)
    requires
        at <= text@.len(),
    ensures
        next == past(text@, at as int),
        at <= next <= text@.len(),
{
    if at < text.len() {
        at + 1
    } else {
        at
    }
}

/// Copies bytes `from..to` of `text`.
fn copy(text: &[u8], from: usize, to: usize) -> (bytes: Vec<u8>)
    requires
        from <= to <= text@.len(),
    ensures
        bytes@ == text@.subrange(from as int, to as int),
{
    let mut bytes: Vec<u8> = Vec::new();
    let mut i: usize = from;
    while i < to
        invariant
            from <= i <= to <= text@.len(),
            bytes@ == text@.subrange(from as int, i as int),
        decreases to - i,
    {
        bytes.push(text[i]);
        i += 1;
    }
    bytes
}

/// Reads the header that a line holds.
fn parse_header(line: &[u8]) -> (header: Option<Header>)
    ensures
        header is Some == header_of(line@) is Some,
        header matches Some(parsed) ==> header_of(line@) == Some(parsed@),
{
    let colon = find(line, 0x3a);
    if colon >= line.len() || colon + 1 >= line.len() {
        return None;
    }
    if line[colon + 1] >= 0x80 {
        return None;
    }
    let name = match utf8(slice_subrange(line, 0, colon)) {
        Some(name) => name,
        None => {
            return None;
        },
    };
    let value = match utf8(slice_subrange(line, colon + 2, line.len())) {
        Some(value) => value,
        None => {
            return None;
        },
    };
    Some(Header { name: lowercase(name.as_str()), value })
}

/// Tells whether `text` is the ASCII text `ascii`.
fn same(text: &str, ascii: &[u8]) -> (equal: bool)
    ensures
        equal == (encode_utf8(text@) == ascii@),
{
    let bytes = text.as_bytes();
    if bytes.len() != ascii.len() {
        return false;
    }
    let mut i: usize = 0;
    while i < bytes.len()
        invariant
            i <= bytes@.len(),
            bytes@ == encode_utf8(text@),
            bytes@.len() == ascii@.len(),
            bytes@.subrange(0, i as int) == ascii@.subrange(0, i as int),
        decreases bytes@.len() - i,
    {
        if bytes[i] != ascii[i] {
            assert(bytes@[i as int] != ascii@[i as int]);
            return false;
        }
        assert(bytes@.subrange(0, i + 1) == bytes@.subrange(0, i as int).push(bytes@[i as int]));
        assert(ascii@.subrange(0, i + 1) == ascii@.subrange(0, i as int).push(ascii@[i as int]));
        i += 1;
    }
    assert(bytes@.subrange(0, i as int) == bytes@);
    assert(ascii@.subrange(0, i as int) == ascii@);
    true
}

/// The value of the last of `headers` whose name is the ASCII text `name`,
/// if there is one. Names are compared as they are: a name that was read
/// from a request is in lower case.
pub fn find_header<'a>(headers: &'a Vec<Header>, name: &[u8]) -> (value: Option<&'a String>)
    ensures
        value is Some == last_named(header_views(headers@), headers@.len(), name@) is Some,
        value matches Some(found) ==> last_named(header_views(headers@), headers@.len(), name@)
            == Some(found@),
{
    let mut i: usize = headers.len();
    while i > 0
        invariant
            i <= headers@.len(),
            last_named(header_views(headers@), headers@.len(), name@) == last_named(
                header_views(headers@),
                i as nat,
                name@,
            ),
        decreases i,
    {
        assert(header_views(headers@)[i - 1] == headers@[i - 1]@);
        if same(headers[i - 1].name.as_str(), name) {
            return Some(&headers[i - 1].value);
        }
        i -= 1;
    }
    None
}

/// The body of a request whose decompression gave `decoded`: the body as it
/// came with what it holds decompressed after it, or nothing if it could
/// not be decompressed.
pub fn decoded_body(body: Vec<u8>, decoded: Option<Vec<u8>>) -> (whole: Option<Vec<u8>>)
    ensures
        whole is Some == decoded is Some,
        whole matches Some(bytes) ==> bytes@ == body@ + decoded->Some_0@,
{
    let mut whole = body;
    match decoded {
        Some(content) => {
            let mut content = content;
            whole.append(&mut content);
            Some(whole)
        },
        None => None,
    }
}

/// Reads the body of a request from what follows its headers.
fn parse_body(rest: &[u8], headers: &Vec<Header>) -> (body: Option<Vec<u8>>)
    ensures
        body is Some == body_of(rest@, header_views(headers@)) is Some,
        body matches Some(bytes) ==> body_of(rest@, header_views(headers@)) == Some(bytes@),
{
    let length_name: [u8; 14] = [
        0x63,
        0x6f,
        0x6e,
        0x74,
        0x65,
        0x6e,
        0x74,
        0x2d,
        0x6c,
        0x65,
        0x6e,
        0x67,
        0x74,
        0x68,
    ];
    let encoding_name: [u8; 16] = [
        0x63,
        0x6f,
        0x6e,
        0x74,
        0x65,
        0x6e,
        0x74,
        0x2d,
        0x65,
        0x6e,
        0x63,
        0x6f,
        0x64,
        0x69,
        0x6e,
        0x67,
    ];
    let gzip: [u8; 4] = [0x67, 0x7a, 0x69, 0x70];
    assert(length_name@ == content_length_name());
    assert(encoding_name@ == content_encoding_name());
    assert(gzip@ == gzip_name());
    let mut end: usize = rest.len();
    match find_header(headers, length_name.as_slice()) {
        Some(value) => match parse_decimal(value.as_str().as_bytes()) {
            Some(length) => {
                if length < end as u64 {
                    end = length as usize;
                }
            },
            None => {},
        },
        None => {},
    }
    let body = copy(rest, 0, end);
    assert(rest@.subrange(0, rest@.len() as int) == rest@);
    let compressed = match find_header(headers, encoding_name.as_slice()) {
        Some(value) => same(value.as_str(), gzip.as_slice()),
        None => false,
    };
    if compressed {
        let decoded = gunzip(body.as_slice());
        decoded_body(body, decoded)
    } else {
        Some(body)
    }
}

/// Reads the headers of a request, which begin at `from`, and says where
/// the body begins.
fn parse_headers(text: &[u8], from: usize) -> (r: Option<(Vec<Header>, usize)>)
    requires
        from <= text@.len(),
    ensures
        r is Some == headers_from(text@, from as int, from as int) is Some,
        r matches Some((headers, body_at)) ==> headers_from(text@, from as int, from as int)
            == Some((header_views(headers@), body_at as int)) && body_at <= text@.len(),
{
    let ghost whole = headers_from(text@, from as int, from as int);
    let mut headers: Vec<Header> = Vec::new();
    let mut start: usize = from;
    let mut at: usize = from;
    assert(after_headers(header_views(headers@), whole) == whole) by {
        match whole {
            Some((more, end)) => {
                assert(header_views(headers@) + more == more);
            },
            None => {},
        }
    }
    loop
        invariant
            start <= at <= text@.len(),
            whole == headers_from(text@, from as int, from as int),
            whole == after_headers(
                header_views(headers@),
                headers_from(text@, start as int, at as int),
            ),
        decreases text@.len() - at,
    {
        if at >= text.len() {
            return None;
        }
        if text[at] == 0x0d && at + 1 < text.len() && text[at + 1] == 0x0a {
            let header = match parse_header(slice_subrange(text, start, at)) {
                Some(header) => header,
                None => {
                    return None;
                },
            };
            let ghost before = header_views(headers@);
            let ghost found = header@;
            headers.push(header);
            assert(header_views(headers@) == before + seq![found]);
            let next = at + 2;
            let ghost tail = if next < text@.len() && text@[next as int] == 0x0d {
                if next + 1 < text@.len() && text@[next + 1] != 0x0a {
                    headers_from(text@, next + 2, next + 2)
                } else {
                    None
                }
            } else {
                headers_from(text@, next as int, next as int)
            };
            assert(after_headers(before, after_headers(seq![found], tail)) == after_headers(
                before + seq![found],
                tail,
            )) by {
                match tail {
                    Some((more, end)) => {
                        assert(before + (seq![found] + more) == (before + seq![found]) + more);
                    },
                    None => {},
                }
            }
            if next < text.len() && text[next] == 0x0d {
                if next + 1 >= text.len() {
                    return None;
                }
                if text[next + 1] == 0x0a {
                    assert(whole == Some((header_views(headers@), next + 2)));
                    return Some((headers, next + 2));
                }
                start = next + 2;
                at = next + 2;
            } else {
                start = next;
                at = next;
            }
        } else {
            at += 1;
        }
    }
}

/// Reads an HTTP request out of bytes that came from the target.
///
/// The request line gives the method, the path and the version. Every
/// header line gives a name, which is put in lower case, and a value. The
/// body is what follows the empty line, cut to the length that the last
/// `content-length` header gives; if the last `content-encoding` header
/// says `gzip`, what the body holds decompressed is put after it. Bytes
/// that end before the headers do, a header line without a name and a
/// value in UTF-8, and a gzip body that cannot be decompressed are no
/// request.
pub fn parse_http_request(request: &[u8]) -> (r: Option<HttpRequest>)
    ensures
        r is Some == spec_parse_http_request(request@) is Some,
        r matches Some(parsed) ==> spec_parse_http_request(request@) == Some(parsed@),
{
    let method_end = token(request, 0, 0x20);
    let path_start = step(request, method_end);
    let path_end = token(request, path_start, 0x20);
    let version_start = step(request, path_end);
    let version_end = token(request, version_start, 0x0d);
    let line_end = step(request, version_end);
    let headers_start = step(request, line_end);
    let (headers, body_at) = match parse_headers(request, headers_start) {
        Some(found) => found,
        None => {
            return None;
        },
    };
    let body = match parse_body(slice_subrange(request, body_at, request.len()), &headers) {
        Some(body) => body,
        None => {
            return None;
        },
    };
    Some(
        HttpRequest {
            method: copy(request, 0, method_end),
            path: copy(request, path_start, path_end),
            version: copy(request, version_start, version_end),
            headers,
            body,
        },
    )
}

} // verus!
