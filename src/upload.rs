use vstd::prelude::*;
use crate::text::{parse_u64, parsed_u64, str_equals, trim_of, trim_str};

verus! {

/// Reply to a successful upload.
pub struct UploadResponse {
    pub id: String,
    pub message: String,
}

/// What `Path::extension` returns for a path, as text.
pub uninterp spec fn extension_of(path: Seq<char>) -> Option<Seq<char>>;

/// `path` is a single file name that does not start with `.`, and `p` is the
/// position of its last `.`.
pub open spec fn last_dot_of_plain_name(path: Seq<char>, p: int) -> bool {
    &&& 0 < p < path.len()
    &&& path[p] == '.'
    &&& path[0] != '.'
    &&& forall|i: int| 0 <= i < path.len() ==> path[i] != '/'
    &&& forall|i: int| p < i < path.len() ==> path[i] != '.'
}

/// Whether `path` holds no `.`.
pub open spec fn has_no_dot(path: Seq<char>) -> bool {
    forall|i: int| 0 <= i < path.len() ==> path[i] != '.'
}

/// Relies on `std::path::Path::extension`: the part of the file name after its
/// last `.`; none when the name holds no `.`. A path made of one file name
/// that does not start with `.` has the text after its last `.` as extension.
#[verifier::external_body]
fn path_extension(path: &str) -> (r: Option<String>)
    ensures
        r matches Some(e) ==> extension_of(path@) == Some(e@),
        r is None ==> extension_of(path@) is None,
        has_no_dot(path@) ==> r is None,
        r is None ==> forall|p: int| !last_dot_of_plain_name(path@, p),
        r matches Some(e) ==> forall|p: int| last_dot_of_plain_name(path@, p) ==> e@ == path@.skip(p + 1),
{
    std::path::Path::new(path).extension().and_then(|e| e.to_str()).map(|e| e.to_string())
}

/// The MIME type served for a file extension.
pub open spec fn content_type_for(ext: Option<Seq<char>>) -> Seq<char> {
    if ext == Some("mp4"@) {
        "video/mp4"@
    } else if ext == Some("mov"@) {
        "video/quicktime"@
    } else if ext == Some("avi"@) {
        "video/x-msvideo"@
    } else if ext == Some("webm"@) {
        "video/webm"@
    } else if ext == Some("mkv"@) {
        "video/x-matroska"@
    } else {
        "application/octet-stream"@
    }
}

/// The MIME type for an extension: the known video containers, else
/// `application/octet-stream`.
pub fn content_type_for_extension(ext: Option<&str>) -> (r: &'static str)
    ensures
        r@ == content_type_for(
            match ext {
                Some(e) => Some(e@),
                None => None,
            },
        ),
{
    match ext {
        Some(e) => {
            if str_equals(e, "mp4") {
                "video/mp4"
            } else if str_equals(e, "mov") {
                "video/quicktime"
            } else if str_equals(e, "avi") {
                "video/x-msvideo"
            } else if str_equals(e, "webm") {
                "video/webm"
            } else if str_equals(e, "mkv") {
                "video/x-matroska"
            } else {
                "application/octet-stream"
            }
        },
        None => "application/octet-stream",
    }
}

/// The MIME type of a stored video, from its path's extension.
pub fn get_content_type(file_path: &str) -> (r: &'static str)
    ensures
        r@ == content_type_for(extension_of(file_path@)),
{
    match path_extension(file_path) {
        Some(e) => content_type_for_extension(Some(e.as_str())),
        None => content_type_for_extension(None),
    }
}

/// `p` is the position of the one and only `-` in `s`.
pub open spec fn only_dash_at(s: Seq<char>, p: int) -> bool {
    &&& 0 <= p < s.len()
    &&& s[p] == '-'
    &&& forall|i: int| 0 <= i < s.len() && i != p ==> s[i] != '-'
}

/// The two sides of `s` split at `-`, when `s` holds exactly one `-`.
pub open spec fn dash_parts(s: Seq<char>) -> Option<(Seq<char>, Seq<char>)> {
    if exists|p: int| only_dash_at(s, p) {
        let p = choose|p: int| only_dash_at(s, p);
        Some((s.take(p), s.skip(p + 1)))
    } else {
        None
    }
}

/// The inclusive byte range that trimmed bounds `start` and `end` select in a
/// file of `file_size` bytes: `start-end` (the end clamped to the last byte),
/// `start-` (to the end of the file) or `-n` (the last `n` bytes).
pub open spec fn range_bounds(start: Seq<char>, end: Seq<char>, file_size: u64) -> Option<(u64, u64)> {
    let last = (file_size - 1) as u64;
    if start.len() > 0 && end.len() > 0 {
        match (parsed_u64(start), parsed_u64(end)) {
            (Some(a), Some(b)) => Some((a, if b < last { b } else { last })),
            _ => None,
        }
    } else if start.len() > 0 {
        match parsed_u64(start) {
            Some(a) => Some((a, last)),
            None => None,
        }
    } else if end.len() > 0 {
        match parsed_u64(end) {
            Some(n) => Some((if n <= file_size { (file_size - n) as u64 } else { 0 }, last)),
            None => None,
        }
    } else {
        None
    }
}

/// The range that a `Range` header asks for: `bytes=` followed by one
/// `start-end`, `start-` or `-suffix` form, white space around each part
/// ignored.
pub open spec fn range_of(header: Seq<char>, file_size: u64) -> Option<(u64, u64)> {
    let h = trim_of(header);
    if h.len() >= 6 && h.take(6) == "bytes="@ {
        match dash_parts(h.skip(6)) {
            Some((a, b)) => range_bounds(trim_of(a), trim_of(b), file_size),
            None => None,
        }
    } else {
        None
    }
}

fn parse_range_bounds(start: &str, end: &str, file_size: u64) -> (r: Option<(u64, u64)>)
    requires
        file_size > 0,
    ensures
        r == range_bounds(start@, end@, file_size),
{
    let last = file_size - 1;
    if !start.is_empty() && !end.is_empty() {
        let a = match parse_u64(start) {
            Some(a) => a,
            None => return None,
        };
        let b = match parse_u64(end) {
            Some(b) => b,
            None => return None,
        };
        Some((a, if b < last { b } else { last }))
    } else if !start.is_empty() {
        match parse_u64(start) {
            Some(a) => Some((a, last)),
            None => None,
        }
    } else if !end.is_empty() {
        match parse_u64(end) {
            Some(n) => Some((file_size.saturating_sub(n), last)),
            None => None,
        }
    } else {
        None
    }
}

/// The position of the only `-` in `s`, if it holds exactly one.
fn find_only_dash(s: &str) -> (r: Option<usize>)
    ensures
        r matches Some(p) ==> only_dash_at(s@, p as int),
        r is None ==> forall|p: int| !only_dash_at(s@, p),
{
    let n = s.unicode_len();
    let mut count: usize = 0;
    let mut first: usize = 0;
    let mut second: usize = 0;
    let mut i: usize = 0;
    while i < n
        invariant
            n == s@.len(),
            i <= n,
            count <= 2,
            count == 0 ==> forall|j: int| 0 <= j < i ==> s@[j] != '-',
            count >= 1 ==> first < i && s@[first as int] == '-',
            count == 1 ==> forall|j: int| 0 <= j < i && j != first ==> s@[j] != '-',
            count == 2 ==> second < i && second != first && s@[second as int] == '-',
        decreases n - i,
    {
        if s.get_char(i) == '-' {
            if count == 0 {
                first = i;
                count = 1;
            } else if count == 1 {
                second = i;
                count = 2;
            }
        }
        i = i + 1;
    }
    if count == 1 {
        Some(first)
    } else {
        proof {
            assert forall|p: int| !only_dash_at(s@, p) by {
                if count == 2 && only_dash_at(s@, p) {
                    if p == first {
                        assert(s@[second as int] != '-');
                    } else {
                        assert(s@[first as int] != '-');
                    }
                }
            }
        }
        None
    }
}

/// Parses a `Range` header such as `bytes=0-1023` against a file of
/// `file_size` bytes; returns the inclusive `(start, end)`, or `None` for a
/// header of another form.
pub fn parse_range_header(range_header: &str, file_size: u64) -> (r: Option<(u64, u64)>)
    requires
        file_size > 0,
    ensures
        r == range_of(range_header@, file_size),
{
    let h = trim_str(range_header);
    let hs = h.as_str();
    let n = hs.unicode_len();
    if n < 6 || !str_equals(hs.substring_char(0, 6), "bytes=") {
        return None;
    }
    let spec_part = hs.substring_char(6, n);
    proof {
        assert(spec_part@ =~= h@.skip(6));
    }
    match find_only_dash(spec_part) {
        None => None,
        Some(p) => {
            let m = spec_part.unicode_len();
            let start = trim_str(spec_part.substring_char(0, p));
            let end = trim_str(spec_part.substring_char(p + 1, m));
            proof {
                let q = choose|q: int| only_dash_at(spec_part@, q);
                assert(q == p);
                assert(spec_part@.subrange(0, p as int) =~= spec_part@.take(p as int));
                assert(spec_part@.subrange(p + 1, m as int) =~= spec_part@.skip(p + 1));
            }
            parse_range_bounds(start.as_str(), end.as_str(), file_size)
        },
    }
}

/// The name under which an upload is stored: the video id, a `.`, and the
/// extension of the uploaded file's name (`mp4` when it has none).
pub open spec fn stored_file_name(video_id: Seq<char>, original_filename: Seq<char>) -> Seq<char> {
    let ext = match extension_of(original_filename) {
        Some(e) => e,
        None => "mp4"@,
    };
    video_id + "."@ + ext
}

/// The storage name for an upload of `original_filename` with id `video_id`.
pub fn storage_file_name(video_id: &str, original_filename: &str) -> (r: String)
    ensures
        r@ == stored_file_name(video_id@, original_filename@),
{
    let mut name = String::from_str(video_id);
    name.append(".");
    match path_extension(original_filename) {
        Some(e) => name.append(e.as_str()),
        None => name.append("mp4"),
    }
    name
}

/// Whether `s` ends with `suffix`.
pub open spec fn ends_with(s: Seq<char>, suffix: Seq<char>) -> bool {
    s.len() >= suffix.len() && s.skip(s.len() - suffix.len()) == suffix
}

fn str_ends_with(s: &str, suffix: &str) -> (r: bool)
    ensures
        r == ends_with(s@, suffix@),
{
    let n = s.unicode_len();
    let k = suffix.unicode_len();
    if n < k {
        false
    } else {
        let tail = s.substring_char(n - k, n);
        proof {
            assert(tail@ =~= s@.skip(n - k));
        }
        str_equals(tail, suffix)
    }
}

/// Whether a stored file is an MP4 whose index should be moved to the front
/// for streaming: its name ends with `.mp4` or `.MP4`.
pub fn needs_faststart(file_id: &str) -> (r: bool)
    ensures
        r == (ends_with(file_id@, ".mp4"@) || ends_with(file_id@, ".MP4"@)),
{
    str_ends_with(file_id, ".mp4") || str_ends_with(file_id, ".MP4")
}

/// How a stream request is served.
#[derive(Clone, Copy, Debug, PartialEq, Eq, Structural)]
pub enum StreamPlan {
    /// The whole file, status 200.
    Full,
    /// Bytes `start..=end`, status 206.
    Partial { start: u64, end: u64, content_length: u64 },
    /// A well-formed range that selects no byte of the file.
    NotSatisfiable { start: u64 },
}

/// The plan for a request on a file of `file_size` bytes with the given
/// `Range` header: no header, an empty file or a header of another form
/// serve the whole file; a range that starts past the end, or ends before it
/// starts, is refused; any other is served with its end clamped to the file.
pub open spec fn stream_plan(range_header: Option<Seq<char>>, file_size: u64) -> StreamPlan {
    match range_header {
        None => StreamPlan::Full,
        Some(h) => if file_size == 0 {
            StreamPlan::Full
        } else {
            match range_of(h, file_size) {
                None => StreamPlan::Full,
                Some((start, end)) => {
                    let end = if end < file_size - 1 { end } else { (file_size - 1) as u64 };
                    if start >= file_size || end < start {
                        StreamPlan::NotSatisfiable { start }
                    } else {
                        StreamPlan::Partial { start, end, content_length: (end - start + 1) as u64 }
                    }
                },
            }
        },
    }
}

/// Decides how to serve a stream request.
pub fn plan_stream(range_header: Option<&str>, file_size: u64) -> (r: StreamPlan)
    ensures
        r == stream_plan(
            match range_header {
                Some(h) => Some(h@),
                None => None,
            },
            file_size,
        ),
{
    match range_header {
        None => StreamPlan::Full,
        Some(h) => {
            if file_size == 0 {
                return StreamPlan::Full;
            }
            match parse_range_header(h, file_size) {
                None => StreamPlan::Full,
                Some((start, end)) => {
                    let end = if end < file_size - 1 { end } else { file_size - 1 };
                    if start >= file_size || end < start {
                        StreamPlan::NotSatisfiable { start }
                    } else {
                        StreamPlan::Partial { start, end, content_length: end - start + 1 }
                    }
                },
            }
        },
    }
}

} // verus!
