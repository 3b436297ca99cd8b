//! Content-type resolution: reconciles a storage-provided header mapping with
//! a filename-extension table, with a fixed precedence — an explicit header
//! value wins over the extension table, which wins over the generic binary
//! fallback.

use vstd::prelude::*;

use crate::text::{lemma_lower_idempotent, lower, lower_char, lower_matches, str_eq};

verus! {

/// The header mapping that a fetch returned, as key/value pairs.  A later
/// entry for the same key overrides an earlier one, as in a map.
pub struct Headers {
    entries: Vec<(String, String)>,
}

/// The map denoted by a sequence of key/value pairs, later pairs overriding
/// earlier ones.
pub open spec fn map_of(s: Seq<(String, String)>) -> Map<Seq<char>, Seq<char>>
    decreases s.len(),
{
    if s.len() == 0 {
        Map::empty()
    } else {
        map_of(s.drop_last()).insert(s.last().0@, s.last().1@)
    }
}

impl View for Headers {
    type V = Map<Seq<char>, Seq<char>>;

    closed spec fn view(&self) -> Map<Seq<char>, Seq<char>> {
        map_of(self.entries@)
    }
}

proof fn lemma_map_of_found(s: Seq<(String, String)>, i: int)
    requires
        0 <= i < s.len(),
        forall|j: int| i < j < s.len() ==> s[j].0@ != s[i].0@,
    ensures
        map_of(s).contains_key(s[i].0@),
        map_of(s)[s[i].0@] == s[i].1@,
    decreases s.len(),
{
    if i == s.len() - 1 {
    } else {
        assert(s.drop_last()[i] == s[i]);
        lemma_map_of_found(s.drop_last(), i);
    }
}

proof fn lemma_map_of_absent(s: Seq<(String, String)>, k: Seq<char>)
    requires
        forall|j: int| 0 <= j < s.len() ==> s[j].0@ != k,
    ensures
        !map_of(s).contains_key(k),
    decreases s.len(),
{
    if s.len() > 0 {
        lemma_map_of_absent(s.drop_last(), k);
    }
}

impl Headers {
    /// An empty header mapping.
    pub fn new() -> (h: Headers)
        ensures
            h@ == Map::<Seq<char>, Seq<char>>::empty(),
    {
        Headers { entries: Vec::new() }
    }

    /// Adds a header, overriding any earlier value under the same key.
    pub fn insert(&mut self, key: String, value: String)
        ensures
            final(self)@ == old(self)@.insert(key@, value@),
    {
        let ghost old_entries = self.entries@;
        self.entries.push((key, value));
        proof {
            assert(self.entries@.drop_last() =~= old_entries);
        }
    }

    /// Looks a header up by its exact key, returning a copy of the value.
    pub fn get(&self, key: &str) -> (r: Option<String>)
        ensures
            match r {
                Some(v) => self@.contains_key(key@) && v@ == self@[key@],
                None => !self@.contains_key(key@),
            },
    {
        let n = self.entries.len();
        let mut idx = n;
        while idx > 0
            invariant
                idx <= n,
                n == self.entries@.len(),
                forall|j: int| idx <= j < n ==> self.entries@[j].0@ != key@,
            decreases idx,
        {
            idx = idx - 1;
            let pair = &self.entries[idx];
            if str_eq(pair.0.as_str(), key) {
                proof {
                    lemma_map_of_found(self.entries@, idx as int);
                }
                return Some(pair.1.clone());
            }
        }
        proof {
            lemma_map_of_absent(self.entries@, key@);
        }
        None
    }
}

/// The filename extension of a requested path: the characters after the last
/// `.`, or the empty sequence where the path has no `.` at all.
pub open spec fn ext_of(p: Seq<char>) -> Seq<char>
    decreases p.len(),
{
    if p.len() == 0 {
        Seq::empty()
    } else if p.last() == '.' {
        Seq::empty()
    } else if p.drop_last().contains('.') {
        ext_of(p.drop_last()).push(p.last())
    } else {
        Seq::empty()
    }
}

proof fn lemma_ext_after_dot(p: Seq<char>, i: int)
    requires
        0 <= i < p.len(),
        p[i] == '.',
        forall|j: int| i < j < p.len() ==> p[j] != '.',
    ensures
        ext_of(p) == p.subrange(i + 1, p.len() as int),
    decreases p.len(),
{
    if i == p.len() - 1 {
        assert(ext_of(p) =~= p.subrange(i + 1, p.len() as int));
    } else {
        assert(p.drop_last()[i] == p[i]);
        assert(p.drop_last().contains('.'));
        lemma_ext_after_dot(p.drop_last(), i);
        assert(ext_of(p.drop_last()).push(p.last()) =~= p.subrange(i + 1, p.len() as int));
    }
}

proof fn lemma_ext_no_dot(p: Seq<char>)
    requires
        forall|j: int| 0 <= j < p.len() ==> p[j] != '.',
    ensures
        ext_of(p) == Seq::<char>::empty(),
    decreases p.len(),
{
    if p.len() > 0 {
        assert(!p.drop_last().contains('.'));
    }
}

/// The index of the last `.` in `s`, if any.
fn find_last_dot(s: &str) -> (r: Option<usize>)
    ensures
        match r {
            Some(i) => i < s@.len() && s@[i as int] == '.' && (forall|j: int|
                i < j < s@.len() ==> s@[j] != '.'),
            None => forall|j: int| 0 <= j < s@.len() ==> s@[j] != '.',
        },
{
    let n = s.unicode_len();
    let mut best: Option<usize> = None;
    for i in 0..n
        invariant
            n == s@.len(),
            match best {
                Some(b) => b < i && s@[b as int] == '.' && (forall|j: int|
                    b < j < i ==> s@[j] != '.'),
                None => forall|j: int| 0 <= j < i ==> s@[j] != '.',
            },
    {
        if s.get_char(i) == '.' {
            best = Some(i);
        }
    }
    best
}

/// The extension-to-MIME table, applied to an already lower-cased extension;
/// an extension outside the table maps to the generic binary fallback.
pub open spec fn spec_mime(e: Seq<char>) -> Seq<char> {
    if e == "html"@ || e == "htm"@ {
        "text/html"@
    } else if e == "css"@ {
        "text/css"@
    } else if e == "js"@ {
        "application/javascript"@
    } else if e == "json"@ {
        "application/json"@
    } else if e == "xml"@ {
        "application/xml"@
    } else if e == "txt"@ {
        "text/plain"@
    } else if e == "csv"@ {
        "text/csv"@
    } else if e == "md"@ {
        "text/markdown"@
    } else if e == "pdf"@ {
        "application/pdf"@
    } else if e == "doc"@ {
        "application/msword"@
    } else if e == "docx"@ {
        "application/vnd.openxmlformats-officedocument.wordprocessingml.document"@
    } else if e == "xls"@ {
        "application/vnd.ms-excel"@
    } else if e == "xlsx"@ {
        "application/vnd.openxmlformats-officedocument.spreadsheetml.sheet"@
    } else if e == "ppt"@ {
        "application/vnd.ms-powerpoint"@
    } else if e == "pptx"@ {
        "application/vnd.openxmlformats-officedocument.presentationml.presentation"@
    } else if e == "jpg"@ || e == "jpeg"@ {
        "image/jpeg"@
    } else if e == "png"@ {
        "image/png"@
    } else if e == "gif"@ {
        "image/gif"@
    } else if e == "svg"@ {
        "image/svg+xml"@
    } else if e == "webp"@ {
        "image/webp"@
    } else if e == "ico"@ {
        "image/x-icon"@
    } else if e == "bmp"@ {
        "image/bmp"@
    } else if e == "tiff"@ || e == "tif"@ {
        "image/tiff"@
    } else if e == "mp4"@ {
        "video/mp4"@
    } else if e == "webm"@ {
        "video/webm"@
    } else if e == "avi"@ {
        "video/x-msvideo"@
    } else if e == "mov"@ {
        "video/quicktime"@
    } else if e == "wmv"@ {
        "video/x-ms-wmv"@
    } else if e == "flv"@ {
        "video/x-flv"@
    } else if e == "mp3"@ {
        "audio/mpeg"@
    } else if e == "wav"@ {
        "audio/wav"@
    } else if e == "ogg"@ {
        "audio/ogg"@
    } else if e == "aac"@ {
        "audio/aac"@
    } else if e == "flac"@ {
        "audio/flac"@
    } else if e == "zip"@ {
        "application/zip"@
    } else if e == "tar"@ {
        "application/x-tar"@
    } else if e == "gz"@ {
        "application/gzip"@
    } else if e == "bz2"@ {
        "application/x-bzip2"@
    } else if e == "7z"@ {
        "application/x-7z-compressed"@
    } else if e == "rar"@ {
        "application/vnd.rar"@
    } else if e == "woff"@ {
        "font/woff"@
    } else if e == "woff2"@ {
        "font/woff2"@
    } else if e == "ttf"@ {
        "font/ttf"@
    } else if e == "otf"@ {
        "font/otf"@
    } else if e == "eot"@ {
        "application/vnd.ms-fontobject"@
    } else if e == "bin"@ {
        "application/octet-stream"@
    } else if e == "exe"@ {
        "application/x-msdownload"@
    } else if e == "dmg"@ {
        "application/x-apple-diskimage"@
    } else if e == "iso"@ {
        "application/x-iso9660-image"@
    } else {
        "application/octet-stream"@
    }
}

/// Whether a (lower-cased) extension has an entry in the extension table.
pub open spec fn is_known_extension(e: Seq<char>) -> bool {
    ||| e == "html"@
    ||| e == "htm"@
    ||| e == "css"@
    ||| e == "js"@
    ||| e == "json"@
    ||| e == "xml"@
    ||| e == "txt"@
    ||| e == "csv"@
    ||| e == "md"@
    ||| e == "pdf"@
    ||| e == "doc"@
    ||| e == "docx"@
    ||| e == "xls"@
    ||| e == "xlsx"@
    ||| e == "ppt"@
    ||| e == "pptx"@
    ||| e == "jpg"@
    ||| e == "jpeg"@
    ||| e == "png"@
    ||| e == "gif"@
    ||| e == "svg"@
    ||| e == "webp"@
    ||| e == "ico"@
    ||| e == "bmp"@
    ||| e == "tiff"@
    ||| e == "tif"@
    ||| e == "mp4"@
    ||| e == "webm"@
    ||| e == "avi"@
    ||| e == "mov"@
    ||| e == "wmv"@
    ||| e == "flv"@
    ||| e == "mp3"@
    ||| e == "wav"@
    ||| e == "ogg"@
    ||| e == "aac"@
    ||| e == "flac"@
    ||| e == "zip"@
    ||| e == "tar"@
    ||| e == "gz"@
    ||| e == "bz2"@
    ||| e == "7z"@
    ||| e == "rar"@
    ||| e == "woff"@
    ||| e == "woff2"@
    ||| e == "ttf"@
    ||| e == "otf"@
    ||| e == "eot"@
    ||| e == "bin"@
    ||| e == "exe"@
    ||| e == "dmg"@
    ||| e == "iso"@
}

/// The view of an optional borrowed header mapping.
pub open spec fn opt_headers_view(h: Option<&Headers>) -> Option<Map<Seq<char>, Seq<char>>> {
    match h {
        Some(hh) => Some(hh@),
        None => None,
    }
}

/// The content-type resolution policy: a storage-provided `content-type`
/// header (tried under its two known casings, lower-case first) wins;
/// otherwise the lower-cased filename extension is looked up in the table;
/// anything else falls back to the generic binary type.
pub open spec fn spec_resolve(p: Seq<char>, h: Option<Map<Seq<char>, Seq<char>>>) -> Seq<char> {
    match h {
        Some(m) => if m.contains_key("content-type"@) {
            m["content-type"@]
        } else if m.contains_key("Content-Type"@) {
            m["Content-Type"@]
        } else {
            spec_mime(lower(ext_of(p)))
        },
        None => spec_mime(lower(ext_of(p))),
    }
}

/// Looks the (lower-cased) extension of `file_path` up in the extension
/// table, falling back to the generic binary type.
fn mime_for_path(file_path: &str) -> (r: String)
    ensures
        r@ == spec_mime(lower(ext_of(file_path@))),
{
    let n = file_path.unicode_len();
    let mut start: usize = 0;
    let mut end: usize = 0;
    match find_last_dot(file_path) {
        Some(i) => {
            proof {
                lemma_ext_after_dot(file_path@, i as int);
            }
            start = i + 1;
            end = n;
        },
        None => {
            proof {
                lemma_ext_no_dot(file_path@);
                assert(file_path@.subrange(0, 0) =~= Seq::<char>::empty());
            }
        },
    }
    assert(ext_of(file_path@) == file_path@.subrange(start as int, end as int));
    let m = if lower_matches(file_path, start, end, "html") || lower_matches(
        file_path,
        start,
        end,
        "htm",
    ) {
        "text/html"
    } else if lower_matches(file_path, start, end, "css") {
        "text/css"
    } else if lower_matches(file_path, start, end, "js") {
        "application/javascript"
    } else if lower_matches(file_path, start, end, "json") {
        "application/json"
    } else if lower_matches(file_path, start, end, "xml") {
        "application/xml"
    } else if lower_matches(file_path, start, end, "txt") {
        "text/plain"
    } else if lower_matches(file_path, start, end, "csv") {
        "text/csv"
    } else if lower_matches(file_path, start, end, "md") {
        "text/markdown"
    } else if lower_matches(file_path, start, end, "pdf") {
        "application/pdf"
    } else if lower_matches(file_path, start, end, "doc") {
        "application/msword"
    } else if lower_matches(file_path, start, end, "docx") {
        "application/vnd.openxmlformats-officedocument.wordprocessingml.document"
    } else if lower_matches(file_path, start, end, "xls") {
        "application/vnd.ms-excel"
    } else if lower_matches(file_path, start, end, "xlsx") {
        "application/vnd.openxmlformats-officedocument.spreadsheetml.sheet"
    } else if lower_matches(file_path, start, end, "ppt") {
        "application/vnd.ms-powerpoint"
    } else if lower_matches(file_path, start, end, "pptx") {
        "application/vnd.openxmlformats-officedocument.presentationml.presentation"
    } else if lower_matches(file_path, start, end, "jpg") || lower_matches(
        file_path,
        start,
        end,
        "jpeg",
    ) {
        "image/jpeg"
    } else if lower_matches(file_path, start, end, "png") {
        "image/png"
    } else if lower_matches(file_path, start, end, "gif") {
        "image/gif"
    } else if lower_matches(file_path, start, end, "svg") {
        "image/svg+xml"
    } else if lower_matches(file_path, start, end, "webp") {
        "image/webp"
    } else if lower_matches(file_path, start, end, "ico") {
        "image/x-icon"
    } else if lower_matches(file_path, start, end, "bmp") {
        "image/bmp"
    } else if lower_matches(file_path, start, end, "tiff") || lower_matches(
        file_path,
        start,
        end,
        "tif",
    ) {
        "image/tiff"
    } else if lower_matches(file_path, start, end, "mp4") {
        "video/mp4"
    } else if lower_matches(file_path, start, end, "webm") {
        "video/webm"
    } else if lower_matches(file_path, start, end, "avi") {
        "video/x-msvideo"
    } else if lower_matches(file_path, start, end, "mov") {
        "video/quicktime"
    } else if lower_matches(file_path, start, end, "wmv") {
        "video/x-ms-wmv"
    } else if lower_matches(file_path, start, end, "flv") {
        "video/x-flv"
    } else if lower_matches(file_path, start, end, "mp3") {
        "audio/mpeg"
    } else if lower_matches(file_path, start, end, "wav") {
        "audio/wav"
    } else if lower_matches(file_path, start, end, "ogg") {
        "audio/ogg"
    } else if lower_matches(file_path, start, end, "aac") {
        "audio/aac"
    } else if lower_matches(file_path, start, end, "flac") {
        "audio/flac"
    } else if lower_matches(file_path, start, end, "zip") {
        "application/zip"
    } else if lower_matches(file_path, start, end, "tar") {
        "application/x-tar"
    } else if lower_matches(file_path, start, end, "gz") {
        "application/gzip"
    } else if lower_matches(file_path, start, end, "bz2") {
        "application/x-bzip2"
    } else if lower_matches(file_path, start, end, "7z") {
        "application/x-7z-compressed"
    } else if lower_matches(file_path, start, end, "rar") {
        "application/vnd.rar"
    } else if lower_matches(file_path, start, end, "woff") {
        "font/woff"
    } else if lower_matches(file_path, start, end, "woff2") {
        "font/woff2"
    } else if lower_matches(file_path, start, end, "ttf") {
        "font/ttf"
    } else if lower_matches(file_path, start, end, "otf") {
        "font/otf"
    } else if lower_matches(file_path, start, end, "eot") {
        "application/vnd.ms-fontobject"
    } else if lower_matches(file_path, start, end, "bin") {
        "application/octet-stream"
    } else if lower_matches(file_path, start, end, "exe") {
        "application/x-msdownload"
    } else if lower_matches(file_path, start, end, "dmg") {
        "application/x-apple-diskimage"
    } else if lower_matches(file_path, start, end, "iso") {
        "application/x-iso9660-image"
    } else {
        "application/octet-stream"
    };
    String::from_str(m)
}

/// Resolves the content type for a requested path and the optional header
/// mapping of the fetch that served it.  A header-provided content type wins,
/// the lower-cased filename extension is tried next, and anything else gets
/// the generic binary type.
pub fn determine_content_type(file_path: &str, s3_headers: Option<&Headers>) -> (r: String)
    ensures
        r@ == spec_resolve(file_path@, opt_headers_view(s3_headers)),
{
    if let Some(headers) = s3_headers {
        if let Some(v) = headers.get("content-type") {
            return v;
        }
        if let Some(v) = headers.get("Content-Type") {
            return v;
        }
    }
    mime_for_path(file_path)
}

/// If the header mapping carries a content type under either casing, the
/// resolved type is exactly that header value — lower-cased key first —
/// whatever extension the path carries.
pub proof fn lemma_header_value_wins(p: Seq<char>, h: Map<Seq<char>, Seq<char>>)
    requires
        h.contains_key("content-type"@) || h.contains_key("Content-Type"@),
    ensures
        spec_resolve(p, Some(h)) == if h.contains_key("content-type"@) {
            h["content-type"@]
        } else {
            h["Content-Type"@]
        },
{
}

/// Without a header-provided content type, resolution is exactly the table
/// lookup of the path's lower-cased extension.
pub proof fn lemma_resolve_uses_table(p: Seq<char>)
    ensures
        spec_resolve(p, None) == spec_mime(lower(ext_of(p))),
{
}

proof fn lemma_lower_char_dot(c: char)
    ensures
        (lower_char(c) == '.') == (c == '.'),
{
}

proof fn lemma_ext_lower_commute(p: Seq<char>)
    ensures
        ext_of(lower(p)) == lower(ext_of(p)),
    decreases p.len(),
{
    let q = lower(p);
    if p.len() == 0 {
        assert(ext_of(q) =~= lower(ext_of(p)));
    } else {
        assert(q.last() == lower_char(p.last()));
        lemma_lower_char_dot(p.last());
        assert(q.drop_last() =~= lower(p.drop_last()));
        if p.last() == '.' {
            assert(ext_of(q) =~= lower(ext_of(p)));
        } else {
            assert forall|j: int| 0 <= j < p.drop_last().len() implies (p.drop_last()[j] == '.')
                == (q.drop_last()[j] == '.') by {
                lemma_lower_char_dot(p.drop_last()[j]);
            }
            if p.drop_last().contains('.') {
                let j = choose|j: int|
                    0 <= j < p.drop_last().len() && p.drop_last()[j] == '.';
                assert(q.drop_last()[j] == '.');
                assert(q.drop_last().contains('.'));
                lemma_ext_lower_commute(p.drop_last());
                assert(ext_of(q) =~= lower(ext_of(p)));
            } else {
                assert(!q.drop_last().contains('.')) by {
                    if q.drop_last().contains('.') {
                        let j = choose|j: int|
                            0 <= j < q.drop_last().len() && q.drop_last()[j] == '.';
                        assert(p.drop_last()[j] == '.');
                    }
                }
                assert(ext_of(q) =~= lower(ext_of(p)));
            }
        }
    }
}

/// Extension lookup is case-insensitive: lower-casing the whole requested
/// path does not change what resolution returns when no header content type
/// is present.
pub proof fn lemma_resolve_case_insensitive(p: Seq<char>)
    ensures
        spec_resolve(lower(p), None) == spec_resolve(p, None),
{
    lemma_ext_lower_commute(p);
    lemma_lower_idempotent(ext_of(p));
}

/// A path whose extension is outside the table — including a path with no
/// extension at all — resolves to the generic binary type when no header
/// content type is present.
pub proof fn lemma_unknown_extension_falls_back(p: Seq<char>)
    requires
        !is_known_extension(lower(ext_of(p))),
    ensures
        spec_resolve(p, None) == "application/octet-stream"@,
{
}

/// A path with an absent or empty extension resolves to the generic binary
/// type when no header content type is present.
pub proof fn lemma_no_extension_falls_back(p: Seq<char>)
    requires
        ext_of(p) == Seq::<char>::empty(),
    ensures
        spec_resolve(p, None) == "application/octet-stream"@,
{
    reveal_strlit("html");
    reveal_strlit("htm");
    reveal_strlit("css");
    reveal_strlit("js");
    reveal_strlit("json");
    reveal_strlit("xml");
    reveal_strlit("txt");
    reveal_strlit("csv");
    reveal_strlit("md");
    reveal_strlit("pdf");
    reveal_strlit("doc");
    reveal_strlit("docx");
    reveal_strlit("xls");
    reveal_strlit("xlsx");
    reveal_strlit("ppt");
    reveal_strlit("pptx");
    reveal_strlit("jpg");
    reveal_strlit("jpeg");
    reveal_strlit("png");
    reveal_strlit("gif");
    reveal_strlit("svg");
    reveal_strlit("webp");
    reveal_strlit("ico");
    reveal_strlit("bmp");
    reveal_strlit("tiff");
    reveal_strlit("tif");
    reveal_strlit("mp4");
    reveal_strlit("webm");
    reveal_strlit("avi");
    reveal_strlit("mov");
    reveal_strlit("wmv");
    reveal_strlit("flv");
    reveal_strlit("mp3");
    reveal_strlit("wav");
    reveal_strlit("ogg");
    reveal_strlit("aac");
    reveal_strlit("flac");
    reveal_strlit("zip");
    reveal_strlit("tar");
    reveal_strlit("gz");
    reveal_strlit("bz2");
    reveal_strlit("7z");
    reveal_strlit("rar");
    reveal_strlit("woff");
    reveal_strlit("woff2");
    reveal_strlit("ttf");
    reveal_strlit("otf");
    reveal_strlit("eot");
    reveal_strlit("bin");
    reveal_strlit("exe");
    reveal_strlit("dmg");
    reveal_strlit("iso");
    assert(lower(ext_of(p)) =~= Seq::<char>::empty());
    assert(!is_known_extension(lower(ext_of(p))));
}

} // verus!
