use vstd::prelude::*;
use vstd::string::StringExecFns;
use vstd::string::StrSliceExecFns;
use crate::text::{lower_of, lowercase, same_text, starts_with_text, ends_with_text, has_prefix, has_suffix};

verus! {

/// A file or folder entry as the file browser shows it.
pub struct IFile {
    pub id: i32,
    pub created_at: String,
    pub updated_at: String,
    pub path: String,
    pub name: String,
    pub size: u64,
    pub mime: String,
    pub extension: String,
    pub ctime: u64,
    pub mtime: u64,
    pub file_type: String,
    pub file_metadata_id: Option<i32>,
    pub scrape_url: Option<String>,
    pub download_url: Option<String>,
    pub is_directory: u8,
}

/// One page of a folder listing.
pub struct FolderData {
    pub folders: Vec<String>,
    pub total_count: usize,
    pub current_page: usize,
}

/// Kind of file named by a lower-case extension.
pub open spec fn file_type_of(e: Seq<char>) -> Seq<char> {
    if e == "mp4"@ || e == "avi"@ || e == "mkv"@ || e == "mov"@ || e == "wmv"@ || e == "flv"@ || e == "webm"@ || e == "m4v"@ || e == "3gp"@ {
        "video"@
    } else if e == "jpg"@ || e == "jpeg"@ || e == "png"@ || e == "gif"@ || e == "bmp"@ || e == "tiff"@ || e == "webp"@ || e == "svg"@ || e == "ico"@ || e == "avif"@ {
        "image"@
    } else if e == "mp3"@ || e == "wav"@ || e == "flac"@ || e == "aac"@ || e == "ogg"@ || e == "wma"@ || e == "m4a"@ {
        "audio"@
    } else if e == "pdf"@ || e == "doc"@ || e == "docx"@ || e == "txt"@ || e == "rtf"@ || e == "odt"@ || e == "xls"@ || e == "xlsx"@ || e == "ppt"@ || e == "pptx"@ {
        "document"@
    } else {
        "other"@
    }
}

/// MIME type named by a lower-case extension.
pub open spec fn mime_of(e: Seq<char>) -> Seq<char> {
    if e == "mp4"@ {
        "video/mp4"@
    } else if e == "avi"@ {
        "video/x-msvideo"@
    } else if e == "mkv"@ {
        "video/x-matroska"@
    } else if e == "mov"@ {
        "video/quicktime"@
    } else if e == "wmv"@ {
        "video/x-ms-wmv"@
    } else if e == "flv"@ {
        "video/x-flv"@
    } else if e == "webm"@ {
        "video/webm"@
    } else if e == "m4v"@ {
        "video/x-m4v"@
    } else if e == "3gp"@ {
        "video/3gpp"@
    } else if e == "jpg"@ || e == "jpeg"@ {
        "image/jpeg"@
    } else if e == "png"@ {
        "image/png"@
    } else if e == "gif"@ {
        "image/gif"@
    } else if e == "bmp"@ {
        "image/bmp"@
    } else if e == "tiff"@ {
        "image/tiff"@
    } else if e == "webp"@ {
        "image/webp"@
    } else if e == "svg"@ {
        "image/svg+xml"@
    } else if e == "ico"@ {
        "image/x-icon"@
    } else if e == "avif"@ {
        "image/avif"@
    } else if e == "mp3"@ {
        "audio/mpeg"@
    } else if e == "wav"@ {
        "audio/wav"@
    } else if e == "flac"@ {
        "audio/flac"@
    } else if e == "aac"@ {
        "audio/aac"@
    } else if e == "ogg"@ {
        "audio/ogg"@
    } else if e == "wma"@ {
        "audio/x-ms-wma"@
    } else if e == "m4a"@ {
        "audio/mp4"@
    } else if e == "pdf"@ {
        "application/pdf"@
    } else if e == "doc"@ {
        "application/msword"@
    } else if e == "docx"@ {
        "application/vnd.openxmlformats-officedocument.wordprocessingml.document"@
    } else if e == "txt"@ {
        "text/plain"@
    } else if e == "rtf"@ {
        "application/rtf"@
    } else if e == "odt"@ {
        "application/vnd.oasis.opendocument.text"@
    } else if e == "xls"@ {
        "application/vnd.ms-excel"@
    } else if e == "xlsx"@ {
        "application/vnd.openxmlformats-officedocument.spreadsheetml.sheet"@
    } else if e == "ppt"@ {
        "application/vnd.ms-powerpoint"@
    } else if e == "pptx"@ {
        "application/vnd.openxmlformats-officedocument.presentationml.presentation"@
    } else {
        "application/octet-stream"@
    }
}

/// Kind of file for an extension already in lower case.
pub fn file_type_of_lower(ext: &str) -> (r: String)
    ensures
        r@ == file_type_of(ext@),
{
    if same_text(ext, "mp4") || same_text(ext, "avi") || same_text(ext, "mkv") || same_text(ext, "mov") || same_text(ext, "wmv") || same_text(ext, "flv") || same_text(ext, "webm") || same_text(ext, "m4v") || same_text(ext, "3gp") {
        String::from_str("video")
    } else if same_text(ext, "jpg") || same_text(ext, "jpeg") || same_text(ext, "png") || same_text(ext, "gif") || same_text(ext, "bmp") || same_text(ext, "tiff") || same_text(ext, "webp") || same_text(ext, "svg") || same_text(ext, "ico") || same_text(ext, "avif") {
        String::from_str("image")
    } else if same_text(ext, "mp3") || same_text(ext, "wav") || same_text(ext, "flac") || same_text(ext, "aac") || same_text(ext, "ogg") || same_text(ext, "wma") || same_text(ext, "m4a") {
        String::from_str("audio")
    } else if same_text(ext, "pdf") || same_text(ext, "doc") || same_text(ext, "docx") || same_text(ext, "txt") || same_text(ext, "rtf") || same_text(ext, "odt") || same_text(ext, "xls") || same_text(ext, "xlsx") || same_text(ext, "ppt") || same_text(ext, "pptx") {
        String::from_str("document")
    } else {
        String::from_str("other")
    }
}

/// MIME type for an extension already in lower case.
pub fn mime_type_of_lower(ext: &str) -> (r: String)
    ensures
        r@ == mime_of(ext@),
{
    if same_text(ext, "mp4") {
        String::from_str("video/mp4")
    } else if same_text(ext, "avi") {
        String::from_str("video/x-msvideo")
    } else if same_text(ext, "mkv") {
        String::from_str("video/x-matroska")
    } else if same_text(ext, "mov") {
        String::from_str("video/quicktime")
    } else if same_text(ext, "wmv") {
        String::from_str("video/x-ms-wmv")
    } else if same_text(ext, "flv") {
        String::from_str("video/x-flv")
    } else if same_text(ext, "webm") {
        String::from_str("video/webm")
    } else if same_text(ext, "m4v") {
        String::from_str("video/x-m4v")
    } else if same_text(ext, "3gp") {
        String::from_str("video/3gpp")
    } else if same_text(ext, "jpg") || same_text(ext, "jpeg") {
        String::from_str("image/jpeg")
    } else if same_text(ext, "png") {
        String::from_str("image/png")
    } else if same_text(ext, "gif") {
        String::from_str("image/gif")
    } else if same_text(ext, "bmp") {
        String::from_str("image/bmp")
    } else if same_text(ext, "tiff") {
        String::from_str("image/tiff")
    } else if same_text(ext, "webp") {
        String::from_str("image/webp")
    } else if same_text(ext, "svg") {
        String::from_str("image/svg+xml")
    } else if same_text(ext, "ico") {
        String::from_str("image/x-icon")
    } else if same_text(ext, "avif") {
        String::from_str("image/avif")
    } else if same_text(ext, "mp3") {
        String::from_str("audio/mpeg")
    } else if same_text(ext, "wav") {
        String::from_str("audio/wav")
    } else if same_text(ext, "flac") {
        String::from_str("audio/flac")
    } else if same_text(ext, "aac") {
        String::from_str("audio/aac")
    } else if same_text(ext, "ogg") {
        String::from_str("audio/ogg")
    } else if same_text(ext, "wma") {
        String::from_str("audio/x-ms-wma")
    } else if same_text(ext, "m4a") {
        String::from_str("audio/mp4")
    } else if same_text(ext, "pdf") {
        String::from_str("application/pdf")
    } else if same_text(ext, "doc") {
        String::from_str("application/msword")
    } else if same_text(ext, "docx") {
        String::from_str("application/vnd.openxmlformats-officedocument.wordprocessingml.document")
    } else if same_text(ext, "txt") {
        String::from_str("text/plain")
    } else if same_text(ext, "rtf") {
        String::from_str("application/rtf")
    } else if same_text(ext, "odt") {
        String::from_str("application/vnd.oasis.opendocument.text")
    } else if same_text(ext, "xls") {
        String::from_str("application/vnd.ms-excel")
    } else if same_text(ext, "xlsx") {
        String::from_str("application/vnd.openxmlformats-officedocument.spreadsheetml.sheet")
    } else if same_text(ext, "ppt") {
        String::from_str("application/vnd.ms-powerpoint")
    } else if same_text(ext, "pptx") {
        String::from_str("application/vnd.openxmlformats-officedocument.presentationml.presentation")
    } else {
        String::from_str("application/octet-stream")
    }
}

/// Kind of file (video, image, audio, document or other) for an extension in any case.
pub fn get_file_type_from_extension(extension: &str) -> (r: String)
    ensures
        r@ == file_type_of(lower_of(extension@)),
{
    let lower = lowercase(extension);
    file_type_of_lower(lower.as_str())
}

/// MIME type for an extension in any case.
pub fn get_mime_type_from_extension(extension: &str) -> (r: String)
    ensures
        r@ == mime_of(lower_of(extension@)),
{
    let lower = lowercase(extension);
    mime_type_of_lower(lower.as_str())
}

/// A lower-case name is system folder `special` itself, or starts with it and a dot.
pub open spec fn special_match(name: Seq<char>, special: Seq<char>) -> bool {
    name == special || has_prefix(name, special + "."@)
}

/// A lower-case name belongs to a system folder that listings hide.
pub open spec fn is_special_name(n: Seq<char>) -> bool {
    special_match(n, "$recycle.bin"@)
        || special_match(n, "system volume information"@)
        || special_match(n, "$winreagent"@)
        || special_match(n, "recovery"@)
        || special_match(n, "programdata"@)
        || special_match(n, "windows"@)
        || special_match(n, "config.msi"@)
        || special_match(n, "$getcurrent"@)
        || special_match(n, "$sysreset"@)
        || special_match(n, "msocache"@)
        || special_match(n, "$windows.~bt"@)
        || special_match(n, "$windows.~ws"@)
        || special_match(n, "windows.old"@)
        || special_match(n, "hiberfil.sys"@)
        || special_match(n, "pagefile.sys"@)
        || special_match(n, "swapfile.sys"@)
}

fn matches_special(name: &str, special: &str) -> (r: bool)
    ensures
        r == special_match(name@, special@),
{
    if same_text(name, special) {
        return true;
    }
    let mut dotted = String::from_str(special);
    dotted.append(".");
    starts_with_text(name, dotted.as_str())
}

/// Whether a name already in lower case belongs to a system folder.
pub fn is_special_lower_name(n: &str) -> (r: bool)
    ensures
        r == is_special_name(n@),
{
    matches_special(n, "$recycle.bin")
        || matches_special(n, "system volume information")
        || matches_special(n, "$winreagent")
        || matches_special(n, "recovery")
        || matches_special(n, "programdata")
        || matches_special(n, "windows")
        || matches_special(n, "config.msi")
        || matches_special(n, "$getcurrent")
        || matches_special(n, "$sysreset")
        || matches_special(n, "msocache")
        || matches_special(n, "$windows.~bt")
        || matches_special(n, "$windows.~ws")
        || matches_special(n, "windows.old")
        || matches_special(n, "hiberfil.sys")
        || matches_special(n, "pagefile.sys")
        || matches_special(n, "swapfile.sys")
}

/// Whether a folder name, in any case, belongs to a system folder.
pub fn is_special_folder(name: &str) -> (r: bool)
    ensures
        r == is_special_name(lower_of(name@)),
{
    let lower = lowercase(name);
    is_special_lower_name(lower.as_str())
}

/// A name that starts with a dot is hidden.
pub fn is_hidden_name(name: &str) -> (r: bool)
    ensures
        r == has_prefix(name@, "."@),
{
    starts_with_text(name, ".")
}

/// A folder listing shows a folder unless it is hidden or a system folder.
pub fn is_listed_folder(name: &str) -> (r: bool)
    ensures
        r == (!has_prefix(name@, "."@) && !is_special_name(lower_of(name@))),
{
    !is_hidden_name(name) && !is_special_folder(name)
}

/// A file name passes an extension filter when, both in lower case, the name ends with the filter.
pub fn matches_extension_filter(file_name: &str, filter: &str) -> (r: bool)
    ensures
        r == has_suffix(lower_of(file_name@), lower_of(filter@)),
{
    let name = lowercase(file_name);
    let f = lowercase(filter);
    ends_with_text(name.as_str(), f.as_str())
}

/// The page asked for: 1 when absent, and at least 1.
pub open spec fn page_number(page: Option<usize>) -> nat {
    match page {
        Some(p) => if p < 1 { 1 } else { p as nat },
        None => 1,
    }
}

/// Entries per page: 50 when absent, held between 1 and 200.
pub open spec fn page_size(per_page: Option<usize>) -> nat {
    let p: nat = match per_page {
        Some(p) => p as nat,
        None => 50,
    };
    if p < 1 { 1 } else if p > 200 { 200 } else { p }
}

/// The entries of page `page` (counted from 1) when pages hold `size` entries.
pub open spec fn page_of(all: Seq<String>, page: nat, size: nat) -> Seq<String> {
    let start = (page - 1) * size;
    if start < all.len() {
        let end = if start + size < all.len() { start + size } else { all.len() as int };
        all.subrange(start, end)
    } else {
        Seq::empty()
    }
}

/// Cuts one page out of a sorted folder listing.
pub fn paginate(folders: &Vec<String>, page: Option<usize>, per_page: Option<usize>) -> (r: FolderData)
    ensures
        r.folders@ == page_of(folders@, page_number(page), page_size(per_page)),
        r.total_count == folders@.len(),
        r.current_page == page_number(page),
{
    let page: usize = match page {
        Some(p) => if p < 1 { 1 } else { p },
        None => 1,
    };
    let size: usize = match per_page {
        Some(p) => if p < 1 { 1 } else if p > 200 { 200 } else { p },
        None => 50,
    };
    let total = folders.len();
    let mut out: Vec<String> = Vec::new();
    let ghost start_i = (page - 1) * size;
    let start_opt = (page - 1).checked_mul(size);
    if let Some(start) = start_opt {
        if start < total {
            let end: usize = if total - start > size { start + size } else { total };
            let mut i: usize = start;
            while i < end
                invariant
                    start <= i <= end <= total,
                    total == folders@.len(),
                    out@ == folders@.subrange(start as int, i as int),
                decreases end - i,
            {
                out.push(folders[i].clone());
                assert(folders@.subrange(start as int, i + 1) == folders@.subrange(start as int, i as int).push(folders@[i as int]));
                i = i + 1;
            }
        }
    }
    proof {
        if start_opt is None {
            assert(start_i > usize::MAX);
        }
    }
    FolderData { folders: out, total_count: total, current_page: page }
}

/// `cur` as a segment list: one segment, or none when it is empty.
pub open spec fn flush(cur: Seq<char>) -> Seq<Seq<char>> {
    if cur.len() > 0 { seq![cur] } else { Seq::empty() }
}

/// The non-empty `\`-separated parts of `s`, the first of them continuing `cur`.
pub open spec fn split_parts(s: Seq<char>, cur: Seq<char>) -> Seq<Seq<char>>
    decreases s.len(),
{
    if s.len() == 0 {
        flush(cur)
    } else if s[0] == '\\' {
        flush(cur) + split_parts(s.drop_first(), Seq::empty())
    } else {
        split_parts(s.drop_first(), cur.push(s[0]))
    }
}

/// Segments of a path for a breadcrumb: its non-empty `\`-separated parts, or
/// the whole path when there are none.
pub open spec fn path_segments_of(path: Seq<char>) -> Seq<Seq<char>> {
    let parts = split_parts(path, Seq::empty());
    if parts.len() == 0 { seq![path] } else { parts }
}

proof fn lemma_split_step(s: Seq<char>, i: int, cur: Seq<char>)
    requires
        0 <= i < s.len(),
    ensures
        s[i] == '\\' ==> split_parts(s.skip(i), cur) == flush(cur) + split_parts(s.skip(i + 1), Seq::empty()),
        s[i] != '\\' ==> split_parts(s.skip(i), cur) == split_parts(s.skip(i + 1), cur.push(s[i])),
{
    assert(s.skip(i).drop_first() == s.skip(i + 1));
    assert(s.skip(i)[0] == s[i]);
}

/// Splits a path into its breadcrumb segments.
pub fn get_path_segments(path: &str) -> (r: Vec<String>)
    ensures
        r@.len() == path_segments_of(path@).len(),
        forall|j: int| 0 <= j < r@.len() ==> #[trigger] r@[j]@ == path_segments_of(path@)[j],
{
    let n = path.unicode_len();
    let mut out: Vec<String> = Vec::new();
    let mut start: usize = 0;
    let ghost done: Seq<Seq<char>> = Seq::empty();
    let mut i: usize = 0;
    assert(path@.skip(0) == path@);
    assert(path@.subrange(0, 0) == Seq::<char>::empty());
    while i < n
        invariant
            start <= i <= n,
            n == path@.len(),
            out@.len() == done.len(),
            forall|j: int| 0 <= j < out@.len() ==> #[trigger] out@[j]@ == done[j],
            done + split_parts(path@.skip(i as int), path@.subrange(start as int, i as int))
                == split_parts(path@, Seq::empty()),
        decreases n - i,
    {
        let c = path.get_char(i);
        let ghost cur = path@.subrange(start as int, i as int);
        proof {
            lemma_split_step(path@, i as int, cur);
        }
        if c == '\\' {
            if start < i {
                let part = path.substring_char(start, i).to_owned();
                proof {
                    assert(done.push(cur) + split_parts(path@.skip(i + 1), Seq::empty())
                        == done + (flush(cur) + split_parts(path@.skip(i + 1), Seq::empty())));
                    done = done.push(cur);
                }
                out.push(part);
            } else {
                assert(flush(cur) + split_parts(path@.skip(i + 1), Seq::empty())
                    == split_parts(path@.skip(i + 1), Seq::empty()));
            }
            start = i + 1;
            assert(path@.subrange(start as int, i + 1) == Seq::<char>::empty());
        } else {
            assert(cur.push(path@[i as int]) == path@.subrange(start as int, i + 1));
        }
        i = i + 1;
    }
    assert(path@.skip(n as int) == Seq::<char>::empty());
    let ghost cur = path@.subrange(start as int, n as int);
    if start < n {
        let part = path.substring_char(start, n).to_owned();
        proof {
            assert(done + flush(cur) == done.push(cur));
            done = done.push(cur);
        }
        out.push(part);
    } else {
        assert(done + flush(cur) == done);
    }
    if out.len() == 0 {
        let mut whole: Vec<String> = Vec::new();
        whole.push(path.to_owned());
        return whole;
    }
    out
}

} // verus!
