use vstd::prelude::*;
use vstd::string::StrSliceExecFns;
use vstd::string::StringExecFns;
use crate::datasets::{Dataset, RawDataset, summarize, is_summary_of};

verus! {

/// Root of the remote dataset repository.
pub const DATASETS_BASE: &'static str = "https://raw.githubusercontent.com/7otion/archv3-datasets/master/";

/// Longest prefix of a malformed body kept for diagnostics, in characters.
pub const SNIPPET_CHARS: usize = 500;

/// Why a synchronisation run failed.
#[allow(inconsistent_fields)]
pub enum SyncError {
    /// Transport failure or timeout; `slug` names the pack, `None` for the manifest.
    Network { slug: Option<String>, message: String },
    /// A descriptor response whose status is not a success.
    HttpStatus { slug: String, status: u16, reason: Option<String> },
    /// A body that does not parse; `snippet` is the start of the body.
    Parse { slug: Option<String>, snippet: String, message: String },
    /// A fetch task that ended without producing a response.
    Task { message: String },
}

/// How the body of a descriptor response turned out.
pub enum PackBody {
    /// The body could not be read.
    Unreadable { message: String },
    /// The body was read but is not a descriptor.
    Malformed { text: String, message: String },
    /// The body parsed into a descriptor.
    Parsed(RawDataset),
}

/// What one descriptor fetch produced.
pub enum PackFetch {
    /// The fetch task itself failed.
    Aborted { message: String },
    /// The request could not be sent or timed out.
    SendFailed { message: String },
    /// A response arrived.
    Received { status: u16, reason: Option<String>, size_header: Option<String>, body: PackBody },
}

pub open spec fn is_digit(c: char) -> bool {
    '0' <= c && c <= '9'
}

pub open spec fn all_digits(s: Seq<char>) -> bool {
    forall|i: int| 0 <= i < s.len() ==> is_digit(#[trigger] s[i])
}

/// Value of a sequence of decimal digits.
pub open spec fn decimal_value(s: Seq<char>) -> nat
    decreases s.len(),
{
    if s.len() == 0 {
        0
    } else {
        decimal_value(s.drop_last()) * 10 + (s.last() as nat - '0' as nat) as nat
    }
}

/// The digits of a size header: the text without one leading `+`.
pub open spec fn unsigned_digits(s: Seq<char>) -> Seq<char> {
    if s.len() > 0 && s[0] == '+' { s.drop_first() } else { s }
}

/// `s` is the decimal text of a `u64`, as `u64::from_str` reads it.
pub open spec fn parses_as_u64(s: Seq<char>) -> bool {
    let d = unsigned_digits(s);
    d.len() > 0 && all_digits(d) && decimal_value(d) <= u64::MAX
}

/// Size hint of a response: the header's value, 0 when it is absent or not a `u64`.
pub open spec fn size_hint_of(header: Option<Seq<char>>) -> u64 {
    match header {
        Some(s) => if parses_as_u64(s) { decimal_value(unsigned_digits(s)) as u64 } else { 0 },
        None => 0,
    }
}

pub open spec fn opt_view(o: Option<String>) -> Option<Seq<char>> {
    match o {
        Some(s) => Some(s@),
        None => None,
    }
}

proof fn lemma_decimal_prefix_le(s: Seq<char>, i: int)
    requires
        all_digits(s),
        0 <= i <= s.len(),
    ensures
        decimal_value(s.take(i)) <= decimal_value(s),
    decreases s.len(),
{
    if i < s.len() {
        assert(s.drop_last().take(i) == s.take(i));
        lemma_decimal_prefix_le(s.drop_last(), i);
    } else {
        assert(s.take(i) == s);
    }
}

/// Reads the text of a size header as `u64::from_str` does; 0 when it is not a `u64`.
pub fn parse_size_hint(s: &str) -> (r: u64)
    ensures
        r == size_hint_of(Some(s@)),
{
    let n = s.unicode_len();
    let mut i: usize = 0;
    if n > 0 && s.get_char(0) == '+' {
        i = 1;
    }
    let start = i;
    let ghost d = unsigned_digits(s@);
    assert(d == s@.subrange(start as int, n as int));
    if i >= n {
        return 0;
    }
    let mut acc: u64 = 0;
    while i < n
        invariant
            start <= i <= n,
            n == s@.len(),
            d == s@.subrange(start as int, n as int),
            d == unsigned_digits(s@),
            all_digits(d.take(i - start)),
            acc == decimal_value(d.take(i - start)),
        decreases n - i,
    {
        let c = s.get_char(i);
        if !('0' <= c && c <= '9') {
            proof {
                assert(d[i - start] == c);
                assert(!is_digit(d[i - start]));
                assert(!all_digits(d));
                assert(!parses_as_u64(s@));
            }
            return 0;
        }
        let digit = (c as u32 - '0' as u32) as u64;
        let ghost k = i - start;
        assert(d.take(k + 1).drop_last() == d.take(k));
        assert(all_digits(d.take(k + 1)));
        if acc > (u64::MAX - digit) / 10 {
            proof {
                assert(decimal_value(d.take(k + 1)) > u64::MAX) by (nonlinear_arith)
                    requires
                        decimal_value(d.take(k + 1)) == acc * 10 + digit,
                        acc > (u64::MAX - digit) / 10,
                        digit <= 9,
                ;
                if all_digits(d) {
                    lemma_decimal_prefix_le(d, k + 1);
                }
                assert(!parses_as_u64(s@));
            }
            return 0;
        }
        acc = acc * 10 + digit;
        i = i + 1;
    }
    assert(d.take(i - start) == d);
    acc
}

/// The first `SNIPPET_CHARS` characters of `text`.
pub open spec fn snippet_of(text: Seq<char>) -> Seq<char> {
    if text.len() <= SNIPPET_CHARS { text } else { text.take(SNIPPET_CHARS as int) }
}

/// Keeps the start of a malformed body for the error report.
pub fn snippet(text: &str) -> (r: String)
    ensures
        r@ == snippet_of(text@),
{
    let n = text.unicode_len();
    let end: usize = if n <= SNIPPET_CHARS { n } else { SNIPPET_CHARS };
    let part = text.substring_char(0, end);
    let r = part.to_owned();
    assert(text@.subrange(0, n as int) == text@);
    r
}

/// Address of a pack's descriptor document.
pub open spec fn descriptor_url_of(slug: Seq<char>) -> Seq<char> {
    DATASETS_BASE@ + "datasets/"@ + slug + "/"@ + slug + "-dataset.json"@
}

/// Address of the manifest.
pub open spec fn manifest_url_of() -> Seq<char> {
    DATASETS_BASE@ + "datasets.json"@
}

/// Builds the address of a pack's descriptor document.
pub fn descriptor_url(slug: &str) -> (r: String)
    ensures
        r@ == descriptor_url_of(slug@),
{
    let mut r = String::from_str(DATASETS_BASE);
    r.append("datasets/");
    r.append(slug);
    r.append("/");
    r.append(slug);
    r.append("-dataset.json");
    r
}

/// Builds the address of the manifest.
pub fn manifest_url() -> (r: String)
    ensures
        r@ == manifest_url_of(),
{
    let mut r = String::from_str(DATASETS_BASE);
    r.append("datasets.json");
    r
}

/// A status in the success class (2xx).
pub open spec fn is_success_status(status: u16) -> bool {
    200 <= status <= 299
}

/// The outcome that the fetch `f` of pack `slug` stands for.
pub open spec fn pack_outcome(slug: String, f: PackFetch, r: Result<Dataset, SyncError>) -> bool {
    match f {
        PackFetch::Aborted { message } => r == Err::<Dataset, SyncError>(SyncError::Task { message }),
        PackFetch::SendFailed { message } =>
            r == Err::<Dataset, SyncError>(SyncError::Network { slug: Some(slug), message }),
        PackFetch::Received { status, reason, size_header, body } =>
            if !is_success_status(status) {
                r == Err::<Dataset, SyncError>(SyncError::HttpStatus { slug, status, reason })
            } else {
                match body {
                    PackBody::Unreadable { message } =>
                        r == Err::<Dataset, SyncError>(SyncError::Network { slug: Some(slug), message }),
                    PackBody::Malformed { text, message } =>
                        match r {
                            Err(SyncError::Parse { slug: s, snippet, message: m }) =>
                                s == Some(slug) && snippet@ == snippet_of(text@) && m == message,
                            _ => false,
                        },
                    PackBody::Parsed(raw) =>
                        match r {
                            Ok(d) => is_summary_of(d, raw, size_hint_of(opt_view(size_header))),
                            Err(_) => false,
                        },
                }
            },
    }
}

/// Decides what one descriptor fetch of pack `slug` yields: a summary, or the error
/// that ends the run.
pub fn resolve_pack(slug: String, f: PackFetch) -> (r: Result<Dataset, SyncError>)
    ensures
        pack_outcome(slug, f, r),
{
    match f {
        PackFetch::Aborted { message } => Err(SyncError::Task { message }),
        PackFetch::SendFailed { message } => Err(SyncError::Network { slug: Some(slug), message }),
        PackFetch::Received { status, reason, size_header, body } => {
            if !(200 <= status && status <= 299) {
                return Err(SyncError::HttpStatus { slug, status, reason });
            }
            match body {
                PackBody::Unreadable { message } => Err(SyncError::Network { slug: Some(slug), message }),
                PackBody::Malformed { text, message } => {
                    let snippet = snippet(text.as_str());
                    Err(SyncError::Parse { slug: Some(slug), snippet, message })
                },
                PackBody::Parsed(raw) => {
                    let size: u64 = match &size_header {
                        Some(h) => parse_size_hint(h.as_str()),
                        None => 0,
                    };
                    Ok(summarize(raw, size))
                },
            }
        },
    }
}

/// Position of the first `-` of `s`, or its length when it has none.
pub open spec fn first_dash(s: Seq<char>) -> nat
    decreases s.len(),
{
    if s.len() == 0 {
        0
    } else if s[0] == '-' {
        0
    } else {
        1 + first_dash(s.drop_first())
    }
}

proof fn lemma_first_dash(s: Seq<char>, k: int)
    requires
        0 <= k <= s.len(),
        k == s.len() || s[k] == '-',
        forall|j: int| 0 <= j < k ==> s[j] != '-',
    ensures
        first_dash(s) == k,
    decreases s.len(),
{
    if s.len() > 0 && k > 0 {
        let t = s.drop_first();
        assert forall|j: int| 0 <= j < k - 1 implies t[j] != '-' by {
            assert(t[j] == s[j + 1]);
        }
        if k - 1 < t.len() {
            assert(t[k - 1] == s[k]);
        }
        lemma_first_dash(t, k - 1);
    }
}

/// Address of a pack image: it lies in the folder of the pack whose slug is the
/// file name up to its first `-`.
pub open spec fn image_url_of(filename: Seq<char>) -> Seq<char> {
    DATASETS_BASE@ + "datasets/"@ + filename.take(first_dash(filename) as int) + "/"@ + filename
}

/// Builds the address of a pack image from its file name.
pub fn image_url(filename: &str) -> (r: String)
    ensures
        r@ == image_url_of(filename@),
{
    let n = filename.unicode_len();
    let mut k: usize = 0;
    while k < n && filename.get_char(k) != '-'
        invariant
            k <= n,
            n == filename@.len(),
            forall|j: int| 0 <= j < k ==> filename@[j] != '-',
        decreases n - k,
    {
        k = k + 1;
    }
    proof {
        lemma_first_dash(filename@, k as int);
    }
    let slug = filename.substring_char(0, k);
    let mut r = String::from_str(DATASETS_BASE);
    r.append("datasets/");
    r.append(slug);
    r.append("/");
    r.append(filename);
    r
}

} // verus!
