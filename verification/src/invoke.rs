//! Deriving the downloader invocation from a URL.
//!
//! For one URL the relay derives a filename stem (the final path segment
//! before the query string, with a fixed placeholder fallback), an output
//! file name `<stem>.mp4`, a referer (the URL before its query string), an
//! origin (the referer's scheme and host), and the full argument list of the
//! external downloader process. The subprocess outcome is mapped to either
//! the output file path or a single generic failure.

use vstd::prelude::*;

use crate::text::last_occ;
use crate::text::last_occ_upto;
use crate::text::lemma_last_occ_bounds;
use crate::text::lemma_nth_occ_bounds;
use crate::text::nth_occ;
use crate::text::nth_occ_from;

verus! {

/// The part of `url` after its last `/`; the whole of `url` when it has
/// none.
pub open spec fn tail_after_last_slash(url: Seq<char>) -> Seq<char> {
    url.subrange(last_occ(url, '/') + 1, url.len() as int)
}

/// The part of `s` before its first `?`; the whole of `s` when it has none.
pub open spec fn pre_query(s: Seq<char>) -> Seq<char> {
    s.subrange(0, nth_occ(s, '?', 0))
}

/// The placeholder stem used when a URL yields no path segment.
pub open spec fn fallback_stem() -> Seq<char> {
    "video"@
}

/// The filename stem derived from a URL: its final path segment before the
/// query string, or the fixed placeholder when that segment is empty.
pub open spec fn stem_spec(url: Seq<char>) -> Seq<char> {
    let pre = pre_query(tail_after_last_slash(url));
    if pre.len() == 0 {
        fallback_stem()
    } else {
        pre
    }
}

/// The output file name for a URL: `<stem>.mp4`.
pub open spec fn output_name_spec(url: Seq<char>) -> Seq<char> {
    stem_spec(url) + ".mp4"@
}

/// The referer sent with the download request: the URL before its query
/// string.
pub open spec fn referrer_spec(url: Seq<char>) -> Seq<char> {
    pre_query(url)
}

/// The origin sent with the download request: the referer up to its third
/// `/`, which keeps the scheme and host of an ordinary URL.
pub open spec fn origin_spec(url: Seq<char>) -> Seq<char> {
    referrer_spec(url).subrange(0, nth_occ(referrer_spec(url), '/', 2))
}

/// Derive the filename stem from a URL.
pub fn derive_stem(url: &str) -> (r: String)
    ensures
        r@ == stem_spec(url@),
{
    let len = url.unicode_len();
    proof {
        assert(url@.take(len as int) =~= url@);
        lemma_last_occ_bounds(url@, '/');
    }
    let start = match last_occ_upto(url, '/', len) {
        Some(k) => k + 1,
        None => 0,
    };
    let tail = url.substring_char(start, len);
    proof {
        assert(tail@ == tail_after_last_slash(url@));
    }
    let tlen = tail.unicode_len();
    proof {
        assert(tail@.subrange(0, tlen as int) =~= tail@);
        lemma_nth_occ_bounds(tail@, '?', 0);
    }
    let q = nth_occ_from(tail, '?', 0, 0, tlen);
    let pre = tail.substring_char(0, q);
    if pre.unicode_len() == 0 {
        let r = String::from_str("video");
        proof {
            assert(pre@ =~= pre_query(tail_after_last_slash(url@)));
        }
        r
    } else {
        String::from_str(pre)
    }
}

/// Derive the output file name `<stem>.mp4` from a URL.
pub fn output_name(url: &str) -> (r: String)
    ensures
        r@ == output_name_spec(url@),
{
    let mut r = derive_stem(url);
    r.append(".mp4");
    r
}

/// Derive the referer from a URL.
pub fn derive_referrer(url: &str) -> (r: String)
    ensures
        r@ == referrer_spec(url@),
{
    let len = url.unicode_len();
    proof {
        assert(url@.subrange(0, len as int) =~= url@);
        lemma_nth_occ_bounds(url@, '?', 0);
    }
    let q = nth_occ_from(url, '?', 0, 0, len);
    String::from_str(url.substring_char(0, q))
}

/// Derive the origin from a URL.
pub fn derive_origin(url: &str) -> (r: String)
    ensures
        r@ == origin_spec(url@),
{
    let referrer = derive_referrer(url);
    let rlen = referrer.as_str().unicode_len();
    proof {
        assert(referrer@.subrange(0, rlen as int) =~= referrer@);
        lemma_nth_occ_bounds(referrer@, '/', 2);
    }
    let k = nth_occ_from(referrer.as_str(), '/', 2, 0, rlen);
    String::from_str(referrer.as_str().substring_char(0, k))
}

/// The format selector handed to the downloader: best mp4, best overall as
/// the fallback.
pub open spec fn format_selector() -> Seq<char> {
    "best[ext=mp4]/best"@
}

/// The full argument list of one downloader invocation for `url`: format
/// selection, the derived output name, the spoofed browser identity headers,
/// the referer and origin derived from the URL, the impersonation flag, and
/// the URL itself, in the order the downloader expects them.
pub open spec fn invocation_spec(url: Seq<char>) -> Seq<Seq<char>> {
    seq![
        "-f"@,
        format_selector(),
        "-o"@,
        output_name_spec(url),
        "--user-agent"@,
        "Mozilla/5.0 (Windows NT 10.0; Win64; x64) AppleWebKit/537.36 (KHTML, like Gecko) Chrome/122.0.0.0 Safari/537.36"@,
        "--add-header"@,
        "Accept: text/html,application/xhtml+xml,application/xml;q=0.9,image/avif,image/webp,*/*;q=0.8"@,
        "--add-header"@,
        "Accept-Language: en-US,en;q=0.9"@,
        "--add-header"@,
        "Accept-Encoding: gzip, deflate, br"@,
        "--add-header"@,
        "DNT: 1"@,
        "--add-header"@,
        "Sec-Fetch-Dest: document"@,
        "--add-header"@,
        "Sec-Fetch-Mode: navigate"@,
        "--add-header"@,
        "Sec-Fetch-Site: none"@,
        "--add-header"@,
        "Sec-Fetch-User: ?1"@,
        "--add-header"@,
        "Upgrade-Insecure-Requests: 1"@,
        "--add-header"@,
        "sec-ch-ua: \"Chromium\";v=\"122\", \"Google Chrome\";v=\"122\", \"Not(A:Brand\";v=\"24\""@,
        "--add-header"@,
        "sec-ch-ua-mobile: ?0"@,
        "--add-header"@,
        "sec-ch-ua-platform: \"Windows\""@,
        "--referer"@,
        referrer_spec(url),
        "--add-header"@,
        "Origin: "@ + origin_spec(url),
        "--add-header"@,
        "Sec-Fetch-Site: same-origin"@,
        "--impersonate"@,
        "chrome"@,
        url,
    ]
}

/// Build the downloader's argument list for one URL.
#[verifier::rlimit(60)]
pub fn build_invocation(url: &str) -> (r: Vec<String>)
    ensures
        r.deep_view() == invocation_spec(url@),
{
    let mut r: Vec<String> = Vec::new();
    r.push(String::from_str("-f"));
    r.push(String::from_str("best[ext=mp4]/best"));
    r.push(String::from_str("-o"));
    r.push(output_name(url));
    r.push(String::from_str("--user-agent"));
    r.push(
        String::from_str(
            "Mozilla/5.0 (Windows NT 10.0; Win64; x64) AppleWebKit/537.36 (KHTML, like Gecko) Chrome/122.0.0.0 Safari/537.36",
        ),
    );
    r.push(String::from_str("--add-header"));
    r.push(
        String::from_str(
            "Accept: text/html,application/xhtml+xml,application/xml;q=0.9,image/avif,image/webp,*/*;q=0.8",
        ),
    );
    r.push(String::from_str("--add-header"));
    r.push(String::from_str("Accept-Language: en-US,en;q=0.9"));
    r.push(String::from_str("--add-header"));
    r.push(String::from_str("Accept-Encoding: gzip, deflate, br"));
    r.push(String::from_str("--add-header"));
    r.push(String::from_str("DNT: 1"));
    r.push(String::from_str("--add-header"));
    r.push(String::from_str("Sec-Fetch-Dest: document"));
    r.push(String::from_str("--add-header"));
    r.push(String::from_str("Sec-Fetch-Mode: navigate"));
    r.push(String::from_str("--add-header"));
    r.push(String::from_str("Sec-Fetch-Site: none"));
    r.push(String::from_str("--add-header"));
    r.push(String::from_str("Sec-Fetch-User: ?1"));
    r.push(String::from_str("--add-header"));
    r.push(String::from_str("Upgrade-Insecure-Requests: 1"));
    r.push(String::from_str("--add-header"));
    r.push(
        String::from_str(
            "sec-ch-ua: \"Chromium\";v=\"122\", \"Google Chrome\";v=\"122\", \"Not(A:Brand\";v=\"24\"",
        ),
    );
    r.push(String::from_str("--add-header"));
    r.push(String::from_str("sec-ch-ua-mobile: ?0"));
    r.push(String::from_str("--add-header"));
    r.push(String::from_str("sec-ch-ua-platform: \"Windows\""));
    r.push(String::from_str("--referer"));
    r.push(derive_referrer(url));
    r.push(String::from_str("--add-header"));
    let mut origin_header = String::from_str("Origin: ");
    let origin = derive_origin(url);
    origin_header.append(origin.as_str());
    r.push(origin_header);
    r.push(String::from_str("--add-header"));
    r.push(String::from_str("Sec-Fetch-Site: same-origin"));
    r.push(String::from_str("--impersonate"));
    r.push(String::from_str("chrome"));
    r.push(String::from_str(url));
    proof {
        assert(r.deep_view() =~= invocation_spec(url@));
    }
    r
}

/// The outcome of running the downloader subprocess: its exit code, or a
/// failure to launch it at all.
#[derive(Clone, Copy, Debug)]
pub enum ProcessStatus {
    Exited(i32),
    LaunchFailed,
}

/// The one download failure kind: launch failure, unsupported site, network
/// trouble and format unavailability are not distinguished.
#[derive(Clone, Copy, Debug, PartialEq, Eq, Structural)]
pub enum DownloadError {
    Failed,
}

/// The subprocess finished with exit code zero.
pub open spec fn exit_success(status: ProcessStatus) -> bool {
    status matches ProcessStatus::Exited(code) && code == 0
}

/// Map a subprocess outcome for `url` to the downloaded file's path on a
/// zero exit, and to the generic download failure on any other outcome.
pub fn interpret_download(url: &str, status: ProcessStatus) -> (r: Result<String, DownloadError>)
    ensures
        exit_success(status) ==> (r matches Ok(p) && p@ == output_name_spec(url@)),
        !exit_success(status) ==> r matches Err(DownloadError::Failed),
{
    match status {
        ProcessStatus::Exited(code) => {
            if code == 0 {
                Ok(output_name(url))
            } else {
                Err(DownloadError::Failed)
            }
        },
        ProcessStatus::LaunchFailed => Err(DownloadError::Failed),
    }
}

} // verus!
