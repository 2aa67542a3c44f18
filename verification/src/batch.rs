//! Transcription runs: which files of a folder are taken, and the lines
//! written to the log while files are processed.
use vstd::prelude::*;
use vstd::string::StringExecFns;

use crate::text::{
    ascii_lower, decimal, decimal_string, eq_ascii_case_insensitive, eq_ignore_ascii_case,
};

verus! {

/// A file is taken when its extension is "mp4" in any ASCII case.
pub open spec fn is_mp4_spec(ext: Option<Seq<char>>) -> bool {
    match ext {
        Some(e) => eq_ascii_case_insensitive(e, "mp4"@),
        None => false,
    }
}

/// The line written when a folder scan found `n` files.
pub open spec fn files_found_spec(n: nat) -> Seq<char> {
    "Found "@ + decimal(n) + " MP4 file(s). Processing..."@
}

/// The line written before the file at position `i` (from zero) of `total`.
pub open spec fn file_progress_spec(i: nat, total: nat, name: Seq<char>) -> Seq<char> {
    "["@ + decimal(i + 1) + "/"@ + decimal(total) + "] "@ + name
}

/// Whether a file with the given extension (none when the file name has no
/// extension or it is not valid Unicode) is transcribed in a folder run.
pub fn is_mp4_extension(ext: Option<&str>) -> (r: bool)
    ensures
        r == is_mp4_spec(
            match ext {
                Some(e) => Some(e@),
                None => None,
            },
        ),
{
    match ext {
        Some(e) => eq_ignore_ascii_case(e, "mp4"),
        None => false,
    }
}

/// The line written when a folder scan found `n` files.
pub fn files_found_message(n: usize) -> (r: String)
    ensures
        r@ == files_found_spec(n as nat),
{
    let mut s = String::from_str("Found ");
    let d = decimal_string(n as u64);
    s.append(d.as_str());
    s.append(" MP4 file(s). Processing...");
    s
}

/// The line written before the file at position `i` (from zero) of `total`.
pub fn file_progress_message(i: usize, total: usize, name: &str) -> (r: String)
    requires
        i < total,
    ensures
        r@ == file_progress_spec(i as nat, total as nat, name@),
{
    let mut s = String::from_str("[");
    let a = decimal_string((i + 1) as u64);
    s.append(a.as_str());
    s.append("/");
    let b = decimal_string(total as u64);
    s.append(b.as_str());
    s.append("] ");
    s.append(name);
    s
}

/// `prefix` followed by `text`.
fn prefixed(prefix: &str, text: &str) -> (r: String)
    ensures
        r@ == prefix@ + text@,
{
    let mut s = String::from_str(prefix);
    s.append(text);
    s
}

/// The line written when the user starts transcribing one file.
pub fn processing_line(name: &str) -> (r: String)
    ensures
        r@ == "Processing: "@ + name@,
{
    prefixed("Processing: ", name)
}

/// The line written when the user starts transcribing a folder.
pub fn scanning_line(folder: &str) -> (r: String)
    ensures
        r@ == "Scanning: "@ + folder@,
{
    prefixed("Scanning: ", folder)
}

/// The line written when a subtitle file has been saved.
pub fn saved_line(name: &str) -> (r: String)
    ensures
        r@ == "  Saved: "@ + name@,
{
    prefixed("  Saved: ", name)
}

/// The line written when transcribing a single file failed.
pub fn file_error_line(error: &str) -> (r: String)
    ensures
        r@ == "✗ Error: "@ + error@,
{
    prefixed("✗ Error: ", error)
}

/// The line written when one file of a folder run failed.
pub fn item_error_line(error: &str) -> (r: String)
    ensures
        r@ == "  ✗ "@ + error@,
{
    prefixed("  ✗ ", error)
}

/// The line written when a tool could not be started at all.
pub fn launch_error_line(tool: &str, error: &str) -> (r: String)
    ensures
        r@ == tool@ + " launch failed: "@ + error@,
{
    let mut s = String::from_str(tool);
    s.append(" launch failed: ");
    s.append(error);
    s
}

/// A file is taken exactly when it has an extension of three characters that
/// reads "mp4" with each letter in either case: `m` or `M`, then `p` or `P`,
/// then `4`. A file without an extension is never taken.
pub proof fn law_mp4_filter(ext: Option<Seq<char>>)
    ensures
        is_mp4_spec(ext) <==> (ext matches Some(e) && e.len() == 3 && (e[0] == 'm' || e[0] == 'M')
            && (e[1] == 'p' || e[1] == 'P') && e[2] == '4'),
{
    reveal_strlit("mp4");
    if let Some(e) = ext {
        if e.len() == 3 {
            let lhs = eq_ascii_case_insensitive(e, "mp4"@);
            let m = "mp4"@;
            assert(ascii_lower(m[0]) == 'm');
            assert(ascii_lower(m[1]) == 'p');
            assert(ascii_lower(m[2]) == '4');
            lemma_ascii_lower_is(e[0], 'm', 'M');
            lemma_ascii_lower_is(e[1], 'p', 'P');
            lemma_ascii_lower_digit(e[2]);
            if (e[0] == 'm' || e[0] == 'M') && (e[1] == 'p' || e[1] == 'P') && e[2] == '4' {
                assert forall|i: int| 0 <= i < e.len() implies ascii_lower(#[trigger] e[i])
                    == ascii_lower(m[i]) by {
                    assert(i == 0 || i == 1 || i == 2);
                }
            }
            if lhs {
                assert(ascii_lower(e[0]) == ascii_lower(m[0]));
                assert(ascii_lower(e[1]) == ascii_lower(m[1]));
                assert(ascii_lower(e[2]) == ascii_lower(m[2]));
            }
        }
    }
}

/// A character lower-cases to the lower-case letter `lower` exactly when it is
/// that letter or its capital `upper`.
proof fn lemma_ascii_lower_is(c: char, lower: char, upper: char)
    requires
        'a' <= lower <= 'z',
        upper as u32 + 32 == lower as u32,
    ensures
        ascii_lower(c) == lower <==> (c == lower || c == upper),
{
}

/// Only the digit `4` lower-cases to `4`.
proof fn lemma_ascii_lower_digit(c: char)
    ensures
        ascii_lower(c) == '4' <==> c == '4',
{
}

} // verus!
