//! Sizes: totals over files, sizes written for people, and the parts of a
//! size written with a unit.

use vstd::prelude::*;
use crate::text::{chars_of, decimal, str_ends_with, str_trim, string_of_range, to_uppercase, trim, unicode_uppercase};

verus! {

/// The text `bytesize` writes for a number of bytes (its `Display`).
pub uninterp spec fn byte_size_text(bytes: u64) -> Seq<char>;

/// Trusted: `bytesize::ByteSize(bytes).to_string()`. The text is named by
/// `byte_size_text`, a function of the byte count alone; below one kilobyte
/// (1000 bytes) it is the count followed by ` B`, as the crate's
/// `to_string` writes it. Larger sizes are written with one decimal of a
/// floating-point quotient, which is not stated here.
#[verifier::external_body]
pub fn format_size(bytes: u64) -> (r: String)
    ensures
        r@ == byte_size_text(bytes),
        bytes < 1000 ==> r@ == decimal(bytes as nat) + " B"@,
{
    bytesize::ByteSize(bytes).to_string()
}

/// What the file system says of a path, for its size.
#[derive(Debug, Clone, Copy, PartialEq, Eq, Structural)]
pub enum SizeKind {
    File,
    Dir,
    /// A symlink or another special file.
    Other,
}

/// Size of a file or directory: a file's length, a directory's total, and
/// 0 for anything else or when its metadata cannot be read (`kind` None).
pub fn calculate_size(kind: Option<SizeKind>, file_len: u64, dir_total: u64) -> (r: u64)
    ensures
        r == match kind {
            Some(SizeKind::File) => file_len,
            Some(SizeKind::Dir) => dir_total,
            _ => 0,
        },
{
    match kind {
        Some(SizeKind::File) => file_len,
        Some(SizeKind::Dir) => dir_total,
        _ => 0,
    }
}

pub open spec fn sum_u64(s: Seq<u64>) -> nat
    decreases s.len(),
{
    if s.len() == 0 { 0 } else { sum_u64(s.drop_last()) + s.last() as nat }
}

proof fn lemma_sum_prefix(s: Seq<u64>, i: int)
    requires
        0 <= i <= s.len(),
    ensures
        sum_u64(s.take(i)) <= sum_u64(s),
    decreases s.len() - i,
{
    if i < s.len() {
        lemma_sum_prefix(s, i + 1);
        assert(s.take(i + 1).drop_last() =~= s.take(i));
    } else {
        assert(s.take(i) =~= s);
    }
}

/// Total size of a directory: the sum of the sizes of the files found in
/// it (symlinks not followed).
pub fn calculate_dir_size(file_sizes: &Vec<u64>) -> (r: u64)
    requires
        sum_u64(file_sizes@) <= u64::MAX,
    ensures
        r == sum_u64(file_sizes@),
{
    let mut total: u64 = 0;
    let mut i: usize = 0;
    while i < file_sizes.len()
        invariant
            i <= file_sizes.len(),
            sum_u64(file_sizes@) <= u64::MAX,
            total == sum_u64(file_sizes@.take(i as int)),
        decreases file_sizes.len() - i,
    {
        proof {
            lemma_sum_prefix(file_sizes@, i + 1);
            assert(file_sizes@.take(i + 1).drop_last() =~= file_sizes@.take(i as int));
        }
        total = total + file_sizes[i];
        i = i + 1;
    }
    assert(file_sizes@.take(file_sizes.len() as int) =~= file_sizes@);
    total
}

pub const SECONDS_PER_DAY: u64 = 86400;

/// Age in whole days of an item last modified `elapsed_secs` seconds ago
/// (`None` when unknown); the count is cut to 32 bits as `as u32` does.
pub fn get_age_days(elapsed_secs: Option<u64>) -> (r: Option<u32>)
    ensures
        match elapsed_secs {
            Some(s) => r == Some((s / SECONDS_PER_DAY) as u32),
            None => r is None,
        },
{
    match elapsed_secs {
        Some(s) => Some((s / SECONDS_PER_DAY) as u32),
        None => None,
    }
}

pub const KIB: u64 = 1024;
pub const MIB: u64 = 1048576;
pub const GIB: u64 = 1073741824;
pub const TIB: u64 = 1099511627776;

/// The unit of a size written in upper case, and the length of its
/// suffix: `TB`, `GB`, `MB`, `KB` (powers of 1024), then `B`.
pub open spec fn unit_of(u: Seq<char>) -> Option<(u64, nat)> {
    if "TB"@.is_suffix_of(u) {
        Some((TIB, 2))
    } else if "GB"@.is_suffix_of(u) {
        Some((GIB, 2))
    } else if "MB"@.is_suffix_of(u) {
        Some((MIB, 2))
    } else if "KB"@.is_suffix_of(u) {
        Some((KIB, 2))
    } else if "B"@.is_suffix_of(u) {
        Some((1, 1))
    } else {
        None
    }
}

/// The size text trimmed and upper-cased.
pub open spec fn size_upper(s: Seq<char>) -> Seq<char> {
    unicode_uppercase(trim(s))
}

/// The number part and multiplier of a size: a missing unit means bytes.
pub open spec fn size_parts_spec(s: Seq<char>) -> (Seq<char>, u64) {
    let u = size_upper(s);
    match unit_of(u) {
        Some((m, k)) => (trim(u.take(u.len() - k)), m),
        None => (trim(u), 1),
    }
}

/// The number part of a Docker size and its multiplier: `0B` and an empty
/// text are zero bytes; a size without a known unit has none.
pub open spec fn docker_size_parts_spec(s: Seq<char>) -> Option<(Seq<char>, u64)> {
    let u = size_upper(s);
    if u == "0B"@ || u.len() == 0 {
        Some(("0"@, 1))
    } else {
        match unit_of(u) {
            Some((m, k)) => Some((trim(u.take(u.len() - k)), m)),
            None => None,
        }
    }
}

fn unit_of_exec(u: &str) -> (r: Option<(u64, usize)>)
    ensures
        match unit_of(u@) {
            Some((m, k)) => r == Some((m, k as usize)),
            None => r is None,
        },
        r matches Some((m, k)) ==> k <= u@.len(),
{
    proof {
        reveal_strlit("TB");
        reveal_strlit("GB");
        reveal_strlit("MB");
        reveal_strlit("KB");
        reveal_strlit("B");
    }
    if str_ends_with(u, "TB") {
        Some((TIB, 2))
    } else if str_ends_with(u, "GB") {
        Some((GIB, 2))
    } else if str_ends_with(u, "MB") {
        Some((MIB, 2))
    } else if str_ends_with(u, "KB") {
        Some((KIB, 2))
    } else if str_ends_with(u, "B") {
        Some((1, 1))
    } else {
        None
    }
}

fn without_suffix(u: &str, k: usize) -> (r: String)
    requires
        k <= u@.len(),
    ensures
        r@ == trim(u@.take(u@.len() - k)),
{
    let v = chars_of(u);
    let head = string_of_range(&v, 0, v.len() - k);
    assert(v@.subrange(0, v@.len() - k) =~= u@.take(u@.len() - k));
    str_trim(head.as_str())
}

/// Split a human-readable size (`10GB`, `500 MB`, `1.5gb`, `100`) into its
/// number part and the multiplier of its unit; reading the number is left
/// to the caller.
pub fn size_parts(s: &str) -> (r: (String, u64))
    ensures
        r.0@ == size_parts_spec(s@).0,
        r.1 == size_parts_spec(s@).1,
{
    let t = str_trim(s);
    let u = to_uppercase(t.as_str());
    match unit_of_exec(u.as_str()) {
        Some((m, k)) => {
            (without_suffix(u.as_str(), k), m)
        },
        None => (str_trim(u.as_str()), 1),
    }
}

/// Split a size as Docker writes it into its number part and multiplier;
/// `None` when it has no known unit.
pub fn docker_size_parts(s: &str) -> (r: Option<(String, u64)>)
    ensures
        match docker_size_parts_spec(s@) {
            Some((n, m)) => r matches Some((a, b)) && a@ == n && b == m,
            None => r is None,
        },
{
    let t = str_trim(s);
    let u = to_uppercase(t.as_str());
    if crate::text::str_eq(u.as_str(), "0B") || u.unicode_len() == 0 {
        proof {
            reveal_strlit("0");
        }
        return Some((String::from_str("0"), 1));
    }
    match unit_of_exec(u.as_str()) {
        Some((m, k)) => Some((without_suffix(u.as_str(), k), m)),
        None => None,
    }
}

} // verus!
