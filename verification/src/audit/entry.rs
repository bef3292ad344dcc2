//! Audit entries, and which of them a reader or a clean-up keeps.

use vstd::prelude::*;
use crate::scanner::size::{byte_size_text, format_size};
use crate::text::{str_trim, sviews, trim};

verus! {

/// Type of audit operation.
#[derive(Debug, Clone, Copy, PartialEq, Eq, Structural)]
pub enum AuditOperation {
    /// Scanning for cleanable items.
    Scan,
    /// Moving an item to the trash.
    MoveToTrash,
    /// Skipping an item.
    Skip,
    /// An error occurred.
    Error,
}

/// A UTC instant: whole seconds since the Unix epoch and the nanoseconds
/// past them (a leap second runs them past a billion).
#[derive(Debug, Clone, Copy, PartialEq, Eq, Structural)]
pub struct AuditTime {
    pub secs: i64,
    pub nanos: u32,
}

/// `t` is not earlier than `c`.
pub open spec fn at_or_after(t: AuditTime, c: AuditTime) -> bool {
    t.secs > c.secs || (t.secs == c.secs && t.nanos >= c.nanos)
}

/// A single audit log entry.
#[derive(Debug)]
pub struct AuditEntry {
    /// Unique identifier of the entry (a version 4 UUID, as a number).
    pub id: u128,
    /// Time of the operation.
    pub timestamp: AuditTime,
    /// Type of operation.
    pub operation: AuditOperation,
    /// Cleaner that performed the operation.
    pub cleaner_id: String,
    /// Path that was affected.
    pub path: String,
    /// Size of the item in bytes.
    pub size: u64,
    /// Human-readable size.
    pub size_human: String,
    /// Whether this was a dry run.
    pub dry_run: bool,
    /// Whether the operation succeeded.
    pub success: bool,
    /// Error message if it failed.
    pub error: Option<String>,
    /// Additional context.
    pub context: Option<String>,
}

/// `id` carries the version 4 and RFC 4122 variant bits of a random UUID.
pub open spec fn is_v4_uuid(id: u128) -> bool {
    (id >> 76u128) & 0xfu128 == 4u128 && (id >> 62u128) & 0x3u128 == 2u128
}

/// The number that big-endian bytes spell.
pub open spec fn be_value(bytes: Seq<u8>) -> nat
    decreases bytes.len(),
{
    if bytes.len() == 0 {
        0
    } else {
        be_value(bytes.drop_last()) * 256 + bytes.last() as nat
    }
}

/// The bits of a UUID other than its version nibble and variant bits.
pub const UUID_RANDOM_BITS: u128 = 0xFFFF_FFFF_FFFF_0FFF_3FFF_FFFF_FFFF_FFFFu128;

/// Trusted: `getrandom::fill` on sixteen bytes, the source of randomness
/// that `uuid` draws on. The bytes are random, so nothing is claimed of
/// them; `None` where the system gave none.
#[verifier::external_body]
fn random_bytes() -> (r: Option<[u8; 16]>) {
    let mut bytes = [0u8; 16];
    match getrandom::fill(&mut bytes) {
        Ok(()) => Some(bytes),
        Err(_) => None,
    }
}

/// Trusted: `uuid::Builder::from_random_bytes(bytes).into_uuid().as_u128()`.
/// The UUID is the bytes read big-endian, with the version nibble set to
/// 4 and the variant bits to binary 10, as the crate's `with_version` and
/// `with_variant` write them.
#[verifier::external_body]
fn uuid_of_random_bytes(bytes: [u8; 16]) -> (r: u128)
    ensures
        is_v4_uuid(r),
        r & UUID_RANDOM_BITS == (be_value(bytes@) as u128) & UUID_RANDOM_BITS,
{
    uuid::Builder::from_random_bytes(bytes).into_uuid().as_u128()
}

/// A new random identifier, a version 4 UUID as a number (`None` when no
/// random bytes could be had).
fn new_entry_id() -> (r: Option<u128>)
    ensures
        r matches Some(id) ==> is_v4_uuid(id),
{
    match random_bytes() {
        Some(bytes) => Some(uuid_of_random_bytes(bytes)),
        None => None,
    }
}

/// Trusted: `std::time::SystemTime::now()` measured from the Unix epoch
/// (`duration_since`), as whole seconds and the nanoseconds past them;
/// `None` when the clock lies before the epoch. The nanoseconds of a
/// `Duration` are less than a billion.
#[verifier::external_body]
fn time_since_epoch() -> (r: Option<(u64, u32)>)
    ensures
        r matches Some((_, n)) ==> n < 1_000_000_000,
{
    match std::time::SystemTime::now().duration_since(std::time::UNIX_EPOCH) {
        Ok(d) => Some((d.as_secs(), d.subsec_nanos())),
        Err(_) => None,
    }
}

/// Trusted: `chrono::DateTime::from_timestamp(secs, nanos)`, read back with
/// `timestamp` and `timestamp_subsec_nanos`: the same instant, or `None`
/// where chrono cannot represent it.
#[verifier::external_body]
fn utc_at(secs: i64, nanos: u32) -> (r: Option<AuditTime>)
    ensures
        r matches Some(t) ==> t.secs == secs && t.nanos == nanos,
{
    match chrono::DateTime::from_timestamp(secs, nanos) {
        Some(t) => Some(AuditTime { secs: t.timestamp(), nanos: t.timestamp_subsec_nanos() }),
        None => None,
    }
}

/// The current UTC time, since the Unix epoch (`None` when the clock lies
/// before the epoch or beyond what chrono represents).
fn utc_now() -> (r: Option<AuditTime>)
    ensures
        r matches Some(t) ==> t.secs >= 0 && t.nanos < 1_000_000_000,
{
    match time_since_epoch() {
        Some((secs, nanos)) => if secs <= 0x7fff_ffff_ffff_ffffu64 {
            utc_at(secs as i64, nanos)
        } else {
            None
        },
        None => None,
    }
}

/// What a new entry is stamped with: a fresh identifier and the current
/// time (`None` when either could not be had).
fn identity() -> (r: Option<(u128, AuditTime)>)
    ensures
        r matches Some((id, t)) ==> is_v4_uuid(id) && t.secs >= 0 && t.nanos < 1_000_000_000,
{
    match new_entry_id() {
        Some(id) => match utc_now() {
            Some(t) => Some((id, t)),
            None => None,
        },
        None => None,
    }
}

/// The fields of an entry that its constructor fixes.
pub open spec fn entry_fields(
    e: AuditEntry,
    operation: AuditOperation,
    cleaner_id: Seq<char>,
    path: Seq<char>,
    size: u64,
    size_human: Seq<char>,
    dry_run: bool,
    success: bool,
    error: Option<Seq<char>>,
    context: Option<Seq<char>>,
) -> bool {
    &&& is_v4_uuid(e.id)
    &&& e.timestamp.secs >= 0
    &&& e.timestamp.nanos < 1_000_000_000
    &&& e.operation == operation
    &&& e.cleaner_id@ == cleaner_id
    &&& e.path@ == path
    &&& e.size == size
    &&& e.size_human@ == size_human
    &&& e.dry_run == dry_run
    &&& e.success == success
    &&& match (e.error, error) {
        (Some(a), Some(b)) => a@ == b,
        (None, None) => true,
        _ => false,
    }
    &&& match (e.context, context) {
        (Some(a), Some(b)) => a@ == b,
        (None, None) => true,
        _ => false,
    }
}

impl AuditEntry {
    /// The entry with the given identifier and time and the given fields.
    pub fn stamped(
        id: u128,
        timestamp: AuditTime,
        operation: AuditOperation,
        cleaner_id: &str,
        path: String,
        size: u64,
        size_human: String,
        dry_run: bool,
        success: bool,
        error: Option<String>,
        context: Option<String>,
    ) -> (r: AuditEntry)
        ensures
            r.id == id,
            r.timestamp == timestamp,
            r.operation == operation,
            r.cleaner_id@ == cleaner_id@,
            r.path == path,
            r.size == size,
            r.size_human == size_human,
            r.dry_run == dry_run,
            r.success == success,
            r.error == error,
            r.context == context,
    {
        AuditEntry {
            id,
            timestamp,
            operation,
            cleaner_id: String::from_str(cleaner_id),
            path,
            size,
            size_human,
            dry_run,
            success,
            error,
            context,
        }
    }

    /// An entry for an item moved to the trash, stamped with a new
    /// identifier and the current time (`None` when either could not be
    /// had).
    pub fn cleaned(cleaner_id: &str, path: String, size: u64) -> (r: Option<AuditEntry>)
        ensures
            r matches Some(e) ==> entry_fields(e, AuditOperation::MoveToTrash, cleaner_id@, path@, size, byte_size_text(size), false, true, None, None),
    {
        match identity() {
            Some((id, t)) => Some(
                AuditEntry::stamped(id, t, AuditOperation::MoveToTrash, cleaner_id, path, size, format_size(size), false, true, None, None),
            ),
            None => None,
        }
    }

    /// An entry for an item that a dry run would have moved to the trash,
    /// stamped as `cleaned` stamps.
    pub fn dry_run(cleaner_id: &str, path: String, size: u64) -> (r: Option<AuditEntry>)
        ensures
            r matches Some(e) ==> entry_fields(e, AuditOperation::MoveToTrash, cleaner_id@, path@, size, byte_size_text(size), true, true, None, Some("DRY RUN - no actual deletion"@)),
    {
        match identity() {
            Some((id, t)) => Some(
                AuditEntry::stamped(
                    id,
                    t,
                    AuditOperation::MoveToTrash,
                    cleaner_id,
                    path,
                    size,
                    format_size(size),
                    true,
                    true,
                    None,
                    Some(String::from_str("DRY RUN - no actual deletion")),
                ),
            ),
            None => None,
        }
    }

    /// An entry for an error, stamped as `cleaned` stamps.
    pub fn error(cleaner_id: &str, path: String, error: &str) -> (r: Option<AuditEntry>)
        ensures
            r matches Some(e) ==> entry_fields(e, AuditOperation::Error, cleaner_id@, path@, 0, "0 B"@, false, false, Some(error@), None),
    {
        match identity() {
            Some((id, t)) => Some(
                AuditEntry::stamped(
                    id,
                    t,
                    AuditOperation::Error,
                    cleaner_id,
                    path,
                    0,
                    String::from_str("0 B"),
                    false,
                    false,
                    Some(String::from_str(error)),
                    None,
                ),
            ),
            None => None,
        }
    }

    /// An entry for a skipped item, stamped as `cleaned` stamps.
    pub fn skipped(cleaner_id: &str, path: String, reason: &str) -> (r: Option<AuditEntry>)
        ensures
            r matches Some(e) ==> entry_fields(e, AuditOperation::Skip, cleaner_id@, path@, 0, "0 B"@, false, true, None, Some(reason@)),
    {
        match identity() {
            Some((id, t)) => Some(
                AuditEntry::stamped(
                    id,
                    t,
                    AuditOperation::Skip,
                    cleaner_id,
                    path,
                    0,
                    String::from_str("0 B"),
                    false,
                    true,
                    None,
                    Some(String::from_str(reason)),
                ),
            ),
            None => None,
        }
    }

    /// An entry for a scan, stamped as `cleaned` stamps.
    pub fn scan(cleaner_id: &str, path: String, size: u64) -> (r: Option<AuditEntry>)
        ensures
            r matches Some(e) ==> entry_fields(e, AuditOperation::Scan, cleaner_id@, path@, size, byte_size_text(size), false, true, None, None),
    {
        match identity() {
            Some((id, t)) => Some(
                AuditEntry::stamped(id, t, AuditOperation::Scan, cleaner_id, path, size, format_size(size), false, true, None, None),
            ),
            None => None,
        }
    }

    /// The entry with `context` as its context.
    pub fn with_context(self, context: String) -> (r: AuditEntry)
        ensures
            r.context == Some(context),
            r.id == self.id,
            r.timestamp == self.timestamp,
            r.operation == self.operation,
            r.cleaner_id == self.cleaner_id,
            r.path == self.path,
            r.size == self.size,
            r.size_human == self.size_human,
            r.dry_run == self.dry_run,
            r.success == self.success,
            r.error == self.error,
    {
        let mut e = self;
        e.context = Some(context);
        e
    }
}

/// A log line holds nothing but whitespace.
pub fn is_blank_line(line: &str) -> (r: bool)
    ensures
        r == (trim(line@).len() == 0),
{
    str_trim(line).unicode_len() == 0
}

/// The last `count` items of `s` (all of them where there are fewer).
pub open spec fn recent<A>(s: Seq<A>, count: nat) -> Seq<A> {
    s.skip(if count < s.len() { s.len() - count } else { 0 })
}

/// The lines of a log that hold an entry: the non-blank ones, in order.
pub open spec fn readable(ls: Seq<Seq<char>>) -> Seq<Seq<char>>
    decreases ls.len(),
{
    if ls.len() == 0 {
        seq![]
    } else {
        let r = readable(ls.drop_last());
        if trim(ls.last()).len() == 0 { r } else { r.push(ls.last()) }
    }
}

/// The lines of a log that hold an entry, in order (see `readable`).
pub fn readable_lines(lines: &Vec<String>) -> (r: Vec<String>)
    ensures
        sviews(r@) == readable(sviews(lines@)),
{
    let mut r: Vec<String> = Vec::new();
    let mut i: usize = 0;
    while i < lines.len()
        invariant
            i <= lines@.len(),
            sviews(r@) == readable(sviews(lines@).take(i as int)),
        decreases lines@.len() - i,
    {
        proof {
            assert(sviews(lines@).take(i + 1).drop_last() =~= sviews(lines@).take(i as int));
            assert(sviews(lines@).take(i + 1).last() == lines@[i as int]@);
        }
        if !is_blank_line(lines[i].as_str()) {
            let ghost old = sviews(r@);
            r.push(lines[i].clone());
            proof {
                assert(sviews(r@) =~= old.push(lines@[i as int]@));
            }
        }
        i = i + 1;
    }
    assert(sviews(lines@).take(lines@.len() as int) =~= sviews(lines@));
    r
}

/// What is written to a log is read back, after what was there, in the
/// order written; and reading the `count` most recent lines (no more than
/// were written) gives the last `count` lines written.
pub proof fn law_written_lines_read_back(log: Seq<Seq<char>>, written: Seq<Seq<char>>, count: nat)
    requires
        forall|i: int| 0 <= i < written.len() ==> trim(#[trigger] written[i]).len() > 0,
        count <= written.len(),
    ensures
        readable(log + written) == readable(log) + written,
        recent(readable(log + written), count) == recent(written, count),
    decreases written.len(),
{
    if written.len() == 0 {
        assert(log + written =~= log);
        assert(readable(log) + written =~= readable(log));
    } else {
        let w = written.drop_last();
        assert forall|i: int| 0 <= i < w.len() implies trim(#[trigger] w[i]).len() > 0 by {
            assert(w[i] == written[i]);
        }
        law_written_lines_read_back(log, w, 0);
        assert((log + written).drop_last() =~= log + w);
        assert((log + written).last() == written.last());
        assert(trim(written[written.len() - 1]).len() > 0);
        assert(readable(log) + written =~= (readable(log) + w).push(written.last()));
    }
    let all = readable(log) + written;
    assert(recent(all, count) =~= recent(written, count));
}

/// The last `count` of `entries` (all of them where there are fewer).
pub fn last_entries(entries: Vec<AuditEntry>, count: usize) -> (r: Vec<AuditEntry>)
    ensures
        r@ == entries@.skip(if count < entries@.len() { entries@.len() - count } else { 0 }),
        r@ == recent(entries@, count as nat),
{
    let mut all = entries;
    let start: usize = if count < all.len() { all.len() - count } else { 0 };
    let r = all.split_off(start);
    proof {
        assert(r@ =~= entries@.skip(start as int));
    }
    r
}

/// The instant `days` days before `now`.
pub fn days_before(now: AuditTime, days: u32) -> (r: AuditTime)
    requires
        now.secs - days * 86400 >= i64::MIN,
    ensures
        r.secs == now.secs - days * 86400,
        r.nanos == now.nanos,
{
    let back: i64 = (days as i64) * 86400;
    AuditTime { secs: now.secs - back, nanos: now.nanos }
}

/// Whether `t` is not earlier than `cutoff`.
pub fn is_at_or_after(t: AuditTime, cutoff: AuditTime) -> (r: bool)
    ensures
        r == at_or_after(t, cutoff),
{
    t.secs > cutoff.secs || (t.secs == cutoff.secs && t.nanos >= cutoff.nanos)
}

/// A non-blank line of the log is kept by a clean-up unless it holds an
/// entry from before the cutoff (`stamp`: the entry's time, or `None` where
/// the line holds no entry that can be read, which is kept).
pub open spec fn line_kept(line: Seq<char>, stamp: Option<AuditTime>, cutoff: AuditTime) -> bool {
    trim(line).len() > 0 && match stamp {
        Some(t) => at_or_after(t, cutoff),
        None => true,
    }
}

/// A line of the log removed by a clean-up: an entry from before the cutoff.
pub open spec fn line_removed(line: Seq<char>, stamp: Option<AuditTime>, cutoff: AuditTime) -> bool {
    trim(line).len() > 0 && match stamp {
        Some(t) => !at_or_after(t, cutoff),
        None => false,
    }
}

/// The first `n` lines that a clean-up keeps, in order.
pub open spec fn kept_lines(lines: Seq<Seq<char>>, stamps: Seq<Option<AuditTime>>, cutoff: AuditTime, n: nat) -> Seq<Seq<char>>
    decreases n,
{
    if n == 0 {
        seq![]
    } else {
        let prev = kept_lines(lines, stamps, cutoff, (n - 1) as nat);
        if line_kept(lines[n - 1], stamps[n - 1], cutoff) { prev.push(lines[n - 1]) } else { prev }
    }
}

/// How many of the first `n` lines a clean-up removes.
pub open spec fn removed_count(lines: Seq<Seq<char>>, stamps: Seq<Option<AuditTime>>, cutoff: AuditTime, n: nat) -> nat
    decreases n,
{
    if n == 0 {
        0
    } else {
        removed_count(lines, stamps, cutoff, (n - 1) as nat) + if line_removed(lines[n - 1], stamps[n - 1], cutoff) { 1nat } else { 0nat }
    }
}

/// What a clean-up of the log keeps and how many entries it removes: each
/// line comes with the time of the entry it holds (`None`: none can be read).
pub fn retain_recent(lines: &Vec<String>, stamps: &Vec<Option<AuditTime>>, cutoff: AuditTime) -> (r: (Vec<String>, usize))
    requires
        lines.len() == stamps.len(),
    ensures
        sviews(r.0@) == kept_lines(sviews(lines@), stamps@, cutoff, lines.len() as nat),
        r.1 == removed_count(sviews(lines@), stamps@, cutoff, lines.len() as nat),
{
    let ghost lv = sviews(lines@);
    let mut kept: Vec<String> = Vec::new();
    let mut removed: usize = 0;
    let mut i: usize = 0;
    while i < lines.len()
        invariant
            i <= lines.len(),
            lines.len() == stamps.len(),
            lv == sviews(lines@),
            sviews(kept@) == kept_lines(lv, stamps@, cutoff, i as nat),
            removed == removed_count(lv, stamps@, cutoff, i as nat),
            removed <= i,
        decreases lines.len() - i,
    {
        if !is_blank_line(lines[i].as_str()) {
            match stamps[i] {
                Some(t) => {
                    if is_at_or_after(t, cutoff) {
                        let ghost before = sviews(kept@);
                        kept.push(lines[i].clone());
                        assert(sviews(kept@) =~= before.push(lv[i as int]));
                    } else {
                        removed = removed + 1;
                    }
                },
                None => {
                    let ghost before = sviews(kept@);
                    kept.push(lines[i].clone());
                    assert(sviews(kept@) =~= before.push(lv[i as int]));
                },
            }
        }
        i = i + 1;
    }
    (kept, removed)
}

/// A clean-up loses no line that holds something: each non-blank line is
/// either kept or counted as removed.
pub proof fn law_cleanup_accounts_for_every_line(lines: Seq<Seq<char>>, stamps: Seq<Option<AuditTime>>, cutoff: AuditTime, n: nat)
    requires
        n <= lines.len(),
        n <= stamps.len(),
    ensures
        kept_lines(lines, stamps, cutoff, n).len() + removed_count(lines, stamps, cutoff, n)
            == nonblank_count(lines, n),
    decreases n,
{
    if n > 0 {
        law_cleanup_accounts_for_every_line(lines, stamps, cutoff, (n - 1) as nat);
    }
}

/// How many of the first `n` lines hold something.
pub open spec fn nonblank_count(lines: Seq<Seq<char>>, n: nat) -> nat
    decreases n,
{
    if n == 0 {
        0
    } else {
        nonblank_count(lines, (n - 1) as nat) + if trim(lines[n - 1]).len() > 0 { 1nat } else { 0nat }
    }
}

} // verus!
