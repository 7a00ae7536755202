//! Technical log policy: bounded line length, incremental reads by cursor,
//! size-bounded rotation of the active log, and retention of closed logs.

use vstd::prelude::*;
use vstd::utf8::{decode_utf8, encode_scalar, encode_utf8, valid_utf8};

use crate::text::{chars_of, decimal_text, push_decimal, push_str, string_of};

verus! {

broadcast use vstd::utf8::char_is_scalar;

/// The active log is rotated before it grows past this size.
pub const LOG_FILE_LIMIT: u64 = 5242880;
/// One read returns at most this many bytes of complete lines (plus the
/// rest of a line cut by the limit).
pub const LOG_READ_LIMIT: u64 = 131072;
/// A returned line holds at most this many UTF-8 bytes.
pub const LOG_LINE_LIMIT: usize = 16384;
pub const ACTIVE_LOG_FILE_NAME: &'static str = "parallel-world.log";

// ---------------------------------------------------------------- UTF-8 width

/// Bytes in the UTF-8 encoding of one scalar value.
pub open spec fn char_width(c: char) -> nat {
    let n = c as u32;
    if n <= 0x7f {
        1
    } else if n <= 0x7ff {
        2
    } else if n <= 0xffff {
        3
    } else {
        4
    }
}

proof fn lemma_scalar_width(c: char)
    ensures
        encode_scalar(c as u32).len() == char_width(c),
{
}

proof fn lemma_encode_push(s: Seq<char>, c: char)
    ensures
        encode_utf8(s.push(c)).len() == encode_utf8(s).len() + char_width(c),
    decreases s.len(),
{
    lemma_scalar_width(c);
    if s.len() == 0 {
        assert(s.push(c).drop_first() =~= Seq::<char>::empty());
        assert(encode_utf8(Seq::<char>::empty()) =~= Seq::<u8>::empty());
    } else {
        lemma_scalar_width(s[0]);
        assert(s.push(c).drop_first() =~= s.drop_first().push(c));
        lemma_encode_push(s.drop_first(), c);
    }
}

fn width_of(c: char) -> (w: usize)
    ensures
        w == char_width(c),
{
    let n = c as u32;
    if n <= 0x7f {
        1
    } else if n <= 0x7ff {
        2
    } else if n <= 0xffff {
        3
    } else {
        4
    }
}

/// The longest prefix of `s` whose UTF-8 encoding fits in `limit` bytes.
pub open spec fn is_longest_fitting_prefix(s: Seq<char>, p: Seq<char>, limit: nat) -> bool {
    &&& p.len() <= s.len()
    &&& p == s.take(p.len() as int)
    &&& encode_utf8(p).len() <= limit
    &&& p.len() < s.len() ==> encode_utf8(s.take(p.len() as int + 1)).len() > limit
}

/// Cuts a line to at most `LOG_LINE_LIMIT` UTF-8 bytes, on a character
/// boundary.
pub fn truncate_utf8_bytes(value: &str) -> (r: String)
    ensures
        is_longest_fitting_prefix(value@, r@, LOG_LINE_LIMIT as nat),
{
    let chars = chars_of(value);
    let mut used: usize = 0;
    let mut i: usize = 0;
    let mut fits = true;
    proof {
        assert(chars@.take(0) =~= Seq::<char>::empty());
        assert(encode_utf8(Seq::<char>::empty()) =~= Seq::<u8>::empty());
    }
    while fits && i < chars.len()
        invariant
            i <= chars@.len(),
            chars@ == value@,
            used == encode_utf8(chars@.take(i as int)).len(),
            used <= LOG_LINE_LIMIT,
            !fits ==> i < chars@.len() && encode_utf8(chars@.take(i + 1)).len() > LOG_LINE_LIMIT,
        decreases chars.len() - i, if fits { 1int } else { 0int },
    {
        let w = width_of(chars[i]);
        proof {
            assert(chars@.take(i as int + 1) =~= chars@.take(i as int).push(chars@[i as int]));
            lemma_encode_push(chars@.take(i as int), chars@[i as int]);
        }
        if used + w > LOG_LINE_LIMIT {
            fits = false;
        } else {
            used = used + w;
            i = i + 1;
        }
    }
    let mut kept: Vec<char> = Vec::new();
    let mut j: usize = 0;
    while j < i
        invariant
            j <= i <= chars@.len(),
            kept@ == chars@.take(j as int),
        decreases i - j,
    {
        kept.push(chars[j]);
        assert(chars@.take(j as int + 1) =~= chars@.take(j as int).push(chars@[j as int]));
        j = j + 1;
    }
    proof {
        if i == chars@.len() {
            assert(chars@.take(i as int) =~= chars@);
        }
    }
    string_of(kept.as_slice())
}


proof fn lemma_encode_prefix_monotone(s: Seq<char>, k: int)
    requires
        0 <= k <= s.len(),
    ensures
        encode_utf8(s.take(k)).len() <= encode_utf8(s).len(),
    decreases s.len(),
{
    if k < s.len() {
        let t = s.drop_last();
        assert(s.take(k) =~= t.take(k));
        lemma_encode_prefix_monotone(t, k);
        assert(t.push(s.last()) =~= s);
        lemma_encode_push(t, s.last());
    } else {
        assert(s.take(k) =~= s);
    }
}

/// A line whose UTF-8 encoding fits the line limit is returned whole; a
/// longer one is cut to a prefix of itself.
pub proof fn law_fitting_line_is_kept_whole(value: Seq<char>, kept: Seq<char>)
    requires
        is_longest_fitting_prefix(value, kept, LOG_LINE_LIMIT as nat),
        encode_utf8(value).len() <= LOG_LINE_LIMIT,
    ensures
        kept == value,
{
    if kept.len() < value.len() {
        lemma_encode_prefix_monotone(value, kept.len() as int + 1);
    }
    assert(kept =~= value);
}

// ---------------------------------------------------------------- reading

pub const TECHNICAL_LOG_SCHEMA_VERSION: u16 = 1;

/// Where the next read of the active log continues: the rotation
/// generation it was taken in and the byte offset of the first unread line.
#[derive(Debug, Clone, Copy, PartialEq, Eq, Structural)]
pub struct TechnicalLogCursor {
    pub generation: u64,
    pub offset: u64,
}

#[derive(Debug)]
pub struct TechnicalLogChunk {
    pub schema_version: u16,
    pub lines: Vec<String>,
    pub next_cursor: TechnicalLogCursor,
    /// The cursor belonged to an older generation or pointed past the end,
    /// so reading restarted from the tail.
    pub reset: bool,
    pub has_more: bool,
}

/// The chunk answered while no active log exists yet.
pub fn missing_log_chunk(cursor: Option<TechnicalLogCursor>, generation: u64) -> (c: TechnicalLogChunk)
    ensures
        c.schema_version == TECHNICAL_LOG_SCHEMA_VERSION,
        c.lines@.len() == 0,
        c.next_cursor == (TechnicalLogCursor { generation, offset: 0 }),
        c.reset == (cursor is Some && cursor->0.generation != generation),
        !c.has_more,
{
    TechnicalLogChunk {
        schema_version: TECHNICAL_LOG_SCHEMA_VERSION,
        lines: Vec::new(),
        next_cursor: TechnicalLogCursor { generation, offset: 0 },
        reset: match cursor {
            Some(c) => c.generation != generation,
            None => false,
        },
        has_more: false,
    }
}

/// What `String::from_utf8_lossy` makes of bytes.
pub uninterp spec fn lossy_utf8(bytes: Seq<u8>) -> Seq<char>;

/// Calls `String::from_utf8_lossy`: valid UTF-8 is decoded as it is; an
/// invalid sequence becomes U+FFFD (the result is then only named).
#[verifier::external_body]
fn decode_utf8_lossy(bytes: &[u8]) -> (r: String)
    ensures
        r@ == lossy_utf8(bytes@),
        valid_utf8(bytes@) ==> r@ == decode_utf8(bytes@),
{
    String::from_utf8_lossy(bytes).into_owned()
}

/// The pieces of `s` between newlines; always at least one.
pub open spec fn newline_pieces(s: Seq<char>) -> Seq<Seq<char>>
    decreases s.len(),
{
    if s.len() == 0 {
        seq![Seq::<char>::empty()]
    } else if s.last() == '\n' {
        newline_pieces(s.drop_last()).push(Seq::<char>::empty())
    } else {
        let p = newline_pieces(s.drop_last());
        p.update(p.len() - 1, p.last().push(s.last()))
    }
}

/// A line that ended with `\r\n` loses its `\r`.
pub open spec fn strip_cr(l: Seq<char>) -> Seq<char> {
    if l.len() > 0 && l.last() == '\r' {
        l.drop_last()
    } else {
        l
    }
}

/// The lines of a text as `str::lines` gives them: split at `\n`, a line
/// ended by `\r\n` loses the `\r`, and a final line ending adds no empty
/// line.
pub open spec fn text_lines(s: Seq<char>) -> Seq<Seq<char>> {
    let p = newline_pieces(s);
    if s.len() == 0 || s.last() == '\n' {
        p.drop_last().map_values(|l: Seq<char>| strip_cr(l))
    } else {
        p.drop_last().map_values(|l: Seq<char>| strip_cr(l)).push(p.last())
    }
}

proof fn lemma_newline_pieces_nonempty(s: Seq<char>)
    ensures
        newline_pieces(s).len() >= 1,
    decreases s.len(),
{
    if s.len() > 0 {
        lemma_newline_pieces_nonempty(s.drop_last());
    }
}

fn strip_cr_exec(line: &Vec<char>) -> (r: String)
    ensures
        r@ == strip_cr(line@),
{
    let mut n = line.len();
    if n > 0 && line[n - 1] == '\r' {
        n = n - 1;
    }
    let mut kept: Vec<char> = Vec::new();
    let mut i: usize = 0;
    while i < n
        invariant
            n <= line@.len(),
            i <= n,
            kept@ == line@.take(i as int),
        decreases n - i,
    {
        kept.push(line[i]);
        i = i + 1;
        assert(kept@ =~= line@.take(i as int));
    }
    assert(kept@ =~= line@.take(n as int));
    assert(line@.len() > 0 ==> line@.drop_last() =~= line@.take(line@.len() - 1));
    assert(line@.take(line@.len() as int) =~= line@);
    string_of(kept.as_slice())
}

/// The lines of a read chunk: the bytes decoded as `String::from_utf8_lossy`
/// does, split as `str::lines` splits.
pub fn split_complete_lines(bytes: &[u8]) -> (r: Vec<String>)
    ensures
        crate::text::string_views(r@) == text_lines(lossy_utf8(bytes@)),
        valid_utf8(bytes@) ==> crate::text::string_views(r@) == text_lines(decode_utf8(bytes@)),
{
    let text = decode_utf8_lossy(bytes);
    let chars = chars_of(text.as_str());
    let ghost t = chars@;
    let mut done: Vec<String> = Vec::new();
    let mut current: Vec<char> = Vec::new();
    let mut i: usize = 0;
    proof {
        assert(t.take(0) =~= Seq::<char>::empty());
        assert(newline_pieces(Seq::<char>::empty()).drop_last() =~= Seq::<Seq<char>>::empty());
        assert(crate::text::string_views(done@) =~= Seq::<Seq<char>>::empty());
    }
    while i < chars.len()
        invariant
            t == chars@,
            i <= t.len(),
            crate::text::string_views(done@) == newline_pieces(t.take(i as int)).drop_last().map_values(
                |l: Seq<char>| strip_cr(l),
            ),
            current@ == newline_pieces(t.take(i as int)).last(),
        decreases chars.len() - i,
    {
        let c = chars[i];
        let ghost pre = t.take(i as int);
        let ghost p = newline_pieces(pre);
        let ghost before = done@;
        proof {
            lemma_newline_pieces_nonempty(pre);
            assert(t.take(i as int + 1).drop_last() =~= pre);
            assert(t.take(i as int + 1).last() == c);
        }
        if c == '\n' {
            let line = strip_cr_exec(&current);
            done.push(line);
            current = Vec::new();
            proof {
                let q = newline_pieces(t.take(i as int + 1));
                assert(q == p.push(Seq::<char>::empty()));
                assert(q.drop_last() =~= p);
                assert(p =~= p.drop_last().push(p.last()));
                assert(crate::text::string_views(done@) =~= crate::text::string_views(before).push(strip_cr(p.last())));
                assert(p.map_values(|l: Seq<char>| strip_cr(l)) =~= p.drop_last().map_values(|l: Seq<char>| strip_cr(l)).push(strip_cr(p.last())));
                assert(current@ =~= q.last());
            }
        } else {
            current.push(c);
            proof {
                let q = newline_pieces(t.take(i as int + 1));
                assert(q == p.update(p.len() - 1, p.last().push(c)));
                assert(q.drop_last() =~= p.drop_last());
                assert(current@ =~= q.last());
            }
        }
        i = i + 1;
    }
    proof {
        assert(t.take(t.len() as int) =~= t);
        lemma_newline_pieces_nonempty(t);
    }
    if chars.len() == 0 || chars[chars.len() - 1] == '\n' {
        proof {
            if t.len() > 0 {
                assert(newline_pieces(t).last() =~= Seq::<char>::empty());
            }
        }
        done
    } else {
        let ghost before = done@;
        done.push(string_of(current.as_slice()));
        proof {
            assert(crate::text::string_views(done@) =~= crate::text::string_views(before).push(current@));
        }
        done
    }
}

#[derive(Debug, Clone, Copy, PartialEq, Eq, Structural)]
pub struct LogReadPlan {
    pub offset: u64,
    pub reset: bool,
}

pub open spec fn log_read_plan_spec(cursor: Option<TechnicalLogCursor>, generation: u64, length: u64) -> LogReadPlan {
    let reset = match cursor {
        Some(c) => c.generation != generation || c.offset > length,
        None => false,
    };
    let tail = if length > LOG_READ_LIMIT {
        (length - LOG_READ_LIMIT) as u64
    } else {
        0u64
    };
    LogReadPlan {
        reset,
        offset: if cursor is None || reset {
            tail
        } else {
            cursor->0.offset
        },
    }
}

/// Where a read starts: a fresh or stale cursor reads the last
/// `LOG_READ_LIMIT` bytes, a current one continues at its offset.
pub fn plan_log_read(cursor: Option<TechnicalLogCursor>, generation: u64, length: u64) -> (p: LogReadPlan)
    ensures
        p == log_read_plan_spec(cursor, generation, length),
        p.offset <= length,
{
    let reset = match cursor {
        Some(c) => c.generation != generation || c.offset > length,
        None => false,
    };
    let tail = if length > LOG_READ_LIMIT {
        length - LOG_READ_LIMIT
    } else {
        0
    };
    let offset = match cursor {
        Some(c) => if reset {
            tail
        } else {
            c.offset
        },
        None => tail,
    };
    LogReadPlan { reset, offset }
}

pub open spec fn ends_with_newline(bytes: Seq<u8>) -> bool {
    bytes.len() > 0 && bytes.last() == 10u8
}

/// A read that filled the whole limit in the middle of a line is completed
/// up to the end of that line.
pub fn should_complete_cut_line(bytes: &[u8]) -> (r: bool)
    ensures
        r == (bytes@.len() == LOG_READ_LIMIT && !ends_with_newline(bytes@)),
{
    bytes.len() as u64 == LOG_READ_LIMIT && !(bytes.len() > 0 && bytes[bytes.len() - 1] == 10u8)
}

/// The complete lines of `bytes`, skipping a first partial line when the read
/// began in the middle of one: `(start, end)` such that `bytes[start..end]`
/// is what gets shown and `end` is where the next read continues.
/// Where the complete lines of `bytes` end: just after its last newline, or
/// zero when it has none.
pub open spec fn lines_end(bytes: Seq<u8>) -> int
    decreases bytes.len(),
{
    if bytes.len() == 0 {
        0
    } else if bytes.last() == 10u8 {
        bytes.len() as int
    } else {
        lines_end(bytes.drop_last())
    }
}

proof fn lemma_lines_end(bytes: Seq<u8>, k: int)
    requires
        0 <= k <= bytes.len(),
        k == 0 || bytes[k - 1] == 10u8,
        forall|j: int| k <= j < bytes.len() ==> bytes[j] != 10u8,
    ensures
        lines_end(bytes) == k,
    decreases bytes.len(),
{
    if bytes.len() > k {
        let d = bytes.drop_last();
        assert forall|j: int| k <= j < d.len() implies d[j] != 10u8 by {
            assert(d[j] == bytes[j]);
        }
        if k > 0 {
            assert(d[k - 1] == bytes[k - 1]);
        }
        lemma_lines_end(d, k);
    }
}

pub fn complete_lines_range(bytes: &[u8], starts_mid_line: bool) -> (r: (usize, usize))
    ensures
        r.1 == lines_end(bytes@),
        r.0 <= r.1 <= bytes@.len(),
        r.1 == 0 || bytes@[r.1 - 1] == 10u8,
        forall|j: int| r.1 <= j < bytes@.len() ==> bytes@[j] != 10u8,
        !starts_mid_line ==> r.0 == 0,
        starts_mid_line ==> (r.0 == 0 ==> r.1 == 0) && (r.0 > 0 ==> bytes@[r.0 - 1] == 10u8) && forall|j: int|
            0 <= j < r.0 - 1 ==> bytes@[j] != 10u8,
{
    let mut end: usize = bytes.len();
    while end > 0 && bytes[end - 1] != 10u8
        invariant
            end <= bytes@.len(),
            forall|j: int| end <= j < bytes@.len() ==> bytes@[j] != 10u8,
        decreases end,
    {
        end = end - 1;
    }
    proof {
        lemma_lines_end(bytes@, end as int);
    }
    if !starts_mid_line {
        return (0, end);
    }
    let mut start: usize = 0;
    while start < end && bytes[start] != 10u8
        invariant
            start <= end <= bytes@.len(),
            forall|j: int| 0 <= j < start ==> bytes@[j] != 10u8,
        decreases end - start,
    {
        start = start + 1;
    }
    if start < end {
        (start + 1, end)
    } else {
        (end, end)
    }
}

/// Reading on from the cursor of the previous read, in the same log
/// generation, after complete lines were appended (within one read's
/// budget): the read starts exactly at the cursor without a reset, needs no
/// line completion, returns all appended bytes as complete lines, and its
/// next cursor is the end of the log with nothing more to read.
pub proof fn law_next_read_returns_exactly_the_appended_lines(
    cursor: TechnicalLogCursor,
    length: u64,
    appended: Seq<u8>,
)
    requires
        cursor.offset + appended.len() == length,
        0 < appended.len() <= LOG_READ_LIMIT,
        appended.last() == 10u8,
    ensures
        log_read_plan_spec(Some(cursor), cursor.generation, length) == (LogReadPlan {
            offset: cursor.offset,
            reset: false,
        }),
        !(appended.len() == LOG_READ_LIMIT && !ends_with_newline(appended)),
        lines_end(appended) == appended.len(),
        !(cursor.offset + lines_end(appended) < length),
{
}

pub open spec fn truncated_lines(lines: Seq<Seq<char>>, kept: Seq<Seq<char>>) -> bool {
    kept.len() == lines.len() && forall|i: int|
        0 <= i < lines.len() ==> is_longest_fitting_prefix(lines[i], #[trigger] kept[i], LOG_LINE_LIMIT as nat)
}

/// The chunk answered for the lines read at `plan.offset`: `complete_len`
/// bytes of complete lines were consumed; every line is cut to the line
/// limit.
pub fn assemble_log_chunk(plan: LogReadPlan, generation: u64, length: u64, complete_len: u64, lines: &Vec<String>) -> (c: TechnicalLogChunk)
    requires
        plan.offset + complete_len <= u64::MAX,
    ensures
        c.schema_version == TECHNICAL_LOG_SCHEMA_VERSION,
        truncated_lines(crate::text::string_views(lines@), crate::text::string_views(c.lines@)),
        c.next_cursor == (TechnicalLogCursor { generation, offset: (plan.offset + complete_len) as u64 }),
        c.reset == plan.reset,
        c.has_more == (plan.offset + complete_len < length && complete_len > 0),
{
    let mut kept: Vec<String> = Vec::new();
    let mut i: usize = 0;
    while i < lines.len()
        invariant
            i <= lines@.len(),
            kept@.len() == i,
            forall|k: int|
                0 <= k < i ==> is_longest_fitting_prefix(lines@[k]@, #[trigger] kept@[k]@, LOG_LINE_LIMIT as nat),
        decreases lines.len() - i,
    {
        kept.push(truncate_utf8_bytes(lines[i].as_str()));
        i = i + 1;
    }
    let next_offset = plan.offset + complete_len;
    TechnicalLogChunk {
        schema_version: TECHNICAL_LOG_SCHEMA_VERSION,
        lines: kept,
        next_cursor: TechnicalLogCursor { generation, offset: next_offset },
        reset: plan.reset,
        has_more: next_offset < length && next_offset > plan.offset,
    }
}

// ---------------------------------------------------------------- writing

/// Rotation bookkeeping of the active log.
#[derive(Debug, Clone, Copy, PartialEq, Eq, Structural)]
pub struct LogRotationState {
    /// Distinguishes rotated files written in the same millisecond.
    pub sequence: u64,
    /// Counts rotations, so readers notice that the active file changed.
    pub generation: u64,
}

#[derive(Debug, Clone, Copy, PartialEq, Eq, Structural)]
pub struct LogWritePlan {
    /// When the active log is full: the sequence number of the file it is
    /// renamed to before writing.
    pub rotate_with_sequence: Option<u64>,
    /// How many bytes of the buffer go into the active log.
    pub segment_len: usize,
}

pub open spec fn wrapping_next(x: u64) -> u64 {
    if x == u64::MAX {
        0
    } else {
        (x + 1) as u64
    }
}

/// Decides one write: a full active log is rotated first (taking the next
/// rotation sequence number), and only as many bytes are written as keep
/// the active log within `LOG_FILE_LIMIT`. The generation readers see moves
/// only once the rotation took place (`finish_log_rotation`).
pub fn plan_log_write(state: &mut LogRotationState, active_length: u64, buffer_len: usize) -> (p: LogWritePlan)
    ensures
        active_length >= LOG_FILE_LIMIT ==> p.rotate_with_sequence == Some(old(state).sequence)
            && final(state).sequence == wrapping_next(old(state).sequence) && final(state).generation
            == old(state).generation && p.segment_len as int == if buffer_len
            < LOG_FILE_LIMIT {
            buffer_len as int
        } else {
            LOG_FILE_LIMIT as int
        },
        active_length < LOG_FILE_LIMIT ==> p.rotate_with_sequence is None && *final(state)
            == *old(state) && p.segment_len as int == if buffer_len < LOG_FILE_LIMIT - active_length {
            buffer_len as int
        } else {
            LOG_FILE_LIMIT - active_length
        },
{
    let mut length = active_length;
    let mut rotate: Option<u64> = None;
    if length >= LOG_FILE_LIMIT {
        rotate = Some(state.sequence);
        state.sequence = state.sequence.wrapping_add(1);
        length = 0;
    }
    let remaining: u64 = LOG_FILE_LIMIT - length;
    let segment_len: usize = if (buffer_len as u64) < remaining {
        buffer_len
    } else {
        remaining as usize
    };
    LogWritePlan { rotate_with_sequence: rotate, segment_len }
}

/// Records that the active log was renamed: readers holding a cursor of
/// the old generation start again.
pub fn finish_log_rotation(state: &mut LogRotationState)
    ensures
        final(state).sequence == old(state).sequence,
        final(state).generation == wrapping_next(old(state).generation),
{
    state.generation = state.generation.wrapping_add(1);
}

pub open spec fn rotated_log_name_spec(millis: u64, pid: u32, sequence: u64) -> Seq<char> {
    "parallel-world-"@ + decimal_text(millis as nat) + "-"@ + decimal_text(pid as nat) + "-"@
        + decimal_text(sequence as nat) + ".log"@
}

/// File name a full active log is renamed to.
pub fn rotated_log_file_name(millis: u64, pid: u32, sequence: u64) -> (r: String)
    ensures
        r@ == rotated_log_name_spec(millis, pid, sequence),
{
    let mut v: Vec<char> = Vec::new();
    push_str(&mut v, "parallel-world-");
    push_decimal(&mut v, millis);
    push_str(&mut v, "-");
    push_decimal(&mut v, pid as u64);
    push_str(&mut v, "-");
    push_decimal(&mut v, sequence);
    push_str(&mut v, ".log");
    string_of(v.as_slice())
}


// ---------------------------------------------------------------- retention

/// A closed (rotated) log file: when it was last modified and its size.
#[derive(Debug, Clone, Copy, PartialEq, Eq, Structural)]
pub struct ClosedLog {
    /// Nanoseconds since the epoch; zero when unknown.
    pub modified: u128,
    pub bytes: u64,
}

/// In the newest-first order (ties kept in listing order), entry `i` comes
/// after entry `j`.
pub open spec fn comes_after(c: Seq<ClosedLog>, i: int, j: int) -> bool {
    c[i].modified < c[j].modified || (c[i].modified == c[j].modified && i > j)
}

/// Bytes of the first `k` entries that are not in `removed`.
pub open spec fn kept_bytes(c: Seq<ClosedLog>, removed: Seq<usize>, k: int) -> int
    decreases k,
{
    if k <= 0 {
        0
    } else {
        kept_bytes(c, removed, k - 1) + if removed.contains((k - 1) as usize) {
            0
        } else {
            c[k - 1].bytes as int
        }
    }
}

/// Whether the logs left after removing `removed` still exceed the
/// retention policy, counting the active log.
pub open spec fn over_budget(c: Seq<ClosedLog>, removed: Seq<usize>, active_bytes: u64, max_files: usize, max_bytes: u64) -> bool {
    (c.len() - removed.len()) + (if active_bytes > 0 {
        1int
    } else {
        0int
    }) > max_files || active_bytes + kept_bytes(c, removed, c.len() as int) > max_bytes
}

proof fn lemma_kept_bytes_push(c: Seq<ClosedLog>, removed: Seq<usize>, b: usize, k: int)
    requires
        !removed.contains(b),
        0 <= k <= c.len(),
        c.len() <= usize::MAX,
    ensures
        kept_bytes(c, removed.push(b), k) == kept_bytes(c, removed, k) - if b < k {
            c[b as int].bytes as int
        } else {
            0
        },
    decreases k,
{
    if k > 0 {
        lemma_kept_bytes_push(c, removed, b, k - 1);
        let x = (k - 1) as usize;
        assert(x as int == k - 1);
        if removed.push(b).contains(x) {
            let w = choose|w: int| 0 <= w < removed.push(b).len() && removed.push(b)[w] == x;
            if w < removed.len() {
                assert(removed[w] == x);
                assert(removed.contains(x));
            }
        }
        if removed.contains(x) {
            let w = choose|w: int| 0 <= w < removed.len() && removed[w] == x;
            assert(removed.push(b)[w] == x);
        }
        if x == b {
            assert(removed.push(b)[removed.len() as int] == b);
        }
        assert(removed.push(b).contains(x) <==> (removed.contains(x) || x == b));
    }
}

proof fn lemma_kept_bytes_bound(c: Seq<ClosedLog>, removed: Seq<usize>, k: int)
    requires
        0 <= k,
    ensures
        0 <= kept_bytes(c, removed, k) <= k * 0xFFFF_FFFF_FFFF_FFFF,
    decreases k,
{
    if k > 0 {
        lemma_kept_bytes_bound(c, removed, k - 1);
        assert(c[k - 1].bytes <= 0xFFFF_FFFF_FFFF_FFFFu64);
        assert((k - 1) * 0xFFFF_FFFF_FFFF_FFFF + 0xFFFF_FFFF_FFFF_FFFF == k * 0xFFFF_FFFF_FFFF_FFFF) by (nonlinear_arith);
    }
}

/// Number of entries among the first `k` flags that are still `false`.
pub open spec fn count_unremoved(flags: Seq<bool>, k: int) -> int
    decreases k,
{
    if k <= 0 {
        0
    } else {
        count_unremoved(flags, k - 1) + if flags[k - 1] {
            0int
        } else {
            1int
        }
    }
}

proof fn lemma_count_unremoved_set(flags: Seq<bool>, b: int, k: int)
    requires
        0 <= b < flags.len(),
        !flags[b],
        0 <= k <= flags.len(),
    ensures
        count_unremoved(flags.update(b, true), k) == count_unremoved(flags, k) - if b < k {
            1int
        } else {
            0int
        },
        count_unremoved(flags, k) >= 0,
    decreases k,
{
    if k > 0 {
        lemma_count_unremoved_set(flags, b, k - 1);
    }
}

proof fn lemma_count_unremoved_nonneg(flags: Seq<bool>, k: int)
    ensures
        count_unremoved(flags, k) >= 0,
    decreases k,
{
    if k > 0 {
        lemma_count_unremoved_nonneg(flags, k - 1);
    }
}

proof fn lemma_count_unremoved_all(n: int)
    requires
        0 <= n,
    ensures
        count_unremoved(Seq::new(n as nat, |i: int| false), n) == n,
    decreases n,
{
    if n > 0 {
        lemma_count_unremoved_all(n - 1);
        lemma_count_prefix_same(Seq::new(n as nat, |i: int| false), Seq::new((n - 1) as nat, |i: int| false), n - 1);
    }
}

proof fn lemma_count_prefix_same(a: Seq<bool>, b: Seq<bool>, k: int)
    requires
        0 <= k <= a.len(),
        k <= b.len(),
        forall|i: int| 0 <= i < k ==> a[i] == b[i],
    ensures
        count_unremoved(a, k) == count_unremoved(b, k),
    decreases k,
{
    if k > 0 {
        lemma_count_prefix_same(a, b, k - 1);
    }
}

/// Which closed logs to delete, oldest first, so that the logs left (the
/// active one included) fit `max_files` and `max_bytes`: deletion stops as
/// soon as both fit or no closed log is left.
pub fn closed_logs_to_remove(closed: &Vec<ClosedLog>, active_bytes: u64, max_files: usize, max_bytes: u64) -> (r: Vec<usize>)
    ensures
        r@.no_duplicates(),
        forall|j: int| 0 <= j < r@.len() ==> r@[j] < closed@.len(),
        forall|j: int, k: int|
            0 <= j < r@.len() && 0 <= k < closed@.len() && !r@.take(j).contains(k as usize) && k != r@[j] as int
                ==> comes_after(closed@, r@[j] as int, k),
        forall|j: int| 0 <= j < r@.len() ==> over_budget(closed@, r@.take(j), active_bytes, max_files, max_bytes),
        !over_budget(closed@, r@, active_bytes, max_files, max_bytes) || forall|k: int|
            0 <= k < closed@.len() ==> #[trigger] r@.contains(k as usize),
{
    let n = closed.len();
    let ghost c = closed@;
    let mut total: u128 = active_bytes as u128;
    let mut i: usize = 0;
    while i < n
        invariant
            n == c.len(),
            c == closed@,
            i <= n,
            total == active_bytes + kept_bytes(c, Seq::<usize>::empty(), i as int),
        decreases n - i,
    {
        proof {
            lemma_kept_bytes_bound(c, Seq::<usize>::empty(), i as int);
            assert((i as int) * 0xFFFF_FFFF_FFFF_FFFF <= 0xFFFF_FFFF_FFFF_FFFF * 0xFFFF_FFFF_FFFF_FFFF) by (nonlinear_arith)
                requires
                    i <= 0xFFFF_FFFF_FFFF_FFFF,
            ;
            assert(!Seq::<usize>::empty().contains(i));
        }
        total = total + closed[i].bytes as u128;
        i = i + 1;
    }
    let mut removed: Vec<bool> = Vec::new();
    let mut j: usize = 0;
    while j < n
        invariant
            j <= n,
            removed@.len() == j,
            forall|k: int| 0 <= k < j ==> !removed@[k],
        decreases n - j,
    {
        removed.push(false);
        j = j + 1;
    }
    let mut r: Vec<usize> = Vec::new();
    proof {
        assert(forall|k: int| 0 <= k < n ==> !#[trigger] r@.contains(k as usize));
        assert(removed@ =~= Seq::new(n as nat, |i: int| false));
        lemma_count_unremoved_all(n as int);
    }
    loop
        invariant
            n == c.len(),
            c == closed@,
            removed@.len() == n,
            r@.len() + count_unremoved(removed@, n as int) == n,
            forall|k: int| 0 <= k < n ==> (removed@[k] <==> r@.contains(k as usize)),
            r@.no_duplicates(),
            forall|q: int| 0 <= q < r@.len() ==> r@[q] < n,
            total == active_bytes + kept_bytes(c, r@, n as int),
            forall|q: int, k: int|
                0 <= q < r@.len() && 0 <= k < n && !r@.take(q).contains(k as usize) && k != r@[q] as int
                    ==> comes_after(c, r@[q] as int, k),
            forall|q: int| 0 <= q < r@.len() ==> over_budget(c, r@.take(q), active_bytes, max_files, max_bytes),
        ensures
            !over_budget(c, r@, active_bytes, max_files, max_bytes) || forall|k: int|
                0 <= k < n ==> #[trigger] r@.contains(k as usize),
            r@.no_duplicates(),
            forall|q: int| 0 <= q < r@.len() ==> r@[q] < n,
            forall|q: int, k: int|
                0 <= q < r@.len() && 0 <= k < n && !r@.take(q).contains(k as usize) && k != r@[q] as int
                    ==> comes_after(c, r@[q] as int, k),
            forall|q: int| 0 <= q < r@.len() ==> over_budget(c, r@.take(q), active_bytes, max_files, max_bytes),
        decreases n - r@.len(),
    {
        proof {
            lemma_count_unremoved_nonneg(removed@, n as int);
        }
        let files: usize = n - r.len();
        let over = (files as u128) + (if active_bytes > 0 { 1u128 } else { 0u128 }) > max_files as u128 || total
            > max_bytes as u128;
        if !over {
            break;
        }
        let mut best: Option<usize> = None;
        let mut k: usize = 0;
        while k < n
            invariant
                k <= n,
                n == c.len(),
                c == closed@,
                removed@.len() == n,
                match best {
                    Some(b) => b < k && !removed@[b as int] && forall|m: int|
                        0 <= m < k && !removed@[m] && m != b ==> comes_after(c, b as int, m),
                    None => forall|m: int| 0 <= m < k ==> removed@[m],
                },
            decreases n - k,
        {
            if !removed[k] {
                match best {
                    None => {
                        best = Some(k);
                    },
                    Some(b) => {
                        if closed[k].modified < closed[b].modified || (closed[k].modified == closed[b].modified
                            && k > b) {
                            best = Some(k);
                        }
                    },
                }
            }
            k = k + 1;
        }
        match best {
            None => {
                assert forall|m: int| 0 <= m < n implies #[trigger] r@.contains(m as usize) by {
                    assert(removed@[m]);
                }
                break;
            },
            Some(b) => {
                let ghost before = r@;
                proof {
                    lemma_kept_bytes_push(c, before, b, n as int);
                    lemma_count_unremoved_set(removed@, b as int, n as int);
                    lemma_kept_bytes_bound(c, before.push(b), n as int);
                    assert(before.push(b).take(before.len() as int) =~= before);
                    assert forall|q: int| 0 <= q < before.len() implies before.push(b).take(q) =~= before.take(q) by {}
                }
                total = total - closed[b].bytes as u128;
                r.push(b);
                removed.set(b, true);
                proof {
                    lemma_count_unremoved_nonneg(removed@, n as int);
                    assert forall|m: int| 0 <= m < n implies (removed@[m] <==> r@.contains(m as usize)) by {
                        if r@.contains(m as usize) && m != b {
                            let w = choose|w: int| 0 <= w < r@.len() && r@[w] == m as usize;
                            assert(w < before.len());
                            assert(before[w] == m as usize);
                        }
                        if m != b && before.contains(m as usize) {
                            let w = choose|w: int| 0 <= w < before.len() && before[w] == m as usize;
                            assert(r@[w] == m as usize);
                        }
                        if m == b {
                            assert(r@[before.len() as int] == b);
                        }
                    }
                    assert forall|x: int, y: int| 0 <= x < y < r@.len() implies r@[x] != r@[y] by {
                        if y == before.len() {
                            assert(before.contains(r@[x]));
                        }
                    }
                    assert forall|q: int, m: int|
                        0 <= q < r@.len() && 0 <= m < n && !r@.take(q).contains(m as usize) && m != r@[q] as int
                            implies comes_after(c, r@[q] as int, m) by {
                        if q == before.len() {
                            assert(r@.take(q) =~= before);
                            assert(!removed@[m] || m == b);
                        } else {
                            assert(r@.take(q) =~= before.take(q));
                        }
                    }
                    assert forall|q: int| 0 <= q < r@.len() implies over_budget(c, r@.take(q), active_bytes, max_files, max_bytes) by {
                        if q == before.len() {
                            assert(r@.take(q) =~= before);
                        } else {
                            assert(r@.take(q) =~= before.take(q));
                        }
                    }
                }
            },
        }
    }
    r
}


// ---------------------------------------------------------------- shared state

/// The state shared by the log writer and the log reader: where the logs
/// live and the rotation bookkeeping of the active log.
#[derive(Debug)]
pub struct TechnicalLogAccess {
    directory: String,
    rotation: LogRotationState,
}

impl TechnicalLogAccess {
    pub closed spec fn rotation_spec(&self) -> LogRotationState {
        self.rotation
    }

    pub closed spec fn directory_spec(&self) -> Seq<char> {
        self.directory@
    }

    /// The directory holding the active and the closed logs.
    pub fn directory(&self) -> (d: &str)
        ensures
            d@ == self.directory_spec(),
    {
        self.directory.as_str()
    }

    /// A fresh log directory: no rotation happened yet.
    pub fn new(directory: String) -> (a: TechnicalLogAccess)
        ensures
            a.directory_spec() == directory@,
            a.rotation_spec() == (LogRotationState { sequence: 0, generation: 0 }),
    {
        TechnicalLogAccess { directory, rotation: LogRotationState { sequence: 0, generation: 0 } }
    }

    /// The rotation generation readers see.
    pub fn generation(&self) -> (g: u64)
        ensures
            g == self.rotation_spec().generation,
    {
        self.rotation.generation
    }

    /// Where the next read starts, for the current generation.
    pub fn plan_read(&self, cursor: Option<TechnicalLogCursor>, length: u64) -> (p: LogReadPlan)
        ensures
            p == log_read_plan_spec(cursor, self.rotation_spec().generation, length),
    {
        plan_log_read(cursor, self.rotation.generation, length)
    }

    /// Decides one write, taking a rotation sequence number when the active
    /// log is full.
    pub fn plan_write(&mut self, active_length: u64, buffer_len: usize) -> (p: LogWritePlan)
        ensures
            final(self).directory_spec() == old(self).directory_spec(),
            active_length >= LOG_FILE_LIMIT ==> p.rotate_with_sequence == Some(old(self).rotation_spec().sequence)
                && final(self).rotation_spec().sequence == wrapping_next(old(self).rotation_spec().sequence)
                && final(self).rotation_spec().generation == old(self).rotation_spec().generation
                && p.segment_len as int == if buffer_len < LOG_FILE_LIMIT {
                buffer_len as int
            } else {
                LOG_FILE_LIMIT as int
            },
            active_length < LOG_FILE_LIMIT ==> p.rotate_with_sequence is None && final(self).rotation_spec()
                == old(self).rotation_spec() && p.segment_len as int == if buffer_len < LOG_FILE_LIMIT
                - active_length {
                buffer_len as int
            } else {
                LOG_FILE_LIMIT - active_length
            },
    {
        plan_log_write(&mut self.rotation, active_length, buffer_len)
    }

    /// Records a completed rotation of the active log.
    pub fn finish_rotation(&mut self)
        ensures
            final(self).directory_spec() == old(self).directory_spec(),
            final(self).rotation_spec().sequence == old(self).rotation_spec().sequence,
            final(self).rotation_spec().generation == wrapping_next(old(self).rotation_spec().generation),
    {
        finish_log_rotation(&mut self.rotation);
    }
}

} // verus!
