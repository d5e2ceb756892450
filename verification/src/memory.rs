//! The process-memory watchdog: the status computation, the
//! start/stop/tick state machine of the periodic monitor, and the
//! parsers that read the resident-set size out of the per-platform
//! process queries.  Sampling itself (running `ps` or `tasklist`,
//! reading the process status file) is I/O and stays with the caller,
//! which hands the raw text in and the computed sample out.

use vstd::prelude::*;

use crate::text::after_nth_sep;
use crate::text::find_char_in;
use crate::text::find_prefixed_line_from;
use crate::text::is_digit_char;
use crate::text::parse_decimal;
use crate::text::trimmed;

verus! {

/// Resident-memory budget of the process, in megabytes; usage above it
/// raises warnings.
pub const MEMORY_LIMIT_MB: u64 = 300;

/// Seconds between two watchdog ticks.
pub const CHECK_INTERVAL_SECONDS: u64 = 10;

/// One memory reading judged against the limit.  The usage percentage
/// is carried in hundredths of a percent, so 11667 reads as 116.67 %.
#[derive(Clone, Copy, Debug, PartialEq, Eq, Structural)]
pub struct MemoryStatus {
    pub current_mb: u64,
    pub limit_mb: u64,
    pub usage_percent_hundredths: u64,
    pub is_over_limit: bool,
}

/// `current` as a share of `limit`, in hundredths of a percent,
/// rounded to nearest (half away from zero).
pub open spec fn spec_percent_hundredths(current: nat, limit: nat) -> nat {
    (current * 10000 + limit / 2) / limit
}

/// The status report for a sampled resident size of `current_mb`
/// megabytes: judged against [`MEMORY_LIMIT_MB`], with the percentage
/// capped at what a `u64` can carry.
pub open spec fn spec_memory_status(current_mb: u64) -> MemoryStatus {
    MemoryStatus {
        current_mb,
        limit_mb: MEMORY_LIMIT_MB,
        usage_percent_hundredths: if spec_percent_hundredths(
            current_mb as nat,
            MEMORY_LIMIT_MB as nat,
        ) > u64::MAX {
            u64::MAX
        } else {
            spec_percent_hundredths(current_mb as nat, MEMORY_LIMIT_MB as nat) as u64
        },
        is_over_limit: current_mb > MEMORY_LIMIT_MB,
    }
}

/// Judges a sampled resident size against the fixed memory limit.
pub fn get_memory_status(current_mb: u64) -> (r: MemoryStatus)
    ensures
        r == spec_memory_status(current_mb),
{
    let scaled: u128 = current_mb as u128 * 10000 + (MEMORY_LIMIT_MB / 2) as u128;
    let hundredths: u128 = scaled / MEMORY_LIMIT_MB as u128;
    let capped: u64 = if hundredths > u64::MAX as u128 {
        u64::MAX
    } else {
        hundredths as u64
    };
    MemoryStatus {
        current_mb,
        limit_mb: MEMORY_LIMIT_MB,
        usage_percent_hundredths: capped,
        is_over_limit: current_mb > MEMORY_LIMIT_MB,
    }
}

/// The report a cleanup request answers with, naming the resident size
/// sampled after the cleanup.
pub open spec fn spec_cleanup_message(current_mb: u64) -> Seq<char> {
    "memory cleanup done, current usage: "@ + crate::text::decimal_chars(current_mb as nat)
        + "MB"@
}

/// Renders the answer to a manual cleanup request, given the resident
/// size sampled after the cleanup.
pub fn trigger_memory_cleanup(current_mb: u64) -> (r: String)
    ensures
        r@ == spec_cleanup_message(current_mb),
{
    let mut m = String::from_str("memory cleanup done, current usage: ");
    crate::text::push_decimal(&mut m, current_mb);
    m.append("MB");
    m
}

/// What the watchdog loop does on one tick.
#[derive(Debug, PartialEq, Eq)]
pub enum TickAction {
    /// Monitoring was stopped; the loop exits.
    Stop,
    /// Emit a status event carrying `status`; additionally emit a
    /// warning event with the same payload when `warn` holds.
    Emit { status: MemoryStatus, warn: bool },
    /// The sample failed; log `detail` and keep looping.
    SampleFailed { detail: String },
}

/// The watchdog's own state: whether the periodic task should keep
/// running.  The caller owns the loop and the timer; each tick it
/// samples memory and asks [`MemoryMonitor::watchdog_tick`] what to do.
pub struct MemoryMonitor {
    pub monitoring: bool,
}

impl MemoryMonitor {
    /// A watchdog that is not running.
    pub fn new() -> (r: Self)
        ensures
            !r.monitoring,
    {
        MemoryMonitor { monitoring: false }
    }

    /// Requests monitoring; answers whether a new loop must be spawned.
    /// Idempotent: a second start while running changes nothing and
    /// asks for no second loop.
    pub fn start_memory_monitoring(&mut self) -> (started: bool)
        ensures
            final(self).monitoring,
            started == !old(self).monitoring,
    {
        let started = !self.monitoring;
        self.monitoring = true;
        started
    }

    /// Stops monitoring.  The loop observes the flag at the top of its
    /// next tick and exits; stopping a watchdog that never ran is safe.
    pub fn stop_memory_monitoring(&mut self)
        ensures
            !final(self).monitoring,
    {
        self.monitoring = false;
    }

    /// Decides one tick of the watchdog loop, given the sample the
    /// caller took (or its failure): exit when stopped; otherwise emit
    /// a status event, plus a warning exactly when the sample exceeds
    /// the limit; a failed sample is logged and the loop kept alive.
    pub fn watchdog_tick(&self, sample: Result<u64, String>) -> (r: TickAction)
        ensures
            !self.monitoring ==> r is Stop,
            self.monitoring && sample is Ok ==> r == (TickAction::Emit {
                status: spec_memory_status(sample->Ok_0),
                warn: sample->Ok_0 > MEMORY_LIMIT_MB,
            }),
            self.monitoring && sample is Err ==> r == (TickAction::SampleFailed {
                detail: sample->Err_0,
            }),
    {
        if !self.monitoring {
            return TickAction::Stop;
        }
        match sample {
            Ok(current_mb) => {
                let status = get_memory_status(current_mb);
                TickAction::Emit { status, warn: status.is_over_limit }
            },
            Err(detail) => TickAction::SampleFailed { detail },
        }
    }
}

/// Reads the resident size, in megabytes, out of the output of
/// `ps -o rss= -p <pid>`: the whole output, after trimming
/// whitespace, must be one decimal numeral giving kilobytes.
pub fn parse_ps_memory(output: &str) -> (r: Result<u64, String>)
    ensures
        match parse_decimal(trimmed(output@)) {
            Some(kb) => if kb <= u64::MAX {
                r == Ok::<u64, String>((kb / 1024) as u64)
            } else {
                r is Err
            },
            None => r is Err,
        },
        r is Err ==> r->Err_0@ == "failed to parse memory usage"@,
{
    let t = crate::text::trim_spaces(output);
    match crate::text::parse_u64(t) {
        Some(kb) => Ok(kb / 1024),
        None => Err(String::from_str("failed to parse memory usage")),
    }
}

/// Reads the resident size, in megabytes, out of the contents of the
/// process status file: the first line beginning `VmRSS:` must carry a
/// decimal kilobyte count as its first token after the field name.
pub fn parse_proc_status_memory(status: &str) -> (r: Result<u64, String>)
    ensures
        match find_prefixed_line_from(status@, "VmRSS:"@, 0) {
            Some(line) => match parse_decimal(
                crate::text::token_from(status@, (line + 6) as nat),
            ) {
                Some(kb) => if kb <= u64::MAX {
                    r == Ok::<u64, String>((kb / 1024) as u64)
                } else {
                    r is Err && r->Err_0@ == "failed to parse memory usage"@
                },
                None => r is Err && r->Err_0@ == "failed to parse memory usage"@,
            },
            None => r is Err && r->Err_0@ == "failed to find VmRSS in process status"@,
        },
{
    proof {
        reveal_strlit("VmRSS:");
    }
    match crate::text::find_prefixed_line(status, "VmRSS:") {
        Some(line) => {
            proof {
                crate::text::lemma_find_prefixed_line_some(
                    status@,
                    "VmRSS:"@,
                    0,
                    line as int,
                );
            }
            let total = status.unicode_len();
            proof {
                assert(line + 6 <= total);
            }
            let tok = crate::text::first_token_from(status, line + 6);
            match crate::text::parse_u64(tok) {
                Some(kb) => Ok(kb / 1024),
                None => Err(String::from_str("failed to parse memory usage")),
            }
        },
        None => Err(String::from_str("failed to find VmRSS in process status")),
    }
}

/// Punctuation the process-table reader discards from a memory field
/// before reading the number: quoting, thousands separators, and the
/// kilobyte marker.
pub open spec fn is_field_junk(c: char) -> bool {
    c == '"' || c == ',' || c == ' ' || c == 'K'
}

/// `s` with all field punctuation removed.
pub open spec fn strip_junk(s: Seq<char>) -> Seq<char>
    decreases s.len(),
{
    if s.len() == 0 {
        Seq::empty()
    } else {
        let rest = strip_junk(s.drop_last());
        if is_field_junk(s.last()) {
            rest
        } else {
            rest.push(s.last())
        }
    }
}

/// Stripping a prefix of `s` yields a prefix of stripping `s`.
proof fn lemma_strip_junk_take(s: Seq<char>, i: int)
    requires
        0 <= i <= s.len(),
    ensures
        strip_junk(s.take(i)).len() <= strip_junk(s).len(),
        strip_junk(s).take(strip_junk(s.take(i)).len() as int) =~= strip_junk(s.take(i)),
    decreases s.len() - i,
{
    if i == s.len() {
        assert(s.take(i) =~= s);
    } else {
        assert(s.take(i + 1).drop_last() =~= s.take(i));
        assert(s.take(i + 1).last() == s[i]);
        lemma_strip_junk_take(s, i + 1);
        let a = strip_junk(s.take(i));
        let b = strip_junk(s.take(i + 1));
        assert(a.len() <= b.len());
        assert(strip_junk(s).take(a.len() as int) =~= strip_junk(s).take(b.len() as int).take(
            a.len() as int,
        ));
        assert(strip_junk(s).take(b.len() as int).take(a.len() as int) =~= b.take(a.len() as int));
        assert(b.take(a.len() as int) =~= a);
    }
}

/// Reads the decimal number left in `s[from .. end]` after dropping
/// field punctuation: the denoted value exactly when something is
/// left, it is all digits, and it fits a `u64`.
fn parse_cleaned_field(s: &str, from: usize, end: usize) -> (r: Option<u64>)
    requires
        from <= end,
        end <= s@.len(),
    ensures
        match r {
            Some(v) => parse_decimal(strip_junk(s@.subrange(from as int, end as int))) == Some(
                v as nat,
            ),
            None => parse_decimal(strip_junk(s@.subrange(from as int, end as int))) is None
                || parse_decimal(strip_junk(s@.subrange(from as int, end as int))).unwrap()
                > u64::MAX,
        },
{
    let ghost whole = s@.subrange(from as int, end as int);
    let mut acc: u64 = 0;
    let mut seen: bool = false;
    let mut i: usize = from;
    proof {
        assert(whole.take(0) =~= Seq::<char>::empty());
    }
    while i < end
        invariant
            from <= i <= end,
            end <= s@.len(),
            whole == s@.subrange(from as int, end as int),
            crate::text::all_digits(strip_junk(whole.take(i - from))),
            acc as nat == crate::text::digits_val(strip_junk(whole.take(i - from))),
            seen == (strip_junk(whole.take(i - from)).len() > 0),
        decreases end - i,
    {
        let c = s.get_char(i);
        let ghost pre = strip_junk(whole.take(i - from));
        proof {
            assert(whole.take(i - from + 1).drop_last() =~= whole.take(i - from));
            assert(whole.take(i - from + 1).last() == whole[i - from] == s@[i as int]);
        }
        if c == '"' || c == ',' || c == ' ' || c == 'K' {
            // punctuation: dropped
        } else if '0' <= c && c <= '9' {
            let d: u64 = (c as u32 - 48) as u64;
            proof {
                assert(strip_junk(whole.take(i - from + 1)) =~= pre.push(c));
                assert(strip_junk(whole.take(i - from + 1)).drop_last() =~= pre);
                assert(d as nat == crate::text::digit_val(c));
            }
            let widened = match acc.checked_mul(10) {
                Some(t) => t,
                None => {
                    proof {
                        lemma_strip_junk_overflow(whole, i - from + 1, acc as nat * 10 + d as nat);
                    }
                    return None;
                },
            };
            acc = match widened.checked_add(d) {
                Some(t) => t,
                None => {
                    proof {
                        lemma_strip_junk_overflow(whole, i - from + 1, acc as nat * 10 + d as nat);
                    }
                    return None;
                },
            };
            seen = true;
        } else {
            proof {
                assert(strip_junk(whole.take(i - from + 1)) =~= pre.push(c));
                lemma_strip_junk_take(whole, i - from + 1);
                let all = strip_junk(whole);
                assert(all.take(pre.len() as int + 1) =~= pre.push(c));
                assert(all.take(pre.len() as int + 1)[pre.len() as int] == all[pre.len() as int]);
                assert(all[pre.len() as int] == c);
                assert(!is_digit_char(all[pre.len() as int]));
            }
            return None;
        }
        i = i + 1;
    }
    proof {
        assert(whole.take(end - from) =~= whole);
    }
    if seen {
        Some(acc)
    } else {
        None
    }
}

/// A stripped prefix whose value already exceeds the bound forces the
/// whole stripped field beyond it too.
proof fn lemma_strip_junk_overflow(s: Seq<char>, i: int, v: nat)
    requires
        0 <= i <= s.len(),
        crate::text::digits_val(strip_junk(s.take(i))) == v,
        v > u64::MAX,
    ensures
        parse_decimal(strip_junk(s)) is None || parse_decimal(strip_junk(s)).unwrap() > u64::MAX,
{
    lemma_strip_junk_take(s, i);
    let p = strip_junk(s.take(i));
    let all = strip_junk(s);
    assert(all.take(p.len() as int) =~= p);
    crate::text::lemma_digits_val_take_le(all, p.len() as int);
}

/// Where the memory field of a `tasklist /fo csv` answer sits: within
/// the second line, the fifth comma-separated field (the text between
/// the fourth comma and the next comma or the end of the line).
pub open spec fn tasklist_field_bounds(s: Seq<char>) -> Option<(nat, nat)> {
    match after_nth_sep(s, '\n', 1, 0, s.len()) {
        None => None,
        Some(ls) => {
            let le = match find_char_in(s, '\n', ls, s.len()) {
                Some(p) => p as nat,
                None => s.len(),
            };
            match after_nth_sep(s, ',', 4, ls, le) {
                None => None,
                Some(fs) => {
                    let fe = match find_char_in(s, ',', fs, le) {
                        Some(p) => p as nat,
                        None => le,
                    };
                    Some((fs, fe))
                },
            }
        },
    }
}

/// Reads the resident size, in megabytes, out of a `tasklist /fo csv`
/// answer: the fifth field of the second line carries the kilobyte
/// count, quoted and with thousands separators, which are stripped
/// before reading the number.
pub fn parse_tasklist_memory(output: &str) -> (r: Result<u64, String>)
    ensures
        match tasklist_field_bounds(output@) {
            Some(b) => match parse_decimal(strip_junk(output@.subrange(b.0 as int, b.1 as int))) {
                Some(kb) => if kb <= u64::MAX {
                    r == Ok::<u64, String>((kb / 1024) as u64)
                } else {
                    r is Err && r->Err_0@ == "failed to parse memory usage"@
                },
                None => r is Err && r->Err_0@ == "failed to parse memory usage"@,
            },
            None => r is Err && r->Err_0@ == "failed to parse tasklist output"@,
        },
{
    let total = output.unicode_len();
    let line_start = match crate::text::find_char_range(output, '\n', 0, total) {
        Some(p) => {
            proof {
                crate::text::lemma_find_char_in_some(output@, '\n', 0, total as nat, p as int);
                assert(after_nth_sep(output@, '\n', 1, 0, total as nat) == after_nth_sep(
                    output@,
                    '\n',
                    0,
                    (p + 1) as nat,
                    total as nat,
                ));
                assert(after_nth_sep(output@, '\n', 0, (p + 1) as nat, total as nat) == Some(
                    (p + 1) as nat,
                ));
            }
            p + 1
        },
        None => {
            return Err(String::from_str("failed to parse tasklist output"));
        },
    };
    let line_end = match crate::text::find_char_range(output, '\n', line_start, total) {
        Some(p) => {
            proof {
                crate::text::lemma_find_char_in_some(
                    output@,
                    '\n',
                    line_start as nat,
                    total as nat,
                    p as int,
                );
            }
            p
        },
        None => total,
    };
    let mut field_start: usize = line_start;
    let mut sep: usize = 0;
    while sep < 4
        invariant
            line_start <= field_start <= line_end <= total,
            total == output@.len(),
            sep <= 4,
            after_nth_sep(output@, '\n', 1, 0, total as nat) == Some(line_start as nat),
            line_end as nat == (match find_char_in(
                output@,
                '\n',
                line_start as nat,
                total as nat,
            ) {
                Some(p) => p as nat,
                None => total as nat,
            }),
            after_nth_sep(output@, ',', 4, line_start as nat, line_end as nat) == after_nth_sep(
                output@,
                ',',
                (4 - sep) as nat,
                field_start as nat,
                line_end as nat,
            ),
        decreases 4 - sep,
    {
        match crate::text::find_char_range(output, ',', field_start, line_end) {
            Some(p) => {
                proof {
                    crate::text::lemma_find_char_in_some(
                        output@,
                        ',',
                        field_start as nat,
                        line_end as nat,
                        p as int,
                    );
                }
                field_start = p + 1;
            },
            None => {
                return Err(String::from_str("failed to parse tasklist output"));
            },
        }
        sep = sep + 1;
    }
    let field_end = match crate::text::find_char_range(output, ',', field_start, line_end) {
        Some(p) => {
            proof {
                crate::text::lemma_find_char_in_some(
                    output@,
                    ',',
                    field_start as nat,
                    line_end as nat,
                    p as int,
                );
            }
            p
        },
        None => line_end,
    };
    match parse_cleaned_field(output, field_start, field_end) {
        Some(kb) => Ok(kb / 1024),
        None => Err(String::from_str("failed to parse memory usage")),
    }
}

} // verus!
