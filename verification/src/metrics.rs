//! Counters and gauges that describe the server's activity, and the two
//! reports made of them: the INFO text and the Prometheus exposition.

use std::time::Duration;
use vstd::prelude::*;

use crate::text::{decimal, push_decimal, push_text};
use crate::time::{duration_as_millis, whole_millis};

verus! {

/// The server's metrics. Counters wrap around at `u64::MAX` + 1.
///
/// The metrics are a plain value changed through `&mut self`, not atomic
/// counters: tasks or threads that share them must hold them behind a lock
/// (such as a `Mutex`) to update them.
#[derive(Clone, Copy, Debug)]
pub struct Metrics {
    /// Count of successful operations
    pub ops_ok: u64,
    /// Count of failed operations
    pub ops_err: u64,
    /// Count of successful GET operations (cache hits)
    pub get_hits: u64,
    /// Count of failed GET operations (cache misses)
    pub get_misses: u64,
    /// Count of PUBLISH operations
    pub pub_count: u64,
    /// Count of SUBSCRIBE operations
    pub sub_count: u64,
    /// Current number of keys in the database
    pub keys: u64,
    /// Current memory usage in bytes (approximate)
    pub mem_bytes: u64,
    /// Count of GC cleanup operations
    pub gc_cleanup_count: u64,
    /// Total number of keys cleaned up by GC
    pub gc_cleanup_total: u64,
    /// Total GC cleanup duration in milliseconds
    pub gc_duration_total: u64,
    /// Count of recorded GC cleanup durations (for the average duration)
    pub gc_duration_count: u64,
}

/// One line of the INFO report.
pub open spec fn info_line(name: Seq<char>, value: nat) -> Seq<char> {
    name + ":"@ + decimal(value) + "\r\n"@
}

/// One metric of the Prometheus report: its help line, its type line and
/// its sample.
pub open spec fn prometheus_block(name: Seq<char>, help: Seq<char>, kind: Seq<char>, value: nat) -> Seq<char> {
    "# HELP "@ + name + " "@ + help + "\n"@ + "# TYPE "@ + name + " "@ + kind + "\n"@ + name + " "@
        + decimal(value) + "\n"@
}

fn push_info_line(s: &mut String, name: &str, value: u64)
    ensures
        final(s)@ == old(s)@ + info_line(name@, value as nat),
{
    push_text(s, name);
    push_text(s, ":");
    push_decimal(s, value as u128);
    push_text(s, "\r\n");
    assert(s@ =~= old(s)@ + info_line(name@, value as nat));
}

fn push_prometheus_block(s: &mut String, name: &str, help: &str, kind: &str, value: u64)
    ensures
        final(s)@ == old(s)@ + prometheus_block(name@, help@, kind@, value as nat),
{
    push_text(s, "# HELP ");
    push_text(s, name);
    push_text(s, " ");
    push_text(s, help);
    push_text(s, "\n");
    push_text(s, "# TYPE ");
    push_text(s, name);
    push_text(s, " ");
    push_text(s, kind);
    push_text(s, "\n");
    push_text(s, name);
    push_text(s, " ");
    push_decimal(s, value as u128);
    push_text(s, "\n");
    assert(s@ =~= old(s)@ + prometheus_block(name@, help@, kind@, value as nat));
}

impl Metrics {
    /// All metrics at zero.
    pub open spec fn initial() -> Metrics {
        Metrics {
            ops_ok: 0,
            ops_err: 0,
            get_hits: 0,
            get_misses: 0,
            pub_count: 0,
            sub_count: 0,
            keys: 0,
            mem_bytes: 0,
            gc_cleanup_count: 0,
            gc_cleanup_total: 0,
            gc_duration_total: 0,
            gc_duration_count: 0,
        }
    }

    /// The average recorded GC duration in whole milliseconds; zero before
    /// any is recorded.
    pub open spec fn gc_duration_avg(self) -> u64 {
        if self.gc_duration_count == 0 {
            0
        } else {
            self.gc_duration_total / self.gc_duration_count
        }
    }

    /// These metrics after one GC duration of `ms` whole milliseconds is
    /// recorded (the milliseconds truncated to 64 bits).
    pub open spec fn with_gc_duration(self, ms: u128) -> Metrics {
        Metrics {
            gc_duration_total: self.gc_duration_total.wrapping_add(ms as u64),
            gc_duration_count: self.gc_duration_count.wrapping_add(1),
            ..self
        }
    }

    /// These metrics after a GC cleanup cycle that cleaned `cleaned` keys in
    /// `ms` whole milliseconds.
    pub open spec fn with_gc_cycle(self, cleaned: u64, ms: u128) -> Metrics {
        Metrics {
            gc_cleanup_count: self.gc_cleanup_count.wrapping_add(1),
            gc_cleanup_total: self.gc_cleanup_total.wrapping_add(cleaned),
            ..self
        }.with_gc_duration(ms)
    }

    /// These metrics after `k` GC durations of `ms` whole milliseconds each
    /// are recorded.
    pub open spec fn with_gc_durations(self, ms: u128, k: nat) -> Metrics
        decreases k,
    {
        if k == 0 {
            self
        } else {
            self.with_gc_durations(ms, (k - 1) as nat).with_gc_duration(ms)
        }
    }

    /// The INFO report of these metrics.
    pub open spec fn info_text(self) -> Seq<char> {
        info_line("ops_ok"@, self.ops_ok as nat)
            + info_line("ops_err"@, self.ops_err as nat)
            + info_line("get_hits"@, self.get_hits as nat)
            + info_line("get_misses"@, self.get_misses as nat)
            + info_line("pub_count"@, self.pub_count as nat)
            + info_line("sub_count"@, self.sub_count as nat)
            + info_line("keys"@, self.keys as nat)
            + info_line("mem_bytes"@, self.mem_bytes as nat)
            + info_line("gc_cleanup_count"@, self.gc_cleanup_count as nat)
            + info_line("gc_cleanup_total"@, self.gc_cleanup_total as nat)
            + info_line("gc_duration_avg_ms"@, self.gc_duration_avg() as nat)
    }

    /// The Prometheus report of these metrics.
    pub open spec fn prometheus_text(self) -> Seq<char> {
        prometheus_block(
            "mini_redis_ops_ok"@,
            "Total successful operations"@,
            "counter"@,
            self.ops_ok as nat,
        )
            + prometheus_block(
            "mini_redis_ops_err"@,
            "Total number of failed operations"@,
            "counter"@,
            self.ops_err as nat,
        )
            + prometheus_block(
            "mini_redis_get_hits"@,
            "Total number of successful GET operations"@,
            "counter"@,
            self.get_hits as nat,
        )
            + prometheus_block(
            "mini_redis_get_misses"@,
            "Total number of failed GET operations"@,
            "counter"@,
            self.get_misses as nat,
        )
            + prometheus_block(
            "mini_redis_pub_count"@,
            "Total number of PUBLISH operations"@,
            "counter"@,
            self.pub_count as nat,
        )
            + prometheus_block(
            "mini_redis_sub_count"@,
            "Total number of SUBSCRIBE operations"@,
            "counter"@,
            self.sub_count as nat,
        )
            + prometheus_block(
            "mini_redis_keys"@,
            "Total number of keys"@,
            "gauge"@,
            self.keys as nat,
        )
            + prometheus_block(
            "mini_redis_mem_bytes"@,
            "Memory usage in bytes"@,
            "gauge"@,
            self.mem_bytes as nat,
        )
            + prometheus_block(
            "mini_redis_gc_cleanup_count"@,
            "Total number of GC cleanup operations"@,
            "counter"@,
            self.gc_cleanup_count as nat,
        )
            + prometheus_block(
            "mini_redis_gc_cleanup_total"@,
            "Total number of keys cleaned up by GC"@,
            "counter"@,
            self.gc_cleanup_total as nat,
        )
            + prometheus_block(
            "mini_redis_gc_duration_avg_ms"@,
            "Average GC cleanup duration in milliseconds"@,
            "gauge"@,
            self.gc_duration_avg() as nat,
        )
    }

    /// All metrics at zero.
    pub fn new() -> (m: Metrics)
        ensures
            m == Metrics::initial(),
    {
        Metrics {
            ops_ok: 0,
            ops_err: 0,
            get_hits: 0,
            get_misses: 0,
            pub_count: 0,
            sub_count: 0,
            keys: 0,
            mem_bytes: 0,
            gc_cleanup_count: 0,
            gc_cleanup_total: 0,
            gc_duration_total: 0,
            gc_duration_count: 0,
        }
    }

    /// Counts a successful operation.
    pub fn inc_ops_ok(&mut self)
        ensures
            *final(self) == (Metrics { ops_ok: old(self).ops_ok.wrapping_add(1), ..*old(self) }),
    {
        self.ops_ok = self.ops_ok.wrapping_add(1);
    }

    /// Counts a failed operation.
    pub fn inc_ops_err(&mut self)
        ensures
            *final(self) == (Metrics { ops_err: old(self).ops_err.wrapping_add(1), ..*old(self) }),
    {
        self.ops_err = self.ops_err.wrapping_add(1);
    }

    /// Counts a GET that found its key.
    pub fn inc_get_hits(&mut self)
        ensures
            *final(self) == (Metrics { get_hits: old(self).get_hits.wrapping_add(1), ..*old(self) }),
    {
        self.get_hits = self.get_hits.wrapping_add(1);
    }

    /// Counts a GET that missed its key.
    pub fn inc_get_misses(&mut self)
        ensures
            *final(self) == (Metrics { get_misses: old(self).get_misses.wrapping_add(1), ..*old(self) }),
    {
        self.get_misses = self.get_misses.wrapping_add(1);
    }

    /// Counts a PUBLISH.
    pub fn inc_pub_count(&mut self)
        ensures
            *final(self) == (Metrics { pub_count: old(self).pub_count.wrapping_add(1), ..*old(self) }),
    {
        self.pub_count = self.pub_count.wrapping_add(1);
    }

    /// Counts a SUBSCRIBE.
    pub fn inc_sub_count(&mut self)
        ensures
            *final(self) == (Metrics { sub_count: old(self).sub_count.wrapping_add(1), ..*old(self) }),
    {
        self.sub_count = self.sub_count.wrapping_add(1);
    }

    /// Counts a GC cleanup run.
    pub fn inc_gc_cleanup_count(&mut self)
        ensures
            *final(self) == (Metrics { gc_cleanup_count: old(self).gc_cleanup_count.wrapping_add(1), ..*old(self) }),
    {
        self.gc_cleanup_count = self.gc_cleanup_count.wrapping_add(1);
    }

    /// Adds `count` keys to the number that GC has cleaned up.
    pub fn add_gc_cleanup_total(&mut self, count: u64)
        ensures
            *final(self) == (Metrics {
                gc_cleanup_total: old(self).gc_cleanup_total.wrapping_add(count),
                ..*old(self)
            }),
    {
        self.gc_cleanup_total = self.gc_cleanup_total.wrapping_add(count);
    }

    /// Records how long a GC cleanup took, in whole milliseconds.
    pub fn record_gc_duration(&mut self, duration: Duration)
        ensures
            *final(self) == old(self).with_gc_duration(whole_millis(duration)),
    {
        let ms = duration_as_millis(&duration);
        self.gc_duration_total = self.gc_duration_total.wrapping_add(ms as u64);
        self.gc_duration_count = self.gc_duration_count.wrapping_add(1);
    }

    /// Records a GC cleanup cycle: one more cleanup run, `cleaned` more keys
    /// cleaned, and its duration in whole milliseconds.
    pub fn record_gc_cycle(&mut self, cleaned: u64, duration: Duration)
        ensures
            *final(self) == old(self).with_gc_cycle(cleaned, whole_millis(duration)),
    {
        self.inc_gc_cleanup_count();
        self.add_gc_cleanup_total(cleaned);
        self.record_gc_duration(duration);
    }

    /// The average recorded GC duration in whole milliseconds; zero before
    /// any is recorded.
    pub fn gc_duration_avg_ms(&self) -> (r: u64)
        ensures
            r == self.gc_duration_avg(),
    {
        if self.gc_duration_count == 0 {
            0
        } else {
            self.gc_duration_total / self.gc_duration_count
        }
    }

    /// Sets the current number of keys.
    pub fn set_keys(&mut self, count: u64)
        ensures
            *final(self) == (Metrics { keys: count, ..*old(self) }),
    {
        self.keys = count;
    }

    /// Sets the current memory usage.
    pub fn set_mem_bytes(&mut self, bytes: u64)
        ensures
            *final(self) == (Metrics { mem_bytes: bytes, ..*old(self) }),
    {
        self.mem_bytes = bytes;
    }

    /// The metrics as the INFO command reports them: one `name:value` line
    /// each, ending in CRLF.
    pub fn info_string(&self) -> (r: String)
        ensures
            r@ == self.info_text(),
    {
        let mut s = String::new();
        push_info_line(&mut s, "ops_ok", self.ops_ok);
        push_info_line(&mut s, "ops_err", self.ops_err);
        push_info_line(&mut s, "get_hits", self.get_hits);
        push_info_line(&mut s, "get_misses", self.get_misses);
        push_info_line(&mut s, "pub_count", self.pub_count);
        push_info_line(&mut s, "sub_count", self.sub_count);
        push_info_line(&mut s, "keys", self.keys);
        push_info_line(&mut s, "mem_bytes", self.mem_bytes);
        push_info_line(&mut s, "gc_cleanup_count", self.gc_cleanup_count);
        push_info_line(&mut s, "gc_cleanup_total", self.gc_cleanup_total);
        push_info_line(&mut s, "gc_duration_avg_ms", self.gc_duration_avg_ms());
        s
    }

    /// The metrics in the Prometheus text exposition format.
    pub fn prometheus_string(&self) -> (r: String)
        ensures
            r@ == self.prometheus_text(),
    {
        let mut s = String::new();
        push_prometheus_block(
            &mut s,
            "mini_redis_ops_ok",
            "Total successful operations",
            "counter",
            self.ops_ok,
        );
        push_prometheus_block(
            &mut s,
            "mini_redis_ops_err",
            "Total number of failed operations",
            "counter",
            self.ops_err,
        );
        push_prometheus_block(
            &mut s,
            "mini_redis_get_hits",
            "Total number of successful GET operations",
            "counter",
            self.get_hits,
        );
        push_prometheus_block(
            &mut s,
            "mini_redis_get_misses",
            "Total number of failed GET operations",
            "counter",
            self.get_misses,
        );
        push_prometheus_block(
            &mut s,
            "mini_redis_pub_count",
            "Total number of PUBLISH operations",
            "counter",
            self.pub_count,
        );
        push_prometheus_block(
            &mut s,
            "mini_redis_sub_count",
            "Total number of SUBSCRIBE operations",
            "counter",
            self.sub_count,
        );
        push_prometheus_block(
            &mut s,
            "mini_redis_keys",
            "Total number of keys",
            "gauge",
            self.keys,
        );
        push_prometheus_block(
            &mut s,
            "mini_redis_mem_bytes",
            "Memory usage in bytes",
            "gauge",
            self.mem_bytes,
        );
        push_prometheus_block(
            &mut s,
            "mini_redis_gc_cleanup_count",
            "Total number of GC cleanup operations",
            "counter",
            self.gc_cleanup_count,
        );
        push_prometheus_block(
            &mut s,
            "mini_redis_gc_cleanup_total",
            "Total number of keys cleaned up by GC",
            "counter",
            self.gc_cleanup_total,
        );
        push_prometheus_block(
            &mut s,
            "mini_redis_gc_duration_avg_ms",
            "Average GC cleanup duration in milliseconds",
            "gauge",
            self.gc_duration_avg_ms(),
        );
        s
    }
}

impl Default for Metrics {
    fn default() -> (m: Metrics)
        ensures
            m == Metrics::initial(),
    {
        Metrics::new()
    }
}

proof fn lemma_uniform_durations(ms: u64, k: nat)
    requires
        k <= u64::MAX,
        k * ms <= u64::MAX,
    ensures
        Metrics::initial().with_gc_durations(ms as u128, k).gc_duration_total == k * ms,
        Metrics::initial().with_gc_durations(ms as u128, k).gc_duration_count == k,
    decreases k,
{
    if k > 0 {
        let j = (k - 1) as nat;
        assert(j * ms + ms == k * ms) by (nonlinear_arith)
            requires
                j == k - 1,
        ;
        assert(j * ms <= k * ms) by (nonlinear_arith)
            requires
                j == k - 1,
        ;
        lemma_uniform_durations(ms, j);
        let prev = Metrics::initial().with_gc_durations(ms as u128, j);
        assert((ms as u128) as u64 == ms);
        assert(prev.gc_duration_total.wrapping_add(ms) == j * ms + ms);
        assert(Metrics::initial().with_gc_durations(ms as u128, k) == prev.with_gc_duration(
            ms as u128,
        ));
    } else {
        assert(k * ms == 0) by (nonlinear_arith)
            requires
                k == 0,
        ;
    }
}

/// Recording `k` GC durations of the same `ms` whole milliseconds on fresh
/// metrics makes the reported average exactly `ms`, as long as the count and
/// the total fit in 64 bits.
pub proof fn law_uniform_average(ms: u64, k: nat)
    requires
        0 < k <= u64::MAX,
        k * ms <= u64::MAX,
    ensures
        Metrics::initial().with_gc_durations(ms as u128, k).gc_duration_avg() == ms,
{
    lemma_uniform_durations(ms, k);
    let m = Metrics::initial().with_gc_durations(ms as u128, k);
    assert((k * ms) / (k as int) == ms) by (nonlinear_arith)
        requires
            k > 0,
    ;
    assert(m.gc_duration_total / m.gc_duration_count == ms);
}

/// The texts `parts`, one after another.
pub open spec fn join(parts: Seq<Seq<char>>) -> Seq<char>
    decreases parts.len(),
{
    if parts.len() == 0 {
        Seq::empty()
    } else {
        join(parts.drop_last()) + parts.last()
    }
}

/// Whether `text` holds `line` as a whole line: `line` is followed by
/// `end`, and starts the text or follows the last character of an `end`.
pub open spec fn has_line(text: Seq<char>, line: Seq<char>, end: Seq<char>) -> bool {
    exists|a: Seq<char>, b: Seq<char>|
        #![trigger a + line + end + b]
        text == a + line + end + b && (a.len() == 0 || a.last() == end.last())
}

proof fn lemma_join_push(parts: Seq<Seq<char>>, x: Seq<char>)
    ensures
        join(parts.push(x)) == join(parts) + x,
{
    assert(parts.push(x).drop_last() =~= parts);
}

proof fn lemma_join_append(a: Seq<Seq<char>>, b: Seq<Seq<char>>)
    ensures
        join(a + b) == join(a) + join(b),
    decreases b.len(),
{
    if b.len() == 0 {
        assert(a + b =~= a);
        assert(join(a) + join(b) =~= join(a));
    } else {
        lemma_join_append(a, b.drop_last());
        assert((a + b).drop_last() =~= a + b.drop_last());
        assert((a + b).last() == b.last());
        assert(join(a) + join(b.drop_last()) + b.last() =~= join(a) + (join(b.drop_last())
            + b.last()));
    }
}

proof fn lemma_join_line(
    parts: Seq<Seq<char>>,
    k: int,
    p: Seq<char>,
    line: Seq<char>,
    end: Seq<char>,
)
    requires
        0 <= k < parts.len(),
        end.len() > 0,
        parts[k] == p + line + end,
        p.len() > 0 ==> p.last() == end.last(),
        p.len() == 0 && k > 0 ==> parts[k - 1].len() > 0 && parts[k - 1].last() == end.last(),
    ensures
        has_line(join(parts), line, end),
{
    let before = parts.take(k);
    let after = parts.skip(k + 1);
    assert(parts =~= before.push(parts[k]) + after);
    lemma_join_append(before.push(parts[k]), after);
    lemma_join_push(before, parts[k]);
    let a = join(before) + p;
    let b = join(after);
    assert(join(parts) =~= a + line + end + b);
    if p.len() == 0 && k > 0 {
        assert(before =~= before.drop_last().push(parts[k - 1]));
        lemma_join_push(before.drop_last(), parts[k - 1]);
        assert(a =~= join(before));
    }
    if k == 0 && p.len() == 0 {
        assert(before =~= Seq::<Seq<char>>::empty());
        assert(a.len() == 0);
    }
}

proof fn lemma_info_parts(m: Metrics) -> (parts: Seq<Seq<char>>)
    ensures
        join(parts) == m.info_text(),
        parts.len() == 11,
        parts[0] == info_line("ops_ok"@, m.ops_ok as nat),
        parts[1] == info_line("ops_err"@, m.ops_err as nat),
        parts[2] == info_line("get_hits"@, m.get_hits as nat),
        parts[3] == info_line("get_misses"@, m.get_misses as nat),
        parts[4] == info_line("pub_count"@, m.pub_count as nat),
        parts[5] == info_line("sub_count"@, m.sub_count as nat),
        parts[6] == info_line("keys"@, m.keys as nat),
        parts[7] == info_line("mem_bytes"@, m.mem_bytes as nat),
        parts[8] == info_line("gc_cleanup_count"@, m.gc_cleanup_count as nat),
        parts[9] == info_line("gc_cleanup_total"@, m.gc_cleanup_total as nat),
        parts[10] == info_line("gc_duration_avg_ms"@, m.gc_duration_avg() as nat),
{
    let p0 = Seq::<Seq<char>>::empty();
    lemma_join_push(p0, info_line("ops_ok"@, m.ops_ok as nat));
    let p1 = p0.push(info_line("ops_ok"@, m.ops_ok as nat));
    lemma_join_push(p1, info_line("ops_err"@, m.ops_err as nat));
    let p2 = p1.push(info_line("ops_err"@, m.ops_err as nat));
    lemma_join_push(p2, info_line("get_hits"@, m.get_hits as nat));
    let p3 = p2.push(info_line("get_hits"@, m.get_hits as nat));
    lemma_join_push(p3, info_line("get_misses"@, m.get_misses as nat));
    let p4 = p3.push(info_line("get_misses"@, m.get_misses as nat));
    lemma_join_push(p4, info_line("pub_count"@, m.pub_count as nat));
    let p5 = p4.push(info_line("pub_count"@, m.pub_count as nat));
    lemma_join_push(p5, info_line("sub_count"@, m.sub_count as nat));
    let p6 = p5.push(info_line("sub_count"@, m.sub_count as nat));
    lemma_join_push(p6, info_line("keys"@, m.keys as nat));
    let p7 = p6.push(info_line("keys"@, m.keys as nat));
    lemma_join_push(p7, info_line("mem_bytes"@, m.mem_bytes as nat));
    let p8 = p7.push(info_line("mem_bytes"@, m.mem_bytes as nat));
    lemma_join_push(p8, info_line("gc_cleanup_count"@, m.gc_cleanup_count as nat));
    let p9 = p8.push(info_line("gc_cleanup_count"@, m.gc_cleanup_count as nat));
    lemma_join_push(p9, info_line("gc_cleanup_total"@, m.gc_cleanup_total as nat));
    let p10 = p9.push(info_line("gc_cleanup_total"@, m.gc_cleanup_total as nat));
    lemma_join_push(p10, info_line("gc_duration_avg_ms"@, m.gc_duration_avg() as nat));
    let p11 = p10.push(info_line("gc_duration_avg_ms"@, m.gc_duration_avg() as nat));
    assert(join(p0) == Seq::<char>::empty());
    assert(join(p1) =~= info_line("ops_ok"@, m.ops_ok as nat));
    p11
}

proof fn lemma_prometheus_parts(m: Metrics) -> (parts: Seq<Seq<char>>)
    ensures
        join(parts) == m.prometheus_text(),
        parts.len() == 11,
        parts[0] == prometheus_block("mini_redis_ops_ok"@, "Total successful operations"@, "counter"@, m.ops_ok as nat),
        parts[1] == prometheus_block("mini_redis_ops_err"@, "Total number of failed operations"@, "counter"@, m.ops_err as nat),
        parts[2] == prometheus_block("mini_redis_get_hits"@, "Total number of successful GET operations"@, "counter"@, m.get_hits as nat),
        parts[3] == prometheus_block("mini_redis_get_misses"@, "Total number of failed GET operations"@, "counter"@, m.get_misses as nat),
        parts[4] == prometheus_block("mini_redis_pub_count"@, "Total number of PUBLISH operations"@, "counter"@, m.pub_count as nat),
        parts[5] == prometheus_block("mini_redis_sub_count"@, "Total number of SUBSCRIBE operations"@, "counter"@, m.sub_count as nat),
        parts[6] == prometheus_block("mini_redis_keys"@, "Total number of keys"@, "gauge"@, m.keys as nat),
        parts[7] == prometheus_block("mini_redis_mem_bytes"@, "Memory usage in bytes"@, "gauge"@, m.mem_bytes as nat),
        parts[8] == prometheus_block("mini_redis_gc_cleanup_count"@, "Total number of GC cleanup operations"@, "counter"@, m.gc_cleanup_count as nat),
        parts[9] == prometheus_block("mini_redis_gc_cleanup_total"@, "Total number of keys cleaned up by GC"@, "counter"@, m.gc_cleanup_total as nat),
        parts[10] == prometheus_block("mini_redis_gc_duration_avg_ms"@, "Average GC cleanup duration in milliseconds"@, "gauge"@, m.gc_duration_avg() as nat),
{
    let p0 = Seq::<Seq<char>>::empty();
    lemma_join_push(p0, prometheus_block("mini_redis_ops_ok"@, "Total successful operations"@, "counter"@, m.ops_ok as nat));
    let p1 = p0.push(prometheus_block("mini_redis_ops_ok"@, "Total successful operations"@, "counter"@, m.ops_ok as nat));
    lemma_join_push(p1, prometheus_block("mini_redis_ops_err"@, "Total number of failed operations"@, "counter"@, m.ops_err as nat));
    let p2 = p1.push(prometheus_block("mini_redis_ops_err"@, "Total number of failed operations"@, "counter"@, m.ops_err as nat));
    lemma_join_push(p2, prometheus_block("mini_redis_get_hits"@, "Total number of successful GET operations"@, "counter"@, m.get_hits as nat));
    let p3 = p2.push(prometheus_block("mini_redis_get_hits"@, "Total number of successful GET operations"@, "counter"@, m.get_hits as nat));
    lemma_join_push(p3, prometheus_block("mini_redis_get_misses"@, "Total number of failed GET operations"@, "counter"@, m.get_misses as nat));
    let p4 = p3.push(prometheus_block("mini_redis_get_misses"@, "Total number of failed GET operations"@, "counter"@, m.get_misses as nat));
    lemma_join_push(p4, prometheus_block("mini_redis_pub_count"@, "Total number of PUBLISH operations"@, "counter"@, m.pub_count as nat));
    let p5 = p4.push(prometheus_block("mini_redis_pub_count"@, "Total number of PUBLISH operations"@, "counter"@, m.pub_count as nat));
    lemma_join_push(p5, prometheus_block("mini_redis_sub_count"@, "Total number of SUBSCRIBE operations"@, "counter"@, m.sub_count as nat));
    let p6 = p5.push(prometheus_block("mini_redis_sub_count"@, "Total number of SUBSCRIBE operations"@, "counter"@, m.sub_count as nat));
    lemma_join_push(p6, prometheus_block("mini_redis_keys"@, "Total number of keys"@, "gauge"@, m.keys as nat));
    let p7 = p6.push(prometheus_block("mini_redis_keys"@, "Total number of keys"@, "gauge"@, m.keys as nat));
    lemma_join_push(p7, prometheus_block("mini_redis_mem_bytes"@, "Memory usage in bytes"@, "gauge"@, m.mem_bytes as nat));
    let p8 = p7.push(prometheus_block("mini_redis_mem_bytes"@, "Memory usage in bytes"@, "gauge"@, m.mem_bytes as nat));
    lemma_join_push(p8, prometheus_block("mini_redis_gc_cleanup_count"@, "Total number of GC cleanup operations"@, "counter"@, m.gc_cleanup_count as nat));
    let p9 = p8.push(prometheus_block("mini_redis_gc_cleanup_count"@, "Total number of GC cleanup operations"@, "counter"@, m.gc_cleanup_count as nat));
    lemma_join_push(p9, prometheus_block("mini_redis_gc_cleanup_total"@, "Total number of keys cleaned up by GC"@, "counter"@, m.gc_cleanup_total as nat));
    let p10 = p9.push(prometheus_block("mini_redis_gc_cleanup_total"@, "Total number of keys cleaned up by GC"@, "counter"@, m.gc_cleanup_total as nat));
    lemma_join_push(p10, prometheus_block("mini_redis_gc_duration_avg_ms"@, "Average GC cleanup duration in milliseconds"@, "gauge"@, m.gc_duration_avg() as nat));
    let p11 = p10.push(prometheus_block("mini_redis_gc_duration_avg_ms"@, "Average GC cleanup duration in milliseconds"@, "gauge"@, m.gc_duration_avg() as nat));
    assert(join(p0) == Seq::<char>::empty());
    assert(join(p1) =~= prometheus_block("mini_redis_ops_ok"@, "Total successful operations"@, "counter"@, m.ops_ok as nat));
    p11
}

/// The INFO report has, for every metric, a whole line `name:value` whose
/// value is that metric's field in decimal (the average GC duration for
/// `gc_duration_avg_ms`).
pub proof fn law_info_report_lines(m: Metrics)
    ensures
        has_line(m.info_text(), "ops_ok"@ + ":"@ + decimal(m.ops_ok as nat), "\r\n"@),
        has_line(m.info_text(), "ops_err"@ + ":"@ + decimal(m.ops_err as nat), "\r\n"@),
        has_line(m.info_text(), "get_hits"@ + ":"@ + decimal(m.get_hits as nat), "\r\n"@),
        has_line(m.info_text(), "get_misses"@ + ":"@ + decimal(m.get_misses as nat), "\r\n"@),
        has_line(m.info_text(), "pub_count"@ + ":"@ + decimal(m.pub_count as nat), "\r\n"@),
        has_line(m.info_text(), "sub_count"@ + ":"@ + decimal(m.sub_count as nat), "\r\n"@),
        has_line(m.info_text(), "keys"@ + ":"@ + decimal(m.keys as nat), "\r\n"@),
        has_line(m.info_text(), "mem_bytes"@ + ":"@ + decimal(m.mem_bytes as nat), "\r\n"@),
        has_line(m.info_text(), "gc_cleanup_count"@ + ":"@ + decimal(m.gc_cleanup_count as nat), "\r\n"@),
        has_line(m.info_text(), "gc_cleanup_total"@ + ":"@ + decimal(m.gc_cleanup_total as nat), "\r\n"@),
        has_line(m.info_text(), "gc_duration_avg_ms"@ + ":"@ + decimal(m.gc_duration_avg() as nat), "\r\n"@),
{
    let parts = lemma_info_parts(m);
    reveal_strlit("\r\n");
    assert(parts[0] =~= Seq::<char>::empty() + ("ops_ok"@ + ":"@ + decimal(m.ops_ok as nat)) + "\r\n"@);
    lemma_join_line(parts, 0, Seq::<char>::empty(), "ops_ok"@ + ":"@ + decimal(m.ops_ok as nat), "\r\n"@);
    assert(parts[1] =~= Seq::<char>::empty() + ("ops_err"@ + ":"@ + decimal(m.ops_err as nat)) + "\r\n"@);
    lemma_join_line(parts, 1, Seq::<char>::empty(), "ops_err"@ + ":"@ + decimal(m.ops_err as nat), "\r\n"@);
    assert(parts[2] =~= Seq::<char>::empty() + ("get_hits"@ + ":"@ + decimal(m.get_hits as nat)) + "\r\n"@);
    lemma_join_line(parts, 2, Seq::<char>::empty(), "get_hits"@ + ":"@ + decimal(m.get_hits as nat), "\r\n"@);
    assert(parts[3] =~= Seq::<char>::empty() + ("get_misses"@ + ":"@ + decimal(m.get_misses as nat)) + "\r\n"@);
    lemma_join_line(parts, 3, Seq::<char>::empty(), "get_misses"@ + ":"@ + decimal(m.get_misses as nat), "\r\n"@);
    assert(parts[4] =~= Seq::<char>::empty() + ("pub_count"@ + ":"@ + decimal(m.pub_count as nat)) + "\r\n"@);
    lemma_join_line(parts, 4, Seq::<char>::empty(), "pub_count"@ + ":"@ + decimal(m.pub_count as nat), "\r\n"@);
    assert(parts[5] =~= Seq::<char>::empty() + ("sub_count"@ + ":"@ + decimal(m.sub_count as nat)) + "\r\n"@);
    lemma_join_line(parts, 5, Seq::<char>::empty(), "sub_count"@ + ":"@ + decimal(m.sub_count as nat), "\r\n"@);
    assert(parts[6] =~= Seq::<char>::empty() + ("keys"@ + ":"@ + decimal(m.keys as nat)) + "\r\n"@);
    lemma_join_line(parts, 6, Seq::<char>::empty(), "keys"@ + ":"@ + decimal(m.keys as nat), "\r\n"@);
    assert(parts[7] =~= Seq::<char>::empty() + ("mem_bytes"@ + ":"@ + decimal(m.mem_bytes as nat)) + "\r\n"@);
    lemma_join_line(parts, 7, Seq::<char>::empty(), "mem_bytes"@ + ":"@ + decimal(m.mem_bytes as nat), "\r\n"@);
    assert(parts[8] =~= Seq::<char>::empty() + ("gc_cleanup_count"@ + ":"@ + decimal(m.gc_cleanup_count as nat)) + "\r\n"@);
    lemma_join_line(parts, 8, Seq::<char>::empty(), "gc_cleanup_count"@ + ":"@ + decimal(m.gc_cleanup_count as nat), "\r\n"@);
    assert(parts[9] =~= Seq::<char>::empty() + ("gc_cleanup_total"@ + ":"@ + decimal(m.gc_cleanup_total as nat)) + "\r\n"@);
    lemma_join_line(parts, 9, Seq::<char>::empty(), "gc_cleanup_total"@ + ":"@ + decimal(m.gc_cleanup_total as nat), "\r\n"@);
    assert(parts[10] =~= Seq::<char>::empty() + ("gc_duration_avg_ms"@ + ":"@ + decimal(m.gc_duration_avg() as nat)) + "\r\n"@);
    lemma_join_line(parts, 10, Seq::<char>::empty(), "gc_duration_avg_ms"@ + ":"@ + decimal(m.gc_duration_avg() as nat), "\r\n"@);
}

/// The help and type lines of a Prometheus block.
pub open spec fn block_head(name: Seq<char>, help: Seq<char>, kind: Seq<char>) -> Seq<char> {
    "# HELP "@ + name + " "@ + help + "\n"@ + "# TYPE "@ + name + " "@ + kind + "\n"@
}

proof fn lemma_block_sample(name: Seq<char>, help: Seq<char>, kind: Seq<char>, value: nat)
    ensures
        prometheus_block(name, help, kind, value) == block_head(name, help, kind) + (name + " "@
            + decimal(value)) + "\n"@,
        block_head(name, help, kind).len() > 0,
        block_head(name, help, kind).last() == "\n"@.last(),
        "\n"@.len() > 0,
{
    reveal_strlit("\n");
    assert(prometheus_block(name, help, kind, value) =~= block_head(name, help, kind) + (name
        + " "@ + decimal(value)) + "\n"@);
}

/// The Prometheus report has, for every metric `mini_redis_name`, a whole
/// sample line `mini_redis_name value` whose value is that metric's field
/// in decimal (the average GC duration for `gc_duration_avg_ms`).
pub proof fn law_prometheus_samples(m: Metrics)
    ensures
        has_line(m.prometheus_text(), "mini_redis_ops_ok"@ + " "@ + decimal(m.ops_ok as nat), "\n"@),
        has_line(m.prometheus_text(), "mini_redis_ops_err"@ + " "@ + decimal(m.ops_err as nat), "\n"@),
        has_line(m.prometheus_text(), "mini_redis_get_hits"@ + " "@ + decimal(m.get_hits as nat), "\n"@),
        has_line(m.prometheus_text(), "mini_redis_get_misses"@ + " "@ + decimal(m.get_misses as nat), "\n"@),
        has_line(m.prometheus_text(), "mini_redis_pub_count"@ + " "@ + decimal(m.pub_count as nat), "\n"@),
        has_line(m.prometheus_text(), "mini_redis_sub_count"@ + " "@ + decimal(m.sub_count as nat), "\n"@),
        has_line(m.prometheus_text(), "mini_redis_keys"@ + " "@ + decimal(m.keys as nat), "\n"@),
        has_line(m.prometheus_text(), "mini_redis_mem_bytes"@ + " "@ + decimal(m.mem_bytes as nat), "\n"@),
        has_line(m.prometheus_text(), "mini_redis_gc_cleanup_count"@ + " "@ + decimal(m.gc_cleanup_count as nat), "\n"@),
        has_line(m.prometheus_text(), "mini_redis_gc_cleanup_total"@ + " "@ + decimal(m.gc_cleanup_total as nat), "\n"@),
        has_line(m.prometheus_text(), "mini_redis_gc_duration_avg_ms"@ + " "@ + decimal(m.gc_duration_avg() as nat), "\n"@),
{
    let parts = lemma_prometheus_parts(m);
    lemma_block_sample("mini_redis_ops_ok"@, "Total successful operations"@, "counter"@, m.ops_ok as nat);
    lemma_join_line(
        parts,
        0,
        block_head("mini_redis_ops_ok"@, "Total successful operations"@, "counter"@),
        "mini_redis_ops_ok"@ + " "@ + decimal(m.ops_ok as nat),
        "\n"@,
    );
    lemma_block_sample("mini_redis_ops_err"@, "Total number of failed operations"@, "counter"@, m.ops_err as nat);
    lemma_join_line(
        parts,
        1,
        block_head("mini_redis_ops_err"@, "Total number of failed operations"@, "counter"@),
        "mini_redis_ops_err"@ + " "@ + decimal(m.ops_err as nat),
        "\n"@,
    );
    lemma_block_sample("mini_redis_get_hits"@, "Total number of successful GET operations"@, "counter"@, m.get_hits as nat);
    lemma_join_line(
        parts,
        2,
        block_head("mini_redis_get_hits"@, "Total number of successful GET operations"@, "counter"@),
        "mini_redis_get_hits"@ + " "@ + decimal(m.get_hits as nat),
        "\n"@,
    );
    lemma_block_sample("mini_redis_get_misses"@, "Total number of failed GET operations"@, "counter"@, m.get_misses as nat);
    lemma_join_line(
        parts,
        3,
        block_head("mini_redis_get_misses"@, "Total number of failed GET operations"@, "counter"@),
        "mini_redis_get_misses"@ + " "@ + decimal(m.get_misses as nat),
        "\n"@,
    );
    lemma_block_sample("mini_redis_pub_count"@, "Total number of PUBLISH operations"@, "counter"@, m.pub_count as nat);
    lemma_join_line(
        parts,
        4,
        block_head("mini_redis_pub_count"@, "Total number of PUBLISH operations"@, "counter"@),
        "mini_redis_pub_count"@ + " "@ + decimal(m.pub_count as nat),
        "\n"@,
    );
    lemma_block_sample("mini_redis_sub_count"@, "Total number of SUBSCRIBE operations"@, "counter"@, m.sub_count as nat);
    lemma_join_line(
        parts,
        5,
        block_head("mini_redis_sub_count"@, "Total number of SUBSCRIBE operations"@, "counter"@),
        "mini_redis_sub_count"@ + " "@ + decimal(m.sub_count as nat),
        "\n"@,
    );
    lemma_block_sample("mini_redis_keys"@, "Total number of keys"@, "gauge"@, m.keys as nat);
    lemma_join_line(
        parts,
        6,
        block_head("mini_redis_keys"@, "Total number of keys"@, "gauge"@),
        "mini_redis_keys"@ + " "@ + decimal(m.keys as nat),
        "\n"@,
    );
    lemma_block_sample("mini_redis_mem_bytes"@, "Memory usage in bytes"@, "gauge"@, m.mem_bytes as nat);
    lemma_join_line(
        parts,
        7,
        block_head("mini_redis_mem_bytes"@, "Memory usage in bytes"@, "gauge"@),
        "mini_redis_mem_bytes"@ + " "@ + decimal(m.mem_bytes as nat),
        "\n"@,
    );
    lemma_block_sample("mini_redis_gc_cleanup_count"@, "Total number of GC cleanup operations"@, "counter"@, m.gc_cleanup_count as nat);
    lemma_join_line(
        parts,
        8,
        block_head("mini_redis_gc_cleanup_count"@, "Total number of GC cleanup operations"@, "counter"@),
        "mini_redis_gc_cleanup_count"@ + " "@ + decimal(m.gc_cleanup_count as nat),
        "\n"@,
    );
    lemma_block_sample("mini_redis_gc_cleanup_total"@, "Total number of keys cleaned up by GC"@, "counter"@, m.gc_cleanup_total as nat);
    lemma_join_line(
        parts,
        9,
        block_head("mini_redis_gc_cleanup_total"@, "Total number of keys cleaned up by GC"@, "counter"@),
        "mini_redis_gc_cleanup_total"@ + " "@ + decimal(m.gc_cleanup_total as nat),
        "\n"@,
    );
    lemma_block_sample("mini_redis_gc_duration_avg_ms"@, "Average GC cleanup duration in milliseconds"@, "gauge"@, m.gc_duration_avg() as nat);
    lemma_join_line(
        parts,
        10,
        block_head("mini_redis_gc_duration_avg_ms"@, "Average GC cleanup duration in milliseconds"@, "gauge"@),
        "mini_redis_gc_duration_avg_ms"@ + " "@ + decimal(m.gc_duration_avg() as nat),
        "\n"@,
    );
}

} // verus!
