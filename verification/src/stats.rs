//! Usage snapshots assembled from raw readings.
//!
//! A snapshot is built from plain integer readings: CPU load in hundredths of
//! a percent, and used/total byte counts for memory and disk. Building a
//! snapshot does no sampling itself; the caller supplies the readings and
//! gets back strings whose exact content is pinned by the contracts.

use vstd::prelude::*;
use vstd::string::StringExecFns;
use crate::render::{
    format_bytes, format_percentage, spec_digit_str, spec_digits, spec_format_bytes,
    spec_format_percentage, spec_hundredths, spec_round_half_even, spec_scaled_hundredths, GB, KB,
    MB, TB,
};

verus! {

/// The usage ratio `used / total` in hundredths of a percent, rounded
/// half-to-even; by convention `0` when `total` is zero, so that an empty
/// resource (no disks mounted, say) reads as `0.00%` rather than as an
/// undefined ratio.
pub open spec fn spec_percent_hundredths(used: nat, total: nat) -> nat {
    if total == 0 {
        0
    } else {
        spec_round_half_even(used * 10000, total)
    }
}

/// A usage ratio never exceeds one hundred percent: with `used <= total`,
/// the rounded hundredths stay within `[0, 10000]`, so the rendered
/// percentage lies in `[0.00%, 100.00%]`.
pub proof fn lemma_percentage_in_range(used: nat, total: nat)
    requires
        used <= total,
    ensures
        spec_percent_hundredths(used, total) <= 10000,
{
    if total > 0 {
        let num = used * 10000;
        let q = num / total;
        let r = num % total;
        vstd::arithmetic::mul::lemma_mul_inequality(used as int, total as int, 10000);
        vstd::arithmetic::div_mod::lemma_div_is_ordered(
            num as int,
            (total * 10000) as int,
            total as int,
        );
        vstd::arithmetic::div_mod::lemma_div_multiples_vanish(10000, total as int);
        assert(q <= 10000);
        vstd::arithmetic::div_mod::lemma_fundamental_div_mod(num as int, total as int);
        vstd::arithmetic::div_mod::lemma_mod_bound(num as int, total as int);
        if q == 10000 {
            assert(total * q == total * 10000) by (nonlinear_arith)
                requires
                    q == 10000,
            ;
            assert(r == 0);
        }
    }
}

/// Computes the usage ratio `used / total` in hundredths of a percent,
/// rounded half-to-even, with zero standing in when `total` is zero.
pub fn percent_hundredths(used: u64, total: u64) -> (h: u64)
    requires
        used <= total,
    ensures
        h == spec_percent_hundredths(used as nat, total as nat),
        h <= 10000,
{
    if total == 0 {
        0
    } else {
        let num: u128 = (used as u128) * 10000;
        let q: u128 = crate::render::div_round_half_even(num, total as u128);
        proof {
            lemma_percentage_in_range(used as nat, total as nat);
        }
        q as u64
    }
}

/// A formatted snapshot of one resource dimension.
pub struct UsageInfo {
    /// The consumed amount, rendered by `format_bytes`.
    pub used: String,
    /// The capacity, rendered by `format_bytes`.
    pub total: String,
    /// The ratio of the two, rendered by `format_percentage`.
    pub percentage: String,
}

/// `u` is the exact rendering of the readings `used` and `total` (in bytes).
pub open spec fn usage_matches(u: UsageInfo, used: nat, total: nat) -> bool {
    &&& u.used@ == spec_format_bytes(used)
    &&& u.total@ == spec_format_bytes(total)
    &&& u.percentage@ == spec_format_percentage(spec_percent_hundredths(used, total))
}

/// Builds the formatted snapshot of one resource from its raw readings.
pub fn usage_info(used: u64, total: u64) -> (r: UsageInfo)
    requires
        used <= total,
    ensures
        usage_matches(r, used as nat, total as nat),
{
    UsageInfo {
        used: format_bytes(used),
        total: format_bytes(total),
        percentage: format_percentage(percent_hundredths(used, total)),
    }
}

/// The full stats report: CPU load plus memory and disk snapshots.
pub struct ServerStats {
    /// CPU load, rendered by `format_percentage`.
    pub cpu_usage: String,
    /// Physical memory snapshot.
    pub ram: UsageInfo,
    /// Aggregate disk snapshot.
    pub storage: UsageInfo,
}

/// `s` is the exact rendering of the five raw readings: CPU load in
/// hundredths of a percent, and used/total bytes for memory and disk.
pub open spec fn stats_matches(
    s: ServerStats,
    cpu_hundredths: nat,
    ram_used: nat,
    ram_total: nat,
    disk_used: nat,
    disk_total: nat,
) -> bool {
    &&& s.cpu_usage@ == spec_format_percentage(cpu_hundredths)
    &&& usage_matches(s.ram, ram_used, ram_total)
    &&& usage_matches(s.storage, disk_used, disk_total)
}

/// Builds the full stats report from one set of raw readings.
pub fn server_stats(
    cpu_hundredths: u64,
    ram_used: u64,
    ram_total: u64,
    disk_used: u64,
    disk_total: u64,
) -> (r: ServerStats)
    requires
        ram_used <= ram_total,
        disk_used <= disk_total,
    ensures
        stats_matches(
            r,
            cpu_hundredths as nat,
            ram_used as nat,
            ram_total as nat,
            disk_used as nat,
            disk_total as nat,
        ),
{
    ServerStats {
        cpu_usage: format_percentage(cpu_hundredths),
        ram: usage_info(ram_used, ram_total),
        storage: usage_info(disk_used, disk_total),
    }
}

/// Sampling is deterministic in the readings: two reports built from the
/// same raw readings render character-for-character identically, down to
/// their JSON serializations.
pub proof fn lemma_stats_deterministic(
    a: ServerStats,
    b: ServerStats,
    cpu_hundredths: nat,
    ram_used: nat,
    ram_total: nat,
    disk_used: nat,
    disk_total: nat,
)
    requires
        stats_matches(a, cpu_hundredths, ram_used, ram_total, disk_used, disk_total),
        stats_matches(b, cpu_hundredths, ram_used, ram_total, disk_used, disk_total),
    ensures
        a.cpu_usage@ == b.cpu_usage@,
        a.ram.used@ == b.ram.used@,
        a.ram.total@ == b.ram.total@,
        a.ram.percentage@ == b.ram.percentage@,
        a.storage.used@ == b.storage.used@,
        a.storage.total@ == b.storage.total@,
        a.storage.percentage@ == b.storage.percentage@,
        spec_stats_json(a) == spec_stats_json(b),
{
}

/// `c` may stand unescaped inside a JSON string: it is no quotation mark, no
/// backslash, and no control character.
pub open spec fn json_safe_char(c: char) -> bool {
    c != '"' && c != '\\' && c as u32 >= 32
}

/// Every character of `s` may stand unescaped inside a JSON string.
pub open spec fn json_safe_text(s: Seq<char>) -> bool {
    forall|i: int| 0 <= i < s.len() ==> json_safe_char(#[trigger] s[i])
}

proof fn lemma_json_safe_concat(a: Seq<char>, b: Seq<char>)
    requires
        json_safe_text(a),
        json_safe_text(b),
    ensures
        json_safe_text(a + b),
{
    assert forall|i: int| 0 <= i < (a + b).len() implies json_safe_char(#[trigger] (a + b)[i]) by {
        if i < a.len() {
            assert((a + b)[i] == a[i]);
        } else {
            assert((a + b)[i] == b[i - a.len()]);
        }
    }
}

proof fn lemma_digit_str_safe(d: nat)
    requires
        d < 10,
    ensures
        json_safe_text(spec_digit_str(d)),
{
    reveal_strlit("0");
    reveal_strlit("1");
    reveal_strlit("2");
    reveal_strlit("3");
    reveal_strlit("4");
    reveal_strlit("5");
    reveal_strlit("6");
    reveal_strlit("7");
    reveal_strlit("8");
    reveal_strlit("9");
}

proof fn lemma_digits_safe(n: nat)
    ensures
        json_safe_text(spec_digits(n)),
    decreases n,
{
    if n < 10 {
        lemma_digit_str_safe(n);
    } else {
        lemma_digits_safe(n / 10);
        lemma_digit_str_safe(n % 10);
        lemma_json_safe_concat(spec_digits(n / 10), spec_digit_str(n % 10));
    }
}

proof fn lemma_hundredths_safe(h: nat)
    ensures
        json_safe_text(spec_hundredths(h)),
{
    reveal_strlit(".");
    lemma_digits_safe(h / 100);
    lemma_digit_str_safe((h % 100) / 10);
    lemma_digit_str_safe(h % 10);
    lemma_json_safe_concat(spec_digits(h / 100), "."@);
    lemma_json_safe_concat(spec_digits(h / 100) + "."@, spec_digit_str((h % 100) / 10));
    lemma_json_safe_concat(
        spec_digits(h / 100) + "."@ + spec_digit_str((h % 100) / 10),
        spec_digit_str(h % 10),
    );
}

/// A rendered byte count never holds a character that JSON strings must
/// escape: only digits, a dot, a space and unit letters.
pub proof fn lemma_format_bytes_safe(b: nat)
    ensures
        json_safe_text(spec_format_bytes(b)),
{
    reveal_strlit(" TB");
    reveal_strlit(" GB");
    reveal_strlit(" MB");
    reveal_strlit(" KB");
    reveal_strlit(" B");
    if b >= TB {
        lemma_hundredths_safe(spec_scaled_hundredths(b, TB as nat));
        lemma_json_safe_concat(spec_hundredths(spec_scaled_hundredths(b, TB as nat)), " TB"@);
    } else if b >= GB {
        lemma_hundredths_safe(spec_scaled_hundredths(b, GB as nat));
        lemma_json_safe_concat(spec_hundredths(spec_scaled_hundredths(b, GB as nat)), " GB"@);
    } else if b >= MB {
        lemma_hundredths_safe(spec_scaled_hundredths(b, MB as nat));
        lemma_json_safe_concat(spec_hundredths(spec_scaled_hundredths(b, MB as nat)), " MB"@);
    } else if b >= KB {
        lemma_hundredths_safe(spec_scaled_hundredths(b, KB as nat));
        lemma_json_safe_concat(spec_hundredths(spec_scaled_hundredths(b, KB as nat)), " KB"@);
    } else {
        lemma_digits_safe(b);
        lemma_json_safe_concat(spec_digits(b), " B"@);
    }
}

/// A rendered percentage never holds a character that JSON strings must
/// escape: only digits, a dot and the percent sign.
pub proof fn lemma_format_percentage_safe(h: nat)
    ensures
        json_safe_text(spec_format_percentage(h)),
{
    reveal_strlit("%");
    lemma_hundredths_safe(h);
    lemma_json_safe_concat(spec_hundredths(h), "%"@);
}

/// Every string of a report built from raw readings consists of characters
/// that stand unescaped inside a JSON string — no quotation mark, no
/// backslash, no control character — so the JSON rendering of the report
/// embeds the fields verbatim and parses back to exactly the documented
/// keys and values.
pub proof fn lemma_report_fields_need_no_escaping(
    s: ServerStats,
    cpu_hundredths: nat,
    ram_used: nat,
    ram_total: nat,
    disk_used: nat,
    disk_total: nat,
)
    requires
        stats_matches(s, cpu_hundredths, ram_used, ram_total, disk_used, disk_total),
    ensures
        json_safe_text(s.cpu_usage@),
        json_safe_text(s.ram.used@),
        json_safe_text(s.ram.total@),
        json_safe_text(s.ram.percentage@),
        json_safe_text(s.storage.used@),
        json_safe_text(s.storage.total@),
        json_safe_text(s.storage.percentage@),
{
    lemma_format_percentage_safe(cpu_hundredths);
    lemma_format_bytes_safe(ram_used);
    lemma_format_bytes_safe(ram_total);
    lemma_format_percentage_safe(spec_percent_hundredths(ram_used, ram_total));
    lemma_format_bytes_safe(disk_used);
    lemma_format_bytes_safe(disk_total);
    lemma_format_percentage_safe(spec_percent_hundredths(disk_used, disk_total));
}

/// The JSON object of one resource snapshot: the keys `used`, `total`,
/// `percentage`, each with its string value, in that order, no whitespace.
pub open spec fn spec_usage_json(u: UsageInfo) -> Seq<char> {
    "{\"used\":\""@ + u.used@ + "\",\"total\":\""@ + u.total@ + "\",\"percentage\":\""@
        + u.percentage@ + "\"}"@
}

/// The JSON object of a full report: the keys `cpu_usage`, `ram`, `storage`,
/// in that order, `ram` and `storage` nested per `spec_usage_json`.
pub open spec fn spec_stats_json(s: ServerStats) -> Seq<char> {
    "{\"cpu_usage\":\""@ + s.cpu_usage@ + "\",\"ram\":"@ + spec_usage_json(s.ram) + ",\"storage\":"@
        + spec_usage_json(s.storage) + "}"@
}

impl UsageInfo {
    /// Renders the snapshot as its JSON object.
    pub fn to_json(&self) -> (r: String)
        ensures
            r@ == spec_usage_json(*self),
    {
        let mut s = "{\"used\":\"".to_owned();
        s.append(self.used.as_str());
        s.append("\",\"total\":\"");
        s.append(self.total.as_str());
        s.append("\",\"percentage\":\"");
        s.append(self.percentage.as_str());
        s.append("\"}");
        s
    }
}

impl ServerStats {
    /// Renders the report as its JSON object — the body of a stats response.
    pub fn to_json(&self) -> (r: String)
        ensures
            r@ == spec_stats_json(*self),
    {
        let mut s = "{\"cpu_usage\":\"".to_owned();
        s.append(self.cpu_usage.as_str());
        s.append("\",\"ram\":");
        let ram = self.ram.to_json();
        s.append(ram.as_str());
        s.append(",\"storage\":");
        let storage = self.storage.to_json();
        s.append(storage.as_str());
        s.append("}");
        s
    }
}

} // verus!
