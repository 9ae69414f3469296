//! Rendering a snapshot as a JSON body or as a fixed-width text table.
//!
//! Byte-valued fields are scaled to hundredths of a gibibyte (rounded half
//! up) in both renderings. The unit label is `GB` when total memory strictly
//! exceeds one gibibyte and `MB` otherwise; the numeric value is gibibyte
//! scaled either way. The root view is content negotiated: a `User-Agent`
//! header containing the substring `curl` selects the table, anything else
//! the static HTML page.

use crate::numfmt::clock_rep;
use crate::numfmt::dec_rep;
use crate::numfmt::format_centi;
use crate::numfmt::format_clock;
use crate::numfmt::pad_left;
use crate::numfmt::right_align;
use crate::numfmt::round_div;
use crate::numfmt::two_dec;
use crate::numfmt::u64_dec;
use crate::snapshot::Snapshot;
use vstd::prelude::*;
use vstd::string::StrSliceExecFns;
use vstd::string::StringExecFns;

verus! {

/// One gibibyte, the scale divisor and the unit threshold, in bytes.
pub const GIB_BYTES: u64 = 1073741824;

/// Bytes scaled to hundredths of a gibibyte, rounded half up.
pub open spec fn gib_centi(bytes: nat) -> nat {
    round_div(bytes * 100, 1073741824)
}

/// The unit label byte-valued fields carry: `GB` when total memory strictly
/// exceeds one gibibyte, `MB` otherwise.
pub open spec fn unit_label(total_memory_bytes: nat) -> Seq<char> {
    if total_memory_bytes > 1073741824 {
        "GB"@
    } else {
        "MB"@
    }
}

/// A byte count as `N.NN <unit>`, with the label selected by total memory.
pub open spec fn sized_value(bytes: nat, total_memory_bytes: nat) -> Seq<char> {
    two_dec(gib_centi(bytes)) + " "@ + unit_label(total_memory_bytes)
}

/// Bytes scaled to hundredths of a gibibyte, rounded half up.
pub fn compute_gib_centi(bytes: u64) -> (c: u64)
    ensures
        c as nat == gib_centi(bytes as nat),
{
    let num: u128 = 2 * (bytes as u128) * 100 + 1073741824;
    let den: u128 = 2147483648;
    let c: u128 = num / den;
    proof {
        assert(c * den <= num) by {
            vstd::arithmetic::div_mod::lemma_fundamental_div_mod(num as int, den as int);
        }
        assert(c <= 0xffffffffffffffff) by {
            if c > 0xffffffffffffffff {
                assert(c * den >= 0x10000000000000000 * den) by (nonlinear_arith)
                    requires
                        c >= 0x10000000000000000,
                        den > 0,
                ;
            }
        }
    }
    c as u64
}

/// The unit label byte-valued fields carry.
pub fn memory_unit(total_memory_bytes: u64) -> (s: &'static str)
    ensures
        s@ == unit_label(total_memory_bytes as nat),
{
    if total_memory_bytes > GIB_BYTES {
        "GB"
    } else {
        "MB"
    }
}

/// A byte count as `N.NN <unit>`, with the label selected by total memory.
fn sized_value_string(bytes: u64, total_memory_bytes: u64) -> (s: String)
    ensures
        s@ == sized_value(bytes as nat, total_memory_bytes as nat),
{
    let mut s = format_centi(compute_gib_centi(bytes));
    s.append(" ");
    s.append(memory_unit(total_memory_bytes));
    s
}

/// The JSON body for a snapshot: every scaled or fractional value is a string
/// with two decimal places and its unit or percent suffix; core count and
/// uptime are bare integers; the load averages form a nested object.
pub open spec fn spec_json(s: Snapshot) -> Seq<char> {
    "{\"available_memory\":\""@ + sized_value(
        s.available_memory_bytes as nat,
        s.total_memory_bytes as nat,
    ) + "\",\"total_memory\":\""@ + sized_value(
        s.total_memory_bytes as nat,
        s.total_memory_bytes as nat,
    ) + "\",\"used_memory\":\""@ + sized_value(
        s.used_memory_bytes as nat,
        s.total_memory_bytes as nat,
    ) + "\",\"used_memory_percent\":\""@ + two_dec(s.used_memory_percent_centi as nat)
        + "%\",\"core_count\":"@ + dec_rep(s.core_count as nat) + ",\"cpu_usage\":\""@ + two_dec(
        s.cpu_percent_centi as nat,
    ) + "%\",\"total_swap\":\""@ + sized_value(
        s.total_swap_bytes as nat,
        s.total_memory_bytes as nat,
    ) + "\",\"used_swap\":\""@ + sized_value(
        s.used_swap_bytes as nat,
        s.total_memory_bytes as nat,
    ) + "\",\"used_swap_percent\":\""@ + two_dec(s.used_swap_percent_centi as nat)
        + "%\",\"uptime\":"@ + dec_rep(s.uptime_seconds as nat) + ",\"load_average\":{\"one\":\""@
        + two_dec(s.load_one_centi as nat) + "\",\"five\":\""@ + two_dec(s.load_five_centi as nat)
        + "\",\"fifteen\":\""@ + two_dec(s.load_fifteen_centi as nat) + "\"}}"@
}

/// Renders the snapshot as its JSON body.
pub fn render_json(snap: &Snapshot) -> (body: String)
    ensures
        body@ == spec_json(*snap),
{
    let mut body = String::from_str("{\"available_memory\":\"");
    let available = sized_value_string(snap.available_memory_bytes, snap.total_memory_bytes);
    body.append(available.as_str());
    body.append("\",\"total_memory\":\"");
    let total = sized_value_string(snap.total_memory_bytes, snap.total_memory_bytes);
    body.append(total.as_str());
    body.append("\",\"used_memory\":\"");
    let used = sized_value_string(snap.used_memory_bytes, snap.total_memory_bytes);
    body.append(used.as_str());
    body.append("\",\"used_memory_percent\":\"");
    let memory_percent = format_centi(snap.used_memory_percent_centi);
    body.append(memory_percent.as_str());
    body.append("%\",\"core_count\":");
    let cores = u64_dec(snap.core_count);
    body.append(cores.as_str());
    body.append(",\"cpu_usage\":\"");
    let cpu = format_centi(snap.cpu_percent_centi);
    body.append(cpu.as_str());
    body.append("%\",\"total_swap\":\"");
    let total_swap = sized_value_string(snap.total_swap_bytes, snap.total_memory_bytes);
    body.append(total_swap.as_str());
    body.append("\",\"used_swap\":\"");
    let used_swap = sized_value_string(snap.used_swap_bytes, snap.total_memory_bytes);
    body.append(used_swap.as_str());
    body.append("\",\"used_swap_percent\":\"");
    let swap_percent = format_centi(snap.used_swap_percent_centi);
    body.append(swap_percent.as_str());
    body.append("%\",\"uptime\":");
    let uptime = u64_dec(snap.uptime_seconds);
    body.append(uptime.as_str());
    body.append(",\"load_average\":{\"one\":\"");
    let one = format_centi(snap.load_one_centi);
    body.append(one.as_str());
    body.append("\",\"five\":\"");
    let five = format_centi(snap.load_five_centi);
    body.append(five.as_str());
    body.append("\",\"fifteen\":\"");
    let fifteen = format_centi(snap.load_fifteen_centi);
    body.append(fifteen.as_str());
    body.append("\"}}");
    body
}

/// A table cell: a byte count as `N.NN GB`, right aligned to eight columns.
pub open spec fn gb_cell(bytes: nat) -> Seq<char> {
    right_align(two_dec(gib_centi(bytes)) + " GB"@, 8)
}

/// A table cell: a centi value with two decimal places, right aligned to `w`.
pub open spec fn centi_cell(c: nat, w: nat) -> Seq<char> {
    right_align(two_dec(c), w)
}

/// A table cell: an integer in decimal, right aligned to eight columns.
pub open spec fn count_cell(n: nat) -> Seq<char> {
    right_align(dec_rep(n), 8)
}

/// A table cell: uptime as `HH:MM:SS`, right aligned to eight columns.
pub open spec fn uptime_cell(n: nat) -> Seq<char> {
    right_align(clock_rep(n), 8)
}

/// The fixed-width text table for a snapshot. Byte-valued cells always carry
/// the `GB` label; percentages are two-decimal values with a `%` after the
/// six-column cell; uptime is `HH:MM:SS`.
pub open spec fn spec_table(s: Snapshot) -> Seq<char> {
    "\n+----------------------+-----------+\n|        Data          |   Value   |\n+----------------------+-----------+\n| Available Memory     | "@
        + gb_cell(s.available_memory_bytes as nat) + "  |\n| Total Memory         | "@ + gb_cell(
        s.total_memory_bytes as nat,
    ) + "  |\n| Used Memory          | "@ + gb_cell(s.used_memory_bytes as nat)
        + "  |\n| Used Memory Percent  | "@ + centi_cell(s.used_memory_percent_centi as nat, 6)
        + "%   |\n| Core Count           | "@ + count_cell(s.core_count as nat)
        + "  |\n| CPU Usage            | "@ + centi_cell(s.cpu_percent_centi as nat, 6)
        + "%   |\n| Total Swap           | "@ + gb_cell(s.total_swap_bytes as nat)
        + "  |\n| Used Swap            | "@ + gb_cell(s.used_swap_bytes as nat)
        + "  |\n| Used Swap Percent    | "@ + centi_cell(s.used_swap_percent_centi as nat, 6)
        + "%   |\n| Uptime               | "@ + uptime_cell(s.uptime_seconds as nat)
        + "  |\n| Load Average (1)     | "@ + centi_cell(s.load_one_centi as nat, 8)
        + "  |\n| Load Average (5)     | "@ + centi_cell(s.load_five_centi as nat, 8)
        + "  |\n| Load Average (15)    | "@ + centi_cell(s.load_fifteen_centi as nat, 8)
        + "  |\n+----------------------+-----------+\n"@
}

/// A byte count as `N.NN GB`, right aligned to eight columns.
fn gb_cell_string(bytes: u64) -> (s: String)
    ensures
        s@ == gb_cell(bytes as nat),
{
    let mut v = format_centi(compute_gib_centi(bytes));
    v.append(" GB");
    pad_left(v.as_str(), 8)
}

/// A centi value with two decimal places, right aligned to `w` columns.
fn centi_cell_string(c: u64, w: usize) -> (s: String)
    ensures
        s@ == centi_cell(c as nat, w as nat),
{
    let v = format_centi(c);
    pad_left(v.as_str(), w)
}

/// Renders the snapshot as the fixed-width text table.
pub fn render_table(snap: &Snapshot) -> (body: String)
    ensures
        body@ == spec_table(*snap),
{
    let mut body = String::from_str(
        "\n+----------------------+-----------+\n|        Data          |   Value   |\n+----------------------+-----------+\n| Available Memory     | ",
    );
    let available = gb_cell_string(snap.available_memory_bytes);
    body.append(available.as_str());
    body.append("  |\n| Total Memory         | ");
    let total = gb_cell_string(snap.total_memory_bytes);
    body.append(total.as_str());
    body.append("  |\n| Used Memory          | ");
    let used = gb_cell_string(snap.used_memory_bytes);
    body.append(used.as_str());
    body.append("  |\n| Used Memory Percent  | ");
    let memory_percent = centi_cell_string(snap.used_memory_percent_centi, 6);
    body.append(memory_percent.as_str());
    body.append("%   |\n| Core Count           | ");
    let cores = u64_dec(snap.core_count);
    let cores_cell = pad_left(cores.as_str(), 8);
    body.append(cores_cell.as_str());
    body.append("  |\n| CPU Usage            | ");
    let cpu = centi_cell_string(snap.cpu_percent_centi, 6);
    body.append(cpu.as_str());
    body.append("%   |\n| Total Swap           | ");
    let total_swap = gb_cell_string(snap.total_swap_bytes);
    body.append(total_swap.as_str());
    body.append("  |\n| Used Swap            | ");
    let used_swap = gb_cell_string(snap.used_swap_bytes);
    body.append(used_swap.as_str());
    body.append("  |\n| Used Swap Percent    | ");
    let swap_percent = centi_cell_string(snap.used_swap_percent_centi, 6);
    body.append(swap_percent.as_str());
    body.append("%   |\n| Uptime               | ");
    let uptime = format_clock(snap.uptime_seconds);
    let uptime_aligned = pad_left(uptime.as_str(), 8);
    body.append(uptime_aligned.as_str());
    body.append("  |\n| Load Average (1)     | ");
    let one = centi_cell_string(snap.load_one_centi, 8);
    body.append(one.as_str());
    body.append("  |\n| Load Average (5)     | ");
    let five = centi_cell_string(snap.load_five_centi, 8);
    body.append(five.as_str());
    body.append("  |\n| Load Average (15)    | ");
    let fifteen = centi_cell_string(snap.load_fifteen_centi, 8);
    body.append(fifteen.as_str());
    body.append("  |\n+----------------------+-----------+\n");
    body
}

/// True when `s` contains the substring `curl` (case sensitive).
pub open spec fn mentions_curl(s: Seq<char>) -> bool {
    exists|i: int| 0 <= i && i + 4 <= s.len() && #[trigger] s.subrange(i, i + 4) == "curl"@
}

/// The presentation the root view selects for one request.
#[derive(Clone, Copy, PartialEq, Eq, Structural, Debug)]
pub enum Presentation {
    /// The fixed-width text table, for command-line clients.
    CliTable,
    /// The static HTML page, for everything else.
    HtmlPage,
}

/// True when `ua` contains the substring `curl` (case sensitive).
fn find_curl(ua: &str) -> (b: bool)
    ensures
        b == mentions_curl(ua@),
{
    let n = ua.unicode_len();
    if n < 4 {
        return false;
    }
    let mut i: usize = 0;
    while i <= n - 4
        invariant
            n == ua@.len(),
            4 <= n,
            i <= n - 3,
            forall|j: int| 0 <= j < i ==> #[trigger] ua@.subrange(j, j + 4) != "curl"@,
        decreases n - i,
    {
        let c0 = ua.get_char(i);
        let c1 = ua.get_char(i + 1);
        let c2 = ua.get_char(i + 2);
        let c3 = ua.get_char(i + 3);
        if c0 == 'c' && c1 == 'u' && c2 == 'r' && c3 == 'l' {
            proof {
                reveal_strlit("curl");
                assert(ua@.subrange(i as int, i as int + 4) =~= "curl"@);
            }
            return true;
        }
        proof {
            reveal_strlit("curl");
            assert(ua@.subrange(i as int, i as int + 4) != "curl"@) by {
                if ua@.subrange(i as int, i as int + 4) == "curl"@ {
                    assert(ua@.subrange(i as int, i as int + 4)[0] == c0);
                    assert(ua@.subrange(i as int, i as int + 4)[1] == c1);
                    assert(ua@.subrange(i as int, i as int + 4)[2] == c2);
                    assert(ua@.subrange(i as int, i as int + 4)[3] == c3);
                }
            }
        }
        i = i + 1;
    }
    proof {
        assert(!mentions_curl(ua@)) by {
            if mentions_curl(ua@) {
                let j = choose|j: int|
                    0 <= j && j + 4 <= ua@.len() && #[trigger] ua@.subrange(j, j + 4) == "curl"@;
                assert(j < i);
            }
        }
    }
    false
}

/// Selects the presentation for the root view: a `User-Agent` value that
/// contains `curl` gets the table; any other value, or no header at all, gets
/// the HTML page.
pub fn negotiate(user_agent: Option<&str>) -> (p: Presentation)
    ensures
        match user_agent {
            Some(ua) => p == (if mentions_curl(ua@) {
                Presentation::CliTable
            } else {
                Presentation::HtmlPage
            }),
            None => p == Presentation::HtmlPage,
        },
{
    match user_agent {
        Some(ua) => {
            if find_curl(ua) {
                Presentation::CliTable
            } else {
                Presentation::HtmlPage
            }
        },
        None => Presentation::HtmlPage,
    }
}

/// What the root view answers: either a finished table body with its content
/// type, or the instruction to serve the static page.
pub enum RootBody {
    /// The fixed-width table and its content type.
    Table { body: String, content_type: String },
    /// Serve the static HTML page; its body and content type come from the
    /// static-asset collaborator.
    StaticPage,
}

/// The root view: renders the table with content type `text/plain` for a
/// command-line client, and defers to the static page for every other client,
/// a missing `User-Agent` header included.
pub fn root_response(snap: &Snapshot, user_agent: Option<&str>) -> (r: RootBody)
    ensures
        match user_agent {
            Some(ua) => {
                if mentions_curl(ua@) {
                    (r matches RootBody::Table { body, content_type } && body@ == spec_table(*snap)
                        && content_type@ == "text/plain"@)
                } else {
                    r is StaticPage
                }
            },
            None => r is StaticPage,
        },
{
    match negotiate(user_agent) {
        Presentation::CliTable => RootBody::Table {
            body: render_table(snap),
            content_type: String::from_str("text/plain"),
        },
        Presentation::HtmlPage => RootBody::StaticPage,
    }
}

/// The JSON view: the JSON body and content type `application/json`, whoever
/// the client is.
pub fn api_response(snap: &Snapshot) -> (r: (String, String))
    ensures
        r.0@ == spec_json(*snap),
        r.1@ == "application/json"@,
{
    (render_json(snap), String::from_str("application/json"))
}

} // verus!
