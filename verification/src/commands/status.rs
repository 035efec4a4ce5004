//! `ptd status`: the report on the registered instances.

use vstd::prelude::*;
use vstd::string::*;
use vstd::utf8::*;

use crate::protocol::InstanceRegistry;
use crate::text::{decimal, push_decimal};

verus! {

broadcast use vstd::utf8::encode_utf8_decode_utf8;

/// Whether the first 8 bytes of the id can be cut off as text.
pub open spec fn short_id_ok(id: Seq<char>) -> bool {
    encode_utf8(id).len() >= 8 && is_char_boundary(encode_utf8(id), 8)
}

/// The text of the first 8 bytes of the id.
pub open spec fn short_id(id: Seq<char>) -> Seq<char> {
    decode_utf8(encode_utf8(id).subrange(0, 8))
}

/// The report line of one instance.
pub open spec fn status_line(e: InstanceRegistry, healthy: bool) -> Seq<char> {
    "  "@ + short_id(e.instance_id@) + " ["@ + (if healthy {
        "healthy"@
    } else {
        "stale"@
    }) + "] browser="@ + e.browser@ + " ext="@ + e.extension_id@ + " since="@ + e.connected_at@
}

/// How many health checks succeeded.
pub open spec fn count_healthy(health: Seq<bool>) -> nat
    decreases health.len(),
{
    if health.len() == 0 {
        0
    } else {
        count_healthy(health.drop_last()) + if health.last() {
            1nat
        } else {
            0nat
        }
    }
}

/// The closing line of the report.
pub open spec fn summary_line(total: nat, healthy: nat) -> Seq<char> {
    decimal(total) + " instance(s), "@ + decimal(healthy) + " healthy"@
}

/// First line printed when no instance is registered.
pub open spec fn no_instances_line() -> Seq<char> {
    "No PT-Depiler instances found."@
}

/// Second line printed when no instance is registered.
pub open spec fn no_instances_hint() -> Seq<char> {
    "Make sure the browser is open with the PT-Depiler extension and native host installed."@
}

/// One report line for an instance.
fn instance_line(e: &InstanceRegistry, healthy: bool) -> (line: String)
    requires
        short_id_ok(e.instance_id@),
    ensures
        line@ == status_line(*e, healthy),
{
    let id = e.instance_id.as_str();
    let (head, _) = id.split_at(8);
    proof {
        assert(head@ == decode_utf8(encode_utf8(head@)));
        assert(head@ == short_id(e.instance_id@));
    }
    let mut line = String::from_str("  ");
    line.append(head);
    line.append(" [");
    if healthy {
        line.append("healthy");
    } else {
        line.append("stale");
    }
    line.append("] browser=");
    line.append(e.browser.as_str());
    line.append(" ext=");
    line.append(e.extension_id.as_str());
    line.append(" since=");
    line.append(e.connected_at.as_str());
    line
}

/// The lines of the status report for `entries`, given the health of each:
/// a line per instance, an empty line and a count, or a hint when there is
/// no instance.
pub fn status_report(entries: &Vec<InstanceRegistry>, health: &Vec<bool>) -> (lines: Vec<String>)
    requires
        entries.len() == health.len(),
        forall|i: int| 0 <= i < entries.len() ==> short_id_ok((#[trigger] entries@[i]).instance_id@),
    ensures
        entries.len() == 0 ==> lines.len() == 2 && lines@[0]@ == no_instances_line()
            && lines@[1]@ == no_instances_hint(),
        entries.len() > 0 ==> {
            &&& lines.len() == entries.len() + 2
            &&& forall|i: int|
                0 <= i < entries.len() ==> (#[trigger] lines@[i])@ == status_line(entries@[i], health@[i])
            &&& lines@[entries.len() as int]@ == Seq::<char>::empty()
            &&& lines@[entries.len() + 1]@ == summary_line(entries.len() as nat, count_healthy(health@))
        },
{
    let mut lines: Vec<String> = Vec::new();
    if entries.len() == 0 {
        lines.push(String::from_str("No PT-Depiler instances found."));
        lines.push(
            String::from_str(
                "Make sure the browser is open with the PT-Depiler extension and native host installed.",
            ),
        );
        return lines;
    }
    let mut healthy_count: usize = 0;
    let mut i: usize = 0;
    while i < entries.len()
        invariant
            entries.len() == health.len(),
            i <= entries.len(),
            forall|j: int| 0 <= j < entries.len() ==> short_id_ok((#[trigger] entries@[j]).instance_id@),
            lines.len() == i,
            forall|j: int| 0 <= j < i ==> (#[trigger] lines@[j])@ == status_line(entries@[j], health@[j]),
            healthy_count == count_healthy(health@.take(i as int)),
            healthy_count <= i,
        decreases entries.len() - i,
    {
        proof {
            assert(health@.take(i as int + 1).drop_last() =~= health@.take(i as int));
        }
        lines.push(instance_line(&entries[i], health[i]));
        if health[i] {
            healthy_count = healthy_count + 1;
        }
        i = i + 1;
    }
    proof {
        assert(health@.take(entries.len() as int) =~= health@);
    }
    lines.push(String::new());
    let mut summary = String::new();
    push_decimal(&mut summary, entries.len());
    summary.append(" instance(s), ");
    push_decimal(&mut summary, healthy_count);
    summary.append(" healthy");
    lines.push(summary);
    lines
}

} // verus!
