//! The registry of running instances kept by the native hosts.

use vstd::prelude::*;

use crate::protocol::{HelloMessage, InstanceRegistry};

verus! {

/// RFC 3339 text of a UTC time as `DateTime::to_rfc3339` writes it: at
/// least `YYYY-MM-DDTHH:MM:SS` and the offset `+00:00` at the end.
pub open spec fn is_rfc3339_utc_text(s: Seq<char>) -> bool {
    &&& s.len() >= 25
    &&& s.subrange(s.len() - 6, s.len() as int) == seq!['+', '0', '0', ':', '0', '0']
}

/// Calls `chrono::Utc::now` and formats it with `DateTime::to_rfc3339`,
/// which for the UTC offset always ends in `+00:00` after a date and time of
/// at least 19 characters. Which time it is depends on the clock and is not
/// claimed.
#[verifier::external_body]
fn now_rfc3339() -> (now: String)
    ensures
        is_rfc3339_utc_text(now@),
{
    chrono::Utc::now().to_rfc3339()
}

/// Why an instance could not be published.
#[derive(Debug)]
pub enum PublishError {
    /// A live host already answers on this instance's endpoint.
    AlreadyRunning { instance_id: String },
}

/// The registry entry that a host publishes for the extension that greeted
/// it, unless a live host already owns the endpoint. Both timestamps are the
/// time of publication.
pub fn registry_entry(hello: &HelloMessage, ipc_name: String, endpoint_alive: bool) -> (r: Result<
    InstanceRegistry,
    PublishError,
>)
    ensures
        endpoint_alive ==> (r matches Err(PublishError::AlreadyRunning { instance_id })
            && instance_id == hello.instance_id),
        !endpoint_alive ==> (r matches Ok(e) && {
            &&& e.instance_id == hello.instance_id
            &&& e.browser == hello.browser
            &&& e.extension_id == hello.extension_id
            &&& e.version == hello.version
            &&& e.socket_path == ipc_name
            &&& e.connected_at == e.last_seen_at
            &&& is_rfc3339_utc_text(e.connected_at@)
        }),
{
    if endpoint_alive {
        return Err(PublishError::AlreadyRunning { instance_id: hello.instance_id.clone() });
    }
    let now = now_rfc3339();
    Ok(InstanceRegistry {
        instance_id: hello.instance_id.clone(),
        browser: hello.browser.clone(),
        extension_id: hello.extension_id.clone(),
        version: hello.version.clone(),
        socket_path: ipc_name,
        connected_at: now.clone(),
        last_seen_at: now,
    })
}

/// The ids of the entries whose health check failed, in order.
pub open spec fn stale_ids(entries: Seq<InstanceRegistry>, health: Seq<bool>) -> Seq<String>
    decreases entries.len(),
{
    if entries.len() == 0 {
        Seq::empty()
    } else {
        let rest = stale_ids(entries.drop_last(), health.take(entries.len() - 1));
        if health[entries.len() - 1] {
            rest
        } else {
            rest.push(entries.last().instance_id)
        }
    }
}

/// An entry is pruned exactly when its health check failed, at every
/// position and in order: pairing each entry with its health, keeping the
/// pairs whose check failed and taking their ids gives the stale ids; so
/// there are as many as failed checks.
pub proof fn law_pruned_are_the_failed_ones(entries: Seq<InstanceRegistry>, health: Seq<bool>)
    requires
        entries.len() == health.len(),
    ensures
        stale_ids(entries, health) == entries.zip_with(health).filter(|p: (InstanceRegistry, bool)| !p.1).map_values(
            |p: (InstanceRegistry, bool)| p.0.instance_id,
        ),
        stale_ids(entries, health).len() == health.filter(|b: bool| !b).len(),
    decreases entries.len(),
{
    let dead = |p: (InstanceRegistry, bool)| !p.1;
    let id_of = |p: (InstanceRegistry, bool)| p.0.instance_id;
    reveal(Seq::filter);
    if entries.len() == 0 {
        assert(entries.zip_with(health) =~= Seq::<(InstanceRegistry, bool)>::empty());
        assert(health =~= Seq::<bool>::empty());
        assert(entries.zip_with(health).filter(dead).map_values(id_of) =~= Seq::<String>::empty());
    } else {
        let n = entries.len() - 1;
        let e2 = entries.drop_last();
        let h2 = health.take(n);
        law_pruned_are_the_failed_ones(e2, h2);
        let z = entries.zip_with(health);
        assert(z.drop_last() =~= e2.zip_with(h2));
        assert(z.last() == (entries.last(), health[n]));
        assert(health.drop_last() =~= h2);
        assert(health.last() == health[n]);
        let f2 = e2.zip_with(h2).filter(dead);
        if !health[n] {
            assert(z.filter(dead) == f2.push(z.last()));
            assert(f2.push(z.last()).map_values(id_of) =~= f2.map_values(id_of).push(entries.last().instance_id));
        } else {
            assert(z.filter(dead) == f2);
        }
    }
}

/// The instances to remove from the registry: those whose endpoint did not
/// answer. Their number is the count of pruned entries.
pub fn prune_stale(entries: &Vec<InstanceRegistry>, health: &Vec<bool>) -> (stale: Vec<String>)
    requires
        entries.len() == health.len(),
    ensures
        stale@ == stale_ids(entries@, health@),
        stale@ == entries@.zip_with(health@).filter(|p: (InstanceRegistry, bool)| !p.1).map_values(
            |p: (InstanceRegistry, bool)| p.0.instance_id,
        ),
        stale@.len() == health@.filter(|b: bool| !b).len(),
{
    proof {
        law_pruned_are_the_failed_ones(entries@, health@);
    }
    let mut stale: Vec<String> = Vec::new();
    let mut i: usize = 0;
    while i < entries.len()
        invariant
            entries.len() == health.len(),
            i <= entries.len(),
            stale@ == stale_ids(entries@.take(i as int), health@.take(i as int)),
        decreases entries.len() - i,
    {
        proof {
            let a = entries@.take(i as int + 1);
            let h = health@.take(i as int + 1);
            assert(a.drop_last() =~= entries@.take(i as int));
            assert(h.take(a.len() - 1) =~= health@.take(i as int));
            assert(a.last() == entries@[i as int]);
            assert(h[a.len() - 1] == health@[i as int]);
        }
        if !health[i] {
            stale.push(entries[i].instance_id.clone());
        }
        i = i + 1;
    }
    proof {
        assert(entries@.take(entries.len() as int) =~= entries@);
        assert(health@.take(entries.len() as int) =~= health@);
    }
    stale
}

} // verus!
