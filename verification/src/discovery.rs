//! Choosing the browser instance a CLI command talks to.

use vstd::prelude::*;
use vstd::string::*;

use crate::protocol::InstanceRegistry;
use crate::text::starts_with;

verus! {

/// The instances whose health check succeeded, in the order given.
pub open spec fn healthy_instances(all: Seq<InstanceRegistry>, health: Seq<bool>) -> Seq<InstanceRegistry>
    decreases all.len(),
{
    if all.len() == 0 {
        Seq::empty()
    } else {
        let rest = healthy_instances(all.drop_last(), health.take(all.len() - 1));
        if health[all.len() - 1] {
            rest.push(all.last())
        } else {
            rest
        }
    }
}

/// The instances whose id begins with `prefix`, in the order given.
pub open spec fn instances_with_prefix(instances: Seq<InstanceRegistry>, prefix: Seq<char>) -> Seq<InstanceRegistry>
    decreases instances.len(),
{
    if instances.len() == 0 {
        Seq::empty()
    } else {
        let rest = instances_with_prefix(instances.drop_last(), prefix);
        if prefix.is_prefix_of(instances.last().instance_id@) {
            rest.push(instances.last())
        } else {
            rest
        }
    }
}

/// Why no single instance could be selected.
#[derive(Debug)]
pub enum SelectError {
    /// No healthy instance id begins with the requested prefix.
    NoMatch { prefix: String },
    /// Several healthy instance ids begin with the requested prefix.
    AmbiguousMatch { prefix: String, candidates: Vec<InstanceRegistry> },
    /// No healthy instance is running.
    NoneRunning,
    /// Several healthy instances run and none was requested.
    Ambiguous { candidates: Vec<InstanceRegistry> },
}

/// The process exit code of a failed selection.
pub open spec fn exit_code_of(e: SelectError) -> int {
    match e {
        SelectError::NoMatch { .. } => 1,
        SelectError::AmbiguousMatch { .. } => 3,
        SelectError::NoneRunning => 2,
        SelectError::Ambiguous { .. } => 3,
    }
}

impl SelectError {
    /// The process exit code for this outcome: 2 when no instance runs, 3
    /// when the choice is ambiguous, 1 for any other failure.
    pub fn exit_code(&self) -> (code: i32)
        ensures
            code == exit_code_of(*self),
    {
        match self {
            SelectError::NoMatch { .. } => 1,
            SelectError::AmbiguousMatch { .. } => 3,
            SelectError::NoneRunning => 2,
            SelectError::Ambiguous { .. } => 3,
        }
    }
}

/// The line listing a candidate that matched a prefix.
pub open spec fn match_line(e: InstanceRegistry) -> Seq<char> {
    "  "@ + e.instance_id@ + " ("@ + e.browser@ + ")"@
}

/// The line listing a running instance when none was requested.
pub open spec fn candidate_line(e: InstanceRegistry) -> Seq<char> {
    "  "@ + e.instance_id@ + " ("@ + e.browser@ + ", ext: "@ + e.extension_id@ + ")"@
}

/// The report lines of a failed selection, first the headline, then one
/// line per candidate.
pub open spec fn report_lines(e: SelectError) -> Seq<Seq<char>> {
    match e {
        SelectError::NoMatch { prefix } => seq!["no healthy instance matching '"@ + prefix@ + "'"@],
        SelectError::AmbiguousMatch { prefix, candidates } => seq![
            "Multiple instances match '"@ + prefix@ + "':"@,
        ] + Seq::new(candidates@.len(), |i: int| match_line(candidates@[i])),
        SelectError::NoneRunning => seq![
            "No running PT-Depiler instance found."@,
            "Make sure the browser is open with the PT-Depiler extension."@,
        ],
        SelectError::Ambiguous { candidates } => seq![
            "Multiple PT-Depiler instances found. Use --instance <id> or PTD_INSTANCE to select one:"@,
        ] + Seq::new(candidates@.len(), |i: int| candidate_line(candidates@[i])),
    }
}

impl SelectError {
    /// The lines that explain the failure to the user.
    pub fn report(&self) -> (lines: Vec<String>)
        ensures
            lines@.len() == report_lines(*self).len(),
            forall|i: int| 0 <= i < lines@.len() ==> (#[trigger] lines@[i])@ == report_lines(*self)[i],
    {
        let mut lines: Vec<String> = Vec::new();
        match self {
            SelectError::NoMatch { prefix } => {
                let mut l = String::from_str("no healthy instance matching '");
                l.append(prefix.as_str());
                l.append("'");
                lines.push(l);
                proof {
                    assert(lines@.len() == 1);
                }
            },
            SelectError::AmbiguousMatch { prefix, candidates } => {
                let mut head = String::from_str("Multiple instances match '");
                head.append(prefix.as_str());
                head.append("':");
                lines.push(head);
                let mut i: usize = 0;
                while i < candidates.len()
                    invariant
                        i <= candidates.len(),
                        lines@.len() == i + 1,
                        lines@[0]@ == "Multiple instances match '"@ + prefix@ + "':"@,
                        forall|j: int| 0 <= j < i ==> (#[trigger] lines@[j + 1])@ == match_line(candidates@[j]),
                    decreases candidates.len() - i,
                {
                    let c = &candidates[i];
                    let mut l = String::from_str("  ");
                    l.append(c.instance_id.as_str());
                    l.append(" (");
                    l.append(c.browser.as_str());
                    l.append(")");
                    lines.push(l);
                    i = i + 1;
                }
                proof {
                    let expected = report_lines(*self);
                    assert forall|k: int| 0 <= k < lines@.len() implies (#[trigger] lines@[k])@ == expected[k] by {
                        if k > 0 {
                            assert(lines@[(k - 1) + 1] == lines@[k]);
                        }
                    }
                }
            },
            SelectError::NoneRunning => {
                lines.push(String::from_str("No running PT-Depiler instance found."));
                lines.push(String::from_str("Make sure the browser is open with the PT-Depiler extension."));
            },
            SelectError::Ambiguous { candidates } => {
                lines.push(
                    String::from_str(
                        "Multiple PT-Depiler instances found. Use --instance <id> or PTD_INSTANCE to select one:",
                    ),
                );
                let mut i: usize = 0;
                while i < candidates.len()
                    invariant
                        i <= candidates.len(),
                        lines@.len() == i + 1,
                        lines@[0]@
                            == "Multiple PT-Depiler instances found. Use --instance <id> or PTD_INSTANCE to select one:"@,
                        forall|j: int| 0 <= j < i ==> (#[trigger] lines@[j + 1])@ == candidate_line(candidates@[j]),
                    decreases candidates.len() - i,
                {
                    let c = &candidates[i];
                    let mut l = String::from_str("  ");
                    l.append(c.instance_id.as_str());
                    l.append(" (");
                    l.append(c.browser.as_str());
                    l.append(", ext: ");
                    l.append(c.extension_id.as_str());
                    l.append(")");
                    lines.push(l);
                    i = i + 1;
                }
                proof {
                    let expected = report_lines(*self);
                    assert forall|k: int| 0 <= k < lines@.len() implies (#[trigger] lines@[k])@ == expected[k] by {
                        if k > 0 {
                            assert(lines@[(k - 1) + 1] == lines@[k]);
                        }
                    }
                }
            },
        }
        lines
    }
}

/// The healthy instances are exactly the entries whose health check
/// succeeded, in order, whatever their other fields: pairing each entry with
/// its health, keeping the pairs marked healthy and dropping the marks gives
/// them; so there are as many as health checks that succeeded.
pub proof fn law_healthy_are_the_checked_ones(all: Seq<InstanceRegistry>, health: Seq<bool>)
    requires
        all.len() == health.len(),
    ensures
        healthy_instances(all, health) == all.zip_with(health).filter(|p: (InstanceRegistry, bool)| p.1).map_values(
            |p: (InstanceRegistry, bool)| p.0,
        ),
        healthy_instances(all, health).len() == health.filter(|b: bool| b).len(),
    decreases all.len(),
{
    let keep = |p: (InstanceRegistry, bool)| p.1;
    let entry = |p: (InstanceRegistry, bool)| p.0;
    let yes = |b: bool| b;
    reveal(Seq::filter);
    if all.len() == 0 {
        assert(all.zip_with(health) =~= Seq::<(InstanceRegistry, bool)>::empty());
        assert(health =~= Seq::<bool>::empty());
        assert(all.zip_with(health).filter(keep).map_values(entry) =~= Seq::<InstanceRegistry>::empty());
    } else {
        let n = all.len() - 1;
        let a2 = all.drop_last();
        let h2 = health.take(n);
        law_healthy_are_the_checked_ones(a2, h2);
        let z = all.zip_with(health);
        assert(z.drop_last() =~= a2.zip_with(h2));
        assert(z.last() == (all.last(), health[n]));
        assert(health.drop_last() =~= h2);
        assert(health.last() == health[n]);
        let f2 = a2.zip_with(h2).filter(keep);
        if health[n] {
            assert(z.filter(keep) == f2.push(z.last()));
            assert(f2.push(z.last()).map_values(entry) =~= f2.map_values(entry).push(all.last()));
        } else {
            assert(z.filter(keep) == f2);
        }
    }
}

/// An instance is a prefix candidate exactly when its id begins with the
/// prefix, the full id included; candidates keep their order.
pub proof fn law_prefix_candidates_are_the_matching_ones(instances: Seq<InstanceRegistry>, prefix: Seq<char>)
    ensures
        instances_with_prefix(instances, prefix) == instances.filter(
            |e: InstanceRegistry| prefix.is_prefix_of(e.instance_id@),
        ),
    decreases instances.len(),
{
    reveal(Seq::filter);
    if instances.len() > 0 {
        law_prefix_candidates_are_the_matching_ones(instances.drop_last(), prefix);
    }
}

/// The healthy instances among `all`, given the health of each.
pub fn filter_healthy(all: &Vec<InstanceRegistry>, health: &Vec<bool>) -> (r: Vec<InstanceRegistry>)
    requires
        all.len() == health.len(),
    ensures
        r@ == healthy_instances(all@, health@),
        r@ == all@.zip_with(health@).filter(|p: (InstanceRegistry, bool)| p.1).map_values(
            |p: (InstanceRegistry, bool)| p.0,
        ),
        r@.len() == health@.filter(|b: bool| b).len(),
{
    proof {
        law_healthy_are_the_checked_ones(all@, health@);
    }
    let mut r: Vec<InstanceRegistry> = Vec::new();
    let mut i: usize = 0;
    while i < all.len()
        invariant
            all.len() == health.len(),
            i <= all.len(),
            r@ == healthy_instances(all@.take(i as int), health@.take(i as int)),
        decreases all.len() - i,
    {
        proof {
            let a = all@.take(i as int + 1);
            let h = health@.take(i as int + 1);
            assert(a.drop_last() =~= all@.take(i as int));
            assert(h.take(a.len() - 1) =~= health@.take(i as int));
            assert(a.last() == all@[i as int]);
            assert(h[a.len() - 1] == health@[i as int]);
        }
        if health[i] {
            r.push(all[i].clone());
        }
        i = i + 1;
    }
    proof {
        assert(all@.take(all.len() as int) =~= all@);
        assert(health@.take(all.len() as int) =~= health@);
    }
    r
}

/// The instances among `instances` whose id begins with `prefix`.
pub fn filter_prefix(instances: &Vec<InstanceRegistry>, prefix: &str) -> (r: Vec<InstanceRegistry>)
    ensures
        r@ == instances_with_prefix(instances@, prefix@),
        r@ == instances@.filter(|e: InstanceRegistry| prefix@.is_prefix_of(e.instance_id@)),
{
    proof {
        law_prefix_candidates_are_the_matching_ones(instances@, prefix@);
    }
    let mut r: Vec<InstanceRegistry> = Vec::new();
    let mut i: usize = 0;
    while i < instances.len()
        invariant
            i <= instances.len(),
            r@ == instances_with_prefix(instances@.take(i as int), prefix@),
        decreases instances.len() - i,
    {
        proof {
            let a = instances@.take(i as int + 1);
            assert(a.drop_last() =~= instances@.take(i as int));
            assert(a.last() == instances@[i as int]);
        }
        if starts_with(instances[i].instance_id.as_str(), prefix) {
            r.push(instances[i].clone());
        }
        i = i + 1;
    }
    proof {
        assert(instances@.take(instances.len() as int) =~= instances@);
    }
    r
}

/// The view of an optional text.
pub open spec fn opt_view(o: Option<String>) -> Option<Seq<char>> {
    match o {
        Some(p) => Some(p@),
        None => None,
    }
}

/// The instances a selection chooses among: the healthy ones, narrowed to
/// those whose id begins with the requested prefix, if any.
pub open spec fn selection_candidates(healthy: Seq<InstanceRegistry>, explicit: Option<Seq<char>>) -> Seq<
    InstanceRegistry,
> {
    match explicit {
        Some(p) => instances_with_prefix(healthy, p),
        None => healthy,
    }
}

/// The outcome of a selection among the `healthy` instances: none running
/// is always `NoneRunning`; otherwise the only candidate, or an error
/// naming the prefix and the candidates.
pub open spec fn selection_outcome(
    healthy: Seq<InstanceRegistry>,
    explicit: Option<Seq<char>>,
    r: Result<InstanceRegistry, SelectError>,
) -> bool {
    let candidates = selection_candidates(healthy, explicit);
    if healthy.len() == 0 {
        r matches Err(SelectError::NoneRunning)
    } else if candidates.len() == 1 {
        r == Ok::<InstanceRegistry, SelectError>(candidates[0])
    } else {
        match explicit {
            Some(p) => if candidates.len() == 0 {
                r matches Err(SelectError::NoMatch { prefix }) && prefix@ == p
            } else {
                r matches Err(SelectError::AmbiguousMatch { prefix, candidates: c }) && prefix@ == p
                    && c@ == candidates
            },
            None => r matches Err(SelectError::Ambiguous { candidates: c }) && c@ == candidates,
        }
    }
}

/// Selects an instance among `all`, given the health of each: with no
/// healthy instance, none; with an explicit id prefix, the one healthy
/// instance whose id begins with it; otherwise the one healthy instance.
pub fn select_instance(all: &Vec<InstanceRegistry>, health: &Vec<bool>, explicit: Option<String>) -> (r: Result<
    InstanceRegistry,
    SelectError,
>)
    requires
        all.len() == health.len(),
    ensures
        selection_outcome(healthy_instances(all@, health@), opt_view(explicit), r),
        ({
            let healthy = all@.zip_with(health@).filter(|p: (InstanceRegistry, bool)| p.1).map_values(
                |p: (InstanceRegistry, bool)| p.0,
            );
            let candidates = match explicit {
                Some(p) => healthy.filter(|e: InstanceRegistry| p@.is_prefix_of(e.instance_id@)),
                None => healthy,
            };
            &&& (healthy.len() == 0 ==> (r matches Err(SelectError::NoneRunning)))
            &&& (r is Ok ==> candidates.len() == 1 && r->Ok_0 == candidates[0])
            &&& (candidates.len() == 1 ==> r == Ok::<InstanceRegistry, SelectError>(candidates[0]))
            &&& ((healthy.len() > 0 && candidates.len() == 0) ==> (r matches Err(SelectError::NoMatch { .. })))
            &&& ((healthy.len() > 0 && candidates.len() > 1) ==> ((r matches Err(
                SelectError::AmbiguousMatch { .. },
            )) || (r matches Err(SelectError::Ambiguous { .. }))))
        }),
{
    proof {
        law_healthy_are_the_checked_ones(all@, health@);
        if explicit is Some {
            law_prefix_candidates_are_the_matching_ones(healthy_instances(all@, health@), explicit->0@);
        }
    }
    let mut healthy = filter_healthy(all, health);
    if healthy.len() == 0 {
        return Err(SelectError::NoneRunning);
    }
    match explicit {
        Some(prefix) => {
            let mut matches = filter_prefix(&healthy, prefix.as_str());
            if matches.len() == 0 {
                Err(SelectError::NoMatch { prefix })
            } else if matches.len() == 1 {
                let only = matches.pop().unwrap();
                Ok(only)
            } else {
                Err(SelectError::AmbiguousMatch { prefix, candidates: matches })
            }
        },
        None => {
            if healthy.len() == 1 {
                let only = healthy.pop().unwrap();
                Ok(only)
            } else {
                Err(SelectError::Ambiguous { candidates: healthy })
            }
        },
    }
}

/// Selection succeeds exactly when some instance is healthy and one
/// candidate remains; otherwise the exit code is 2 when no instance is
/// healthy, 3 when several candidates remain, and 1 when a requested prefix
/// matches none of the healthy instances.
pub proof fn law_selection_exit_codes(
    healthy: Seq<InstanceRegistry>,
    explicit: Option<Seq<char>>,
    r: Result<InstanceRegistry, SelectError>,
)
    requires
        selection_outcome(healthy, explicit, r),
    ensures
        r is Ok <==> (healthy.len() > 0 && selection_candidates(healthy, explicit).len() == 1),
        r matches Ok(e) ==> e == selection_candidates(healthy, explicit)[0],
        r matches Err(e) ==> exit_code_of(e) == if healthy.len() == 0 {
            2int
        } else if selection_candidates(healthy, explicit).len() > 1 {
            3int
        } else {
            1int
        },
{
}

} // verus!
