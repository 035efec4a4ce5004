//! Routes responses from the browser back to the CLI client that sent the
//! request.

use vstd::prelude::*;
use vstd::string::*;

use crate::protocol::ResponseMessage;

verus! {

/// The sending half of a one-shot channel.
#[verifier::external_type_specification]
#[verifier::external_body]
#[verifier::reject_recursive_types(T)]
pub struct ExOneshotSender<T>(tokio::sync::oneshot::Sender<T>);

/// The receiving half of a one-shot channel.
#[verifier::external_type_specification]
#[verifier::external_body]
#[verifier::reject_recursive_types(T)]
pub struct ExOneshotReceiver<T>(tokio::sync::oneshot::Receiver<T>);

/// The error a receiver yields when its sender went away unused. Declared
/// because the receiver's `Future` output names it.
#[verifier::external_type_specification]
#[verifier::external_body]
pub struct ExOneshotRecvError(tokio::sync::oneshot::error::RecvError);

/// Calls `tokio::sync::oneshot::channel`. Nothing is claimed of the result:
/// which receiver belongs to the returned sender is not visible here.
#[verifier::external_body]
fn response_channel() -> (tokio::sync::oneshot::Sender<ResponseMessage>, tokio::sync::oneshot::Receiver<ResponseMessage>) {
    tokio::sync::oneshot::channel()
}

/// Calls `tokio::sync::oneshot::Sender::send` and reports whether the
/// receiver was still there to take the value. Nothing is claimed of that
/// answer: it depends on whether the receiving side was dropped.
#[verifier::external_body]
fn send_response(tx: tokio::sync::oneshot::Sender<ResponseMessage>, response: ResponseMessage) -> (accepted: bool) {
    tx.send(response).is_ok()
}

/// The table of pending requests, keyed by request id.
pub type RouteTable = Map<Seq<char>, tokio::sync::oneshot::Sender<ResponseMessage>>;

/// The map that a list of (id, value) pairs stands for; later pairs win.
pub open spec fn routes_map<V>(routes: Seq<(String, V)>) -> Map<Seq<char>, V>
    decreases routes.len(),
{
    if routes.len() == 0 {
        Map::empty()
    } else {
        routes_map(routes.drop_last()).insert(routes.last().0@, routes.last().1)
    }
}

/// No two pairs share an id.
pub open spec fn keys_distinct<V>(routes: Seq<(String, V)>) -> bool {
    forall|i: int, j: int| 0 <= i < j < routes.len() ==> routes[i].0@ != routes[j].0@
}

proof fn lemma_routes_map<V>(routes: Seq<(String, V)>)
    requires
        keys_distinct(routes),
    ensures
        forall|k: Seq<char>|
            routes_map(routes).dom().contains(k) <==> exists|i: int|
                0 <= i < routes.len() && (#[trigger] routes[i]).0@ == k,
        forall|i: int| 0 <= i < routes.len() ==> routes_map(routes)[(#[trigger] routes[i]).0@] == routes[i].1,
        routes_map(routes).dom().finite(),
        routes_map(routes).dom().len() == routes.len(),
    decreases routes.len(),
{
    if routes.len() > 0 {
        let prefix = routes.drop_last();
        let last = routes.last();
        lemma_routes_map(prefix);
        let n = routes.len() - 1;
        assert(routes[n] == last);
        assert forall|k: Seq<char>|
            routes_map(routes).dom().contains(k) implies exists|i: int|
                0 <= i < routes.len() && (#[trigger] routes[i]).0@ == k by {
            if k == last.0@ {
                assert(routes[n].0@ == k);
            } else {
                let i = choose|i: int| 0 <= i < prefix.len() && (#[trigger] prefix[i]).0@ == k;
                assert(routes[i] == prefix[i]);
            }
        }
        assert forall|k: Seq<char>|
            (exists|i: int| 0 <= i < routes.len() && (#[trigger] routes[i]).0@ == k) implies routes_map(
            routes,
        ).dom().contains(k) by {
            let i = choose|i: int| 0 <= i < routes.len() && (#[trigger] routes[i]).0@ == k;
            if i < n {
                assert(prefix[i] == routes[i]);
            }
        }
        assert forall|i: int| 0 <= i < routes.len() implies routes_map(routes)[(
        #[trigger] routes[i]).0@] == routes[i].1 by {
            if i < n {
                assert(prefix[i] == routes[i]);
                assert(routes[i].0@ != routes[n].0@);
            }
        }
        assert(!routes_map(prefix).dom().contains(last.0@)) by {
            if routes_map(prefix).dom().contains(last.0@) {
                let i = choose|i: int| 0 <= i < prefix.len() && (#[trigger] prefix[i]).0@ == last.0@;
                assert(prefix[i] == routes[i]);
            }
        }
    }
}

proof fn lemma_routes_map_remove<V>(routes: Seq<(String, V)>, i: int)
    requires
        keys_distinct(routes),
        0 <= i < routes.len(),
    ensures
        keys_distinct(routes.remove(i)),
        routes_map(routes.remove(i)) == routes_map(routes).remove(routes[i].0@),
    decreases routes.len(),
{
    let prefix = routes.drop_last();
    let n = routes.len() - 1;
    let last = routes.last();
    let rest = routes.remove(i);
    assert forall|a: int, b: int| 0 <= a < b < rest.len() implies rest[a].0@ != rest[b].0@ by {
        let a2 = if a < i { a } else { a + 1 };
        let b2 = if b < i { b } else { b + 1 };
        assert(rest[a] == routes[a2]);
        assert(rest[b] == routes[b2]);
    }
    lemma_routes_map(prefix);
    assert(!routes_map(prefix).dom().contains(last.0@)) by {
        if routes_map(prefix).dom().contains(last.0@) {
            let j = choose|j: int| 0 <= j < prefix.len() && (#[trigger] prefix[j]).0@ == last.0@;
            assert(prefix[j] == routes[j]);
        }
    }
    if i == n {
        assert(rest =~= prefix);
        assert(routes_map(routes).remove(last.0@) =~= routes_map(prefix));
    } else {
        let shorter = prefix.remove(i);
        assert(rest =~= shorter.push(last));
        assert(rest.drop_last() =~= shorter);
        assert(rest.last() == last);
        assert(prefix[i] == routes[i]);
        lemma_routes_map_remove(prefix, i);
        assert(routes[i].0@ != last.0@);
        assert(routes_map(rest) =~= routes_map(routes).remove(routes[i].0@));
    }
}

/// Index of the pair with the given id, if any.
fn find_route<V>(routes: &Vec<(String, V)>, id: &String) -> (r: Option<usize>)
    ensures
        match r {
            Some(i) => i < routes.len() && routes@[i as int].0@ == id@,
            None => forall|j: int| 0 <= j < routes.len() ==> routes@[j].0@ != id@,
        },
{
    let mut i: usize = 0;
    while i < routes.len()
        invariant
            i <= routes.len(),
            forall|j: int| 0 <= j < i ==> routes@[j].0@ != id@,
        decreases routes.len() - i,
    {
        if routes[i].0 == *id {
            return Some(i);
        }
        i = i + 1;
    }
    None
}

/// Routes responses from the browser back to the CLI client that sent the
/// request.
pub struct Router {
    pending: Vec<(String, tokio::sync::oneshot::Sender<ResponseMessage>)>,
}

impl View for Router {
    type V = RouteTable;

    closed spec fn view(&self) -> RouteTable {
        routes_map(self.pending@)
    }
}

impl Router {
    #[verifier::type_invariant]
    spec fn well_formed(self) -> bool {
        keys_distinct(self.pending@)
    }

    /// A router with no pending request.
    pub fn new() -> (r: Self)
        ensures
            r@ == RouteTable::empty(),
    {
        Router { pending: Vec::new() }
    }

    /// Records `tx` as the destination of the response to `request_id`,
    /// replacing any destination recorded for that id before.
    pub fn register_sender(&mut self, request_id: String, tx: tokio::sync::oneshot::Sender<ResponseMessage>)
        ensures
            final(self)@ == old(self)@.insert(request_id@, tx),
            final(self)@.dom().finite(),
            final(self)@.len() == old(self)@.len() + if old(self)@.dom().contains(request_id@) {
                0int
            } else {
                1int
            },
    {
        proof {
            use_type_invariant(&*self);
        }
        let mut pending = Vec::new();
        std::mem::swap(&mut pending, &mut self.pending);
        let ghost start = pending@;
        proof {
            lemma_routes_map(start);
        }
        match find_route(&pending, &request_id) {
            Some(i) => {
                proof {
                    lemma_routes_map_remove(start, i as int);
                }
                pending.remove(i);
            },
            None => {},
        }
        proof {
            lemma_routes_map(pending@);
            assert(routes_map(pending@) == routes_map(start).remove(request_id@));
            assert forall|j: int| 0 <= j < pending@.len() implies pending@[j].0@ != request_id@ by {
                if pending@[j].0@ == request_id@ {
                    assert(routes_map(pending@).dom().contains(request_id@));
                }
            }
        }
        let ghost before_push = pending@;
        pending.push((request_id, tx));
        proof {
            assert(pending@.drop_last() =~= before_push);
            assert(routes_map(pending@) =~= routes_map(start).insert(request_id@, tx));
            if routes_map(start).dom().contains(request_id@) {
                assert(routes_map(start).insert(request_id@, tx).dom() =~= routes_map(start).dom());
            }
        }
        self.pending = pending;
    }

    /// Registers a pending request and returns the receiver on which its
    /// response will arrive.
    pub fn register(&mut self, request_id: String) -> (rx: tokio::sync::oneshot::Receiver<ResponseMessage>)
        ensures
            final(self)@ == old(self)@.insert(request_id@, final(self)@[request_id@]),
            final(self)@.dom().finite(),
            final(self)@.len() == old(self)@.len() + if old(self)@.dom().contains(request_id@) {
                0int
            } else {
                1int
            },
    {
        let (tx, rx) = response_channel();
        self.register_sender(request_id, tx);
        rx
    }

    /// Removes the destination recorded for `request_id` and hands it out.
    pub fn take_route(&mut self, request_id: &String) -> (tx: Option<tokio::sync::oneshot::Sender<ResponseMessage>>)
        ensures
            old(self)@.dom().contains(request_id@) ==> tx == Some(old(self)@[request_id@]),
            !old(self)@.dom().contains(request_id@) ==> tx is None,
            final(self)@ == old(self)@.remove(request_id@),
            final(self)@.dom().finite(),
            final(self)@.len() == old(self)@.len() - if old(self)@.dom().contains(request_id@) {
                1int
            } else {
                0int
            },
    {
        proof {
            use_type_invariant(&*self);
        }
        let mut pending = Vec::new();
        std::mem::swap(&mut pending, &mut self.pending);
        let ghost start = pending@;
        proof {
            lemma_routes_map(start);
        }
        let r = match find_route(&pending, &request_id) {
            Some(i) => {
                proof {
                    lemma_routes_map_remove(start, i as int);
                }
                let (_, tx) = pending.remove(i);
                Some(tx)
            },
            None => {
                proof {
                    assert(routes_map(start).remove(request_id@) =~= routes_map(start));
                }
                None
            },
        };
        self.pending = pending;
        r
    }

    /// Decides where a response goes: the destination recorded for its id,
    /// which stops being pending, paired with the response itself.
    pub fn route_response(&mut self, response: ResponseMessage) -> (routed: Option<(
        tokio::sync::oneshot::Sender<ResponseMessage>,
        ResponseMessage,
    )>)
        ensures
            old(self)@.dom().contains(response.id@) ==> routed == Some((old(self)@[response.id@], response)),
            !old(self)@.dom().contains(response.id@) ==> routed is None,
            final(self)@ == old(self)@.remove(response.id@),
            final(self)@.dom().finite(),
            final(self)@.len() == old(self)@.len() - if old(self)@.dom().contains(response.id@) {
                1int
            } else {
                0int
            },
    {
        match self.take_route(&response.id) {
            Some(tx) => Some((tx, response)),
            None => None,
        }
    }

    /// Delivers a response to the client waiting for it. Returns `true` if
    /// it was delivered: a request with the response's id was pending and its
    /// client still waited to receive it. The request stops being pending
    /// either way.
    pub fn deliver(&mut self, response: ResponseMessage) -> (delivered: bool)
        ensures
            delivered ==> old(self)@.dom().contains(response.id@),
            !old(self)@.dom().contains(response.id@) ==> !delivered,
            final(self)@ == old(self)@.remove(response.id@),
            final(self)@.dom().finite(),
            final(self)@.len() == old(self)@.len() - if old(self)@.dom().contains(response.id@) {
                1int
            } else {
                0int
            },
    {
        match self.route_response(response) {
            Some((tx, response)) => send_response(tx, response),
            None => false,
        }
    }

    /// Removes every pending request and hands out their destinations.
    pub fn drain(&mut self) -> (routes: Vec<(String, tokio::sync::oneshot::Sender<ResponseMessage>)>)
        ensures
            keys_distinct(routes@),
            routes_map(routes@) == old(self)@,
            old(self)@.dom().finite(),
            routes@.len() == old(self)@.len(),
            final(self)@ == RouteTable::empty(),
    {
        proof {
            use_type_invariant(&*self);
        }
        let mut pending = Vec::new();
        std::mem::swap(&mut pending, &mut self.pending);
        proof {
            lemma_routes_map(pending@);
        }
        pending
    }

    /// Fails every pending request with a `DISCONNECTED` error carrying
    /// `message`. Called during shutdown.
    pub fn fail_all(&mut self, message: &str)
        ensures
            final(self)@ == RouteTable::empty(),
    {
        let routes = self.drain();
        let notices = disconnect_notices(routes, message);
        let mut notices = notices;
        while notices.len() > 0
            invariant
                self@ == RouteTable::empty(),
            decreases notices.len(),
        {
            let (tx, notice) = notices.pop().unwrap();
            let _accepted = send_response(tx, notice);
        }
    }

    /// Number of in-flight requests.
    pub fn pending_count(&self) -> (n: usize)
        ensures
            n == self@.len(),
            self@.dom().finite(),
    {
        proof {
            use_type_invariant(&*self);
            lemma_routes_map(self.pending@);
        }
        self.pending.len()
    }
}

/// Whether `r` is the error sent to request `id` when the host goes away.
pub open spec fn is_disconnect_notice(r: ResponseMessage, id: Seq<char>, message: Seq<char>) -> bool {
    &&& r.id@ == id
    &&& r.result is None
    &&& r.error is Some
    &&& r.error->0.code@ == "DISCONNECTED"@
    &&& r.error->0.message@ == message
}

/// Pairs each pending destination with the `DISCONNECTED` error for its own
/// request id.
pub fn disconnect_notices(
    routes: Vec<(String, tokio::sync::oneshot::Sender<ResponseMessage>)>,
    message: &str,
) -> (notices: Vec<(tokio::sync::oneshot::Sender<ResponseMessage>, ResponseMessage)>)
    ensures
        notices.len() == routes.len(),
        forall|i: int|
            0 <= i < routes.len() ==> {
                &&& (#[trigger] notices@[i]).0 == routes@[i].1
                &&& is_disconnect_notice(notices@[i].1, routes@[i].0@, message@)
            },
{
    let ghost given = routes@;
    let mut routes = routes;
    let mut notices: Vec<(tokio::sync::oneshot::Sender<ResponseMessage>, ResponseMessage)> = Vec::new();
    while routes.len() > 0
        invariant
            notices.len() + routes.len() == given.len(),
            routes@ == given.skip(notices.len() as int),
            forall|i: int|
                0 <= i < notices.len() ==> {
                    &&& (#[trigger] notices@[i]).0 == given[i].1
                    &&& is_disconnect_notice(notices@[i].1, given[i].0@, message@)
                },
        decreases routes.len(),
    {
        let ghost k = notices.len() as int;
        let (id, tx) = routes.remove(0);
        proof {
            assert(given[k] == (id, tx));
            assert(routes@ =~= given.skip(k + 1));
        }
        let notice = ResponseMessage::error(id, "DISCONNECTED", message);
        proof {
            reveal_strlit("DISCONNECTED");
        }
        notices.push((tx, notice));
    }
    notices
}

/// A response whose id was registered reaches the destination recorded for
/// that id, the request stops being pending, and a second response with the
/// same id is not delivered.
pub proof fn law_register_then_deliver(
    table: RouteTable,
    id: Seq<char>,
    tx: tokio::sync::oneshot::Sender<ResponseMessage>,
)
    ensures
        table.insert(id, tx).dom().contains(id),
        table.insert(id, tx)[id] == tx,
        table.insert(id, tx).remove(id) == table.remove(id),
        !table.insert(id, tx).remove(id).dom().contains(id),
{
    assert(table.insert(id, tx).remove(id) =~= table.remove(id));
}

/// A response for an id that is not pending is not delivered and leaves
/// the pending requests as they were.
pub proof fn law_unknown_response_ignored(table: RouteTable, id: Seq<char>)
    requires
        !table.dom().contains(id),
    ensures
        table.remove(id) == table,
{
    assert(table.remove(id) =~= table);
}

/// Registering a new id adds one pending request; registering an id again
/// keeps the count and replaces its destination.
pub proof fn law_register_count(
    table: RouteTable,
    id: Seq<char>,
    tx: tokio::sync::oneshot::Sender<ResponseMessage>,
)
    requires
        table.dom().finite(),
    ensures
        !table.dom().contains(id) ==> table.insert(id, tx).len() == table.len() + 1,
        table.dom().contains(id) ==> table.insert(id, tx).len() == table.len(),
{
    if table.dom().contains(id) {
        assert(table.insert(id, tx).dom() =~= table.dom());
    }
}

/// Registrations of distinct ids do not disturb each other: delivering one
/// leaves the other pending with its destination.
pub proof fn law_routes_independent(
    table: RouteTable,
    id1: Seq<char>,
    tx1: tokio::sync::oneshot::Sender<ResponseMessage>,
    id2: Seq<char>,
    tx2: tokio::sync::oneshot::Sender<ResponseMessage>,
)
    requires
        id1 != id2,
    ensures
        table.insert(id1, tx1).insert(id2, tx2).remove(id1).dom().contains(id2),
        table.insert(id1, tx1).insert(id2, tx2).remove(id1)[id2] == tx2,
        table.insert(id1, tx1).insert(id2, tx2).remove(id2)[id1] == tx1,
{
}

/// Failing all pending requests notifies each of them exactly once: every
/// pending id gets a `DISCONNECTED` error carrying that id, sent to the
/// destination recorded for it, and every notice belongs to a pending id.
pub proof fn law_fail_all_notifies_each_pending(
    table: RouteTable,
    routes: Seq<(String, tokio::sync::oneshot::Sender<ResponseMessage>)>,
    notices: Seq<(tokio::sync::oneshot::Sender<ResponseMessage>, ResponseMessage)>,
    message: Seq<char>,
)
    requires
        keys_distinct(routes),
        routes_map(routes) == table,
        notices.len() == routes.len(),
        forall|i: int|
            0 <= i < routes.len() ==> {
                &&& (#[trigger] notices[i]).0 == routes[i].1
                &&& is_disconnect_notice(notices[i].1, routes[i].0@, message)
            },
    ensures
        notices.len() == table.len(),
        forall|id: Seq<char>|
            table.dom().contains(id) ==> exists|i: int|
                0 <= i < notices.len() && (#[trigger] notices[i]).0 == table[id] && is_disconnect_notice(
                    notices[i].1,
                    id,
                    message,
                ),
        forall|i: int|
            0 <= i < notices.len() ==> table.dom().contains((#[trigger] notices[i]).1.id@) && table[notices[i].1.id@]
                == notices[i].0,
{
    lemma_routes_map(routes);
    assert forall|id: Seq<char>| table.dom().contains(id) implies exists|i: int|
        0 <= i < notices.len() && (#[trigger] notices[i]).0 == table[id] && is_disconnect_notice(
            notices[i].1,
            id,
            message,
        ) by {
        let i = choose|i: int| 0 <= i < routes.len() && (#[trigger] routes[i]).0@ == id;
        assert(notices[i].0 == routes[i].1);
    }
    assert forall|i: int| 0 <= i < notices.len() implies table.dom().contains((#[trigger] notices[i]).1.id@)
        && table[notices[i].1.id@] == notices[i].0 by {
        assert(routes[i].0@ == notices[i].1.id@);
    }
}

} // verus!
