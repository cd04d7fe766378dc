use std::collections::HashMap;
use vstd::prelude::*;

use crate::entity::{CommentaryRecord, MatchRecord};
use crate::ws::message::{OutgoingMessage, ScoreData};

verus! {

broadcast use vstd::std_specs::hash::group_hash_axioms;

/// The subscribers left on a match once `client` is taken off it: every
/// other entry, in the same order.
pub open spec fn without_client(subscribers: Seq<u64>, client: u64) -> Seq<u64> {
    subscribers.filter(other_than(client))
}

/// Holds of every client but `client`.
pub open spec fn other_than(client: u64) -> spec_fn(u64) -> bool {
    |c: u64| c != client
}

/// `client` appears at most once in `subscribers`.
pub open spec fn listed_at_most_once(subscribers: Seq<u64>, client: u64) -> bool {
    forall|i: int, j: int|
        0 <= i < subscribers.len() && 0 <= j < subscribers.len() && subscribers[i] == client
            && subscribers[j] == client ==> i == j
}

/// Taking `client` off a list keeps exactly the other entries.
pub proof fn lemma_without_client_contains(subscribers: Seq<u64>, client: u64, x: u64)
    ensures
        without_client(subscribers, client).contains(x) <==> (subscribers.contains(x) && x != client),
    decreases subscribers.len(),
{
    reveal(Seq::filter);
    if subscribers.len() > 0 {
        let init = subscribers.drop_last();
        let last = subscribers.last();
        lemma_without_client_contains(init, client, x);
        assert(subscribers == init.push(last));
        assert(subscribers.contains(x) <==> (init.contains(x) || last == x)) by {
            if subscribers.contains(x) && !init.contains(x) {
                let k = choose|k: int| 0 <= k < subscribers.len() && subscribers[k] == x;
                if k < init.len() {
                    assert(init[k] == x);
                }
            }
            if init.contains(x) {
                let k = choose|k: int| 0 <= k < init.len() && init[k] == x;
                assert(subscribers[k] == x);
            }
            if last == x {
                assert(subscribers[subscribers.len() - 1] == x);
            }
        }
        let rest = init.filter(other_than(client));
        if other_than(client)(last) {
            assert(without_client(subscribers, client) == rest.push(last));
            assert(rest.push(last).contains(x) <==> (rest.contains(x) || last == x)) by {
                if rest.push(last).contains(x) && !rest.contains(x) {
                    let k = choose|k: int| 0 <= k < rest.len() + 1 && rest.push(last)[k] == x;
                    if k < rest.len() {
                        assert(rest[k] == x);
                    }
                }
                if rest.contains(x) {
                    let k = choose|k: int| 0 <= k < rest.len() && rest[k] == x;
                    assert(rest.push(last)[k] == x);
                }
                if last == x {
                    assert(rest.push(last)[rest.len() as int] == x);
                }
            }
        } else {
            assert(without_client(subscribers, client) == rest);
        }
    }
}

/// A list without `client` is left as it is when `client` is taken off it.
pub proof fn lemma_without_absent_client(subscribers: Seq<u64>, client: u64)
    requires
        !subscribers.contains(client),
    ensures
        without_client(subscribers, client) == subscribers,
    decreases subscribers.len(),
{
    reveal(Seq::filter);
    if subscribers.len() > 0 {
        let init = subscribers.drop_last();
        assert(!init.contains(client)) by {
            if init.contains(client) {
                let k = choose|k: int| 0 <= k < init.len() && init[k] == client;
                assert(subscribers[k] == client);
            }
        }
        lemma_without_absent_client(init, client);
        assert(subscribers[subscribers.len() - 1] != client);
        assert(subscribers == init.push(subscribers.last()));
    }
}

/// A message together with the clients it goes to.
#[derive(Debug)]
pub struct Dispatch {
    pub recipients: Vec<u64>,
    pub message: OutgoingMessage,
}

/// Which clients follow which match. A client stands here for its socket by
/// a number that the connection layer gives it; the registry keeps, for each
/// followed match, its subscribers in the order they subscribed.
pub struct ConnectionManager {
    match_subscribers: HashMap<i32, Vec<u64>>,
}

impl View for ConnectionManager {
    type V = Map<i32, Seq<u64>>;

    closed spec fn view(&self) -> Map<i32, Seq<u64>> {
        self.match_subscribers@.map_values(|v: Vec<u64>| v@)
    }
}

impl ConnectionManager {
    /// The subscribers of a match, in subscription order (empty when none).
    pub open spec fn subscribers_of(self, match_id: i32) -> Seq<u64> {
        if self@.contains_key(match_id) {
            self@[match_id]
        } else {
            Seq::empty()
        }
    }

    /// The registry after `client` is added at the end of the subscribers of `match_id`.
    pub open spec fn with_subscriber(self, match_id: i32, client: u64) -> Map<i32, Seq<u64>> {
        self@.insert(match_id, self.subscribers_of(match_id).push(client))
    }

    /// The registry after every entry of `client` is taken off the subscribers
    /// of `match_id`; a match left with nobody is forgotten.
    pub open spec fn without_subscriber(self, match_id: i32, client: u64) -> Map<i32, Seq<u64>> {
        let rest = without_client(self.subscribers_of(match_id), client);
        if rest.len() == 0 {
            self@.remove(match_id)
        } else {
            self@.insert(match_id, rest)
        }
    }

    /// A match is listed only while someone follows it. Every registry keeps
    /// this.
    #[verifier::type_invariant]
    pub open spec fn wf(self) -> bool {
        forall|id: i32| #[trigger] self@.contains_key(id) ==> self@[id].len() > 0
    }

    /// A registry in which nobody follows anything.
    pub fn new() -> (m: ConnectionManager)
        ensures
            m@ == Map::<i32, Seq<u64>>::empty(),
    {
        let m = ConnectionManager { match_subscribers: HashMap::new() };
        assert(m@ =~= Map::<i32, Seq<u64>>::empty());
        m
    }

    /// Adds `client` at the end of the subscribers of `match_id`.
    pub fn subscribe(&mut self, match_id: i32, client: u64)
        ensures
            final(self)@ == old(self).with_subscriber(match_id, client),
    {
        proof {
            use_type_invariant(&*self);
        }
        let ghost before = self@;
        let mut map: HashMap<i32, Vec<u64>> = HashMap::new();
        std::mem::swap(&mut map, &mut self.match_subscribers);
        assert(map@.map_values(|v: Vec<u64>| v@) == before);
        let mut list = match map.remove(&match_id) {
            Some(v) => v,
            None => Vec::new(),
        };
        assert(list@ == old(self).subscribers_of(match_id));
        list.push(client);
        map.insert(match_id, list);
        assert(map@.map_values(|v: Vec<u64>| v@) =~= before.insert(
            match_id,
            old(self).subscribers_of(match_id).push(client),
        ));
        self.match_subscribers = map;
    }

    /// Takes every entry of `client` off the subscribers of `match_id`, and
    /// forgets the match when nobody is left on it.
    pub fn unsubscribe(&mut self, match_id: i32, client: u64)
        ensures
            final(self)@ == old(self).without_subscriber(match_id, client),
    {
        proof {
            use_type_invariant(&*self);
        }
        let ghost before = self@;
        let mut map: HashMap<i32, Vec<u64>> = HashMap::new();
        std::mem::swap(&mut map, &mut self.match_subscribers);
        assert(map@.map_values(|v: Vec<u64>| v@) == before);
        match map.remove(&match_id) {
            Some(list) => {
                let mut kept: Vec<u64> = Vec::new();
                let mut i: usize = 0;
                while i < list.len()
                    invariant
                        i <= list.len(),
                        kept@ == list@.take(i as int).filter(other_than(client)),
                    decreases list.len() - i,
                {
                    if list[i] != client {
                        kept.push(list[i]);
                    }
                    proof {
                        let next = list@.take((i + 1) as int);
                        assert(next.drop_last() == list@.take(i as int));
                        assert(next.last() == list@[i as int]);
                        reveal(Seq::filter);
                        assert(other_than(client)(next.last()) == (list@[i as int] != client));
                        assert(next.filter(other_than(client)) == (if other_than(client)(next.last()) {
                            next.drop_last().filter(other_than(client)).push(next.last())
                        } else {
                            next.drop_last().filter(other_than(client))
                        }));
                    }
                    i = i + 1;
                }
                assert(list@.take(list.len() as int) == list@);
                assert(list@ == old(self).subscribers_of(match_id));
                if kept.len() > 0 {
                    map.insert(match_id, kept);
                    assert(map@.map_values(|v: Vec<u64>| v@) =~= before.insert(
                        match_id,
                        without_client(old(self).subscribers_of(match_id), client),
                    ));
                } else {
                    assert(map@.map_values(|v: Vec<u64>| v@) =~= before.remove(match_id));
                }
            },
            None => {
                proof {
                    reveal(Seq::filter);
                }
                assert(map@.map_values(|v: Vec<u64>| v@) =~= before.remove(match_id));
            },
        }
        self.match_subscribers = map;
    }

    /// Subscribing adds `client` to the match and changes nothing else: every
    /// other match keeps its subscribers, and on this match exactly the clients
    /// that were there and `client` are listed. A client that was not yet on the
    /// match is listed there once.
    pub proof fn lemma_subscribe_effect(self, match_id: i32, client: u64, after: ConnectionManager)
        requires
            after@ == self.with_subscriber(match_id, client),
        ensures
            forall|k: i32| k != match_id ==> #[trigger] after.subscribers_of(k) == self.subscribers_of(k),
            forall|x: u64|
                #[trigger] after.subscribers_of(match_id).contains(x) <==> (self.subscribers_of(
                    match_id,
                ).contains(x) || x == client),
            !self.subscribers_of(match_id).contains(client) ==> listed_at_most_once(
                after.subscribers_of(match_id),
                client,
            ),
            forall|x: u64|
                x != client && listed_at_most_once(self.subscribers_of(match_id), x)
                    ==> #[trigger] listed_at_most_once(after.subscribers_of(match_id), x),
    {
        let before = self.subscribers_of(match_id);
        let now = after.subscribers_of(match_id);
        assert(now == before.push(client));
        assert forall|x: u64| #[trigger] now.contains(x) <==> (before.contains(x) || x == client) by {
            if now.contains(x) && !before.contains(x) {
                let k = choose|k: int| 0 <= k < now.len() && now[k] == x;
                if k < before.len() {
                    assert(before[k] == x);
                }
            }
            if before.contains(x) {
                let k = choose|k: int| 0 <= k < before.len() && before[k] == x;
                assert(now[k] == x);
            }
            if x == client {
                assert(now[before.len() as int] == x);
            }
        }
        if !before.contains(client) {
            assert forall|i: int, j: int|
                0 <= i < now.len() && 0 <= j < now.len() && now[i] == client && now[j] == client
                    implies i == j by {
                if i < before.len() {
                    assert(before[i] == client);
                }
                if j < before.len() {
                    assert(before[j] == client);
                }
            }
        }
        assert forall|x: u64|
            x != client && listed_at_most_once(before, x) implies #[trigger] listed_at_most_once(
                now,
                x,
            ) by {
            assert forall|i: int, j: int|
                0 <= i < now.len() && 0 <= j < now.len() && now[i] == x && now[j] == x implies i
                    == j by {
                assert(i < before.len() && j < before.len());
                assert(before[i] == x && before[j] == x);
            }
        }
    }

    /// Unsubscribing takes `client` off the match and changes nothing else:
    /// every other match keeps its subscribers, and on this match exactly the
    /// other clients that were there stay.
    pub proof fn lemma_unsubscribe_effect(self, match_id: i32, client: u64, after: ConnectionManager)
        requires
            after@ == self.without_subscriber(match_id, client),
        ensures
            forall|k: i32| k != match_id ==> #[trigger] after.subscribers_of(k) == self.subscribers_of(k),
            after.subscribers_of(match_id) == without_client(self.subscribers_of(match_id), client),
            forall|x: u64|
                #[trigger] after.subscribers_of(match_id).contains(x) <==> (self.subscribers_of(
                    match_id,
                ).contains(x) && x != client),
    {
        let rest = without_client(self.subscribers_of(match_id), client);
        if rest.len() == 0 {
            assert(rest =~= Seq::<u64>::empty());
        }
        assert forall|x: u64| #[trigger] after.subscribers_of(match_id).contains(x) <==> (
        self.subscribers_of(match_id).contains(x) && x != client) by {
            lemma_without_client_contains(self.subscribers_of(match_id), client, x);
        }
    }

    /// Subscribing a client that was not on a match and then unsubscribing it
    /// gives the registry back as it was.
    pub proof fn lemma_unsubscribe_undoes_subscribe(self, match_id: i32, client: u64, middle: ConnectionManager)
        requires
            self.wf(),
            !self.subscribers_of(match_id).contains(client),
            middle@ == self.with_subscriber(match_id, client),
        ensures
            middle.without_subscriber(match_id, client) == self@,
    {
        let before = self.subscribers_of(match_id);
        reveal(Seq::filter);
        assert(middle.subscribers_of(match_id) == before.push(client));
        assert(before.push(client).drop_last() == before);
        lemma_without_absent_client(before, client);
        assert(without_client(middle.subscribers_of(match_id), client) == before);
        if before.len() == 0 {
            assert(!self@.contains_key(match_id));
            assert(middle.without_subscriber(match_id, client) =~= self@);
        } else {
            assert(middle.without_subscriber(match_id, client) =~= self@);
        }
    }

    fn recipients_of(&self, match_id: i32) -> (r: Option<Vec<u64>>)
        ensures
            r is None <==> !self@.contains_key(match_id),
            r matches Some(v) ==> v@ == self@[match_id],
    {
        match self.match_subscribers.get(&match_id) {
            Some(list) => {
                let mut out: Vec<u64> = Vec::new();
                let mut i: usize = 0;
                while i < list.len()
                    invariant
                        i <= list.len(),
                        out@ == list@.take(i as int),
                    decreases list.len() - i,
                {
                    out.push(list[i]);
                    assert(list@.take(i as int).push(list@[i as int]) == list@.take((i + 1) as int));
                    i = i + 1;
                }
                assert(list@.take(list.len() as int) == list@);
                Some(out)
            },
            None => None,
        }
    }

    /// The announcement of a newly created match, for every connected client.
    pub fn broadcast_match_created(&self, match_data: MatchRecord) -> (m: OutgoingMessage)
        ensures
            m == (OutgoingMessage::MatchCreated { data: match_data }),
    {
        OutgoingMessage::MatchCreated { data: match_data }
    }

    /// The score update of `match_id` and who receives it: its subscribers, in
    /// order. `None` when nobody follows the match.
    pub fn broadcast_score_update(&self, match_id: i32, home_score: i32, away_score: i32) -> (d:
        Option<Dispatch>)
        ensures
            d is None <==> !self@.contains_key(match_id),
            d matches Some(x) ==> x.recipients@ == self@[match_id] && x.message == (
            OutgoingMessage::ScoreUpdate { data: ScoreData { home_score, away_score } }),
    {
        match self.recipients_of(match_id) {
            Some(recipients) => Some(
                Dispatch {
                    recipients,
                    message: OutgoingMessage::ScoreUpdate { data: ScoreData { home_score, away_score } },
                },
            ),
            None => None,
        }
    }

    /// A new commentary entry of `match_id` and who receives it: its
    /// subscribers, in order. `None` when nobody follows the match.
    pub fn broadcast_commentary(&self, match_id: i32, comment: CommentaryRecord) -> (d: Option<
        Dispatch,
    >)
        ensures
            d is None <==> !self@.contains_key(match_id),
            d matches Some(x) ==> x.recipients@ == self@[match_id] && x.message == (
            OutgoingMessage::Commentary { data: comment }),
    {
        match self.recipients_of(match_id) {
            Some(recipients) => Some(
                Dispatch { recipients, message: OutgoingMessage::Commentary { data: comment } },
            ),
            None => None,
        }
    }
}

} // verus!
