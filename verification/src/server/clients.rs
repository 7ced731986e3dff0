//! Encoding clients: their records, the in-memory registry of connected clients and
//! the heartbeat timeout rule.
use vstd::prelude::*;
use crate::text::{lemma_strs_push, str_eq, strs};

verus! {

/// Client registration payload.
#[derive(Debug)]
pub struct ClientRegistration {
    pub server_guid: String,
    pub display_name: String,
    pub computer_name: String,
}

/// Client information as stored.
#[derive(Debug)]
pub struct Client {
    pub id: String,
    pub display_name: String,
    pub computer_name: String,
    pub connected_at: i64,
    pub last_heartbeat: i64,
    pub disconnected_at: Option<i64>,
}

impl Clone for Client {
    fn clone(&self) -> (res: Self)
        ensures
            res == *self,
    {
        Client {
            id: self.id.clone(),
            display_name: self.display_name.clone(),
            computer_name: self.computer_name.clone(),
            connected_at: self.connected_at,
            last_heartbeat: self.last_heartbeat,
            disconnected_at: self.disconnected_at,
        }
    }
}

/// The client `c` with its last heartbeat set to `t`.
pub open spec fn with_heartbeat(c: Client, t: i64) -> Client {
    Client {
        id: c.id,
        display_name: c.display_name,
        computer_name: c.computer_name,
        connected_at: c.connected_at,
        last_heartbeat: t,
        disconnected_at: c.disconnected_at,
    }
}

impl Client {
    /// A client connected at `now`: both its connection time and its last heartbeat are
    /// `now`, and it is not disconnected.
    pub fn new_at(id: String, display_name: String, computer_name: String, now: i64) -> (res:
        Self)
        ensures
            res == fresh_client(id, display_name, computer_name, now),
    {
        Client { id, display_name, computer_name, connected_at: now, last_heartbeat: now, disconnected_at: None }
    }

    /// A client connected now (the clock is read): its connection time and last
    /// heartbeat are that same moment, and it is not disconnected.
    pub fn new(id: String, display_name: String, computer_name: String) -> (res: Self)
        ensures
            res.id@ == id@,
            res.display_name@ == display_name@,
            res.computer_name@ == computer_name@,
            res.connected_at == res.last_heartbeat,
            res.disconnected_at is None,
    {
        let now = crate::system::now_timestamp();
        Client::new_at(id, display_name, computer_name, now)
    }

    /// Whether the client is connected: it has no disconnection time.
    pub fn is_connected(&self) -> (res: bool)
        ensures
            res == connected(*self),
    {
        self.disconnected_at.is_none()
    }
}

/// A client is connected while it has no disconnection time.
pub open spec fn connected(c: Client) -> bool {
    c.disconnected_at is None
}

/// A client made by [`Client::new_at`] or [`Client::new`] is connected, and has not
/// timed out at the moment it was made.
pub proof fn new_client_is_connected(id: String, display_name: String, computer_name: String, now: i64)
    requires
        now >= i64::MIN + HEARTBEAT_TIMEOUT_SECONDS,
    ensures
        connected(fresh_client(id, display_name, computer_name, now)),
        !timed_out(fresh_client(id, display_name, computer_name, now), now),
{
}

/// The client connected at `now` with the given names.
pub open spec fn fresh_client(id: String, display_name: String, computer_name: String, now: i64) -> Client {
    Client { id, display_name, computer_name, connected_at: now, last_heartbeat: now, disconnected_at: None }
}

/// A client that sent a heartbeat at `now` has not timed out at `now`, nor at any time up
/// to the timeout after it.
pub proof fn heartbeat_prevents_timeout(c: Client, now: i64, later: i64)
    requires
        now <= later <= now + HEARTBEAT_TIMEOUT_SECONDS,
    ensures
        !timed_out(with_heartbeat(c, now), later),
{
}

/// After a client is removed from the registry, no client with its id is left, and
/// every other client stays, in order.
pub proof fn removed_client_is_gone(clients: Seq<Client>, id: Seq<char>)
    ensures
        forall|k: int|
            0 <= k < clients.filter(id_differs(id)).len() ==> (#[trigger] clients.filter(
                id_differs(id),
            )[k]).id@ != id,
        forall|k: int|
            0 <= k < clients.len() && (#[trigger] clients[k]).id@ != id ==> clients.filter(
                id_differs(id),
            ).contains(clients[k]),
{
    assert forall|k: int| 0 <= k < clients.filter(id_differs(id)).len() implies (
    #[trigger] clients.filter(id_differs(id))[k]).id@ != id by {
        clients.lemma_filter_pred(id_differs(id), k);
    }
    assert forall|k: int| 0 <= k < clients.len() && (#[trigger] clients[k]).id@ != id implies clients.filter(
        id_differs(id),
    ).contains(clients[k]) by {
        clients.lemma_filter_contains(id_differs(id), k);
    }
}

/// Authentication response.
#[derive(Debug)]
pub struct AuthResponse {
    pub auth_token: String,
    pub ffmpeg_template: String,
}

/// Heartbeat request.
#[derive(Debug)]
pub struct HeartbeatRequest {
    pub client_id: String,
}

/// Client status for monitoring.
#[derive(Debug)]
pub struct ClientStatus {
    pub id: String,
    pub display_name: String,
    pub computer_name: String,
    pub connected_at: i64,
    pub last_heartbeat: i64,
    pub active_jobs_count: usize,
}

/// The monitoring status of a client holding `active_jobs_count` jobs.
pub fn client_status(client: Client, active_jobs_count: usize) -> (res: ClientStatus)
    ensures
        res.id@ == client.id@,
        res.display_name@ == client.display_name@,
        res.computer_name@ == client.computer_name@,
        res.connected_at == client.connected_at,
        res.last_heartbeat == client.last_heartbeat,
        res.active_jobs_count == active_jobs_count,
{
    ClientStatus {
        id: client.id,
        display_name: client.display_name,
        computer_name: client.computer_name,
        connected_at: client.connected_at,
        last_heartbeat: client.last_heartbeat,
        active_jobs_count,
    }
}

/// How long a client may stay silent before it counts as gone, in seconds.
pub const HEARTBEAT_TIMEOUT_SECONDS: i64 = 60;

/// The client has sent no heartbeat within the timeout before `now`.
pub open spec fn timed_out(c: Client, now: i64) -> bool {
    c.last_heartbeat < now - HEARTBEAT_TIMEOUT_SECONDS
}

/// The test of [`timed_out`] at `now`, as a predicate on clients.
pub open spec fn timed_out_at(now: i64) -> spec_fn(Client) -> bool {
    |c: Client| timed_out(c, now)
}

/// A client's id.
pub open spec fn client_id(c: Client) -> Seq<char> {
    c.id@
}

/// The client's id differs from `id`.
pub open spec fn id_differs(id: Seq<char>) -> spec_fn(Client) -> bool {
    |c: Client| c.id@ != id
}

/// Filtering the first `k + 1` items is filtering the first `k` and then looking at the
/// next one.
proof fn lemma_filter_take(s: Seq<Client>, p: spec_fn(Client) -> bool, k: int)
    requires
        0 <= k < s.len(),
    ensures
        s.take(k + 1).filter(p) == if p(s[k]) {
            s.take(k).filter(p).push(s[k])
        } else {
            s.take(k).filter(p)
        },
{
    reveal(Seq::filter);
    let t = s.take(k + 1);
    assert(t.drop_last() =~= s.take(k));
    assert(t.last() == s[k]);
}

/// Whether the client has timed out at `now`.
pub fn has_timed_out(client: &Client, now: i64) -> (res: bool)
    requires
        now >= i64::MIN + HEARTBEAT_TIMEOUT_SECONDS,
    ensures
        res == timed_out(*client, now),
{
    client.last_heartbeat < now - HEARTBEAT_TIMEOUT_SECONDS
}

/// The ids of the clients among `clients`, in order, that have timed out at `now`: the
/// ones the heartbeat monitor disconnects and whose jobs it requeues.
pub fn timed_out_clients(clients: &[Client], now: i64) -> (res: Vec<String>)
    requires
        now >= i64::MIN + HEARTBEAT_TIMEOUT_SECONDS,
    ensures
        strs(res@) == clients@.filter(timed_out_at(now)).map_values(|c: Client| client_id(c)),
{
    let mut res: Vec<String> = Vec::new();
    let mut k: usize = 0;
    while k < clients.len()
        invariant
            k <= clients.len(),
            now >= i64::MIN + HEARTBEAT_TIMEOUT_SECONDS,
            strs(res@) == clients@.take(k as int).filter(timed_out_at(now)).map_values(
                |c: Client| client_id(c),
            ),
        decreases clients.len() - k,
    {
        let ghost before = res@;
        proof {
            lemma_filter_take(clients@, timed_out_at(now), k as int);
        }
        if has_timed_out(&clients[k], now) {
            let id = clients[k].id.clone();
            res.push(id);
            proof {
                lemma_strs_push(before, id);
                let f = clients@.take(k as int).filter(timed_out_at(now));
                assert(f.push(clients@[k as int]).map_values(|c: Client| client_id(c)) =~= f.map_values(
                    |c: Client| client_id(c),
                ).push(clients@[k as int].id@));
            }
        }
        k = k + 1;
    }
    assert(clients@.take(clients.len() as int) =~= clients@);
    res
}

/// The in-memory registry of connected clients.
pub struct ClientRegistry {
    clients: Vec<Client>,
}

/// The index of the first client with the given id, if any.
pub open spec fn first_with_id(s: Seq<Client>, id: Seq<char>) -> Option<int> {
    if exists|i: int| 0 <= i < s.len() && (#[trigger] s[i]).id@ == id {
        Some(
            choose|i: int|
                0 <= i < s.len() && (#[trigger] s[i]).id@ == id && forall|j: int|
                    0 <= j < i ==> (#[trigger] s[j]).id@ != id,
        )
    } else {
        None
    }
}

impl View for ClientRegistry {
    type V = Seq<Client>;

    closed spec fn view(&self) -> Seq<Client> {
        self.clients@
    }
}

/// The index of the first client with the given id (executable form of
/// [`first_with_id`]).
fn find_client(s: &Vec<Client>, id: &str) -> (res: Option<usize>)
    ensures
        match res {
            Some(i) => i < s.len() && first_with_id(s@, id@) == Some(i as int),
            None => first_with_id(s@, id@) is None,
        },
{
    let mut k: usize = 0;
    while k < s.len()
        invariant
            k <= s.len(),
            forall|j: int| 0 <= j < k ==> (#[trigger] s@[j]).id@ != id@,
        decreases s.len() - k,
    {
        if str_eq(s[k].id.as_str(), id) {
            proof {
                let w = choose|i: int|
                    0 <= i < s@.len() && (#[trigger] s@[i]).id@ == id@ && forall|j: int|
                        0 <= j < i ==> (#[trigger] s@[j]).id@ != id@;
                assert(0 <= k < s@.len() && s@[k as int].id@ == id@);
                if w < k {
                    assert(s@[w].id@ != id@);
                } else if w > k {
                    assert(s@[k as int].id@ != id@);
                }
            }
            return Some(k);
        }
        k = k + 1;
    }
    None
}

impl ClientRegistry {
    /// An empty registry.
    pub fn new() -> (res: Self)
        ensures
            res@ == Seq::<Client>::empty(),
    {
        ClientRegistry { clients: Vec::new() }
    }

    /// The clients held, in the order they were added.
    pub fn clients(&self) -> (res: &Vec<Client>)
        ensures
            res@ == self@,
    {
        &self.clients
    }

    /// Adds a newly registered client at the end.
    pub fn add(&mut self, client: Client)
        ensures
            final(self)@ == old(self)@.push(client),
    {
        self.clients.push(client);
    }

    /// Records a heartbeat at `now` for the first client with the given id; does nothing
    /// when no client has that id.
    pub fn record_heartbeat(&mut self, client_id: &str, now: i64)
        ensures
            match first_with_id(old(self)@, client_id@) {
                Some(i) => final(self)@ == old(self)@.update(i, with_heartbeat(old(self)@[i], now)),
                None => final(self)@ == old(self)@,
            },
    {
        match find_client(&self.clients, client_id) {
            Some(i) => {
                let mut c = self.clients[i].clone();
                c.last_heartbeat = now;
                self.clients.set(i, c);
            },
            None => {},
        }
    }

    /// Removes every client with the given id (a disconnection).
    pub fn remove(&mut self, client_id: &str)
        ensures
            final(self)@ == old(self)@.filter(id_differs(client_id@)),
    {
        let mut old_clients: Vec<Client> = Vec::new();
        std::mem::swap(&mut old_clients, &mut self.clients);
        let mut k: usize = 0;
        while k < old_clients.len()
            invariant
                k <= old_clients.len(),
                old_clients@ == old(self)@,
                self.clients@ == old_clients@.take(k as int).filter(id_differs(client_id@)),
            decreases old_clients.len() - k,
        {
            proof {
                lemma_filter_take(old_clients@, id_differs(client_id@), k as int);
            }
            if !str_eq(old_clients[k].id.as_str(), client_id) {
                let c = old_clients[k].clone();
                self.clients.push(c);
            }
            k = k + 1;
        }
        assert(old_clients@.take(old_clients.len() as int) =~= old_clients@);
    }

    /// Puts a reconnected client in place of the first client with its id, or adds it at
    /// the end when none has that id.
    pub fn upsert(&mut self, client: Client)
        ensures
            match first_with_id(old(self)@, client.id@) {
                Some(i) => final(self)@ == old(self)@.update(i, client),
                None => final(self)@ == old(self)@.push(client),
            },
    {
        match find_client(&self.clients, client.id.as_str()) {
            Some(i) => {
                self.clients.set(i, client);
            },
            None => {
                self.clients.push(client);
            },
        }
    }

    /// Replaces the registry's contents with the given connected clients.
    pub fn refresh(&mut self, connected: Vec<Client>)
        ensures
            final(self)@ == connected@,
    {
        self.clients = connected;
    }
}

} // verus!
