//! List of current players in the room.  Used to multicast to them
//!
//! The broadcast component will add/remove sound components to the room using
//! this list.
use vstd::prelude::*;

use crate::search::lemma_least;

verus! {

/// This is how long a player lasts until we boot them (if they go silent)
pub const SERVER_EXPIRATION_IN_MICROSECONDS: u128 = 500000;

/// Only measure loop times up to 100msec
pub const MAX_LOOP_TIME: u128 = 100_000;

/// The network address of a player: an IP address and a port, as a socket
/// address has them.  Two addresses are the same when all their parts are.
#[derive(PartialEq, Eq, Structural, Debug, Clone, Copy)]
pub enum PeerAddr {
    V4 { ip: u32, port: u16 },
    V6 { ip_v6: u128, port_v6: u16, flowinfo: u32, scope_id: u32 },
}

///  structure that represents a player.
///
/// - client_id - assigned by the rtjam-nation to the player when they join a room
/// - keep_alive - microsecond timestamp of the last time we saw this person
/// - address - IP address to where we will forward packets
/// - loop_time - the latest round trip time measured for the player, in microseconds
#[derive(PartialEq, Eq, Structural, Debug, Clone, Copy)]
pub struct Player {
    pub client_id: u32,
    pub keep_alive: u128,
    pub address: PeerAddr,
    pub loop_time: Option<u128>,
}

/// The player after a packet from it came in at `now_time`: a packet newer
/// than the last one refreshes the id and the time, and records the loop time
/// when it is under `MAX_LOOP_TIME`; an older packet changes nothing.
pub open spec fn updated_player(p: Player, now_time: u128, id: u32, loop_time: u128) -> Player {
    if now_time > p.keep_alive {
        Player {
            client_id: id,
            keep_alive: now_time,
            address: p.address,
            loop_time: if loop_time < MAX_LOOP_TIME { Some(loop_time) } else { p.loop_time },
        }
    } else {
        p
    }
}

impl Player {
    pub fn new(now_time: u128, id: u32, addr: PeerAddr) -> (p: Player)
        ensures
            p == (Player { client_id: id, keep_alive: now_time, address: addr, loop_time: None }),
    {
        Player { client_id: id, keep_alive: now_time, address: addr, loop_time: None }
    }

    /// Microseconds since the player was last heard from.
    pub fn age(&self, now_time: u128) -> (a: u128)
        requires
            now_time >= self.keep_alive,
        ensures
            a == now_time - self.keep_alive,
    {
        now_time - self.keep_alive
    }

    pub fn update(&mut self, now_time: u128, id: u32, loop_time: u128)
        ensures
            *final(self) == updated_player(*old(self), now_time, id, loop_time),
    {
        if now_time > self.keep_alive {
            if loop_time < MAX_LOOP_TIME {
                // Only count loop times less than 100msec
                self.loop_time = Some(loop_time);
            }
            self.keep_alive = now_time;
            self.client_id = id;
        }
    }
}

/// Slot `i` of `s` has the address `addr`.
pub open spec fn has_addr(s: Seq<Player>, addr: PeerAddr, i: int) -> bool {
    0 <= i < s.len() && s[i].address == addr
}

/// The position of the player with address `addr`, if any.
pub open spec fn index_of_addr(s: Seq<Player>, addr: PeerAddr) -> Option<int> {
    if exists|i: int| has_addr(s, addr, i) {
        Some(choose|i: int| has_addr(s, addr, i) && forall|j: int| 0 <= j < i ==> !has_addr(s, addr, j))
    } else {
        None
    }
}

/// No two players share an address.
pub open spec fn addresses_unique(s: Seq<Player>) -> bool {
    forall|i: int, j: int| 0 <= i < s.len() && 0 <= j < s.len() && i != j ==> s[i].address != s[j].address
}

/// The player is still in the room at `now_time`: it was heard from less than
/// the expiration time ago.
pub open spec fn is_current(p: Player, now_time: u128) -> bool {
    p.keep_alive + SERVER_EXPIRATION_IN_MICROSECONDS > now_time
}

/// The players that are still in the room, in order.
pub open spec fn current_players(s: Seq<Player>, now_time: u128) -> Seq<Player>
    decreases s.len(),
{
    if s.len() == 0 {
        s
    } else {
        let rest = current_players(s.drop_last(), now_time);
        if is_current(s.last(), now_time) { rest.push(s.last()) } else { rest }
    }
}

/// What `index_of_addr` picks: the first player with the address, if any.
pub proof fn lemma_index_of_addr(s: Seq<Player>, addr: PeerAddr)
    ensures
        (exists|i: int| has_addr(s, addr, i)) ==> ({
            let i = index_of_addr(s, addr)->0;
            &&& index_of_addr(s, addr) is Some
            &&& has_addr(s, addr, i)
            &&& forall|j: int| 0 <= j < i ==> !has_addr(s, addr, j)
        }),
        (!exists|i: int| has_addr(s, addr, i)) ==> index_of_addr(s, addr) is None,
{
    if exists|i: int| has_addr(s, addr, i) {
        let w = choose|i: int| has_addr(s, addr, i);
        let p = |i: int| has_addr(s, addr, i);
        lemma_least(p, w);
        let i0 = choose|i: int| 0 <= i && #[trigger] p(i) && forall|j: int| 0 <= j < i ==> !#[trigger] p(j);
        assert(has_addr(s, addr, i0) && forall|j: int| 0 <= j < i0 ==> !has_addr(s, addr, j)) by {
            assert(p(i0));
            assert forall|j: int| 0 <= j < i0 implies !has_addr(s, addr, j) by {
                assert(!p(j));
            }
        }
    }
}

/// The players after a packet from `id` at `addr` came in at `now_time` with
/// loop time `loop_time`: the player with that address is updated, or a new
/// player is added at the end.
pub open spec fn after_packet(s: Seq<Player>, now_time: u128, loop_time: u128, id: u32, addr: PeerAddr) -> Seq<Player> {
    match index_of_addr(s, addr) {
        Some(i) => s.update(i, updated_player(s[i], now_time, id, loop_time)),
        None => s.push(Player { client_id: id, keep_alive: now_time, address: addr, loop_time: None }),
    }
}

/// Structure to hold the list of players
pub struct PlayerList {
    pub players: Vec<Player>,
}

impl PlayerList {
    /// Every player has an address of its own.
    pub open spec fn wf(&self) -> bool {
        addresses_unique(self.players@)
    }

    pub fn new() -> (l: PlayerList)
        ensures
            l.wf(),
            l.players@ == Seq::<Player>::empty(),
    {
        PlayerList { players: Vec::new() }
    }

    /// tell if the player is allowed in the room.  Everybody is allowed.
    pub fn is_allowed(&self, _id: u32) -> (r: bool)
        ensures
            r,
    {
        true
    }

    /// update the keepalive for this player (found by ip address)
    ///
    /// called when we receive a packet from a player.  A player not yet in the
    /// list is added at the end.
    pub fn update_player(&mut self, now_time: u128, loop_time: u128, id: u32, addr: PeerAddr)
        requires
            old(self).wf(),
        ensures
            final(self).wf(),
            final(self).players@ == after_packet(old(self).players@, now_time, loop_time, id, addr),
    {
        let ghost s = self.players@;
        let n = self.players.len();
        let mut k: usize = 0;
        while k < n
            invariant
                n == s.len(),
                k <= n,
                self.players@ == s,
                old(self).players@ == s,
                addresses_unique(s),
                forall|j: int| 0 <= j < k ==> !has_addr(s, addr, j),
            decreases n - k,
        {
            if self.players[k].address == addr {
                let mut p = self.players[k];
                p.update(now_time, id, loop_time);
                self.players.set(k, p);
                proof {
                    assert(has_addr(s, addr, k as int));
                    lemma_index_of_addr(s, addr);
                    let i = index_of_addr(s, addr)->0;
                    assert(i == k as int) by {
                        if i > k {
                            assert(has_addr(s, addr, k as int));
                        }
                    }
                    let t = self.players@;
                    assert forall|a: int, b: int| 0 <= a < t.len() && 0 <= b < t.len() && a != b implies t[a].address != t[b].address by {
                        assert(t[a].address == s[a].address);
                        assert(t[b].address == s[b].address);
                    }
                }
                return;
            }
            k = k + 1;
        }
        // If we got here, we don't know this guy.  add him
        self.players.push(Player::new(now_time, id, addr));
        proof {
            lemma_index_of_addr(s, addr);
            let t = self.players@;
            assert forall|a: int, b: int| 0 <= a < t.len() && 0 <= b < t.len() && a != b implies t[a].address != t[b].address by {
                if a == s.len() {
                    assert(!has_addr(s, addr, b));
                } else if b == s.len() {
                    assert(!has_addr(s, addr, a));
                }
            }
        }
    }

    /// look for any player entries that have timed out and drop them
    pub fn prune(&mut self, now_time: u128)
        ensures
            old(self).wf() ==> final(self).wf(),
            final(self).players@ == current_players(old(self).players@, now_time),
    {
        let ghost s = self.players@;
        let mut kept: Vec<Player> = Vec::new();
        let n = self.players.len();
        let mut k: usize = 0;
        while k < n
            invariant
                n == s.len(),
                k <= n,
                self.players@ == s,
                kept@ == current_players(s.subrange(0, k as int), now_time),
            decreases n - k,
        {
            let p = self.players[k];
            proof {
                assert(s.subrange(0, k + 1).drop_last() =~= s.subrange(0, k as int));
            }
            // keep it when keep_alive + SERVER_EXPIRATION_IN_MICROSECONDS > now_time
            if now_time < SERVER_EXPIRATION_IN_MICROSECONDS || p.keep_alive > now_time - SERVER_EXPIRATION_IN_MICROSECONDS {
                kept.push(p);
            }
            k = k + 1;
        }
        proof {
            assert(s.subrange(0, n as int) =~= s);
            if addresses_unique(s) {
                lemma_current_players_subset(s, now_time);
            }
        }
        self.players = kept;
    }

    /// Get a list of players to iterate though
    pub fn get_players(&self) -> (r: &[Player])
        ensures
            r@ == self.players@,
    {
        self.players.as_slice()
    }
}

/// The players still in the room are players of the room, so they keep
/// distinct addresses.
proof fn lemma_current_players_subset(s: Seq<Player>, now_time: u128)
    requires
        addresses_unique(s),
    ensures
        addresses_unique(current_players(s, now_time)),
        forall|i: int| 0 <= i < current_players(s, now_time).len() ==> s.contains(#[trigger] current_players(s, now_time)[i]),
    decreases s.len(),
{
    if s.len() > 0 {
        let d = s.drop_last();
        assert(addresses_unique(d));
        lemma_current_players_subset(d, now_time);
        let r = current_players(d, now_time);
        assert forall|i: int| 0 <= i < r.len() implies #[trigger] r[i].address != s.last().address by {
            let j = choose|j: int| 0 <= j < d.len() && d[j] == r[i];
            assert(s[j] == d[j]);
        }
        assert forall|i: int| 0 <= i < r.len() implies s.contains(#[trigger] r[i]) by {
            let j = choose|j: int| 0 <= j < d.len() && d[j] == r[i];
            assert(s[j] == r[i]);
        }
        if is_current(s.last(), now_time) {
            assert(s[s.len() - 1] == s.last());
        }
    }
}

/// Pruning keeps exactly the players that are still in the room.
pub proof fn lemma_prune_keeps_current(s: Seq<Player>, now_time: u128, p: Player)
    ensures
        current_players(s, now_time).contains(p) <==> (s.contains(p) && is_current(p, now_time)),
    decreases s.len(),
{
    if s.len() > 0 {
        let d = s.drop_last();
        lemma_prune_keeps_current(d, now_time, p);
        let r = current_players(d, now_time);
        let c = current_players(s, now_time);
        if s.contains(p) && is_current(p, now_time) {
            let j = choose|j: int| 0 <= j < s.len() && s[j] == p;
            if j < s.len() - 1 {
                assert(d[j] == p);
                assert(d.contains(p));
                assert(r.contains(p));
                let k = choose|k: int| 0 <= k < r.len() && r[k] == p;
                assert(c[k] == p);
            } else {
                assert(c[c.len() - 1] == p);
            }
            assert(c.contains(p));
        }
        if c.contains(p) {
            let j = choose|j: int| 0 <= j < c.len() && c[j] == p;
            if is_current(s.last(), now_time) && j == r.len() {
                assert(s[s.len() - 1] == p);
                assert(s.contains(p));
            } else {
                assert(r[j] == p);
                assert(r.contains(p));
                let k = choose|k: int| 0 <= k < d.len() && d[k] == p;
                assert(s[k] == p);
                assert(s.contains(p));
            }
        }
    }
}

/// After a packet from `addr` the list holds one player with that address,
/// last heard from no earlier than the packet.
pub proof fn lemma_update_then_present(s: Seq<Player>, t: Seq<Player>, now_time: u128, loop_time: u128, id: u32, addr: PeerAddr)
    requires
        addresses_unique(s),
        addresses_unique(t),
        t == after_packet(s, now_time, loop_time, id, addr),
    ensures
        index_of_addr(t, addr) matches Some(i) && t[i].keep_alive >= now_time,
        forall|i: int, j: int| has_addr(t, addr, i) && has_addr(t, addr, j) ==> i == j,
{
    lemma_index_of_addr(s, addr);
    match index_of_addr(s, addr) {
        Some(i) => {
            assert(has_addr(t, addr, i));
        },
        None => {
            assert(has_addr(t, addr, s.len() as int));
        },
    }
    lemma_index_of_addr(t, addr);
}

} // verus!
