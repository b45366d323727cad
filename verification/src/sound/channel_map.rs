//! map to dynamically assign people in the jam room to mixer slots
//!
//! as people come and go to the room, this map will assign them particular
//! mixer channels.  Each person has two channels, always adjacent.  The local
//! user always has mixer channels 0 and 1, so the room members get the pairs
//! (2, 3), (4, 5), and so on, first free pair first.
use vstd::prelude::*;

use super::mixer::MIXER_CHANNELS;
use crate::search::lemma_least;

verus! {

/// The client id that marks a slot as free.
pub const EMPTY_SLOT: u32 = 40000;

/// How long a room member keeps a slot without sending anything.
pub const EXPIRATION_IN_MICROSECONDS: u128 = 1_000_000;

/// Number of room members that fit besides the local user (who always has
/// the first pair of channels).
pub const NUM_PLAYERS_IN_ROOM: usize = MIXER_CHANNELS / 2 - 1;

/// One room member's slot in the map.
#[derive(PartialEq, Eq, Structural, Debug, Clone, Copy)]
pub struct ClientSlot {
    /// id of the member, or `EMPTY_SLOT`
    pub client_id: u32,
    /// microsecond time the member was last heard from
    pub keep_alive: u128,
    /// sequence number of the member's last packet
    pub last_seq: u32,
}

impl ClientSlot {
    /// The free slot.
    pub open spec fn cleared() -> ClientSlot {
        ClientSlot { client_id: EMPTY_SLOT, keep_alive: 0, last_seq: 0 }
    }

    pub open spec fn spec_is_empty(self) -> bool {
        self.client_id == EMPTY_SLOT
    }

    /// Nothing has been heard from the member for longer than the expiration time.
    pub open spec fn spec_is_old(self, now: u128) -> bool {
        now > self.keep_alive && now - self.keep_alive > EXPIRATION_IN_MICROSECONDS
    }

    pub fn new_empty() -> (s: ClientSlot)
        ensures
            s == ClientSlot::cleared(),
    {
        ClientSlot { client_id: EMPTY_SLOT, keep_alive: 0, last_seq: 0 }
    }

    pub fn is_empty(&self) -> (r: bool)
        ensures
            r == self.spec_is_empty(),
    {
        self.client_id == EMPTY_SLOT
    }

    pub fn is_old(&self, now: u128) -> (r: bool)
        ensures
            r == self.spec_is_old(now),
    {
        now > self.keep_alive && now - self.keep_alive > EXPIRATION_IN_MICROSECONDS
    }
}

/// Slot `i` holds the member `id`.
pub open spec fn holds_id(s: Seq<ClientSlot>, id: u32, i: int) -> bool {
    0 <= i < s.len() && s[i].client_id == id
}

/// Slot `i` is free.
pub open spec fn is_free(s: Seq<ClientSlot>, i: int) -> bool {
    0 <= i < s.len() && s[i].spec_is_empty()
}

/// The first slot that holds `id`, else the first free slot: where a packet
/// from `id` goes.
pub open spec fn slot_for(s: Seq<ClientSlot>, id: u32) -> Option<int> {
    if exists|i: int| holds_id(s, id, i) {
        Some(choose|i: int| holds_id(s, id, i) && forall|j: int| 0 <= j < i ==> !holds_id(s, id, j))
    } else if exists|i: int| is_free(s, i) {
        Some(choose|i: int| is_free(s, i) && forall|j: int| 0 <= j < i ==> !is_free(s, j))
    } else {
        None
    }
}

/// What `slot_for` picks: the first slot holding `id`; failing that, the first
/// free slot; failing that, none.
pub proof fn lemma_slot_for(s: Seq<ClientSlot>, id: u32)
    ensures
        (exists|i: int| holds_id(s, id, i)) ==> ({
            let i = slot_for(s, id)->0;
            &&& slot_for(s, id) is Some
            &&& holds_id(s, id, i)
            &&& forall|j: int| 0 <= j < i ==> !holds_id(s, id, j)
        }),
        (!exists|i: int| holds_id(s, id, i)) && (exists|i: int| is_free(s, i)) ==> ({
            let i = slot_for(s, id)->0;
            &&& slot_for(s, id) is Some
            &&& is_free(s, i)
            &&& forall|j: int| 0 <= j < i ==> !is_free(s, j)
        }),
        (!exists|i: int| holds_id(s, id, i)) && (!exists|i: int| is_free(s, i)) ==> slot_for(s, id) is None,
{
    if exists|i: int| holds_id(s, id, i) {
        let w = choose|i: int| holds_id(s, id, i);
        let p = |i: int| holds_id(s, id, i);
        lemma_least(p, w);
        let i0 = choose|i: int| 0 <= i && #[trigger] p(i) && forall|j: int| 0 <= j < i ==> !#[trigger] p(j);
        assert(holds_id(s, id, i0) && forall|j: int| 0 <= j < i0 ==> !holds_id(s, id, j)) by {
            assert(p(i0));
            assert forall|j: int| 0 <= j < i0 implies !holds_id(s, id, j) by {
                assert(!p(j));
            }
        }
    } else if exists|i: int| is_free(s, i) {
        let w = choose|i: int| is_free(s, i);
        let p = |i: int| is_free(s, i);
        lemma_least(p, w);
        let i0 = choose|i: int| 0 <= i && #[trigger] p(i) && forall|j: int| 0 <= j < i ==> !#[trigger] p(j);
        assert(is_free(s, i0) && forall|j: int| 0 <= j < i0 ==> !is_free(s, j)) by {
            assert(p(i0));
            assert forall|j: int| 0 <= j < i0 implies !is_free(s, j) by {
                assert(!p(j));
            }
        }
    }
}

/// No member holds two slots.
pub open spec fn ids_unique(s: Seq<ClientSlot>) -> bool {
    forall|i: int, j: int|
        0 <= i < s.len() && 0 <= j < s.len() && i != j && #[trigger] s[i].client_id == #[trigger] s[j].client_id
            ==> s[i].spec_is_empty()
}

/// The mixer channel of slot `i` (its pair is the next channel).
pub open spec fn channel_of_slot(i: int) -> int {
    (i + 1) * 2
}

/// Map of the clients.
///
/// There is no specific "add" function.  when you search for an ID and it's
/// not in the map, it will be added for you as long as there is room
pub struct ChannelMap {
    players: Vec<ClientSlot>,
}

impl ChannelMap {
    /// The slots, in mixer order.
    pub closed spec fn slots(&self) -> Seq<ClientSlot> {
        self.players@
    }

    /// The map always has one slot per possible room member, and no member
    /// holds two slots.
    pub open spec fn wf(&self) -> bool {
        &&& self.slots().len() == NUM_PLAYERS_IN_ROOM
        &&& ids_unique(self.slots())
    }

    /// Build a map with every slot free.
    pub fn new() -> (m: ChannelMap)
        ensures
            m.wf(),
            forall|i: int| 0 <= i < NUM_PLAYERS_IN_ROOM ==> #[trigger] m.slots()[i] == ClientSlot::cleared(),
    {
        let mut players: Vec<ClientSlot> = Vec::new();
        let mut k: usize = 0;
        while k < NUM_PLAYERS_IN_ROOM
            invariant
                k <= NUM_PLAYERS_IN_ROOM,
                players@.len() == k,
                forall|i: int| 0 <= i < k ==> #[trigger] players@[i] == ClientSlot::cleared(),
            decreases NUM_PLAYERS_IN_ROOM - k,
        {
            players.push(ClientSlot::new_empty());
            k = k + 1;
        }
        ChannelMap { players }
    }

    /// Mark all the slots as empty
    pub fn clear(&mut self)
        requires
            old(self).wf(),
        ensures
            final(self).wf(),
            forall|i: int| 0 <= i < NUM_PLAYERS_IN_ROOM ==> #[trigger] final(self).slots()[i] == ClientSlot::cleared(),
    {
        let n = self.players.len();
        let mut k: usize = 0;
        while k < n
            invariant
                n == NUM_PLAYERS_IN_ROOM,
                k <= n,
                self.players@.len() == n,
                forall|i: int| 0 <= i < k ==> #[trigger] self.players@[i] == ClientSlot::cleared(),
            decreases n - k,
        {
            self.players.set(k, ClientSlot::new_empty());
            k = k + 1;
        }
    }

    /// Free the slots of members that have not been heard from for longer than
    /// the expiration time (the guy left).
    pub fn prune(&mut self, now: u128)
        requires
            old(self).wf(),
        ensures
            final(self).wf(),
            forall|i: int| 0 <= i < NUM_PLAYERS_IN_ROOM ==> #[trigger] final(self).slots()[i] == if !old(self).slots()[i].spec_is_empty() && old(self).slots()[i].spec_is_old(now) {
                ClientSlot::cleared()
            } else {
                old(self).slots()[i]
            },
    {
        let n = self.players.len();
        let mut k: usize = 0;
        while k < n
            invariant
                n == NUM_PLAYERS_IN_ROOM,
                k <= n,
                self.players@.len() == n,
                forall|i: int| 0 <= i < k ==> #[trigger] self.players@[i] == if !old(self).slots()[i].spec_is_empty() && old(self).slots()[i].spec_is_old(now) {
                    ClientSlot::cleared()
                } else {
                    old(self).slots()[i]
                },
                forall|i: int| k <= i < n ==> #[trigger] self.players@[i] == old(self).slots()[i],
            decreases n - k,
        {
            let c = self.players[k];
            if !c.is_empty() && c.is_old(now) {
                self.players.set(k, ClientSlot::new_empty());
            }
            k = k + 1;
        }
        proof {
            let s = self.players@;
            assert forall|i: int, j: int|
                0 <= i < s.len() && 0 <= j < s.len() && i != j && #[trigger] s[i].client_id == #[trigger] s[j].client_id
                implies s[i].spec_is_empty() by {
                assert(old(self).slots()[i].client_id == s[i].client_id || s[i].spec_is_empty());
                assert(old(self).slots()[j].client_id == s[j].client_id || s[j].spec_is_empty());
            }
        }
    }

    /// The slots, for reporting the room members.
    pub fn get_clients(&self) -> (r: &[ClientSlot])
        ensures
            r@ == self.slots(),
    {
        self.players.as_slice()
    }

    /// The first mixer channel of the member `id` (the member has this channel
    /// and the next).  A member not yet in the map gets the first free slot;
    /// `None` when the room is full.  The member's slot records `now` and `seq`.
    pub fn get_loc_channel(&mut self, id: u32, now: u128, seq: u32) -> (r: Option<usize>)
        requires
            old(self).wf(),
        ensures
            final(self).wf(),
            match slot_for(old(self).slots(), id) {
                Some(i) => r == Some(channel_of_slot(i) as usize)
                    && final(self).slots() == old(self).slots().update(i, ClientSlot { client_id: id, keep_alive: now, last_seq: seq }),
                None => r is None && final(self).slots() == old(self).slots(),
            },
    {
        let ghost s = self.players@;
        let n = self.players.len();
        let mut k: usize = 0;
        while k < n
            invariant
                n == s.len(),
                n == NUM_PLAYERS_IN_ROOM,
                ids_unique(s),
                old(self).slots() == s,
                k <= n,
                self.players@ == s,
                forall|j: int| 0 <= j < k ==> s[j].client_id != id,
            decreases n - k,
        {
            if self.players[k].client_id == id {
                self.players.set(k, ClientSlot { client_id: id, keep_alive: now, last_seq: seq });
                proof {
                    assert(holds_id(s, id, k as int));
                    lemma_slot_for(s, id);
                    let i = slot_for(s, id)->0;
                    assert(i == k as int) by {
                        if i > k {
                            assert(holds_id(s, id, k as int));
                        }
                    }
                    lemma_update_keeps_unique(s, k as int, id, now, seq);
                }
                return Some((k + 1) * 2);
            }
            k = k + 1;
        }
        let mut k: usize = 0;
        while k < n
            invariant
                n == s.len(),
                n == NUM_PLAYERS_IN_ROOM,
                ids_unique(s),
                old(self).slots() == s,
                k <= n,
                self.players@ == s,
                forall|j: int| 0 <= j < n ==> s[j].client_id != id,
                forall|j: int| 0 <= j < k ==> !s[j].spec_is_empty(),
            decreases n - k,
        {
            if self.players[k].is_empty() {
                self.players.set(k, ClientSlot { client_id: id, keep_alive: now, last_seq: seq });
                proof {
                    assert(is_free(s, k as int));
                    assert(!exists|i: int| holds_id(s, id, i));
                    lemma_slot_for(s, id);
                    let i = slot_for(s, id)->0;
                    assert(i == k as int) by {
                        if i > k {
                            assert(is_free(s, k as int));
                        }
                    }
                    lemma_update_keeps_unique(s, k as int, id, now, seq);
                }
                return Some((k + 1) * 2);
            }
            k = k + 1;
        }
        proof {
            assert(!exists|i: int| holds_id(s, id, i));
            assert(!exists|i: int| is_free(s, i));
            lemma_slot_for(s, id);
        }
        None
    }
}

/// Writing a member into a slot keeps members unique, when the member held no
/// other slot.
proof fn lemma_update_keeps_unique(s: Seq<ClientSlot>, k: int, id: u32, now: u128, seq: u32)
    requires
        ids_unique(s),
        0 <= k < s.len(),
        forall|j: int| 0 <= j < s.len() && j != k ==> s[j].client_id != id || s[j].spec_is_empty(),
    ensures
        ids_unique(s.update(k, ClientSlot { client_id: id, keep_alive: now, last_seq: seq })),
{
    let t = s.update(k, ClientSlot { client_id: id, keep_alive: now, last_seq: seq });
    assert forall|i: int, j: int|
        0 <= i < t.len() && 0 <= j < t.len() && i != j && #[trigger] t[i].client_id == #[trigger] t[j].client_id
        implies t[i].spec_is_empty() by {
        if i == k {
            assert(s[j].client_id == id);
        } else if j == k {
            assert(s[i].client_id == id);
        } else {
            assert(s[i].client_id == s[j].client_id);
        }
    }
}

/// The channel pair given to a room member is always a pair of mixer channels
/// other than the local user's: an even channel from 2 on, with its pair below
/// `MIXER_CHANNELS`.
pub proof fn lemma_slot_channel_in_mixer(s: Seq<ClientSlot>, id: u32)
    requires
        s.len() == NUM_PLAYERS_IN_ROOM,
    ensures
        slot_for(s, id) matches Some(i) ==> {
            &&& 0 <= i < NUM_PLAYERS_IN_ROOM
            &&& 2 <= channel_of_slot(i)
            &&& channel_of_slot(i) + 1 < MIXER_CHANNELS
            &&& channel_of_slot(i) % 2 == 0
        },
{
    lemma_slot_for(s, id);
}

/// A member keeps its channels: once a packet from `id` has been placed in slot
/// `i`, the next packet from `id` goes to slot `i` too.
pub proof fn lemma_member_keeps_slot(s: Seq<ClientSlot>, id: u32, now: u128, seq: u32)
    requires
        ids_unique(s),
        slot_for(s, id) is Some,
    ensures
        ({
            let i = slot_for(s, id)->0;
            let t = s.update(i, ClientSlot { client_id: id, keep_alive: now, last_seq: seq });
            slot_for(t, id) == Some(i)
        }),
{
    lemma_slot_for(s, id);
    let i = slot_for(s, id)->0;
    let t = s.update(i, ClientSlot { client_id: id, keep_alive: now, last_seq: seq });
    assert(holds_id(t, id, i));
    lemma_slot_for(t, id);
    let k = slot_for(t, id)->0;
    if k < i {
        assert(t[k] == s[k]);
        assert(holds_id(s, id, k));
        if !exists|j: int| holds_id(s, id, j) {
            assert(false);
        }
    } else if k > i {
        assert(holds_id(t, id, i));
    }
}

/// Two different members never share channels: after a packet from `a` took
/// slot `i`, a packet from another member `b` goes elsewhere.
pub proof fn lemma_members_get_different_slots(s: Seq<ClientSlot>, a: u32, b: u32, now: u128, seq: u32)
    requires
        ids_unique(s),
        a != b,
        a != EMPTY_SLOT,
        slot_for(s, a) is Some,
    ensures
        ({
            let i = slot_for(s, a)->0;
            let t = s.update(i, ClientSlot { client_id: a, keep_alive: now, last_seq: seq });
            slot_for(t, b) != Some(i)
        }),
{
    lemma_slot_for(s, a);
    let i = slot_for(s, a)->0;
    let t = s.update(i, ClientSlot { client_id: a, keep_alive: now, last_seq: seq });
    assert(t[i].client_id == a);
    assert(!is_free(t, i));
    assert(!holds_id(t, b, i));
    lemma_slot_for(t, b);
}

} // verus!
