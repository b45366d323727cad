//! the decisions of the room's audio loop, which listens for packets from
//! sound components and multicasts them to the people in the room
//!
//! For each packet from a player the loop measures the player's loop time
//! (how long the server's own timestamp took to come back), then sends the
//! packet on to every other player.  The sender gets the packet header only,
//! so that its timestamp keeps looping, but not its own audio.
use vstd::prelude::*;

use super::cmd_message::{RoomCommandMessage, RoomParam};
use super::metronome::Metronome;
use super::player_list::{after_packet, current_players, PeerAddr, Player, PlayerList, MAX_LOOP_TIME};

verus! {

/// The loop time of a packet that carries the server time `packet_time` and
/// arrives at `now_time`; a packet stamped in the future counts as too slow to
/// measure.
pub open spec fn spec_loop_time(now_time: u128, packet_time: u128) -> u128 {
    if now_time > packet_time { (now_time - packet_time) as u128 } else { MAX_LOOP_TIME }
}

/// The loop time of a packet that carries the server time `packet_time` and
/// arrives at `now_time`.
pub fn loop_time(now_time: u128, packet_time: u128) -> (r: u128)
    ensures
        r == spec_loop_time(now_time, packet_time),
{
    if now_time > packet_time {
        now_time - packet_time
    } else {
        MAX_LOOP_TIME
    }
}

/// Where a packet goes and how much of it.
#[derive(PartialEq, Eq, Structural, Debug, Clone, Copy)]
pub struct Forward {
    pub address: PeerAddr,
    /// the whole packet, or only its header
    pub whole_packet: bool,
}

/// The sends for a packet from `src`: one per player, in order, the whole
/// packet to everybody but the sender.
pub open spec fn spec_broadcast_targets(players: Seq<Player>, src: PeerAddr) -> Seq<Forward> {
    Seq::new(players.len(), |i: int| Forward { address: players[i].address, whole_packet: players[i].address != src })
}

/// The sends for a packet from `src` to the players of the room.
pub fn broadcast_targets(players: &[Player], src: PeerAddr) -> (r: Vec<Forward>)
    ensures
        r@ == spec_broadcast_targets(players@, src),
{
    let mut out: Vec<Forward> = Vec::new();
    let n = players.len();
    let mut i: usize = 0;
    while i < n
        invariant
            n == players@.len(),
            i <= n,
            out@ =~= spec_broadcast_targets(players@.take(i as int), src),
        decreases n - i,
    {
        let p = players[i];
        out.push(Forward { address: p.address, whole_packet: p.address != src });
        i = i + 1;
        proof {
            assert(spec_broadcast_targets(players@.take(i as int), src) =~= spec_broadcast_targets(players@.take(i - 1), src).push(
                Forward { address: p.address, whole_packet: p.address != src },
            ));
        }
    }
    proof {
        assert(players@.take(n as int) =~= players@);
    }
    out
}

/// No echo: a sender never gets its own audio back, and every other player
/// gets the whole packet.
pub proof fn lemma_no_echo(players: Seq<Player>, src: PeerAddr, i: int)
    requires
        0 <= i < players.len(),
    ensures
        spec_broadcast_targets(players, src)[i].whole_packet <==> players[i].address != src,
        spec_broadcast_targets(players, src)[i].address == players[i].address,
        spec_broadcast_targets(players, src).len() == players.len(),
{
}

/// Apply a command to the room: a tempo command sets the metronome's tempo
/// (the integer value, in beats per minute; zero is ignored); the other
/// commands do not concern the audio loop.  Returns whether the command was
/// one for the audio loop.
pub fn apply_room_command(met: &mut Metronome, msg: &RoomCommandMessage) -> (handled: bool)
    requires
        old(met).wf(),
    ensures
        final(met).wf(),
        handled == (msg.param == RoomParam::SetTempo),
        final(met).beat() == old(met).beat(),
        handled && msg.ivalue_1 != 0 ==> final(met).tempo() == msg.ivalue_1 as u128
            && final(met).interval() == super::metronome::MICROS_PER_MINUTE / (msg.ivalue_1 as u128),
        !(handled && msg.ivalue_1 != 0) ==> final(met).tempo() == old(met).tempo() && final(met).interval() == old(met).interval(),
{
    match msg.param {
        RoomParam::SetTempo => {
            let v = msg.ivalue_1;
            assert(v != 0 ==> (v as u128) != 0) by (bit_vector);
            met.set_tempo(v as u128);
            true
        },
        _ => false,
    }
}

/// A packet from a player, as the room's audio loop reads it: the sender's
/// client id, the server time it carries back, and where it came from.
#[derive(PartialEq, Eq, Structural, Debug, Clone, Copy)]
pub struct PacketIn {
    pub client_id: u32,
    pub server_time: u128,
    pub src: PeerAddr,
}

/// What the room does with a packet: the beat to stamp on it, and where it
/// goes.
pub struct RoomStep {
    pub beat: u8,
    pub forwards: Vec<Forward>,
}

/// One turn of the room's audio loop at `now_time`.  Players silent for too
/// long leave the room.  A packet, when one came in, refreshes its sender's
/// entry (with the packet's loop time, adding the sender if it is new), is
/// stamped with the metronome's beat, and goes to every player in the room,
/// the sender getting the header only.
pub fn room_step(players: &mut PlayerList, met: &mut Metronome, now_time: u128, packet: Option<PacketIn>) -> (r: Option<RoomStep>)
    requires
        old(players).wf(),
        old(met).wf(),
        old(met).interval() > 0,
    ensures
        final(players).wf(),
        final(met).wf(),
        final(met).tempo() == old(met).tempo(),
        final(met).interval() == old(met).interval(),
        ({
            let pruned = current_players(old(players).players@, now_time);
            match packet {
                None => r is None && final(players).players@ == pruned && final(met).beat() == old(met).beat(),
                Some(p) => {
                    let updated = after_packet(pruned, now_time, spec_loop_time(now_time, p.server_time), p.client_id, p.src);
                    &&& final(players).players@ == updated
                    &&& r matches Some(st) && st.beat == (now_time / old(met).interval()) % 4
                        && st.forwards@ == spec_broadcast_targets(updated, p.src)
                },
            }
        }),
{
    players.prune(now_time);
    match packet {
        None => None,
        Some(p) => {
            if !players.is_allowed(p.client_id) {
                return None;
            }
            let lt = loop_time(now_time, p.server_time);
            players.update_player(now_time, lt, p.client_id, p.src);
            let beat = met.get_beat(now_time);
            let forwards = broadcast_targets(players.get_players(), p.src);
            Some(RoomStep { beat, forwards })
        },
    }
}

} // verus!
