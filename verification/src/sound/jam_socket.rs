//! connection state of the UDP socket used to send and receive audio data to the room
//!
//! although the socket is UDP based, it does have a connect/disconnect
//! function which basically holds the state of which server the thing
//! is pointed at, the client id the unit has in the room, and the sequence
//! number of the next packet.  Every packet sent while connected is stamped
//! with the client id and the next sequence number.
use vstd::prelude::*;

verus! {

broadcast use vstd::string::group_string_axioms;

/// The header values stamped on a packet before it is sent.
#[derive(PartialEq, Eq, Structural, Debug, Clone, Copy)]
pub struct PacketStamp {
    pub sample_rate: u32,
    pub client_id: u32,
    pub sequence_num: u32,
}

/// Why a packet could not be sent.
#[derive(PartialEq, Eq, Structural, Debug, Clone, Copy)]
pub enum SendError {
    /// the socket is not connected to a room
    NotConnected,
}

/// The connection of the unit to a broadcast server.
pub struct JamConnection {
    client_id: Option<i64>,
    host: String,
    port: i64,
    seq_no: u32,
}

impl JamConnection {
    pub closed spec fn client_id(&self) -> Option<i64> {
        self.client_id
    }

    pub closed spec fn host(&self) -> Seq<char> {
        self.host@
    }

    pub closed spec fn port(&self) -> i64 {
        self.port
    }

    /// sequence number of the next packet
    pub closed spec fn seq_no(&self) -> u32 {
        self.seq_no
    }

    /// A connection pointed at no server.
    pub fn new() -> (c: JamConnection)
        ensures
            c.client_id() is None,
            c.host() == Seq::<char>::empty(),
            c.port() == 0,
            c.seq_no() == 0,
    {
        JamConnection { client_id: None, host: String::new(), port: 0, seq_no: 0 }
    }

    /// Point the connection at the broadcast server `host:port`, as member `id`.
    pub fn connect(&mut self, host: &str, port: i64, id: i64)
        ensures
            final(self).client_id() == Some(id),
            final(self).host() == host@,
            final(self).port() == port,
            final(self).seq_no() == old(self).seq_no(),
    {
        self.host = host.to_string();
        self.port = port;
        self.client_id = Some(id);
    }

    /// clear out server state data.
    pub fn disconnect(&mut self)
        ensures
            final(self).client_id() is None,
            final(self).host() == Seq::<char>::empty(),
            final(self).port() == old(self).port(),
            final(self).seq_no() == 0,
    {
        self.host = String::new();
        self.client_id = None;
        self.seq_no = 0;
    }

    /// Are we currently linked to a broadcast unit
    pub fn is_connected(&self) -> (r: bool)
        ensures
            r == self.client_id() is Some,
    {
        self.client_id.is_some()
    }

    /// The server the connection points at.
    pub fn server(&self) -> (r: (&str, i64))
        ensures
            r.0@ == self.host(),
            r.1 == self.port(),
    {
        (self.host.as_str(), self.port)
    }

    /// The header for the next packet to send: sample rate 0, the client id
    /// (its low 32 bits), and the next sequence number, which then moves on
    /// (wrapping after `u32::MAX`).  Fails when not connected, and then
    /// nothing changes.
    pub fn next_stamp(&mut self) -> (r: Result<PacketStamp, SendError>)
        ensures
            match old(self).client_id() {
                Some(id) => {
                    &&& r == Ok::<PacketStamp, SendError>(PacketStamp { sample_rate: 0, client_id: id as u32, sequence_num: old(self).seq_no() })
                    &&& final(self).seq_no() == (if old(self).seq_no() == u32::MAX { 0 } else { (old(self).seq_no() + 1) as u32 })
                },
                None => r == Err::<PacketStamp, SendError>(SendError::NotConnected) && final(self).seq_no() == old(self).seq_no(),
            },
            final(self).client_id() == old(self).client_id(),
            final(self).host() == old(self).host(),
            final(self).port() == old(self).port(),
    {
        match self.client_id {
            Some(id) => {
                let stamp = PacketStamp { sample_rate: 0, client_id: id as u32, sequence_num: self.seq_no };
                self.seq_no = self.seq_no.wrapping_add(1);
                Ok(stamp)
            },
            None => Err(SendError::NotConnected),
        }
    }
}

/// Packets sent in a row carry consecutive sequence numbers: two stamps taken
/// one after the other while connected differ by one (modulo 2^32).
pub proof fn lemma_consecutive_stamps(seq: u32)
    ensures
        ((if seq == u32::MAX { 0 } else { (seq + 1) as u32 }) as int) == (seq as int + 1) % 0x1_0000_0000,
{
}

} // verus!
