//! The L2CAP transport under the AAP session: the address of a raw socket, and
//! what one send means.
use crate::address::Address;
use vstd::prelude::*;
use vstd::string::*;

verus! {

/// The Bluetooth address family.
pub const AF_BLUETOOTH: u16 = 31;

/// The address type of a classic Bluetooth device.
pub const BDADDR_BREDR: u8 = 0;

/// `struct sockaddr_l2`: the address of an L2CAP socket as the kernel takes
/// it.
#[derive(Debug, Clone, Copy, PartialEq, Eq)]
pub struct SockaddrL2 {
    /// Address family.
    pub l2_family: u16,
    /// Protocol/service multiplexer.
    pub l2_psm: u16,
    /// Device address, in reverse of display order.
    pub l2_bdaddr: [u8; 6],
    /// Channel id; zero unless a fixed channel is meant.
    pub l2_cid: u16,
    /// Address type.
    pub l2_bdaddr_type: u8,
}

/// A 16-bit number in little-endian order.
pub open spec fn two_bytes(n: u16) -> Seq<u8> {
    seq![(n % 256) as u8, (n / 256) as u8]
}

impl SockaddrL2 {
    /// The packed form: family, PSM, address, channel and address type, with
    /// no padding, in little-endian order.
    pub open spec fn packed(self) -> Seq<u8> {
        two_bytes(self.l2_family) + two_bytes(self.l2_psm) + self.l2_bdaddr@ + two_bytes(
            self.l2_cid,
        ) + seq![self.l2_bdaddr_type]
    }

    /// The kernel stores the address in reverse of display order.
    pub fn new(addr: Address, psm: u16) -> (r: Self)
        ensures
            r.l2_family == AF_BLUETOOTH,
            r.l2_psm == psm,
            r.l2_bdaddr@ == addr.0@.reverse(),
            r.l2_cid == 0,
            r.l2_bdaddr_type == BDADDR_BREDR,
    {
        let a: [u8; 6] = addr.0;
        let b: [u8; 6] = [a[5], a[4], a[3], a[2], a[1], a[0]];
        proof {
            assert(b@ =~= addr.0@.reverse());
        }
        SockaddrL2 {
            l2_family: AF_BLUETOOTH,
            l2_psm: psm,
            l2_bdaddr: b,
            l2_cid: 0,
            l2_bdaddr_type: BDADDR_BREDR,
        }
    }

    /// The thirteen bytes handed to the kernel.
    pub fn to_bytes(&self) -> (r: Vec<u8>)
        ensures
            r@ == self.packed(),
            r@.len() == 13,
    {
        let b: [u8; 6] = self.l2_bdaddr;
        let out: Vec<u8> = vec![
            (self.l2_family % 256) as u8,
            (self.l2_family / 256) as u8,
            (self.l2_psm % 256) as u8,
            (self.l2_psm / 256) as u8,
            b[0],
            b[1],
            b[2],
            b[3],
            b[4],
            b[5],
            (self.l2_cid % 256) as u8,
            (self.l2_cid / 256) as u8,
            self.l2_bdaddr_type,
        ];
        proof {
            assert(out@ =~= self.packed());
        }
        out
    }
}

/// What became of one datagram.
#[derive(Debug, Clone, PartialEq, Eq)]
pub enum Sent {
    /// The socket took this many bytes.
    Bytes(usize),
    /// The socket refused.
    Failed(String),
    /// The socket did not answer in time.
    TimedOut,
}

/// A datagram counts as sent only in full; anything else is an error.
pub fn send_outcome(sent: Sent, len: usize) -> (r: Result<(), String>)
    ensures
        match sent {
            Sent::Bytes(n) => if n == len {
                r is Ok
            } else {
                r matches Err(e) && e@ == "AAP datagram was not sent in full"@
            },
            Sent::Failed(why) => r matches Err(e) && e@ == why@,
            Sent::TimedOut => r matches Err(e) && e@ == "AAP send timed out after 1500 ms"@,
        },
{
    match sent {
        Sent::Bytes(n) => if n == len {
            Ok(())
        } else {
            Err("AAP datagram was not sent in full".to_owned())
        },
        Sent::Failed(why) => Err(why),
        Sent::TimedOut => Err("AAP send timed out after 1500 ms".to_owned()),
    }
}

} // verus!
