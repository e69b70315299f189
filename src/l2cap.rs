use vstd::prelude::*;
use crate::wire::{le16, lemma_le16_round_trip, push_le16, read_le16};

verus! {

/// The Bluetooth address family.
pub const AF_BLUETOOTH: u16 = 31;

/// Size of the kernel's L2CAP socket address: family, PSM, device address,
/// channel id, address type, and one byte of padding.
pub const SOCKADDR_L2_LEN: usize = 14;

/// An L2CAP socket address, with the device address in host byte order as the
/// kernel holds it.
#[derive(Debug, Copy, Clone)]
pub struct L2capSockAddr {
    pub family: u16,
    pub psm: u16,
    pub bdaddr: [u8; 6],
    pub cid: u16,
    pub bdaddr_type: u8,
}

/// The bytes of an L2CAP socket address, laid out as the kernel reads them
/// on a little-endian host.
pub open spec fn sockaddr_bytes(a: L2capSockAddr) -> Seq<u8> {
    le16(a.family) + le16(a.psm) + a.bdaddr@ + le16(a.cid) + seq![a.bdaddr_type, 0u8]
}

pub open spec fn sockaddr_of_bytes(b: Seq<u8>) -> L2capSockAddr {
    L2capSockAddr {
        family: read_le16(b, 0),
        psm: read_le16(b, 2),
        bdaddr: [b[4], b[5], b[6], b[7], b[8], b[9]],
        cid: read_le16(b, 10),
        bdaddr_type: b[12],
    }
}

pub open spec fn same_fields(a: L2capSockAddr, b: L2capSockAddr) -> bool {
    a.family == b.family && a.psm == b.psm && a.bdaddr@ == b.bdaddr@ && a.cid == b.cid
        && a.bdaddr_type == b.bdaddr_type
}

/// Decoding the bytes of an address gives the address back.
pub proof fn lemma_sockaddr_round_trip(a: L2capSockAddr)
    ensures
        same_fields(sockaddr_of_bytes(sockaddr_bytes(a)), a),
{
    let b = sockaddr_bytes(a);
    assert(b.subrange(0, 2) =~= le16(a.family));
    assert(b.subrange(2, 4) =~= le16(a.psm));
    assert(b.subrange(10, 12) =~= le16(a.cid));
    lemma_le16_round_trip(a.family);
    lemma_le16_round_trip(a.psm);
    lemma_le16_round_trip(a.cid);
    assert(read_le16(b, 0) == read_le16(le16(a.family), 0));
    assert(read_le16(b, 2) == read_le16(le16(a.psm), 0));
    assert(read_le16(b, 10) == read_le16(le16(a.cid), 0));
    assert(sockaddr_of_bytes(b).bdaddr@ =~= a.bdaddr@);
}

impl L2capSockAddr {
    /// The address of a Bluetooth L2CAP endpoint: `bdaddr` on `psm`, with no
    /// fixed channel and a BR/EDR address type.
    pub fn new(bdaddr: [u8; 6], psm: u16) -> (r: L2capSockAddr)
        ensures
            r.family == AF_BLUETOOTH,
            r.psm == psm,
            r.bdaddr@ == bdaddr@,
            r.cid == 0,
            r.bdaddr_type == 0,
    {
        L2capSockAddr { family: AF_BLUETOOTH, psm, bdaddr, cid: 0, bdaddr_type: 0 }
    }

    /// The address encoded for the kernel.
    pub fn to_bytes(&self) -> (r: Vec<u8>)
        ensures
            r@ == sockaddr_bytes(*self),
            r@.len() == SOCKADDR_L2_LEN,
    {
        let mut out: Vec<u8> = Vec::new();
        push_le16(&mut out, self.family);
        push_le16(&mut out, self.psm);
        let mut i: usize = 0;
        while i < 6
            invariant
                0 <= i <= 6,
                out@ == le16(self.family) + le16(self.psm) + self.bdaddr@.subrange(0, i as int),
            decreases 6 - i,
        {
            out.push(self.bdaddr[i]);
            i = i + 1;
            assert(out@ =~= le16(self.family) + le16(self.psm) + self.bdaddr@.subrange(0, i as int));
        }
        push_le16(&mut out, self.cid);
        out.push(self.bdaddr_type);
        out.push(0);
        assert(out@ =~= sockaddr_bytes(*self));
        out
    }

    /// Reads an address that the kernel filled in; `None` when fewer bytes
    /// than a whole address were given.
    pub fn from_bytes(b: &Vec<u8>) -> (r: Option<L2capSockAddr>)
        ensures
            b@.len() < SOCKADDR_L2_LEN ==> r is None,
            b@.len() >= SOCKADDR_L2_LEN ==> (r matches Some(a) && same_fields(a, sockaddr_of_bytes(b@))),
    {
        if b.len() < SOCKADDR_L2_LEN {
            return None;
        }
        Some(
            L2capSockAddr {
                family: b[0] as u16 + 256 * b[1] as u16,
                psm: b[2] as u16 + 256 * b[3] as u16,
                bdaddr: [b[4], b[5], b[6], b[7], b[8], b[9]],
                cid: b[10] as u16 + 256 * b[11] as u16,
                bdaddr_type: b[12],
            },
        )
    }
}

/// A listening L2CAP socket: the owner of its descriptor.
#[derive(Debug)]
pub struct L2CAPListener {
    fd: i32,
}

/// A connected L2CAP socket: the owner of its descriptor.
#[derive(Debug)]
pub struct L2CAPStream {
    fd: i32,
}

impl L2CAPListener {
    pub closed spec fn spec_fd(&self) -> i32 {
        self.fd
    }

    /// Takes ownership of an open socket descriptor.
    pub fn from_descriptor(fd: i32) -> (r: L2CAPListener)
        ensures
            r.spec_fd() == fd,
    {
        L2CAPListener { fd }
    }

    pub fn as_raw_fd(&self) -> (r: i32)
        ensures
            r == self.spec_fd(),
    {
        self.fd
    }

    /// The address a listener binds to: any local adapter, on `psm`.
    pub fn bind_address(psm: u16) -> (r: L2capSockAddr)
        ensures
            r.family == AF_BLUETOOTH,
            r.psm == psm,
            r.bdaddr@ == seq![0u8, 0u8, 0u8, 0u8, 0u8, 0u8],
            r.cid == 0,
            r.bdaddr_type == 0,
    {
        let r = L2capSockAddr::new([0; 6], psm);
        assert(r.bdaddr@ =~= seq![0u8, 0u8, 0u8, 0u8, 0u8, 0u8]);
        r
    }
}

impl L2CAPStream {
    pub closed spec fn spec_fd(&self) -> i32 {
        self.fd
    }

    /// Takes ownership of an open socket descriptor.
    pub fn from_descriptor(fd: i32) -> (r: L2CAPStream)
        ensures
            r.spec_fd() == fd,
    {
        L2CAPStream { fd }
    }

    pub fn as_raw_fd(&self) -> (r: i32)
        ensures
            r == self.spec_fd(),
    {
        self.fd
    }

    /// The address a stream connects to: `bt_addr`, in host byte order, on `psm`.
    pub fn connect_address(bt_addr: [u8; 6], psm: u16) -> (r: L2capSockAddr)
        ensures
            r.family == AF_BLUETOOTH,
            r.psm == psm,
            r.bdaddr@ == bt_addr@,
            r.cid == 0,
            r.bdaddr_type == 0,
    {
        L2capSockAddr::new(bt_addr, psm)
    }
}

} // verus!
