use vstd::prelude::*;
use crate::wire::{le16, push_le16};
use crate::os::OsError;

verus! {

/// The HCI event packet type.
pub const HCI_EVENT_PKT: i32 = 0x04;

/// The HCI vendor packet type, which the kernel filter keeps in bit 0.
pub const HCI_VENDOR_PKT: i32 = 0xff;

/// Largest HCI event, header included.
pub const HCI_MAX_EVENT_SIZE: usize = 260;

pub const OGF_LINK_POLICY: u16 = 0x02;

pub const OCF_SNIFF_MODE: u16 = 0x0003;

pub const OCF_EXIT_SNIFF_MODE: u16 = 0x0004;

/// The command status event.
pub const EVT_CMD_STATUS: i32 = 0x0F;

/// Size of a command status event's parameters: status, command count, opcode.
pub const EVT_CMD_STATUS_SIZE: usize = 4;

/// The class of device that announces a gamepad.
pub const GAMEPAD_CLASS: u32 = 0x002508;

/// The kernel's filter on an HCI socket: which packet types, events and
/// command opcode it lets through.
#[derive(Debug, Copy, Clone)]
pub struct HciFilter {
    pub type_mask: u32,
    pub event_mask: [u32; 2],
    pub opcode: u16,
}

/// The bit of the type mask that stands for packet type `t`.
pub open spec fn ptype_bit(t: i32) -> u32 {
    if t == HCI_VENDOR_PKT {
        0
    } else {
        (t & 31) as u32
    }
}

/// Sets the bit of packet type `t` in the type mask, as BlueZ's
/// `hci_filter_set_ptype` does.
fn filter_set_ptype(t: i32, f: HciFilter) -> (r: HciFilter)
    ensures
        r.type_mask == f.type_mask | (1u32 << ptype_bit(t)),
        r.event_mask@ == f.event_mask@,
        r.opcode == f.opcode,
{
    let nr: u32 = if t == HCI_VENDOR_PKT {
        0
    } else {
        (t & 31) as u32
    };
    assert(t & 31 >= 0i32 && t & 31 <= 31i32) by (bit_vector);
    assert(nr < 32);
    HciFilter { type_mask: f.type_mask | (1u32 << nr), event_mask: f.event_mask, opcode: f.opcode }
}

/// Sets every bit of the event mask, as BlueZ's `hci_filter_all_events` does.
fn filter_all_events(f: HciFilter) -> (r: HciFilter)
    ensures
        r.type_mask == f.type_mask,
        r.event_mask@ == seq![u32::MAX, u32::MAX],
        r.opcode == f.opcode,
{
    let r = HciFilter { type_mask: f.type_mask, event_mask: [u32::MAX, u32::MAX], opcode: f.opcode };
    assert(r.event_mask@ =~= seq![u32::MAX, u32::MAX]);
    r
}

impl HciFilter {
    /// The filter installed before a command is sent: event packets only,
    /// every event, any opcode.
    pub fn all_events() -> (r: HciFilter)
        ensures
            r.type_mask == 0x10,
            r.event_mask@ == seq![u32::MAX, u32::MAX],
            r.opcode == 0,
    {
        let f = HciFilter { type_mask: 0, event_mask: [0, 0], opcode: 0 };
        let f = filter_set_ptype(HCI_EVENT_PKT, f);
        let f = filter_all_events(f);
        assert(HCI_EVENT_PKT & 31 == 4i32) by (bit_vector);
        assert(0u32 | (1u32 << 4u32) == 0x10) by (bit_vector);
        f
    }
}

/// An open HCI device: the adapter's index and the raw socket on it.
#[derive(Debug)]
pub struct HciDev {
    hdev: i32,
    socket: i32,
}

/// Why an HCI command failed.
#[derive(Debug, Copy, Clone, PartialEq, Eq, Structural)]
pub enum HciError {
    /// A system call failed.
    Io(OsError),
    /// The adapter took the command and answered with this non-zero status.
    Status(u8),
}

/// A request for an HCI command: its opcode group and field, its packed
/// parameters, and the event that answers it with the size of that event's
/// parameters.
#[derive(Debug)]
pub struct HciRequest {
    pub ogf: u16,
    pub ocf: u16,
    pub params: Vec<u8>,
    pub event: i32,
    pub response_len: usize,
}

/// The class of device read back from an adapter: its three bytes, least
/// significant first as HCI parameters are, as one number.
pub open spec fn class_value(b: Seq<u8>) -> nat {
    (b[0] + 256 * b[1] + 65536 * b[2]) as nat
}

impl HciDev {
    /// The device `hdev`, open on `socket`.
    pub fn new(hdev: i32, socket: i32) -> (r: HciDev)
        ensures
            r.spec_hdev() == hdev,
            r.spec_socket() == socket,
    {
        HciDev { hdev, socket }
    }

    pub closed spec fn spec_hdev(&self) -> i32 {
        self.hdev
    }

    pub closed spec fn spec_socket(&self) -> i32 {
        self.socket
    }

    pub fn hdev(&self) -> (r: i32)
        ensures
            r == self.spec_hdev(),
    {
        self.hdev
    }

    pub fn socket(&self) -> (r: i32)
        ensures
            r == self.spec_socket(),
    {
        self.socket
    }

    /// The class of device from the three bytes that the adapter reports,
    /// least significant first.
    pub fn class_from_bytes(b: [u8; 3]) -> (r: u32)
        ensures
            r as nat == class_value(b@),
    {
        b[0] as u32 + 256 * b[1] as u32 + 65536 * b[2] as u32
    }

    /// The event that a read of `len` bytes left at the front of `buf`.
    pub fn event_reply(buf: Vec<u8>, len: usize) -> (r: Vec<u8>)
        requires
            len <= buf@.len(),
        ensures
            r@ == buf@.subrange(0, len as int),
    {
        let mut buf = buf;
        buf.truncate(len);
        buf
    }
}

/// The request that puts the link `handle` in sniff mode.
pub fn sniff_mode_request(
    handle: u16,
    max_interval: u16,
    min_interval: u16,
    attempt: u16,
    timeout: u16,
) -> (r: HciRequest)
    ensures
        r.ogf == OGF_LINK_POLICY,
        r.ocf == OCF_SNIFF_MODE,
        r.params@ == le16(handle) + le16(max_interval) + le16(min_interval) + le16(attempt) + le16(
            timeout,
        ),
        r.event == EVT_CMD_STATUS,
        r.response_len == EVT_CMD_STATUS_SIZE,
{
    let mut params: Vec<u8> = Vec::new();
    push_le16(&mut params, handle);
    push_le16(&mut params, max_interval);
    push_le16(&mut params, min_interval);
    push_le16(&mut params, attempt);
    push_le16(&mut params, timeout);
    HciRequest {
        ogf: OGF_LINK_POLICY,
        ocf: OCF_SNIFF_MODE,
        params,
        event: EVT_CMD_STATUS,
        response_len: EVT_CMD_STATUS_SIZE,
    }
}

/// The request that takes the link `handle` out of sniff mode.
pub fn exit_sniff_mode_request(handle: u16) -> (r: HciRequest)
    ensures
        r.ogf == OGF_LINK_POLICY,
        r.ocf == OCF_EXIT_SNIFF_MODE,
        r.params@ == le16(handle),
        r.event == EVT_CMD_STATUS,
        r.response_len == EVT_CMD_STATUS_SIZE,
{
    let mut params: Vec<u8> = Vec::new();
    push_le16(&mut params, handle);
    assert(params@ =~= le16(handle));
    HciRequest {
        ogf: OGF_LINK_POLICY,
        ocf: OCF_EXIT_SNIFF_MODE,
        params,
        event: EVT_CMD_STATUS,
        response_len: EVT_CMD_STATUS_SIZE,
    }
}

/// The outcome of a request: `ret` is what the send returned, `errno` the
/// error it left, and `response` the parameters of the answering event (the
/// status first). A failed send is an I/O error; a non-zero status is a
/// device error.
pub fn request_outcome(ret: i32, errno: i32, response: &Vec<u8>) -> (r: Result<(), HciError>)
    ensures
        ret < 0 ==> r == Err::<(), HciError>(HciError::Io(OsError { code: errno })),
        ret >= 0 && response@.len() > 0 && response@[0] != 0 ==> r == Err::<(), HciError>(
            HciError::Status(response@[0]),
        ),
        ret >= 0 && (response@.len() == 0 || response@[0] == 0) ==> r == Ok::<(), HciError>(()),
{
    if ret < 0 {
        Err(HciError::Io(OsError { code: errno }))
    } else if response.len() > 0 && response[0] != 0 {
        Err(HciError::Status(response[0]))
    } else {
        Ok(())
    }
}

} // verus!
