use vstd::prelude::*;
use crate::address::BtAddr;

verus! {

/// Length of a device-info reply, transport prefix included.
pub const DEVICE_INFO_LEN: usize = 50;

/// Offset of the controller's address in a device-info reply.
pub const DEVICE_INFO_ADDR_OFFSET: usize = 20;

/// A report of 50 bytes whose report id (offset 1) is 0x21 and whose
/// subcommand id (offset 15) is 0x02: the controller's device-info reply.
pub open spec fn is_device_info(r: Seq<u8>) -> bool {
    r.len() == 50 && r[1] == 0x21 && r[15] == 0x02
}

/// `r` with bytes 20..26 replaced by the address `a`.
pub open spec fn with_address(r: Seq<u8>, a: Seq<u8>) -> Seq<u8> {
    Seq::new(r.len(), |k: int| if 20 <= k < 26 { a[k - 20] } else { r[k] })
}

/// What is sent on for a report that the controller sent: a device-info reply
/// carries the adapter's address in place of the controller's, any other
/// report is passed on as it is.
pub open spec fn rewritten(r: Seq<u8>, adapter: Seq<u8>) -> Seq<u8> {
    if is_device_info(r) {
        with_address(r, adapter)
    } else {
        r
    }
}

pub fn is_device_info_reply(report: &Vec<u8>) -> (r: bool)
    ensures
        r == is_device_info(report@),
{
    report.len() == DEVICE_INFO_LEN && report[1] == 0x21 && report[15] == 0x02
}

/// Puts the adapter's address, in display order, in place of the controller's
/// in a device-info reply; leaves any other report as it is.
pub fn rewrite_device_info(report: &mut Vec<u8>, adapter: &BtAddr)
    ensures
        final(report)@ == rewritten(old(report)@, adapter.0@),
        final(report)@.len() == old(report)@.len(),
{
    if !is_device_info_reply(report) {
        return;
    }
    let mut i: usize = 0;
    while i < 6
        invariant
            0 <= i <= 6,
            is_device_info(old(report)@),
            report@.len() == 50,
            forall|k: int|
                0 <= k < 50 ==> #[trigger] report@[k] == if 20 <= k < 20 + i {
                    adapter.0@[k - 20]
                } else {
                    old(report)@[k]
                },
        decreases 6 - i,
    {
        report.set(DEVICE_INFO_ADDR_OFFSET + i, adapter.0[i]);
        i = i + 1;
    }
    assert(report@ =~= with_address(old(report)@, adapter.0@));
}

} // verus!
