//! Network configuration values.  WiFi association and DHCP are external
//! collaborators; the core only computes with the plain values they
//! deliver (addresses, prefix lengths).

use vstd::prelude::*;

verus! {

/// DHCP configuration information.
#[derive(Debug, Clone)]
pub struct DhcpInfo {
    pub ip_address: [u8; 4],
    pub subnet_mask: [u8; 4],
    pub gateway: Option<[u8; 4]>,
    pub dns_servers: Vec<[u8; 4]>,
}

/// The network mask for a prefix length: the top `prefix_len` bits set.
pub open spec fn mask_u32_of(prefix_len: u8) -> u32 {
    0xffff_ffffu32 << ((32 - prefix_len) as u32)
}

/// Convert a CIDR prefix length into a dotted subnet mask.
pub fn subnet_mask_from_prefix(prefix_len: u8) -> (mask: [u8; 4])
    requires
        1 <= prefix_len <= 32,
    ensures
        mask@ == seq![
            (mask_u32_of(prefix_len) >> 24) as u8,
            (mask_u32_of(prefix_len) >> 16) as u8,
            (mask_u32_of(prefix_len) >> 8) as u8,
            mask_u32_of(prefix_len) as u8,
        ],
{
    let shift: u32 = 32 - (prefix_len as u32);
    let mask_value: u32 = 0xffff_ffffu32 << shift;
    let mask = [
        (mask_value >> 24) as u8,
        (mask_value >> 16) as u8,
        (mask_value >> 8) as u8,
        mask_value as u8,
    ];
    proof {
        assert(mask@ =~= seq![
            (mask_u32_of(prefix_len) >> 24) as u8,
            (mask_u32_of(prefix_len) >> 16) as u8,
            (mask_u32_of(prefix_len) >> 8) as u8,
            mask_u32_of(prefix_len) as u8,
        ]);
    }
    mask
}

} // verus!
