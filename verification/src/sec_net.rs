//! Network identity of the cell (MCC/MNC).
use vstd::prelude::*;

verus! {

/// Network identity broadcast in D-MLE-SYNC.
#[derive(Debug, Clone)]
pub struct CfgNetInfo {
    /// 10 bits, from 18.4.2.1 D-MLE-SYNC
    pub mcc: u16,
    /// 14 bits, from 18.4.2.1 D-MLE-SYNC
    pub mnc: u16,
}

/// The `[net_info]` section as read from the configuration file.
#[derive(Debug, Default)]
pub struct NetInfoDto {
    pub mcc: u16,
    pub mnc: u16,
    pub extra_keys: Vec<String>,
}

/// The network identity that a `[net_info]` section yields.
pub fn net_dto_to_cfg(ni: NetInfoDto) -> (r: CfgNetInfo)
    ensures
        r.mcc == ni.mcc,
        r.mnc == ni.mnc,
{
    CfgNetInfo { mcc: ni.mcc, mnc: ni.mnc }
}

} // verus!
