use vstd::prelude::*;
use crate::model::AccessPoint;

verus! {

/// The UUID of the wireless configuration service.
pub const WIFI_SERVICE_UUID: &'static str = "ddbc279f-61eb-484a-bbc2-f65f2d4325be";

/// The characteristic that lists the visible networks.
pub const NETWORKS_CHARACTERISTIC_UUID: &'static str = "a6bb77a3-e0d5-4841-b424-55a7ddc9f1cb";

/// The characteristic that reports whether the device is connected.
pub const STATUS_CHARACTERISTIC_UUID: &'static str = "3fa8daec-bb2a-465c-b5e5-5735a5c7acbd";

/// The characteristic that takes a connect request.
pub const CONNECT_CHARACTERISTIC_UUID: &'static str = "beb1ed79-7b42-4bd1-968c-7d6d4c10eaa6";

/// The seconds between two notifications of the network list.
pub const NETWORKS_NOTIFY_INTERVAL_SECS: u64 = 10;

/// The seconds between two notifications of the connection status.
pub const STATUS_NOTIFY_INTERVAL_SECS: u64 = 3;

/// The access points that a user can pick: those with a name, in scan
/// order.
pub open spec fn visible(aps: Seq<AccessPoint>) -> Seq<AccessPoint>
    decreases aps.len(),
{
    if aps.len() == 0 {
        Seq::empty()
    } else {
        let rest = visible(aps.drop_last());
        if aps.last().ssid@.len() > 0 {
            rest.push(aps.last())
        } else {
            rest
        }
    }
}

impl AccessPoint {
    /// A copy of this access point.
    pub fn duplicate(&self) -> (r: AccessPoint)
        ensures
            r == *self,
    {
        AccessPoint {
            ssid: self.ssid.clone(),
            security_flags: self.security_flags,
            strength: self.strength,
        }
    }
}

/// The wireless configuration service that a phone talks to over a
/// short-range link: it lists networks, reports the connection status, and
/// takes connect requests.
pub struct WifiConfigurationService {}

impl WifiConfigurationService {
    /// The networks to offer from a scan: empty names are dropped, and the
    /// order is kept.
    pub fn visible_networks(aps: &Vec<AccessPoint>) -> (r: Vec<AccessPoint>)
        ensures
            r@ == visible(aps@),
    {
        let mut out: Vec<AccessPoint> = Vec::new();
        let mut i: usize = 0;
        while i < aps.len()
            invariant
                i <= aps@.len(),
                out@ == visible(aps@.subrange(0, i as int)),
            decreases aps@.len() - i,
        {
            let ghost before = aps@.subrange(0, i as int);
            assert(aps@.subrange(0, i as int + 1).drop_last() =~= before);
            if !aps[i].ssid.as_str().is_empty() {
                out.push(aps[i].duplicate());
            }
            i = i + 1;
        }
        assert(aps@.subrange(0, aps@.len() as int) =~= aps@);
        out
    }
}

} // verus!
