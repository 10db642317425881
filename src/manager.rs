use vstd::prelude::*;
use crate::model::{
    class_of_flags, AccessPoint, ConnectionState, Connectivity, Credentials, DeviceKind,
    SecurityClass, WifiError,
};

verus! {

/// `i` is the first position of `kinds` that holds a wireless device.
pub open spec fn is_first_wifi(kinds: Seq<DeviceKind>, i: int) -> bool {
    0 <= i < kinds.len() && kinds[i] == DeviceKind::WiFi && forall|j: int|
        0 <= j < i ==> kinds[j] != DeviceKind::WiFi
}

/// Picks the first wireless-capable device among the managed ones.
pub fn find_wifi_device(kinds: &Vec<DeviceKind>) -> (r: Result<usize, WifiError>)
    ensures
        match r {
            Ok(i) => is_first_wifi(kinds@, i as int),
            Err(e) => e == WifiError::ResourceUnavailable && forall|j: int|
                0 <= j < kinds@.len() ==> kinds@[j] != DeviceKind::WiFi,
        },
{
    let mut i: usize = 0;
    while i < kinds.len()
        invariant
            i <= kinds@.len(),
            forall|j: int| 0 <= j < i ==> kinds@[j] != DeviceKind::WiFi,
        decreases kinds@.len() - i,
    {
        if kinds[i] == DeviceKind::WiFi {
            return Ok(i);
        }
        i = i + 1;
    }
    Err(WifiError::ResourceUnavailable)
}

/// `i` is the first position of `names` that holds `ssid`.
pub open spec fn is_first_named(names: Seq<Seq<char>>, ssid: Seq<char>, i: int) -> bool {
    0 <= i < names.len() && names[i] == ssid && forall|j: int| 0 <= j < i ==> names[j] != ssid
}

pub open spec fn ap_names(aps: Seq<AccessPoint>) -> Seq<Seq<char>> {
    aps.map_values(|a: AccessPoint| a.ssid@)
}

pub open spec fn string_names(names: Seq<String>) -> Seq<Seq<char>> {
    names.map_values(|s: String| s@)
}

/// The position of the first saved connection profile for `ssid`, if any.
pub fn find_connection_by_ssid(profiles: &Vec<String>, ssid: &String) -> (r: Option<usize>)
    ensures
        match r {
            Some(i) => is_first_named(string_names(profiles@), ssid@, i as int),
            None => !string_names(profiles@).contains(ssid@),
        },
{
    let mut i: usize = 0;
    while i < profiles.len()
        invariant
            i <= profiles@.len(),
            forall|j: int| 0 <= j < i ==> profiles@[j]@ != ssid@,
        decreases profiles@.len() - i,
    {
        if profiles[i] == *ssid {
            return Some(i);
        }
        i = i + 1;
    }
    proof {
        if string_names(profiles@).contains(ssid@) {
            let k = choose|k: int|
                0 <= k < string_names(profiles@).len() && string_names(profiles@)[k] == ssid@;
            assert(profiles@[k]@ == ssid@);
        }
    }
    None
}

/// The position of the first scanned access point named `ssid`, if any.
pub fn find_access_point(aps: &Vec<AccessPoint>, ssid: &String) -> (r: Option<usize>)
    ensures
        match r {
            Some(i) => is_first_named(ap_names(aps@), ssid@, i as int),
            None => !ap_names(aps@).contains(ssid@),
        },
{
    let mut i: usize = 0;
    while i < aps.len()
        invariant
            i <= aps@.len(),
            forall|j: int| 0 <= j < i ==> aps@[j].ssid@ != ssid@,
        decreases aps@.len() - i,
    {
        if aps[i].ssid == *ssid {
            return Some(i);
        }
        i = i + 1;
    }
    proof {
        if ap_names(aps@).contains(ssid@) {
            let k = choose|k: int| 0 <= k < ap_names(aps@).len() && ap_names(aps@)[k] == ssid@;
            assert(aps@[k].ssid@ == ssid@);
        }
    }
    None
}

/// The credentials for `class` built from the supplied fields: every class
/// but `Open` needs a passphrase, and `Enterprise` an identity as well.
pub open spec fn credentials_for(
    class: SecurityClass,
    passphrase: Option<String>,
    identity: Option<String>,
) -> Result<Credentials, WifiError> {
    match class {
        SecurityClass::Open => Ok(Credentials::Open),
        SecurityClass::SharedKey => match passphrase {
            Some(p) => Ok(Credentials::SharedKey { passphrase: p }),
            None => Err(WifiError::CredentialsMissing),
        },
        SecurityClass::ProtectedAccess => match passphrase {
            Some(p) => Ok(Credentials::ProtectedAccess { passphrase: p }),
            None => Err(WifiError::CredentialsMissing),
        },
        SecurityClass::Enterprise => match (identity, passphrase) {
            (Some(i), Some(p)) => Ok(Credentials::Enterprise { identity: i, passphrase: p }),
            _ => Err(WifiError::CredentialsMissing),
        },
    }
}

/// Builds the credentials variant that `class` calls for.
pub fn build_credentials(
    class: SecurityClass,
    passphrase: Option<String>,
    identity: Option<String>,
) -> (r: Result<Credentials, WifiError>)
    ensures
        r == credentials_for(class, passphrase, identity),
{
    match class {
        SecurityClass::Open => Ok(Credentials::Open),
        SecurityClass::SharedKey => match passphrase {
            Some(p) => Ok(Credentials::SharedKey { passphrase: p }),
            None => Err(WifiError::CredentialsMissing),
        },
        SecurityClass::ProtectedAccess => match passphrase {
            Some(p) => Ok(Credentials::ProtectedAccess { passphrase: p }),
            None => Err(WifiError::CredentialsMissing),
        },
        SecurityClass::Enterprise => match (identity, passphrase) {
            (Some(i), Some(p)) => Ok(Credentials::Enterprise { identity: i, passphrase: p }),
            _ => Err(WifiError::CredentialsMissing),
        },
    }
}

/// What a connect request for `ssid` resolves to against a scan: the
/// position of the access point and the credentials its class needs.
pub open spec fn connect_request_for(
    aps: Seq<AccessPoint>,
    ssid: Seq<char>,
    passphrase: Option<String>,
    identity: Option<String>,
) -> Result<(int, Credentials), WifiError> {
    if !ap_names(aps).contains(ssid) {
        Err(WifiError::AccessPointNotFound)
    } else {
        let i = choose|i: int| is_first_named(ap_names(aps), ssid, i);
        match class_of_flags(aps[i].security_flags) {
            None => Err(WifiError::UnsupportedSecurity),
            Some(class) => match credentials_for(class, passphrase, identity) {
                Ok(c) => Ok((i, c)),
                Err(e) => Err(e),
            },
        }
    }
}

proof fn lemma_first_named_unique(names: Seq<Seq<char>>, ssid: Seq<char>, i: int, k: int)
    requires
        is_first_named(names, ssid, i),
        is_first_named(names, ssid, k),
    ensures
        i == k,
{
}

/// Looks up `ssid` in the most recent scan and builds the credentials that
/// its advertised class needs; the class is read from the scan, never taken
/// from the caller.
pub fn resolve_connect_request(
    aps: &Vec<AccessPoint>,
    ssid: &String,
    passphrase: Option<String>,
    identity: Option<String>,
) -> (r: Result<(usize, Credentials), WifiError>)
    ensures
        match (r, connect_request_for(aps@, ssid@, passphrase, identity)) {
            (Ok((i, c)), Ok((k, d))) => i as int == k && c == d,
            (Err(e), Err(f)) => e == f,
            _ => false,
        },
{
    match find_access_point(aps, ssid) {
        None => Err(WifiError::AccessPointNotFound),
        Some(i) => {
            proof {
                assert(ap_names(aps@)[i as int] == ssid@);
                let k = choose|k: int| is_first_named(ap_names(aps@), ssid@, k);
                lemma_first_named_unique(ap_names(aps@), ssid@, i as int, k);
            }
            match SecurityClass::from_flags(aps[i].security_flags) {
                None => Err(WifiError::UnsupportedSecurity),
                Some(class) => match build_credentials(class, passphrase, identity) {
                    Ok(c) => Ok((i, c)),
                    Err(e) => Err(e),
                },
            }
        },
    }
}

/// A connect request for a network that advertises no security resolves
/// to open credentials, whatever fields the caller supplied or left out.
pub proof fn lemma_open_network_needs_no_passphrase(
    aps: Seq<AccessPoint>,
    ssid: Seq<char>,
    i: int,
    passphrase: Option<String>,
    identity: Option<String>,
)
    requires
        is_first_named(ap_names(aps), ssid, i),
        class_of_flags(aps[i].security_flags) == Some(SecurityClass::Open),
    ensures
        connect_request_for(aps, ssid, passphrase, identity) == Ok::<(int, Credentials), WifiError>(
            (i, Credentials::Open),
        ),
{
    assert(ap_names(aps)[i] == ssid);
    let k = choose|k: int| is_first_named(ap_names(aps), ssid, k);
    lemma_first_named_unique(ap_names(aps), ssid, i, k);
}

/// A connect request without a passphrase for a network of the protected
/// access class fails with `CredentialsMissing`: no credentials exist, so
/// no connect attempt can be started.
pub proof fn lemma_protected_network_needs_passphrase(
    aps: Seq<AccessPoint>,
    ssid: Seq<char>,
    i: int,
    identity: Option<String>,
)
    requires
        is_first_named(ap_names(aps), ssid, i),
        class_of_flags(aps[i].security_flags) == Some(SecurityClass::ProtectedAccess),
    ensures
        connect_request_for(aps, ssid, None, identity) == Err::<(int, Credentials), WifiError>(
            WifiError::CredentialsMissing,
        ),
{
    assert(ap_names(aps)[i] == ssid);
    let k = choose|k: int| is_first_named(ap_names(aps), ssid, k);
    lemma_first_named_unique(ap_names(aps), ssid, i, k);
}

/// Reads the state that a connect attempt ended in: unknown, deactivated
/// and deactivating fail; any other state, activating included, succeeds.
pub fn connection_outcome(state: ConnectionState) -> (r: Result<(), WifiError>)
    ensures
        r is Err <==> state.is_failure(),
        r is Err ==> r == Err::<(), WifiError>(WifiError::ConnectFailed),
{
    match state {
        ConnectionState::Unknown | ConnectionState::Deactivated
        | ConnectionState::Deactivating => Err(WifiError::ConnectFailed),
        _ => Ok(()),
    }
}

/// Full connectivity alone counts as connected.
pub fn is_fully_connected(connectivity: Connectivity) -> (r: bool)
    ensures
        r == (connectivity == Connectivity::Full),
{
    connectivity == Connectivity::Full
}

} // verus!
