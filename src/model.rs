use vstd::prelude::*;

verus! {

/// The authentication scheme that an access point advertises. `Open` is the
/// class that asks for no credentials at all.
#[derive(Clone, Copy, Debug, PartialEq, Eq, Structural)]
pub enum SecurityClass {
    Open,
    SharedKey,
    ProtectedAccess,
    Enterprise,
}

/// Security flag bits as the network service reports them.
pub const FLAG_WEP: u32 = 1;
pub const FLAG_WPA: u32 = 2;
pub const FLAG_WPA2: u32 = 4;
pub const FLAG_ENTERPRISE: u32 = 8;

/// The class that a flag set calls for: no flag is an open network, WEP
/// alone a shared key, any set with the enterprise flag enterprise, and any
/// other set with WPA or WPA2 protected access. Other sets name no
/// supported scheme.
pub open spec fn class_of_flags(flags: u32) -> Option<SecurityClass> {
    if flags == 0 {
        Some(SecurityClass::Open)
    } else if flags & FLAG_ENTERPRISE != 0 {
        Some(SecurityClass::Enterprise)
    } else if flags & (FLAG_WPA | FLAG_WPA2) != 0 {
        Some(SecurityClass::ProtectedAccess)
    } else if flags == FLAG_WEP {
        Some(SecurityClass::SharedKey)
    } else {
        None
    }
}

impl SecurityClass {
    /// Reads a flag set as the service reports it.
    pub fn from_flags(flags: u32) -> (r: Option<SecurityClass>)
        ensures
            r == class_of_flags(flags),
    {
        if flags == 0 {
            Some(SecurityClass::Open)
        } else if flags & FLAG_ENTERPRISE != 0 {
            Some(SecurityClass::Enterprise)
        } else if flags & (FLAG_WPA | FLAG_WPA2) != 0 {
            Some(SecurityClass::ProtectedAccess)
        } else if flags == FLAG_WEP {
            Some(SecurityClass::SharedKey)
        } else {
            None
        }
    }
}

/// A discovered wireless network, as one scan reported it.
#[derive(Clone, Debug)]
pub struct AccessPoint {
    pub ssid: String,
    pub security_flags: u32,
    pub strength: u32,
}

/// The credentials that joining a network of a given class takes.
#[derive(Clone, Debug)]
pub enum Credentials {
    Open,
    SharedKey { passphrase: String },
    ProtectedAccess { passphrase: String },
    Enterprise { identity: String, passphrase: String },
}

impl Credentials {
    pub open spec fn class(&self) -> SecurityClass {
        match self {
            Credentials::Open => SecurityClass::Open,
            Credentials::SharedKey { .. } => SecurityClass::SharedKey,
            Credentials::ProtectedAccess { .. } => SecurityClass::ProtectedAccess,
            Credentials::Enterprise { .. } => SecurityClass::Enterprise,
        }
    }
}

/// The state that the network service reports after a connect attempt.
#[derive(Clone, Copy, Debug, PartialEq, Eq, Structural)]
pub enum ConnectionState {
    Unknown,
    Activating,
    Activated,
    Deactivating,
    Deactivated,
}

impl ConnectionState {
    /// A state that ends an attempt without a link being up or coming up.
    pub open spec fn is_failure(self) -> bool {
        self == ConnectionState::Unknown || self == ConnectionState::Deactivated
            || self == ConnectionState::Deactivating
    }
}

/// The overall connectivity that the network service reports.
#[derive(Clone, Copy, Debug, PartialEq, Eq, Structural)]
pub enum Connectivity {
    Unknown,
    Disconnected,
    Portal,
    Limited,
    Full,
}

/// The kind of a managed network device.
#[derive(Clone, Copy, Debug, PartialEq, Eq, Structural)]
pub enum DeviceKind {
    Ethernet,
    WiFi,
    Modem,
    Bridge,
    Other,
}

/// Why an operation of the connection manager failed.
#[derive(Clone, Copy, Debug, PartialEq, Eq, Structural)]
pub enum WifiError {
    /// No wireless-capable device is present.
    ResourceUnavailable,
    /// The service rejected a scan request.
    ScanFailed,
    /// The access point's class needs a field that was not supplied.
    CredentialsMissing,
    /// The attempt ended in a state that is not activating.
    ConnectFailed,
    /// The requested network is not among the scanned ones.
    AccessPointNotFound,
    /// The access point advertises a scheme that is not supported.
    UnsupportedSecurity,
    /// The service refused a request for another reason.
    ServiceFailed,
    /// The task could not be handed to the worker.
    BridgeSendFailed,
    /// No result came back from the worker.
    BridgeReceiveFailed,
    /// A result arrived that was not the one awaited.
    ResultTypeMismatch,
}

pub open spec fn error_text(e: WifiError) -> Seq<char> {
    match e {
        WifiError::ResourceUnavailable => "No wifi device has been found"@,
        WifiError::ScanFailed => "Failed to scan for access points"@,
        WifiError::CredentialsMissing => "Missing credentials for access point"@,
        WifiError::ConnectFailed => "Failed to establish connection"@,
        WifiError::AccessPointNotFound => "Access point not found"@,
        WifiError::UnsupportedSecurity => "Unsupported security"@,
        WifiError::ServiceFailed => "Network service request failed"@,
        WifiError::BridgeSendFailed => "Error executing operation"@,
        WifiError::BridgeReceiveFailed => "Error receiving response"@,
        WifiError::ResultTypeMismatch => "Error converting to output type"@,
    }
}

impl WifiError {
    /// A failure of the bridge itself rather than of the network operation.
    pub open spec fn is_bridge(self) -> bool {
        self == WifiError::BridgeSendFailed || self == WifiError::BridgeReceiveFailed
            || self == WifiError::ResultTypeMismatch
    }

    pub fn is_bridge_error(&self) -> (r: bool)
        ensures
            r == self.is_bridge(),
    {
        match self {
            WifiError::BridgeSendFailed | WifiError::BridgeReceiveFailed
            | WifiError::ResultTypeMismatch => true,
            _ => false,
        }
    }

    /// A human-readable description of the failure.
    pub fn message(&self) -> (r: String)
        ensures
            r@ == error_text(*self),
    {
        let s = match self {
            WifiError::ResourceUnavailable => "No wifi device has been found",
            WifiError::ScanFailed => "Failed to scan for access points",
            WifiError::CredentialsMissing => "Missing credentials for access point",
            WifiError::ConnectFailed => "Failed to establish connection",
            WifiError::AccessPointNotFound => "Access point not found",
            WifiError::UnsupportedSecurity => "Unsupported security",
            WifiError::ServiceFailed => "Network service request failed",
            WifiError::BridgeSendFailed => "Error executing operation",
            WifiError::BridgeReceiveFailed => "Error receiving response",
            WifiError::ResultTypeMismatch => "Error converting to output type",
        };
        s.to_string()
    }
}

} // verus!
