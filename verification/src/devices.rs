//! AQT devices: what a backend has to know of the machine it talks to.

use vstd::prelude::*;
use vstd::string::StringExecFns;

verus! {

/// The capabilities of an AQT device that a backend relies on.
///
/// Each executable method is tied to a specification function of the same
/// meaning, so that contracts of the backend can speak of a device's
/// endpoint, size and identity.
pub trait AqtApi {
    /// The REST endpoint of the device, as a sequence of characters.
    open spec fn host(&self) -> Seq<char> {
        arbitrary()
    }

    /// The number of qubits of the device.
    open spec fn qubits(&self) -> nat {
        arbitrary()
    }

    /// Whether requests to the device must go over https.
    open spec fn https(&self) -> bool {
        arbitrary()
    }

    /// The identifier of the device at the endpoint.
    open spec fn device_id(&self) -> Seq<char> {
        arbitrary()
    }

    /// Returns the REST endpoint that receives calls to the device.
    fn remote_host(&self) -> (host: String)
        ensures
            host@ == self.host(),
    ;

    /// Returns the number of qubits of the device.
    fn number_qubits(&self) -> (n: usize)
        ensures
            n as nat == self.qubits(),
    ;

    /// Returns whether the client sends its requests to an https server.
    fn is_https(&self) -> (secure: bool)
        ensures
            secure == self.https(),
    ;

    /// Returns the identifier of the device.
    fn id(&self) -> (id: String)
        ensures
            id@ == self.device_id(),
    ;
}

/// The endpoint of the AQT cloud.
pub open spec fn aqt_endpoint() -> Seq<char> {
    "https://arnica.aqt.eu/api/v1/"@
}

/// The identifier of the noisy simulator at the AQT cloud.
pub open spec fn aqt_simulator_id() -> Seq<char> {
    "simulator_noise"@
}

/// An AQT device in the cloud, described by the number of its qubits.
#[derive(Debug, Clone, PartialEq, Eq)]
pub struct AqtDevice {
    /// Number of qubits supported by the device
    pub number_qubits: usize,
}

impl AqtDevice {
    /// Creates a device with the given number of qubits.
    pub fn new(number_qubits: usize) -> (device: Self)
        ensures
            device.number_qubits == number_qubits,
    {
        Self { number_qubits }
    }
}

impl AqtApi for AqtDevice {
    open spec fn host(&self) -> Seq<char> {
        aqt_endpoint()
    }

    open spec fn qubits(&self) -> nat {
        self.number_qubits as nat
    }

    open spec fn https(&self) -> bool {
        true
    }

    open spec fn device_id(&self) -> Seq<char> {
        aqt_simulator_id()
    }

    fn remote_host(&self) -> (host: String) {
        String::from_str("https://arnica.aqt.eu/api/v1/")
    }

    fn number_qubits(&self) -> (n: usize) {
        self.number_qubits
    }

    fn is_https(&self) -> (secure: bool) {
        true
    }

    fn id(&self) -> (id: String) {
        String::from_str("simulator_noise")
    }
}

} // verus!
