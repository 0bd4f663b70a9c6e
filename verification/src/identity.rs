//! Device identities: the name, bus, vendor, product and capability set a
//! virtual device registers with the kernel. An identity is either cloned
//! from a discovered physical keyboard or the fixed synthetic one.

use crate::capability::{CapabilityModel, CapabilitySet, EventCodeId};
use crate::events::{BUS_USB, EV_KEY, EV_SYN, KEY_K, SYN_REPORT};
use vstd::prelude::*;

verus! {

/// Mathematical model of a device identity.
pub ghost struct IdentityModel {
    pub name: Seq<char>,
    pub bustype: u16,
    pub vendor: u16,
    pub product: u16,
    pub caps: CapabilityModel,
}

/// The identity a device presents to the kernel: metadata plus the
/// capability set it declares.
pub struct DeviceIdentity {
    pub name: String,
    pub bustype: u16,
    pub vendor: u16,
    pub product: u16,
    pub caps: CapabilitySet,
}

impl View for DeviceIdentity {
    type V = IdentityModel;

    open spec fn view(&self) -> IdentityModel {
        IdentityModel {
            name: self.name@,
            bustype: self.bustype,
            vendor: self.vendor,
            product: self.product,
            caps: self.caps@,
        }
    }
}

/// The fixed synthetic identity: name "Virtual Keyboard", USB bus, vendor
/// 0xABCD, product 0xEFEF, declaring the key-event class, the letter-K key
/// code and the synchronization-report code.
pub open spec fn synthetic_model() -> IdentityModel {
    IdentityModel {
        name: "Virtual Keyboard"@,
        bustype: BUS_USB,
        vendor: 0xabcd,
        product: 0xefef,
        caps: CapabilityModel {
            classes: seq![EV_KEY],
            codes: seq![
                EventCodeId { class: EV_KEY, code: KEY_K },
                EventCodeId { class: EV_SYN, code: SYN_REPORT },
            ],
        },
    }
}

/// Build the fixed synthetic identity.
pub fn synthetic_identity() -> (r: DeviceIdentity)
    ensures
        r@ == synthetic_model(),
{
    let mut caps = CapabilitySet::new();
    caps.enable_class(EV_KEY);
    caps.enable_code(EventCodeId { class: EV_KEY, code: KEY_K });
    caps.enable_code(EventCodeId { class: EV_SYN, code: SYN_REPORT });
    proof {
        assert(caps@.classes =~= synthetic_model().caps.classes);
        assert(caps@.codes =~= synthetic_model().caps.codes);
    }
    DeviceIdentity {
        name: "Virtual Keyboard".to_owned(),
        bustype: BUS_USB,
        vendor: 0xabcd,
        product: 0xefef,
        caps,
    }
}

/// Pick the identity the virtual device will register: the source identity
/// exactly where a physical keyboard was discovered, the fixed synthetic
/// identity otherwise.
pub fn build_identity(source: Option<DeviceIdentity>) -> (r: DeviceIdentity)
    ensures
        r@ == (match source {
            Option::Some(s) => s@,
            Option::None => synthetic_model(),
        }),
{
    match source {
        Option::Some(s) => s,
        Option::None => synthetic_identity(),
    }
}

/// Whether a failure to enable a capability while configuring the virtual
/// device is fatal. Enabling the key-event class itself or the
/// synchronization-report code is essential: without them the device can
/// relay nothing. Any single key code is opportunistic; failing to enable
/// one is only worth a warning.
pub fn enable_failure_fatal(class: u16, code: Option<u16>) -> (r: bool)
    ensures
        r == ((code is None && class == EV_KEY) || (class == EV_SYN && code == Some(SYN_REPORT))),
{
    match code {
        Option::None => class == EV_KEY,
        Option::Some(c) => class == EV_SYN && c == SYN_REPORT,
    }
}

impl Clone for DeviceIdentity {
    /// The clone presents exactly the identity of the original.
    fn clone(&self) -> (r: Self)
        ensures
            r@ == self@,
    {
        DeviceIdentity {
            name: self.name.clone(),
            bustype: self.bustype,
            vendor: self.vendor,
            product: self.product,
            caps: self.caps.clone(),
        }
    }
}

} // verus!
