//! The virtual keyboard manager: the one owner of the registered virtual
//! device's identity. Construction runs the scanner's selection and the
//! identity builder exactly once; there is no other way to obtain an
//! instance, so no uninitialized state is observable.

use crate::events::InputEvent;
use crate::identity::{synthetic_model, DeviceIdentity, IdentityModel};
use crate::relay::{plan_relay, spec_relay_plan};
use crate::scanner::{entry_models, first_keyboard, select_keyboard, ScanEntry};
use vstd::prelude::*;

verus! {

/// The manager of the virtual keyboard. `identity` is what the virtual
/// device registers with the kernel; `has_source` records whether a
/// physical keyboard was discovered, in which case `identity` is its clone
/// and event read-back from the source is available.
pub struct VirtualKeyboard {
    pub identity: DeviceIdentity,
    pub has_source: bool,
}

/// The identity a manager built from these scan entries registers: the
/// first discovered keyboard's identity, or the fixed synthetic one.
pub open spec fn spec_manager_identity(scan: Seq<crate::scanner::ScanEntryModel>) -> IdentityModel {
    match first_keyboard(scan) {
        Option::Some(m) => m,
        Option::None => synthetic_model(),
    }
}

impl VirtualKeyboard {
    /// Build the manager from the scanned input-device directory.
    ///
    /// Where some entry holds a real keyboard, the first such device's
    /// identity — name, bus, vendor, product and capability set — is cloned
    /// exactly, and the source is kept for read-back. Where none does, the
    /// manager still constructs, with the fixed synthetic identity and no
    /// source.
    pub fn new(scan: Vec<ScanEntry>) -> (r: VirtualKeyboard)
        ensures
            r.identity@ == spec_manager_identity(entry_models(scan@)),
            r.has_source == (first_keyboard(entry_models(scan@)) is Some),
    {
        match select_keyboard(&scan) {
            Option::Some(i) => {
                let entry = &scan[i];
                match &entry.device {
                    Option::Some(d) => VirtualKeyboard { identity: d.clone(), has_source: true },
                    // A selected entry always carries a device: a
                    // qualifying entry's node was opened.
                    Option::None => vstd::pervasive::unreached(),
                }
            },
            Option::None => VirtualKeyboard {
                identity: crate::identity::synthetic_identity(),
                has_source: false,
            },
        }
    }

    /// Plan the device writes for one inbound buffer: nothing where the
    /// buffer did not decode, otherwise the event write and its trailing
    /// synchronization write, stamped at `now_sec`. The caller performs the
    /// writes in order and, where the event write fails, withholds the
    /// synchronization write.
    pub fn write_event(&self, decoded: Option<InputEvent>, now_sec: i64) -> (r: Option<
        (InputEvent, InputEvent),
    >)
        ensures
            r == spec_relay_plan(decoded, now_sec),
    {
        plan_relay(decoded, now_sec)
    }

    /// Pass back one event read from the discovered source device: the
    /// event where a source exists and the read yielded one, `None` where
    /// no source device was discovered or the read failed.
    pub fn read_event(&self, source_event: Option<InputEvent>) -> (r: Option<InputEvent>)
        ensures
            self.has_source ==> r == source_event,
            !self.has_source ==> r is None,
    {
        if self.has_source {
            source_event
        } else {
            None
        }
    }
}

impl Default for VirtualKeyboard {
    /// A manager built from an empty scan: no source device, so the fixed
    /// synthetic identity.
    fn default() -> (r: Self)
        ensures
            r.identity@ == synthetic_model(),
            !r.has_source,
    {
        let r = VirtualKeyboard::new(Vec::new());
        proof {
            assert(entry_models(Seq::<ScanEntry>::empty()).len() == 0);
        }
        r
    }
}

/// Fallback: where no scanned entry holds a real keyboard, the manager
/// still constructs, registering exactly the fixed synthetic identity.
pub proof fn lemma_fallback_identity(scan: Seq<crate::scanner::ScanEntryModel>)
    requires
        forall|i: int| 0 <= i < scan.len() ==> !crate::scanner::qualifies(#[trigger] scan[i]),
    ensures
        spec_manager_identity(scan) == synthetic_model(),
{
    crate::scanner::lemma_no_keyboard(scan);
}

/// Cloning: where entry `i` holds the first real keyboard, the manager
/// registers exactly that device's identity — name, bus type, vendor,
/// product and capability set.
pub proof fn lemma_cloned_identity(scan: Seq<crate::scanner::ScanEntryModel>, i: int)
    requires
        0 <= i < scan.len(),
        crate::scanner::qualifies(scan[i]),
        forall|j: int| 0 <= j < i ==> !crate::scanner::qualifies(#[trigger] scan[j]),
    ensures
        spec_manager_identity(scan) == scan[i].device->0,
{
    crate::scanner::lemma_first_match(scan, i);
}

} // verus!
