//! Device discovery: classifying directory entries of the input-device
//! directory and selecting the first one that looks like a real keyboard.
//!
//! The surrounding program enumerates the directory and opens each node;
//! an entry whose node could not be opened or read carries no identity and
//! is skipped, never fatal to the scan.

use crate::events::{EV_KEY, EV_REP};
use crate::identity::{DeviceIdentity, IdentityModel};
use vstd::prelude::*;

verus! {

/// Mathematical model of one directory entry offered to the scanner.
pub ghost struct ScanEntryModel {
    pub file_name: Seq<char>,
    pub device: Option<IdentityModel>,
}

/// One entry of the input-device directory: its file name and, where the
/// node could be opened and queried, the identity it reported.
pub struct ScanEntry {
    pub file_name: String,
    pub device: Option<DeviceIdentity>,
}

impl View for ScanEntry {
    type V = ScanEntryModel;

    open spec fn view(&self) -> ScanEntryModel {
        ScanEntryModel {
            file_name: self.file_name@,
            device: match self.device {
                Option::Some(d) => Option::Some(d@),
                Option::None => Option::None,
            },
        }
    }
}

/// The models of a sequence of scan entries.
pub open spec fn entry_models(entries: Seq<ScanEntry>) -> Seq<ScanEntryModel> {
    entries.map_values(|e: ScanEntry| e@)
}

/// The file name is one of an input-device node: it starts with "event".
pub open spec fn is_event_name(s: Seq<char>) -> bool {
    s.len() >= 5 && s[0] == 'e' && s[1] == 'v' && s[2] == 'e' && s[3] == 'n' && s[4] == 't'
}

/// Whether `name` starts with the input-device node prefix "event".
pub fn has_event_prefix(name: &str) -> (r: bool)
    ensures
        r == is_event_name(name@),
{
    let n = name.unicode_len();
    if n < 5 {
        return false;
    }
    name.get_char(0) == 'e' && name.get_char(1) == 'v' && name.get_char(2) == 'e'
        && name.get_char(3) == 'n' && name.get_char(4) == 't'
}

/// A device is taken for a real keyboard when it declares both the
/// key-event class and the autorepeat class. This is a heuristic: a device
/// may declare both without being a keyboard.
pub open spec fn spec_is_keyboard(d: IdentityModel) -> bool {
    d.caps.classes.contains(EV_KEY) && d.caps.classes.contains(EV_REP)
}

/// Classify a device as a real keyboard by its capability bits.
pub fn is_keyboard(d: &DeviceIdentity) -> (r: bool)
    ensures
        r == spec_is_keyboard(d@),
{
    d.caps.has_class(EV_KEY) && d.caps.has_class(EV_REP)
}

/// An entry qualifies when its name is an input-device node name, its node
/// could be opened, and the device it reported classifies as a keyboard.
pub open spec fn qualifies(e: ScanEntryModel) -> bool {
    is_event_name(e.file_name) && e.device is Some && spec_is_keyboard(e.device->0)
}

/// The identity of the first qualifying entry, if any.
pub open spec fn first_keyboard(entries: Seq<ScanEntryModel>) -> Option<IdentityModel>
    decreases entries.len(),
{
    if entries.len() == 0 {
        Option::None
    } else if qualifies(entries[0]) {
        Option::Some(entries[0].device->0)
    } else {
        first_keyboard(entries.drop_first())
    }
}

/// Where no entry qualifies, the scan finds nothing.
pub proof fn lemma_no_keyboard(entries: Seq<ScanEntryModel>)
    requires
        forall|i: int| 0 <= i < entries.len() ==> !qualifies(#[trigger] entries[i]),
    ensures
        first_keyboard(entries) is None,
    decreases entries.len(),
{
    if entries.len() > 0 {
        assert(!qualifies(entries[0]));
        lemma_no_keyboard(entries.drop_first());
    }
}

/// The scan finds exactly the first qualifying entry's identity.
pub proof fn lemma_first_match(entries: Seq<ScanEntryModel>, i: int)
    requires
        0 <= i < entries.len(),
        qualifies(entries[i]),
        forall|j: int| 0 <= j < i ==> !qualifies(#[trigger] entries[j]),
    ensures
        first_keyboard(entries) == Some(entries[i].device->0),
    decreases entries.len(),
{
    if i > 0 {
        assert(!qualifies(entries[0]));
        lemma_first_match(entries.drop_first(), i - 1);
        assert(entries.drop_first()[i - 1] == entries[i]);
    }
}

/// Whether one directory entry qualifies as a discovered keyboard.
pub fn entry_qualifies(e: &ScanEntry) -> (r: bool)
    ensures
        r == qualifies(e@),
{
    if !has_event_prefix(e.file_name.as_str()) {
        return false;
    }
    match &e.device {
        Option::Some(d) => is_keyboard(d),
        Option::None => false,
    }
}

/// Select the first entry that qualifies as a real keyboard, scanning in
/// directory order; `None` when no entry qualifies. Entries whose node
/// could not be opened are skipped.
pub fn select_keyboard(entries: &Vec<ScanEntry>) -> (r: Option<usize>)
    ensures
        match r {
            Option::Some(i) => i < entries@.len() && qualifies(entries@[i as int]@)
                && (forall|j: int| 0 <= j < i ==> !qualifies(#[trigger] entries@[j]@))
                && first_keyboard(entry_models(entries@)) == Some(entries@[i as int]@.device->0),
            Option::None => (forall|j: int|
                0 <= j < entries@.len() ==> !qualifies(#[trigger] entries@[j]@))
                && first_keyboard(entry_models(entries@)) is None,
        },
{
    let ghost models = entry_models(entries@);
    let mut i: usize = 0;
    while i < entries.len()
        invariant
            i <= entries.len(),
            models == entry_models(entries@),
            forall|j: int| 0 <= j < i ==> !qualifies(#[trigger] entries@[j]@),
        decreases entries.len() - i,
    {
        if entry_qualifies(&entries[i]) {
            proof {
                assert(models[i as int] == entries@[i as int]@);
                assert(forall|j: int| 0 <= j < i ==> models[j] == #[trigger] entries@[j]@);
                lemma_first_match(models, i as int);
            }
            return Some(i);
        }
        i += 1;
    }
    proof {
        assert(forall|j: int| 0 <= j < models.len() ==> models[j] == #[trigger] entries@[j]@);
        lemma_no_keyboard(models);
    }
    None
}

/// What the scanner's contract states of a result: the index of the first
/// qualifying entry, or `None` when no entry qualifies.
pub open spec fn is_scan_result(entries: Seq<ScanEntryModel>, r: Option<int>) -> bool {
    match r {
        Option::Some(i) => 0 <= i < entries.len() && qualifies(entries[i]) && (forall|j: int|
            0 <= j < i ==> !qualifies(#[trigger] entries[j])),
        Option::None => forall|j: int| 0 <= j < entries.len() ==> !qualifies(#[trigger] entries[j]),
    }
}

/// Two scans of an unchanged directory agree: any two results that meet the
/// scanner's contract against equal entry sequences are the same result.
pub proof fn lemma_scan_idempotent(
    entries: Seq<ScanEntryModel>,
    r1: Option<int>,
    r2: Option<int>,
)
    requires
        is_scan_result(entries, r1),
        is_scan_result(entries, r2),
    ensures
        r1 == r2,
{
    match (r1, r2) {
        (Option::Some(i1), Option::Some(i2)) => {
            if i1 < i2 {
                assert(!qualifies(entries[i1]));
            } else if i2 < i1 {
                assert(!qualifies(entries[i2]));
            }
        },
        (Option::Some(i1), Option::None) => {
            assert(!qualifies(entries[i1]));
        },
        (Option::None, Option::Some(i2)) => {
            assert(!qualifies(entries[i2]));
        },
        (Option::None, Option::None) => {},
    }
}

} // verus!
