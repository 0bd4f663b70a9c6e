//! Capability sets: the event classes and (class, code) pairs a device
//! declares it can produce. The kernel validates writes against this set,
//! so the identity a virtual device registers must carry the right one.

use vstd::prelude::*;

verus! {

/// One enabled event code, qualified by its class.
#[derive(Clone, Copy, PartialEq, Eq, Structural, Debug)]
pub struct EventCodeId {
    pub class: u16,
    pub code: u16,
}

/// Mathematical model of a capability set: the declared classes and the
/// declared (class, code) pairs, in declaration order.
pub ghost struct CapabilityModel {
    pub classes: Seq<u16>,
    pub codes: Seq<EventCodeId>,
}

/// The event classes and codes a device declares.
pub struct CapabilitySet {
    pub classes: Vec<u16>,
    pub codes: Vec<EventCodeId>,
}

impl View for CapabilitySet {
    type V = CapabilityModel;

    open spec fn view(&self) -> CapabilityModel {
        CapabilityModel { classes: self.classes@, codes: self.codes@ }
    }
}

impl CapabilitySet {
    /// A capability set declaring nothing.
    pub fn new() -> (r: CapabilitySet)
        ensures
            r@.classes == Seq::<u16>::empty(),
            r@.codes == Seq::<EventCodeId>::empty(),
    {
        CapabilitySet { classes: Vec::new(), codes: Vec::new() }
    }

    /// Whether the set declares the event class `class`.
    pub fn has_class(&self, class: u16) -> (r: bool)
        ensures
            r == self@.classes.contains(class),
    {
        let mut i: usize = 0;
        while i < self.classes.len()
            invariant
                i <= self.classes.len(),
                forall|j: int| 0 <= j < i ==> self.classes@[j] != class,
            decreases self.classes.len() - i,
        {
            if self.classes[i] == class {
                return true;
            }
            i += 1;
        }
        false
    }

    /// Whether the set declares the event code `code`.
    pub fn has_code(&self, code: EventCodeId) -> (r: bool)
        ensures
            r == self@.codes.contains(code),
    {
        let mut i: usize = 0;
        while i < self.codes.len()
            invariant
                i <= self.codes.len(),
                forall|j: int| 0 <= j < i ==> self.codes@[j] != code,
            decreases self.codes.len() - i,
        {
            if self.codes[i] == code {
                return true;
            }
            i += 1;
        }
        false
    }

    /// Declare the event class `class`; a class already declared is kept
    /// once.
    pub fn enable_class(&mut self, class: u16)
        ensures
            final(self)@.classes == (if old(self)@.classes.contains(class) {
                old(self)@.classes
            } else {
                old(self)@.classes.push(class)
            }),
            final(self)@.codes == old(self)@.codes,
            final(self)@.classes.contains(class),
    {
        if !self.has_class(class) {
            self.classes.push(class);
            proof {
                assert(self.classes@[self.classes@.len() - 1] == class);
            }
        }
    }

    /// Declare the event code `code`; a code already declared is kept once.
    pub fn enable_code(&mut self, code: EventCodeId)
        ensures
            final(self)@.codes == (if old(self)@.codes.contains(code) {
                old(self)@.codes
            } else {
                old(self)@.codes.push(code)
            }),
            final(self)@.classes == old(self)@.classes,
            final(self)@.codes.contains(code),
    {
        if !self.has_code(code) {
            self.codes.push(code);
            proof {
                assert(self.codes@[self.codes@.len() - 1] == code);
            }
        }
    }
}

impl Clone for CapabilitySet {
    /// The clone declares exactly the classes and codes of the original.
    fn clone(&self) -> (r: Self)
        ensures
            r@ == self@,
    {
        let mut classes: Vec<u16> = Vec::new();
        let mut i: usize = 0;
        while i < self.classes.len()
            invariant
                i <= self.classes.len(),
                classes@ == self.classes@.take(i as int),
            decreases self.classes.len() - i,
        {
            classes.push(self.classes[i]);
            proof {
                assert(classes@ =~= self.classes@.take(i + 1 as int));
            }
            i += 1;
        }
        let mut codes: Vec<EventCodeId> = Vec::new();
        let mut j: usize = 0;
        while j < self.codes.len()
            invariant
                j <= self.codes.len(),
                codes@ == self.codes@.take(j as int),
            decreases self.codes.len() - j,
        {
            codes.push(self.codes[j]);
            proof {
                assert(codes@ =~= self.codes@.take(j + 1 as int));
            }
            j += 1;
        }
        proof {
            assert(classes@ =~= self.classes@);
            assert(codes@ =~= self.codes@);
        }
        CapabilitySet { classes, codes }
    }
}

} // verus!
