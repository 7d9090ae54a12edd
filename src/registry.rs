//! A registry that owns every controller pin and hands each one out at most
//! once, by board-pin number.

use vstd::prelude::*;

use crate::pins::{to_hal, translation, InvalidMicrobitPinError, PHYSICAL_PIN_COUNT, lemma_mapped_pins_translate};

verus! {

/// Why a pin could not be claimed.
#[derive(Debug, Clone, Copy, PartialEq, Eq, Structural)]
pub enum ClaimError {
    /// The board pin has no controller pin: see `to_hal`.
    InvalidPin,
    /// The controller pin behind the board pin was handed out before.
    AlreadyClaimed,
}

/// The set of controller pins handed out so far.
pub struct PinRegistry {
    claimed: Vec<bool>,
}

impl View for PinRegistry {
    type V = Set<u32>;

    closed spec fn view(&self) -> Set<u32> {
        Set::new(|p: u32| (p as int) < self.claimed@.len() && self.claimed@[p as int])
    }
}

impl PinRegistry {
    /// One flag per controller pin.
    pub closed spec fn wf(&self) -> bool {
        self.claimed@.len() == PHYSICAL_PIN_COUNT
    }

    /// A registry in which no pin has been handed out.
    pub fn new() -> (r: PinRegistry)
        ensures
            r.wf(),
            r@ == Set::<u32>::empty(),
    {
        let mut claimed: Vec<bool> = Vec::new();
        while claimed.len() < PHYSICAL_PIN_COUNT as usize
            invariant
                claimed@.len() <= PHYSICAL_PIN_COUNT,
                forall|i: int| 0 <= i < claimed@.len() ==> !claimed@[i],
            decreases PHYSICAL_PIN_COUNT - claimed@.len(),
        {
            claimed.push(false);
        }
        let r = PinRegistry { claimed };
        assert(r@ =~= Set::<u32>::empty());
        r
    }

    /// Whether the controller pin `physical_pin` has been handed out.
    pub fn is_claimed(&self, physical_pin: u32) -> (r: bool)
        requires
            self.wf(),
        ensures
            r == self@.contains(physical_pin),
    {
        physical_pin < PHYSICAL_PIN_COUNT && self.claimed[physical_pin as usize]
    }

    /// Hands out the controller pin behind board pin `microbit_pin`, once.
    /// Fails with `InvalidPin` where the board pin does not translate, and
    /// with `AlreadyClaimed` where its controller pin was handed out before;
    /// a failed claim leaves the registry as it was.
    pub fn claim(&mut self, microbit_pin: u32) -> (r: Result<u32, ClaimError>)
        requires
            old(self).wf(),
        ensures
            final(self).wf(),
            match translation(microbit_pin as int) {
                Err(_) => r == Err::<u32, ClaimError>(ClaimError::InvalidPin) && final(self)@ == old(self)@,
                Ok(p) => if old(self)@.contains(p) {
                    r == Err::<u32, ClaimError>(ClaimError::AlreadyClaimed) && final(self)@ == old(self)@
                } else {
                    r == Ok::<u32, ClaimError>(p) && final(self)@ == old(self)@.insert(p)
                },
            },
    {
        match to_hal(microbit_pin) {
            Err(InvalidMicrobitPinError) => Err(ClaimError::InvalidPin),
            Ok(p) => {
                proof {
                    if microbit_pin != 17 && microbit_pin != 18 && microbit_pin < 21 {
                        lemma_mapped_pins_translate(microbit_pin);
                    }
                }
                if self.claimed[p as usize] {
                    Err(ClaimError::AlreadyClaimed)
                } else {
                    let ghost before = self@;
                    self.claimed.set(p as usize, true);
                    assert(self@ =~= before.insert(p));
                    Ok(p)
                }
            },
        }
    }
}

} // verus!
