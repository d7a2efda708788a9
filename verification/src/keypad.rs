//! The 16-key keypad as the CPU sees it: a row of boolean flags, mutated by
//! the input driver and only queried by the CPU.

use vstd::prelude::*;

verus! {

pub struct Keypad {
    pub keys: Vec<bool>,
}

impl Keypad {
    /// A keypad always holds exactly 16 flags, indexed 0x0 through 0xF.
    pub open spec fn wf(self) -> bool {
        self.keys@.len() == 16
    }

    /// A fresh keypad with every key released.
    pub fn new() -> (r: Keypad)
        ensures
            r.wf(),
            forall|k: int| 0 <= k < 16 ==> !r.keys@[k],
    {
        let mut keys: Vec<bool> = Vec::new();
        let mut k: usize = 0;
        while k < 16
            invariant
                k <= 16,
                keys@.len() == k,
                forall|j: int| 0 <= j < k ==> !keys@[j],
            decreases 16 - k,
        {
            keys.push(false);
            k = k + 1;
        }
        Keypad { keys }
    }

    /// Whether the key at `index` is currently held down.
    pub fn is_key_pressed(&mut self, index: usize) -> (r: bool)
        requires
            old(self).wf(),
            index < 16,
        ensures
            *final(self) == *old(self),
            r == old(self).keys@[index as int],
    {
        self.keys[index]
    }

    /// Records a press (`pressed == true`) or a release of the key at `index`.
    pub fn set_key(&mut self, index: usize, pressed: bool)
        requires
            old(self).wf(),
            index < 16,
        ensures
            final(self).wf(),
            final(self).keys@ == old(self).keys@.update(index as int, pressed),
    {
        self.keys.set(index, pressed);
    }

    /// The number of keys on the pad.
    pub fn size(&mut self) -> (r: usize)
        ensures
            *final(self) == *old(self),
            r == 16,
    {
        16
    }
}

} // verus!
