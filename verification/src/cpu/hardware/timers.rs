//! The four timers' registers.
use crate::bitwise::byte_of;
use vstd::prelude::*;

verus! {

/// The timer registers. For each timer `n`, `tmNcnt_l` is the counter that
/// reads at 0x0400_0100 + 4n, `tmNcnt_h` the control register after it, and
/// `tmN_reload` the value that a write to the counter's address stores and
/// that the counter takes when the timer starts.
pub struct Timers {
    pub tm0cnt_l: u16,
    pub tm0cnt_h: u16,
    pub tm1cnt_l: u16,
    pub tm1cnt_h: u16,
    pub tm2cnt_l: u16,
    pub tm2cnt_h: u16,
    pub tm3cnt_l: u16,
    pub tm3cnt_h: u16,
    pub tm0_reload: u16,
    pub tm1_reload: u16,
    pub tm2_reload: u16,
    pub tm3_reload: u16,
}

/// Bit 7 of a timer's control register starts the timer.
pub open spec fn is_started(control: u16) -> bool {
    control & 0x80 != 0
}

impl Timers {
    /// The counter of timer `idx`.
    pub open spec fn counter(self, idx: int) -> u16 {
        if idx == 0 {
            self.tm0cnt_l
        } else if idx == 1 {
            self.tm1cnt_l
        } else if idx == 2 {
            self.tm2cnt_l
        } else {
            self.tm3cnt_l
        }
    }

    /// The control register of timer `idx`.
    pub open spec fn control(self, idx: int) -> u16 {
        if idx == 0 {
            self.tm0cnt_h
        } else if idx == 1 {
            self.tm1cnt_h
        } else if idx == 2 {
            self.tm2cnt_h
        } else {
            self.tm3cnt_h
        }
    }

    /// The reload value of timer `idx`.
    pub open spec fn reload(self, idx: int) -> u16 {
        if idx == 0 {
            self.tm0_reload
        } else if idx == 1 {
            self.tm1_reload
        } else if idx == 2 {
            self.tm2_reload
        } else {
            self.tm3_reload
        }
    }

    /// The byte that the counters and control registers show at `address`,
    /// or `None` where no register lies.
    pub open spec fn byte_at(self, address: usize) -> Option<u8> {
        if 0x0400_0100 <= address <= 0x0400_010F {
            let idx = (address - 0x0400_0100) / 4;
            let k = (address - 0x0400_0100) % 4;
            if k < 2 {
                Some(byte_of(self.counter(idx) as u128, k as u128))
            } else {
                Some(byte_of(self.control(idx) as u128, (k - 2) as u128))
            }
        } else {
            None
        }
    }

    /// `new` is `self` with the reload value of timer `idx` set to `value`.
    pub open spec fn reload_stored(self, new: Self, idx: int, value: u16) -> bool {
        forall|i: int|
            #![trigger new.reload(i)]
            #![trigger new.counter(i)]
            #![trigger new.control(i)]
            0 <= i < 4 ==> {
                &&& new.reload(i) == if i == idx {
                    value
                } else {
                    self.reload(i)
                }
                &&& new.counter(i) == self.counter(i)
                &&& new.control(i) == self.control(i)
            }
    }

    /// `new` is `self` with the control register of timer `idx` set to
    /// `value`; a timer that this starts has loaded its reload value into its
    /// counter.
    pub open spec fn control_stored(self, new: Self, idx: int, value: u16) -> bool {
        forall|i: int|
            #![trigger new.reload(i)]
            #![trigger new.counter(i)]
            #![trigger new.control(i)]
            0 <= i < 4 ==> {
                &&& new.control(i) == if i == idx {
                    value
                } else {
                    self.control(i)
                }
                &&& new.counter(i) == if i == idx && !is_started(self.control(i)) && is_started(
                    value,
                ) {
                    self.reload(i)
                } else {
                    self.counter(i)
                }
                &&& new.reload(i) == self.reload(i)
            }
    }

    /// Sets the reload value of timer `idx`; the counter keeps running from
    /// where it is.
    pub fn set_reload(&mut self, idx: usize, value: u16)
        requires
            idx < 4,
        ensures
            old(self).reload_stored(*final(self), idx as int, value),
    {
        match idx {
            0 => self.tm0_reload = value,
            1 => self.tm1_reload = value,
            2 => self.tm2_reload = value,
            _ => self.tm3_reload = value,
        }
    }

    /// Sets the control register of timer `idx`. A timer that this write
    /// starts loads its reload value into its counter.
    pub fn set_control(&mut self, idx: usize, value: u16)
        requires
            idx < 4,
        ensures
            old(self).control_stored(*final(self), idx as int, value),
    {
        let starts = value & 0x80 != 0;
        match idx {
            0 => {
                if self.tm0cnt_h & 0x80 == 0 && starts {
                    self.tm0cnt_l = self.tm0_reload;
                }
                self.tm0cnt_h = value;
            },
            1 => {
                if self.tm1cnt_h & 0x80 == 0 && starts {
                    self.tm1cnt_l = self.tm1_reload;
                }
                self.tm1cnt_h = value;
            },
            2 => {
                if self.tm2cnt_h & 0x80 == 0 && starts {
                    self.tm2cnt_l = self.tm2_reload;
                }
                self.tm2cnt_h = value;
            },
            _ => {
                if self.tm3cnt_h & 0x80 == 0 && starts {
                    self.tm3cnt_l = self.tm3_reload;
                }
                self.tm3cnt_h = value;
            },
        }
    }
}

impl Default for Timers {
    fn default() -> (r: Self)
        ensures
            forall|i: int|
                0 <= i < 4 ==> #[trigger] r.counter(i) == 0 && r.control(i) == 0 && r.reload(i)
                    == 0,
    {
        Timers {
            tm0cnt_l: 0,
            tm0cnt_h: 0,
            tm1cnt_l: 0,
            tm1cnt_h: 0,
            tm2cnt_l: 0,
            tm2cnt_h: 0,
            tm3cnt_l: 0,
            tm3cnt_h: 0,
            tm0_reload: 0,
            tm1_reload: 0,
            tm2_reload: 0,
            tm3_reload: 0,
        }
    }
}

} // verus!
