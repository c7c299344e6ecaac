//! Debouncing of a button with an integrator.

use vstd::prelude::*;

verus! {

/// Enum representing if the button is active low or active high.
#[derive(Clone, Copy, Debug, PartialEq, Eq, Structural)]
pub enum ActiveState {
    /// Button is active low.
    ActiveLow,
    /// Button is active high.
    ActiveHigh,
}

/// Struct representing a debouncer for a button.
#[derive(Clone, Copy, Debug, PartialEq, Eq, Structural)]
pub struct Debouncer {
    /// Count of samples that saw the button pressed, less those that did not
    pub integrator: u8,
    /// Count at which the button is taken as pressed
    pub threshold: u8,
    /// Time between samples in ms
    pub sample_interval: u32,
    /// Level at which the button is pressed
    pub active_state: ActiveState,
    /// Whether the button is taken as pressed
    pub pressed: bool,
}

/// Whether a pin at the given level means that the button is held down. A
/// level that could not be read counts as not held down.
pub open spec fn level_is_pressed(active_state: ActiveState, is_low: Option<bool>) -> bool {
    match (active_state, is_low) {
        (ActiveState::ActiveLow, Some(low)) => low,
        (ActiveState::ActiveHigh, Some(low)) => !low,
        (_, None) => false,
    }
}

/// The integrator after one sample: one up while the button is held down,
/// up to the threshold, and one down while it is not, down to zero.
pub open spec fn integrate(integrator: u8, threshold: u8, is_pressed: bool) -> u8 {
    if is_pressed {
        if integrator < threshold {
            (integrator + 1) as u8
        } else {
            integrator
        }
    } else if integrator > 0 {
        (integrator - 1) as u8
    } else {
        integrator
    }
}

/// The debounced state after a sample brought the integrator to `integrator`:
/// pressed at the threshold, released at zero, unchanged in between.
pub open spec fn debounced(integrator: u8, threshold: u8, pressed: bool) -> bool {
    if integrator == threshold && !pressed {
        true
    } else if integrator == 0 && pressed {
        false
    } else {
        pressed
    }
}

impl Debouncer {
    /// The debouncer that `new` creates.
    pub open spec fn spec_new(threshold: u8, sample_interval: u32, active_state: ActiveState) -> Self {
        Debouncer { integrator: 0, threshold, sample_interval, active_state, pressed: false }
    }

    /// Creates a new Debouncer instance with the given threshold value, sampling interval and active state.
    pub fn new(threshold: u8, sample_interval: u32, active_state: ActiveState) -> (debouncer: Self)
        ensures
            debouncer == Self::spec_new(threshold, sample_interval, active_state),
    {
        Self { integrator: 0, threshold, sample_interval, active_state, pressed: false }
    }

    /// The debouncer after one sample of the pin.
    pub open spec fn spec_update(self, is_low: Option<bool>) -> Self {
        let integrator = integrate(
            self.integrator,
            self.threshold,
            level_is_pressed(self.active_state, is_low),
        );
        Debouncer {
            integrator,
            pressed: debounced(integrator, self.threshold, self.pressed),
            ..self
        }
    }

    /// Takes one sample of the pin into account
    ///
    /// `is_low` is whether the pin reads low, `None` if it could not be read.
    pub fn update(&mut self, is_low: Option<bool>)
        ensures
            *final(self) == old(self).spec_update(is_low),
    {
        // Sample the button state
        let is_pressed = match (self.active_state, is_low) {
            (ActiveState::ActiveLow, Some(low)) => low,
            (ActiveState::ActiveHigh, Some(low)) => !low,
            (_, None) => false,
        };
        // Check if the button is pressed and increment the integrator
        if is_pressed {
            if self.integrator < self.threshold {
                self.integrator += 1;
            }
        } else if self.integrator > 0 {
            self.integrator -= 1;
        }
        // Check if the integrator has crossed the threshold and the button state has changed

        if self.integrator == self.threshold && !self.pressed {
            self.pressed = true;
        } else if self.integrator == 0 && self.pressed {
            self.pressed = false;
        }
    }

    /// Debounces a button press using an integrator: one step
    ///
    /// Takes a sample into account and returns the new state if it differs
    /// from `previous_pressed`, the state when debouncing began. With `None`
    /// the next sample is due after the sample interval.
    pub fn debounce(&mut self, previous_pressed: bool, is_low: Option<bool>) -> (changed: Option<bool>)
        ensures
            *final(self) == old(self).spec_update(is_low),
            changed == (if final(self).pressed != previous_pressed {
                Some(final(self).pressed)
            } else {
                None
            }),
    {
        self.update(is_low);
        if self.pressed != previous_pressed {
            Some(self.pressed)
        } else {
            None
        }
    }
}

impl Default for Debouncer {
    /// Default Debouncer with a threshold of 3, sampling interval of 10ms and active low.
    fn default() -> (debouncer: Self)
        ensures
            debouncer == Debouncer::spec_new(3, 10, ActiveState::ActiveLow),
    {
        Self {
            integrator: 0,
            threshold: 3,
            sample_interval: 10,
            active_state: ActiveState::ActiveLow,
            pressed: false,
        }
    }
}

} // verus!
