//! The apply gate: one patch session at a time, and the patcher that starts one.
use vstd::prelude::*;

use crate::options::{default_options, with_option, AdvancedPatchOptions, OptionsView, PatchOption};
use crate::types::ConcurrentApplyError;

verus! {

/// Whether an apply is granted: only while no earlier result holds the apply gate.
pub open spec fn apply_granted(held: bool) -> bool {
    !held
}

/// Whether the apply gate is held after an apply was asked for: a granted one takes it, a
/// refused one leaves it with the result that holds it.
pub open spec fn held_after_apply(held: bool) -> bool {
    true
}

/// Whether the apply gate is held after a result gave it back: never.
pub open spec fn held_after_release(held: bool) -> bool {
    false
}

/// The single slot that lets one apply result at a time read the engine's state.
#[derive(Debug)]
pub struct ApplyGate {
    held: bool,
}

/// The right, held by one live apply result, to read the engine's last state. It cannot be
/// copied; giving it back opens the apply gate.
#[derive(Debug)]
pub struct ApplyPermit {
    granted: bool,
}

impl ApplyGate {
    pub closed spec fn is_held(&self) -> bool {
        self.held
    }

    /// An open gate.
    pub fn new() -> (r: ApplyGate)
        ensures
            !r.is_held(),
    {
        ApplyGate { held: false }
    }

    /// Whether an apply would be granted now.
    pub fn is_available(&self) -> (r: bool)
        ensures
            r == apply_granted(self.is_held()),
    {
        !self.held
    }

    /// Takes the apply gate for a new apply, or refuses at once when a live result holds it.
    pub fn try_acquire(&mut self) -> (r: Result<ApplyPermit, ConcurrentApplyError>)
        ensures
            r is Ok == apply_granted(old(self).is_held()),
            final(self).is_held() == held_after_apply(old(self).is_held()),
    {
        if self.held {
            Err(ConcurrentApplyError)
        } else {
            self.held = true;
            Ok(ApplyPermit { granted: true })
        }
    }

    /// Gives the apply gate back.
    pub fn release(&mut self, permit: ApplyPermit)
        ensures
            final(self).is_held() == held_after_release(old(self).is_held()),
    {
        let ApplyPermit { granted: _ } = permit;
        self.held = false;
    }
}

/// While one apply result is alive, a second apply is refused, and the apply gate stays held.
pub proof fn lemma_second_apply_refused(held: bool)
    ensures
        !apply_granted(held_after_apply(held)),
        held_after_apply(held_after_apply(held)),
{
}

/// Once a result gave the apply gate back, the next apply is granted.
pub proof fn lemma_release_reopens(held: bool)
    ensures
        apply_granted(held_after_release(held)),
{
}

/// The settings that an apply uses: those set on the patcher, else the defaults.
pub open spec fn resolved_options(v: Option<OptionsView>) -> OptionsView {
    match v {
        Some(o) => o,
        None => default_options(),
    }
}

/// Collects the settings for one apply of a patch.
#[derive(Debug, Clone)]
pub struct Patcher {
    options: Option<AdvancedPatchOptions>,
}

impl View for Patcher {
    type V = Option<OptionsView>;

    closed spec fn view(&self) -> Option<OptionsView> {
        match self.options {
            Some(o) => Some(o@),
            None => None,
        }
    }
}

impl Patcher {
    /// A patcher with no settings of its own.
    pub fn new() -> (r: Patcher)
        ensures
            r@ is None,
    {
        Patcher { options: None }
    }

    /// Adds one option to the settings, which start from the defaults.
    pub fn option(&mut self, option: PatchOption)
        ensures
            final(self)@ == Some(with_option(resolved_options(old(self)@), option)),
    {
        let current = match self.options.take() {
            Some(o) => o,
            None => AdvancedPatchOptions::new(),
        };
        self.options = Some(current.option(option));
    }

    /// Replaces the settings.
    pub fn options(&mut self, options: AdvancedPatchOptions)
        ensures
            final(self)@ == Some(options@),
    {
        self.options = Some(options);
    }

    /// Starts an apply: takes the apply gate and hands out the settings to patch with, or
    /// refuses at once, leaving the apply gate as it was, when a live result holds it.
    pub fn begin_apply(self, gate: &mut ApplyGate) -> (r: Result<
        (AdvancedPatchOptions, ApplyPermit),
        ConcurrentApplyError,
    >)
        ensures
            r is Ok == apply_granted(old(gate).is_held()),
            final(gate).is_held() == held_after_apply(old(gate).is_held()),
            r matches Ok((o, _)) ==> o@ == resolved_options(self@),
    {
        match gate.try_acquire() {
            Ok(permit) => {
                let options = match self.options {
                    Some(o) => o,
                    None => AdvancedPatchOptions::new(),
                };
                Ok((options, permit))
            },
            Err(e) => Err(e),
        }
    }
}

impl Default for Patcher {
    fn default() -> (r: Patcher)
        ensures
            r@ is None,
    {
        Patcher::new()
    }
}

} // verus!
