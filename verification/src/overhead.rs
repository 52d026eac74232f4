//! Cockpit overhead pushbuttons. The buttons are dumb latches: all logic
//! consulting them lives in the distribution layer.

use vstd::prelude::*;

verus! {

/// The position of an on/off pushbutton.
#[derive(Clone, Copy, Debug, PartialEq, Eq, Structural)]
pub enum OnOffPushButtonState {
    On,
    Off,
}

/// A two-position on/off pushbutton.
#[derive(Clone, Copy, Debug)]
pub struct OnOffPushButton {
    pub state: OnOffPushButtonState,
}

impl OnOffPushButton {
    pub fn new_on() -> (r: OnOffPushButton)
        ensures
            r.state is On,
    {
        OnOffPushButton { state: OnOffPushButtonState::On }
    }

    pub fn new_off() -> (r: OnOffPushButton)
        ensures
            r.state is Off,
    {
        OnOffPushButton { state: OnOffPushButtonState::Off }
    }

    pub fn push_on(&mut self)
        ensures
            final(self).state is On,
    {
        self.state = OnOffPushButtonState::On;
    }

    pub fn push_off(&mut self)
        ensures
            final(self).state is Off,
    {
        self.state = OnOffPushButtonState::Off;
    }

    pub open spec fn spec_is_on(&self) -> bool {
        self.state is On
    }

    #[verifier::when_used_as_spec(spec_is_on)]
    pub fn is_on(&self) -> (r: bool)
        ensures
            r == self.spec_is_on(),
    {
        matches!(self.state, OnOffPushButtonState::On)
    }

    pub open spec fn spec_is_off(&self) -> bool {
        self.state is Off
    }

    #[verifier::when_used_as_spec(spec_is_off)]
    pub fn is_off(&self) -> (r: bool)
        ensures
            r == self.spec_is_off(),
    {
        matches!(self.state, OnOffPushButtonState::Off)
    }
}

/// The position of a normal/alternate pushbutton.
#[derive(Clone, Copy, Debug, PartialEq, Eq, Structural)]
pub enum NormalAltnPushButtonState {
    Normal,
    Altn,
}

/// A two-position normal/alternate pushbutton.
#[derive(Clone, Copy, Debug)]
pub struct NormalAltnPushButton {
    pub state: NormalAltnPushButtonState,
}

impl NormalAltnPushButton {
    pub fn new_normal() -> (r: NormalAltnPushButton)
        ensures
            r.state is Normal,
    {
        NormalAltnPushButton { state: NormalAltnPushButtonState::Normal }
    }

    pub fn new_altn() -> (r: NormalAltnPushButton)
        ensures
            r.state is Altn,
    {
        NormalAltnPushButton { state: NormalAltnPushButtonState::Altn }
    }

    pub fn push_normal(&mut self)
        ensures
            final(self).state is Normal,
    {
        self.state = NormalAltnPushButtonState::Normal;
    }

    pub fn push_altn(&mut self)
        ensures
            final(self).state is Altn,
    {
        self.state = NormalAltnPushButtonState::Altn;
    }

    pub open spec fn spec_is_normal(&self) -> bool {
        self.state is Normal
    }

    #[verifier::when_used_as_spec(spec_is_normal)]
    pub fn is_normal(&self) -> (r: bool)
        ensures
            r == self.spec_is_normal(),
    {
        matches!(self.state, NormalAltnPushButtonState::Normal)
    }

    pub open spec fn spec_is_altn(&self) -> bool {
        self.state is Altn
    }

    #[verifier::when_used_as_spec(spec_is_altn)]
    pub fn is_altn(&self) -> (r: bool)
        ensures
            r == self.spec_is_altn(),
    {
        matches!(self.state, NormalAltnPushButtonState::Altn)
    }
}

} // verus!
