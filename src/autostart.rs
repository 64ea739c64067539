use vstd::prelude::*;
use crate::effect::Delivery;
use crate::names::MINIMIZED_FLAG;

verus! {

/// A change to the operating system's autostart registration.
#[derive(PartialEq, Eq, Structural, Clone, Copy, Debug)]
pub enum AutostartRequest {
    Enable,
    Disable,
}

pub open spec fn request_for(enabled: bool) -> AutostartRequest {
    if enabled {
        AutostartRequest::Enable
    } else {
        AutostartRequest::Disable
    }
}

/// The request that makes the registration match `enabled`.
pub fn autostart_request(enabled: bool) -> (r: AutostartRequest)
    ensures
        r == request_for(enabled),
{
    if enabled {
        AutostartRequest::Enable
    } else {
        AutostartRequest::Disable
    }
}

impl AutostartRequest {
    /// A failed autostart change is always reported to the caller.
    pub fn delivery(&self) -> (r: Delivery)
        ensures
            r == Delivery::Reported,
    {
        Delivery::Reported
    }
}

/// The arguments the registered launch passes to the application.
pub fn autostart_launch_args() -> (r: Vec<&'static str>)
    ensures
        r@.len() == 1,
        r@[0]@ == MINIMIZED_FLAG@,
{
    vec![MINIMIZED_FLAG]
}

/// The autostart registration as the operating system holds it.
#[derive(PartialEq, Eq, Structural, Clone, Copy, Debug)]
pub struct AutostartRegistration {
    pub enabled: bool,
}

impl AutostartRegistration {
    /// The registration after `req` has succeeded.
    pub open spec fn after(self, req: AutostartRequest) -> AutostartRegistration {
        AutostartRegistration { enabled: req == AutostartRequest::Enable }
    }

    /// Records that `req` succeeded.
    pub fn apply(&mut self, req: AutostartRequest)
        ensures
            *final(self) == old(self).after(req),
    {
        self.enabled = match req {
            AutostartRequest::Enable => true,
            AutostartRequest::Disable => false,
        };
    }

    /// What a query of the registration answers.
    pub fn is_enabled(&self) -> (r: bool)
        ensures
            r == self.enabled,
    {
        self.enabled
    }
}

/// Once the request for `enabled` has succeeded, a query of the registration
/// answers `enabled`, whatever the registration was before.
pub proof fn lemma_set_then_query(reg: AutostartRegistration, enabled: bool)
    ensures
        reg.after(request_for(enabled)).enabled == enabled,
{
}

} // verus!
