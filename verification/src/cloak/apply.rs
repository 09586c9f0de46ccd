//! Applying a fingerprint to a browser over the debugging protocol: the
//! commands in their order, and what the application does after each one.
//! The application sends each command and hands back how it ended.

use vstd::prelude::*;
use crate::text::owned;

verus! {

/// The commands that apply a fingerprint: user agent, time zone, locale,
/// screen metrics, then the page script.
#[derive(Debug, Clone, Copy, PartialEq, Eq, Structural)]
pub enum ApplyStep {
    UserAgent,
    Timezone,
    Locale,
    DeviceMetrics,
    Injection,
}

/// The protocol method a step calls.
pub open spec fn step_method(s: ApplyStep) -> Seq<char> {
    match s {
        ApplyStep::UserAgent => "Network.setUserAgentOverride"@,
        ApplyStep::Timezone => "Emulation.setTimezoneOverride"@,
        ApplyStep::Locale => "Emulation.setLocaleOverride"@,
        ApplyStep::DeviceMetrics => "Emulation.setDeviceMetricsOverride"@,
        ApplyStep::Injection => "Page.addScriptToEvaluateOnNewDocument"@,
    }
}

/// The name a failure of a step is reported under.
pub open spec fn step_label(s: ApplyStep) -> Seq<char> {
    match s {
        ApplyStep::UserAgent => "setUserAgent"@,
        ApplyStep::Timezone => "setTimezone"@,
        ApplyStep::Locale => "setLocale"@,
        ApplyStep::DeviceMetrics => "setDeviceMetrics"@,
        ApplyStep::Injection => "injection"@,
    }
}

/// The step after a step, none after the last.
pub open spec fn following(s: ApplyStep) -> Option<ApplyStep> {
    match s {
        ApplyStep::UserAgent => Some(ApplyStep::Timezone),
        ApplyStep::Timezone => Some(ApplyStep::Locale),
        ApplyStep::Locale => Some(ApplyStep::DeviceMetrics),
        ApplyStep::DeviceMetrics => Some(ApplyStep::Injection),
        ApplyStep::Injection => None,
    }
}

/// What to do after a step: call the next one, or finish with a result.
#[derive(Debug)]
pub enum ApplyNext {
    Call(ApplyStep),
    Finished(Result<(), String>),
}

/// The first command to send.
pub fn first_step() -> (r: ApplyStep)
    ensures
        r == ApplyStep::UserAgent,
{
    ApplyStep::UserAgent
}

/// The protocol method of a step (see `step_method`).
pub fn method_of(step: ApplyStep) -> (r: &'static str)
    ensures
        r@ == step_method(step),
{
    match step {
        ApplyStep::UserAgent => "Network.setUserAgentOverride",
        ApplyStep::Timezone => "Emulation.setTimezoneOverride",
        ApplyStep::Locale => "Emulation.setLocaleOverride",
        ApplyStep::DeviceMetrics => "Emulation.setDeviceMetricsOverride",
        ApplyStep::Injection => "Page.addScriptToEvaluateOnNewDocument",
    }
}

/// What follows a step that ended with `outcome` (the error text of a
/// failed command): a failure stops the application with the step's label
/// and the text; a success goes on to the next step, or finishes with
/// success after the last.
pub fn after_step(step: ApplyStep, outcome: Result<(), String>) -> (r: ApplyNext)
    ensures
        outcome is Err ==> (r matches ApplyNext::Finished(Err(m)) && m@ == step_label(step) + ": "@
            + outcome->Err_0@),
        outcome is Ok && following(step) is Some ==> r == ApplyNext::Call(following(step).unwrap()),
        outcome is Ok && following(step) is None ==> (r matches ApplyNext::Finished(Ok(()))),
{
    match outcome {
        Err(e) => {
            let mut m = match step {
                ApplyStep::UserAgent => owned("setUserAgent"),
                ApplyStep::Timezone => owned("setTimezone"),
                ApplyStep::Locale => owned("setLocale"),
                ApplyStep::DeviceMetrics => owned("setDeviceMetrics"),
                ApplyStep::Injection => owned("injection"),
            };
            m.append(": ");
            m.append(e.as_str());
            ApplyNext::Finished(Err(m))
        },
        Ok(()) => match step {
            ApplyStep::UserAgent => ApplyNext::Call(ApplyStep::Timezone),
            ApplyStep::Timezone => ApplyNext::Call(ApplyStep::Locale),
            ApplyStep::Locale => ApplyNext::Call(ApplyStep::DeviceMetrics),
            ApplyStep::DeviceMetrics => ApplyNext::Call(ApplyStep::Injection),
            ApplyStep::Injection => ApplyNext::Finished(Ok(())),
        },
    }
}

} // verus!
