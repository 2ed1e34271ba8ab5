//! The supervisor's decisions: what a signal asks of the servers it supervises.
use vstd::prelude::*;

verus! {

/// Which servers a signal is meant for.
#[derive(Clone, Copy, Debug, PartialEq, Eq, Structural)]
pub enum TargetServer {
    /// Every server.
    All,
    /// The web server.
    WebServer,
}

/// A request sent to the supervisor by one of the servers.
#[derive(Clone, Copy, Debug, PartialEq, Eq, Structural)]
pub enum Signal {
    Shutdown(TargetServer),
    UpdateConfig(TargetServer),
}

/// What woke the supervisor.
#[derive(Clone, Copy, Debug, PartialEq, Eq, Structural)]
pub enum SupervisorEvent {
    /// The process was asked to terminate.
    Interrupted,
    /// A signal arrived on the supervisor's channel.
    Received(Signal),
    /// Every sender of the channel is gone; only interruption can arrive now.
    ChannelClosed,
}

/// What the supervisor does about an event.
#[derive(Clone, Copy, Debug, PartialEq, Eq, Structural)]
pub enum Directive {
    /// Shut the targeted servers down and leave the supervising loop.
    ShutdownAndExit(TargetServer),
    /// Have the targeted servers take up their configuration again.
    UpdateConfig(TargetServer),
    /// Stop listening on the channel and wait for interruption alone.
    IgnoreChannel,
}

/// The directive for an event: interruption shuts every server down, a signal
/// is passed on to the servers it targets.
pub open spec fn directive_of(event: SupervisorEvent) -> Directive {
    match event {
        SupervisorEvent::Interrupted => Directive::ShutdownAndExit(TargetServer::All),
        SupervisorEvent::Received(Signal::Shutdown(t)) => Directive::ShutdownAndExit(t),
        SupervisorEvent::Received(Signal::UpdateConfig(t)) => Directive::UpdateConfig(t),
        SupervisorEvent::ChannelClosed => Directive::IgnoreChannel,
    }
}

/// Decides what the supervisor does about `event`.
pub fn directive(event: SupervisorEvent) -> (r: Directive)
    ensures
        r == directive_of(event),
{
    match event {
        SupervisorEvent::Interrupted => Directive::ShutdownAndExit(TargetServer::All),
        SupervisorEvent::Received(Signal::Shutdown(t)) => Directive::ShutdownAndExit(t),
        SupervisorEvent::Received(Signal::UpdateConfig(t)) => Directive::UpdateConfig(t),
        SupervisorEvent::ChannelClosed => Directive::IgnoreChannel,
    }
}

} // verus!
