//! The monitor lifecycle controller.
//!
//! One monitor exists per process. Its state is the running flag, the handle
//! of the installed global hook, and whether an event sink is attached.
//! Starting and stopping are decisions made here and actions performed by the
//! unverified driver: `start` says whether a hook must be registered, `stop`
//! hands back the handle to unregister. The invariant is that a hook handle
//! is only ever held while the monitor is running, and there is at most one —
//! repeated starts are silent successes that install nothing.

use vstd::prelude::*;
use crate::clipboard::Clipboard;
use crate::errors::ExtractionError;
use crate::errors::MonitorError;
use crate::event::SelectionEvent;
use crate::event::selected_trigger;
use crate::event::selection_event_for;
use crate::extract::CopyOutcome;
use crate::extract::copied_text;
use crate::extract::extract_final;
use crate::extract::extract_selected_text;
use crate::extract::restored;
use crate::gesture::QualifyingRelease;

verus! {

/// What the caller of [`MonitorState::start`] must do next.
#[derive(Clone, Copy, Debug, PartialEq, Eq, Structural)]
pub enum StartAction {
    /// The monitor was already running: a silent success, nothing to do.
    AlreadyRunning,
    /// The monitor is now marked running: register the global hook and run
    /// the dispatch loop, then report the outcome with
    /// [`MonitorState::hook_installed`] or [`MonitorState::hook_failed`].
    InstallHook,
}

/// The process-wide monitor state.
pub struct MonitorState {
    /// Whether the monitor is marked running.
    pub running: bool,
    /// The opaque platform handle of the installed hook, while one is
    /// installed.
    pub hook: Option<usize>,
    /// Whether an event sink is attached; without one, detected selections
    /// are dropped rather than forwarded.
    pub sink_ready: bool,
}

/// The state after a start request: marked running; the hook, if any, and
/// the sink are untouched.
pub open spec fn start_next(m: MonitorState) -> MonitorState {
    if m.running {
        m
    } else {
        MonitorState { running: true, ..m }
    }
}

/// The action a start request calls for.
pub open spec fn start_action(m: MonitorState) -> StartAction {
    if m.running {
        StartAction::AlreadyRunning
    } else {
        StartAction::InstallHook
    }
}

/// The state after recording a freshly registered hook.
pub open spec fn install_next(m: MonitorState, handle: usize) -> MonitorState {
    MonitorState { hook: Some(handle), ..m }
}

/// The state after a stop request: not running, no hook held.
pub open spec fn stop_next(m: MonitorState) -> MonitorState {
    MonitorState { running: false, hook: None, ..m }
}

impl MonitorState {
    /// A hook handle is only held while the monitor is running; at most one
    /// hook is installed at a time (the field holds at most one).
    pub open spec fn wf(&self) -> bool {
        self.hook is Some ==> self.running
    }

    /// A fresh monitor: stopped, no hook, no sink.
    pub fn new() -> (m: MonitorState)
        ensures
            m == (MonitorState { running: false, hook: None::<usize>, sink_ready: false }),
            m.wf(),
    {
        MonitorState { running: false, hook: None, sink_ready: false }
    }

    /// Attach the event sink. Set once at startup; the hook callback only
    /// reads it afterwards.
    pub fn set_event_sink(&mut self)
        ensures
            *final(self) == (MonitorState { sink_ready: true, ..*old(self) }),
            old(self).wf() ==> final(self).wf(),
    {
        self.sink_ready = true;
    }

    /// Request a start. Idempotent: a running monitor reports a silent
    /// success and nothing changes; a stopped one is marked running and the
    /// caller must register the one global hook.
    pub fn start(&mut self) -> (r: StartAction)
        ensures
            *final(self) == start_next(*old(self)),
            r == start_action(*old(self)),
            old(self).wf() ==> final(self).wf(),
    {
        if self.running {
            StartAction::AlreadyRunning
        } else {
            self.running = true;
            StartAction::InstallHook
        }
    }

    /// Record the handle of the hook the platform just registered.
    pub fn hook_installed(&mut self, handle: usize)
        requires
            old(self).running,
            old(self).hook is None,
        ensures
            *final(self) == install_next(*old(self), handle),
            final(self).wf(),
    {
        self.hook = Some(handle);
    }

    /// The platform refused to register the hook: roll the start back and
    /// report the failure to the caller — reported, never fatal.
    pub fn hook_failed(&mut self) -> (e: MonitorError)
        requires
            old(self).hook is None,
        ensures
            *final(self) == (MonitorState { running: false, ..*old(self) }),
            final(self).wf(),
            e == MonitorError::HookInstallFailed,
    {
        self.running = false;
        MonitorError::HookInstallFailed
    }

    /// Request a stop: mark not running and hand back the hook handle the
    /// caller must unregister, if one was installed. Idempotent when
    /// already stopped.
    pub fn stop(&mut self) -> (r: Option<usize>)
        ensures
            *final(self) == stop_next(*old(self)),
            r == old(self).hook,
            final(self).wf(),
    {
        self.running = false;
        let r = match self.hook {
            Some(h) => Some(h),
            None => None,
        };
        self.hook = None;
        r
    }

    /// The extraction task run after a qualifying release: extract through
    /// the clipboard-interception protocol, and produce the event to
    /// forward — populated exactly when text was extracted and a sink is
    /// attached. A failed extraction degrades to "no event"; it never
    /// disturbs detection of later selections.
    pub fn run_extraction(
        &self,
        release: QualifyingRelease,
        cb: &mut Clipboard,
        copy: CopyOutcome,
    ) -> (ev: Option<SelectionEvent>)
        ensures
            final(cb).is_held() == old(cb).is_held(),
            old(cb).is_held() ==> final(cb).text() == old(cb).text(),
            !old(cb).is_held() && copy is Rejected ==> final(cb).text() == restored(
                old(cb).text(),
            ),
            !old(cb).is_held() && !(copy is Rejected) ==> final(cb).text() == extract_final(
                old(cb).text(),
                copy,
            ),
            ev is Some <==> (!old(cb).is_held() && !(copy is Rejected) && copied_text(copy).len()
                > 0 && self.sink_ready),
            ev matches Some(e) ==> e.text@ == copied_text(copy) && e.x == release.x && e.y
                == release.y && e.trigger@ == selected_trigger(),
    {
        match extract_selected_text(cb, copy) {
            Ok(text) => {
                if self.sink_ready {
                    selection_event_for(text, release.x, release.y)
                } else {
                    None
                }
            },
            Err(_) => None,
        }
    }

    /// On-demand extraction for an explicit "grab the current selection"
    /// request. No clause below mentions the running flag or the hook: a
    /// stopped monitor extracts exactly as a running one does, so this
    /// still succeeds after a stop.
    pub fn get_selected_text_now(&self, cb: &mut Clipboard, copy: CopyOutcome) -> (r: Result<
        String,
        ExtractionError,
    >)
        ensures
            final(cb).is_held() == old(cb).is_held(),
            old(cb).is_held() ==> (r matches Err(e) && e == ExtractionError::ClipboardUnavailable)
                && final(cb).text() == old(cb).text(),
            !old(cb).is_held() && copy is Rejected ==> (r matches Err(e) && e
                == ExtractionError::SimulationFailed) && final(cb).text() == restored(
                old(cb).text(),
            ),
            !old(cb).is_held() && !(copy is Rejected) ==> (r matches Ok(t) && t@ == copied_text(
                copy,
            )) && final(cb).text() == extract_final(old(cb).text(), copy),
    {
        extract_selected_text(cb, copy)
    }
}

/// Two starts in succession install exactly one hook and succeed both
/// times: from a stopped monitor the first start asks for one hook
/// registration, and once that hook is recorded the second start is a
/// silent success that changes nothing — the one hook stays installed.
pub proof fn lemma_second_start_is_noop(m: MonitorState, handle: usize)
    requires
        m.wf(),
        !m.running,
    ensures
        start_action(m) == StartAction::InstallHook,
        (install_next(start_next(m), handle).hook == Some(handle)),
        (start_action(install_next(start_next(m), handle)) == StartAction::AlreadyRunning),
        (start_next(install_next(start_next(m), handle)) == install_next(start_next(m), handle)),
{
}

} // verus!
