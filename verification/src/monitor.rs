use vstd::prelude::*;
use crate::codec::RawImage;
use crate::filter::ClipboardEvent;
use crate::filter::LanguageDetectOptions;
use crate::filter::app_excluded;
use crate::filter::auto_star_on;
use crate::filter::evaluate;
use crate::filter::history_capture_on;
use crate::filter::options_match;
use crate::filter::opt_text_view;
use crate::filter::text_kept;
use crate::governor::CAPTURE_THRESHOLD;
use crate::governor::CaptureCounter;
use crate::governor::MaintenanceSignal;
use crate::settings::SettingsSnapshot;
use crate::text::trim_of;

verus! {

/// What one clipboard-change signal carried once read: its text
/// representation, its image representation, or nothing this pipeline can
/// hold (both reads failed, which is not an error).
pub enum SignalPayload {
    Text(String),
    Image(RawImage),
    Unavailable,
}

/// The normalized payload owed to the persistence collaborator for one kept
/// event.
pub enum PersistRequest {
    Text {
        text: String,
        options: LanguageDetectOptions,
        auto_star: bool,
        source_app: Option<String>,
    },
    Image { image: RawImage, auto_star: bool, source_app: Option<String> },
}

/// Everything the event handler decides for one signal: whether the
/// maintenance sweep is due, and what, if anything, to persist.
pub struct SignalPlan {
    pub run_maintenance: bool,
    pub persist: Option<PersistRequest>,
}

/// The token the persistence collaborator reports back for one hand-off.
#[derive(Clone, Copy, Debug, PartialEq, Eq, Structural)]
pub enum PersistStatus {
    Success,
    Failure,
}

/// What the GUI layer is told after one signal is handled.
#[derive(Clone, Copy, Debug, PartialEq, Eq, Structural)]
pub enum MonitorNotification {
    Update,
    Error,
}

/// Whether a signal is counted and filtered at all: the monitor must be
/// running, the capture toggle must not be explicitly off, and the clipboard
/// must have held a representation this pipeline can read.
pub open spec fn signal_counted(
    running: bool,
    s: Seq<crate::settings::Setting>,
    payload: SignalPayload,
) -> bool {
    running && history_capture_on(s) && !(payload is Unavailable)
}

/// Whether the global capture toggle allows any work on a signal; checked by
/// the handler before it reads the clipboard at all.
pub fn capture_enabled(settings: &SettingsSnapshot) -> (b: bool)
    ensures
        b == history_capture_on(settings@),
{
    settings.get_bool("isHistoryEnabled", true)
}

/// Clone an optional application name.
fn clone_opt_string(o: &Option<String>) -> (r: Option<String>)
    ensures
        r == *o,
{
    match o {
        Some(s) => Some(s.clone()),
        None => None,
    }
}

/// The event handler's decision core, run once per clipboard-change signal:
/// gate on the running flag and the capture toggle, count the signal with
/// the governor, run the Filter Engine, and normalize the payload for the
/// persistence collaborator. The caller performs the outside work the plan
/// asks for: triggering the scheduled-job runner and handing the persist
/// request over.
pub fn plan_signal(
    running: bool,
    settings: &SettingsSnapshot,
    payload: SignalPayload,
    source_app: Option<String>,
    counter: &mut CaptureCounter,
) -> (plan: SignalPlan)
    requires
        old(counter).wf(),
    ensures
        final(counter).wf(),
        // a signal that is not counted leaves no trace: nothing persisted,
        // no maintenance, counter untouched
        !signal_counted(running, settings@, payload) ==> plan.persist is None
            && !plan.run_maintenance && *final(counter) == *old(counter),
        // a counted signal ticks the governor exactly once
        signal_counted(running, settings@, payload) ==> (
            (old(counter).count() + 1 == CAPTURE_THRESHOLD ==> plan.run_maintenance
                && final(counter).count() == 0) && (old(counter).count() + 1 < CAPTURE_THRESHOLD
                ==> !plan.run_maintenance && final(counter).count() == old(counter).count() + 1)),
        // text path: persisted exactly when the Filter Engine keeps it, and
        // then the normalized payload is pinned down
        signal_counted(running, settings@, payload) ==> (payload matches SignalPayload::Text(raw)
            ==> ((text_kept(settings@, trim_of(raw@), opt_text_view(source_app)) <==> plan.persist
            is Some) && (plan.persist matches Some(req) ==> (req matches PersistRequest::Text {
            text,
            options,
            auto_star,
            source_app: app,
        } && text@ == trim_of(raw@) && options_match(settings@, options) && auto_star
            == auto_star_on(settings@) && app == source_app)))),
        // image path: persisted exactly when the source application is not
        // excluded
        signal_counted(running, settings@, payload) ==> (payload matches SignalPayload::Image(img)
            ==> ((!app_excluded(settings@, opt_text_view(source_app)) <==> plan.persist is Some) && (
        plan.persist matches Some(req) ==> (req matches PersistRequest::Image {
            image,
            auto_star,
            source_app: app,
        } && image == img && auto_star == auto_star_on(settings@) && app == source_app)))),
{
    if !running {
        return SignalPlan { run_maintenance: false, persist: None };
    }
    if !capture_enabled(settings) {
        return SignalPlan { run_maintenance: false, persist: None };
    }
    match payload {
        SignalPayload::Unavailable => SignalPlan { run_maintenance: false, persist: None },
        SignalPayload::Text(raw) => {
            let sig = counter.tick();
            let run_maintenance = match sig {
                MaintenanceSignal::Run => true,
                MaintenanceSignal::Idle => false,
            };
            let app_copy = clone_opt_string(&source_app);
            let event = ClipboardEvent::text_event(raw, app_copy);
            let d = evaluate(settings, &event);
            match (d.keep, d.detect_options, event) {
                (
                    true,
                    Some(options),
                    ClipboardEvent::Text { trimmed_text, source_app: app, .. },
                ) => SignalPlan {
                    run_maintenance,
                    persist: Some(
                        PersistRequest::Text {
                            text: trimmed_text,
                            options,
                            auto_star: d.auto_star,
                            source_app: app,
                        },
                    ),
                },
                _ => SignalPlan { run_maintenance, persist: None },
            }
        },
        SignalPayload::Image(img) => {
            let sig = counter.tick();
            let run_maintenance = match sig {
                MaintenanceSignal::Run => true,
                MaintenanceSignal::Idle => false,
            };
            let app_copy = clone_opt_string(&source_app);
            let event = ClipboardEvent::image_event(img, app_copy);
            let d = evaluate(settings, &event);
            match (d.keep, event) {
                (true, ClipboardEvent::Image { image, source_app: app }) => SignalPlan {
                    run_maintenance,
                    persist: Some(
                        PersistRequest::Image { image, auto_star: d.auto_star, source_app: app },
                    ),
                },
                _ => SignalPlan { run_maintenance, persist: None },
            }
        },
    }
}

/// What to tell the GUI layer once the plan has been executed: an update
/// when a persisted hand-off succeeded, an error when it failed, nothing
/// when nothing was persisted. The handler itself always tells the OS layer
/// to continue watching, whatever happened.
pub fn notification_after(outcome: &Option<PersistStatus>) -> (n: Option<MonitorNotification>)
    ensures
        *outcome matches Some(st) ==> (st == PersistStatus::Success ==> n == Some(
            MonitorNotification::Update,
        )) && (st == PersistStatus::Failure ==> n == Some(MonitorNotification::Error)),
        *outcome is None ==> n is None,
{
    match outcome {
        Some(PersistStatus::Success) => Some(MonitorNotification::Update),
        Some(PersistStatus::Failure) => Some(MonitorNotification::Error),
        None => None,
    }
}

/// LAW — toggle-off suppression: when the capture toggle is explicitly off,
/// no signal whatever its payload produces a persist request, a maintenance
/// run, or a counter change.
pub proof fn lemma_toggle_off_suppresses(
    running: bool,
    s: Seq<crate::settings::Setting>,
    payload: SignalPayload,
    plan: SignalPlan,
    before: CaptureCounter,
    after: CaptureCounter,
)
    requires
        !history_capture_on(s),
        !signal_counted(running, s, payload) ==> plan.persist is None && !plan.run_maintenance
            && after == before,
    ensures
        plan.persist is None,
        !plan.run_maintenance,
        after == before,
{
}

} // verus!
