//! The clipboard change pipeline: the decision core of a clipboard-history
//! monitor. Each OS clipboard-change signal is turned into a candidate
//! event, gated by the global capture toggle, counted by a rate governor
//! that triggers a maintenance sweep every two hundred signals, filtered by
//! user-configured content and source-application exclusion lists, and
//! normalized (text trimmed, images re-encoded losslessly) before hand-off
//! to a persistence collaborator. The OS clipboard, window probe, store,
//! job runner and notification sink stay outside; this crate holds the
//! decisions, with their contracts machine-checked.

mod codec;
mod filter;
mod governor;
mod monitor;
mod settings;
mod text;

pub use codec::EncodingError;
pub use codec::RawImage;
pub use codec::decode_image_base64;
pub use codec::encode_image_base64;
pub use codec::encode_image_png;
pub use filter::ClipboardEvent;
pub use filter::FilterDecision;
pub use filter::LanguageDetectOptions;
pub use filter::evaluate;
pub use governor::CAPTURE_THRESHOLD;
pub use governor::CaptureCounter;
pub use governor::MaintenanceSignal;
pub use monitor::MonitorNotification;
pub use monitor::PersistRequest;
pub use monitor::PersistStatus;
pub use monitor::SignalPayload;
pub use monitor::SignalPlan;
pub use monitor::capture_enabled;
pub use monitor::notification_after;
pub use monitor::plan_signal;
pub use settings::Setting;
pub use settings::SettingValue;
pub use settings::SettingsSnapshot;
pub use text::contains_ci;
pub use text::contains_sub;
pub use text::eq_ci;
pub use text::lines_text;
pub use text::split_text;
pub use text::trim_text;
