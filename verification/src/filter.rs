use vstd::prelude::*;
use crate::codec::RawImage;
use crate::settings::SettingsSnapshot;
use crate::settings::Setting;
use crate::settings::bool_setting;
use crate::settings::int_setting;
use crate::settings::text_setting;
use crate::text::contains_ci;
use crate::text::eq_ci;
use crate::text::is_substring;
use crate::text::lines_spec;
use crate::text::lines_text;
use crate::text::lower_of;
use crate::text::split_spec;
use crate::text::split_text;
use crate::text::trim_of;
use crate::text::trim_text;

verus! {

/// Configuration bundle passed downstream with a kept text capture, built
/// fresh from the settings snapshot for every event.
#[derive(Debug)]
pub struct LanguageDetectOptions {
    pub should_detect_language: bool,
    pub min_lines_required: usize,
    pub enabled_languages: Vec<String>,
    pub prioritized_languages: Vec<String>,
    pub auto_mask_words_list: Vec<String>,
}

/// One clipboard snapshot under decision, built per change signal and
/// discarded after hand-off.
pub enum ClipboardEvent {
    Text { raw_text: String, trimmed_text: String, source_app: Option<String> },
    Image { image: RawImage, source_app: Option<String> },
}

/// The character sequence carried by an optional source-application name.
pub open spec fn opt_text_view(o: Option<String>) -> Option<Seq<char>> {
    match o {
        Some(a) => Some(a@),
        None => None,
    }
}

impl ClipboardEvent {
    /// A text event carries the trimmed form of its raw text.
    pub open spec fn wf(&self) -> bool {
        match *self {
            ClipboardEvent::Text { raw_text, trimmed_text, .. } => trimmed_text@ == trim_of(
                raw_text@,
            ),
            ClipboardEvent::Image { .. } => true,
        }
    }

    /// The source-application name attached to the event, if known.
    pub open spec fn app_view(&self) -> Option<Seq<char>> {
        match *self {
            ClipboardEvent::Text { source_app, .. } => opt_text_view(source_app),
            ClipboardEvent::Image { source_app, .. } => opt_text_view(source_app),
        }
    }

    /// Build a text event, trimming the surrounding white space of the raw
    /// text once, at construction.
    pub fn text_event(raw_text: String, source_app: Option<String>) -> (e: ClipboardEvent)
        ensures
            e.wf(),
            (e matches ClipboardEvent::Text { raw_text: rt, trimmed_text: tt, source_app: sa }
                && rt == raw_text && tt@ == trim_of(raw_text@) && sa == source_app),
    {
        let trimmed_text = trim_text(raw_text.as_str());
        ClipboardEvent::Text { raw_text, trimmed_text, source_app }
    }

    /// Build an image event.
    pub fn image_event(image: RawImage, source_app: Option<String>) -> (e: ClipboardEvent)
        ensures
            e.wf(),
            (e matches ClipboardEvent::Image { image: im, source_app: sa } && im == image && sa
                == source_app),
    {
        ClipboardEvent::Image { image, source_app }
    }
}

/// The verdict of the Filter Engine on one event: whether it is persisted,
/// whether repeated copies auto-favorite it, and, for kept text, the
/// language-detection options handed downstream.
pub struct FilterDecision {
    pub keep: bool,
    pub auto_star: bool,
    pub detect_options: Option<LanguageDetectOptions>,
}

// ---------------------------------------------------------------------------
// What each setting key controls.
// ---------------------------------------------------------------------------

/// The global capture toggle; capturing proceeds unless it is explicitly off.
pub open spec fn history_capture_on(s: Seq<Setting>) -> bool {
    bool_setting(s, "isHistoryEnabled"@, true)
}

/// Auto-favorite on repeated copy of identical content; on by default.
pub open spec fn auto_star_on(s: Seq<Setting>) -> bool {
    bool_setting(s, "isAutoFavoriteOnDoubleCopyEnabled"@, true)
}

/// The newline-separated content exclusion entries.
pub open spec fn content_exclusion_items(s: Seq<Setting>) -> Seq<Seq<char>> {
    match text_setting(s, "historyExclusionList"@) {
        Some(t) => lines_spec(t),
        None => Seq::empty(),
    }
}

/// The newline-separated source-application exclusion entries.
pub open spec fn app_exclusion_items(s: Seq<Setting>) -> Seq<Seq<char>> {
    match text_setting(s, "historyExclusionAppList"@) {
        Some(t) => lines_spec(t),
        None => Seq::empty(),
    }
}

/// Some line of the candidate text contains some exclusion entry as a
/// case-insensitive substring.
pub open spec fn matches_some_item(line: Seq<char>, items: Seq<Seq<char>>) -> bool {
    exists|j: int| 0 <= j < items.len() && is_substring(lower_of(line), lower_of(#[trigger] items[j]))
}

/// Some line of `lines` matches some entry of `items`.
pub open spec fn some_line_matches(lines: Seq<Seq<char>>, items: Seq<Seq<char>>) -> bool {
    exists|i: int| 0 <= i < lines.len() && matches_some_item(#[trigger] lines[i], items)
}

/// The name equals some list entry, case-insensitively.
pub open spec fn name_in_list(items: Seq<Seq<char>>, name: Seq<char>) -> bool {
    exists|j: int| 0 <= j < items.len() && lower_of(#[trigger] items[j]) == lower_of(name)
}

/// The content exclusion filter is on and suppresses this (trimmed) text.
pub open spec fn content_excluded(s: Seq<Setting>, text: Seq<char>) -> bool {
    bool_setting(s, "isExclusionListEnabled"@, false) && some_line_matches(
        lines_spec(text),
        content_exclusion_items(s),
    )
}

/// The source-application exclusion filter is on, the source is known, and
/// its name equals some excluded application, case-insensitively.
pub open spec fn app_excluded(s: Seq<Setting>, app: Option<Seq<char>>) -> bool {
    bool_setting(s, "isExclusionAppListEnabled"@, false) && match app {
        Some(a) => name_in_list(app_exclusion_items(s), a),
        None => false,
    }
}

/// A text event is kept when capturing is on, the trimmed text is nonempty,
/// and neither exclusion filter suppresses it.
pub open spec fn text_kept(s: Seq<Setting>, trimmed: Seq<char>, app: Option<Seq<char>>) -> bool {
    &&& history_capture_on(s)
    &&& trimmed.len() > 0
    &&& !content_excluded(s, trimmed)
    &&& !app_excluded(s, app)
}

/// An image event is kept unless the source-application filter suppresses
/// it; content exclusion does not apply to images.
pub open spec fn image_kept(s: Seq<Setting>, app: Option<Seq<char>>) -> bool {
    !app_excluded(s, app)
}

/// The verdict owed to an event.
pub open spec fn event_kept(s: Seq<Setting>, e: ClipboardEvent) -> bool {
    match e {
        ClipboardEvent::Text { trimmed_text, source_app, .. } => text_kept(
            s,
            trimmed_text@,
            opt_text_view(source_app),
        ),
        ClipboardEvent::Image { source_app, .. } => image_kept(s, opt_text_view(source_app)),
    }
}

// ---------------------------------------------------------------------------
// Language-detection options.
// ---------------------------------------------------------------------------

/// The detection toggle; on by default.
pub open spec fn detect_enabled(s: Seq<Setting>) -> bool {
    bool_setting(s, "isHistoryDetectLanguageEnabled"@, true)
}

/// The minimum line count before detection runs; 3 when the setting is
/// absent or malformed (not a representable non-negative count).
pub open spec fn min_lines_spec(s: Seq<Setting>) -> usize {
    match int_setting(s, "historyDetectLanguageMinLines"@) {
        Some(v) => if 0 <= v <= usize::MAX {
            v as usize
        } else {
            3
        },
        None => 3,
    }
}

/// The comma-separated language identifiers under `name`; empty when absent.
pub open spec fn comma_list(s: Seq<Setting>, name: Seq<char>) -> Seq<Seq<char>> {
    match text_setting(s, name) {
        Some(t) => split_spec(t, ','),
        None => Seq::empty(),
    }
}

/// The mask-word entries: the newline-separated list, populated only when
/// the masking toggle is on (off by default).
pub open spec fn mask_words_spec(s: Seq<Setting>) -> Seq<Seq<char>> {
    if bool_setting(s, "isAutoMaskWordsListEnabled"@, false) {
        match text_setting(s, "autoMaskWordsList"@) {
            Some(t) => lines_spec(t),
            None => Seq::empty(),
        }
    } else {
        Seq::empty()
    }
}

/// The options bundle is exactly what the snapshot prescribes.
pub open spec fn options_match(s: Seq<Setting>, o: LanguageDetectOptions) -> bool {
    &&& o.should_detect_language == detect_enabled(s)
    &&& o.min_lines_required == min_lines_spec(s)
    &&& o.enabled_languages.deep_view() == comma_list(s, "historyDetectLanguagesEnabledList"@)
    &&& o.prioritized_languages.deep_view() == comma_list(
        s,
        "historyDetectLanguagesPrioritizedList"@,
    )
    &&& o.auto_mask_words_list.deep_view() == mask_words_spec(s)
}

/// Everything the Filter Engine promises of a decision for a given snapshot
/// and event: the verdict, the auto-star flag, and the options bundle are
/// all functions of the pair.
pub open spec fn decision_matches(s: Seq<Setting>, e: ClipboardEvent, d: FilterDecision) -> bool {
    &&& d.keep == event_kept(s, e)
    &&& d.auto_star == (d.keep && auto_star_on(s))
    &&& ((d.keep && e matches ClipboardEvent::Text { .. }) <==> d.detect_options is Some)
    &&& (d.detect_options matches Some(o) ==> options_match(s, o))
}

// ---------------------------------------------------------------------------
// Executable engine.
// ---------------------------------------------------------------------------

/// Whether `line` contains any entry of `items` as a case-insensitive
/// substring.
fn line_matches_any(line: &str, items: &Vec<String>) -> (r: bool)
    ensures
        r == matches_some_item(line@, items.deep_view()),
{
    let mut j: usize = 0;
    while j < items.len()
        invariant
            0 <= j <= items.len(),
            forall|b: int|
                0 <= b < j ==> !is_substring(
                    lower_of(line@),
                    lower_of(#[trigger] items.deep_view()[b]),
                ),
        decreases items.len() - j,
    {
        proof {
            assert(items.deep_view()[j as int] == items@[j as int]@);
        }
        if contains_ci(line, items[j].as_str()) {
            return true;
        }
        j += 1;
    }
    false
}

/// Whether any line matches any exclusion entry.
fn any_line_matches(lines: &Vec<String>, items: &Vec<String>) -> (r: bool)
    ensures
        r == some_line_matches(lines.deep_view(), items.deep_view()),
{
    let mut i: usize = 0;
    while i < lines.len()
        invariant
            0 <= i <= lines.len(),
            forall|a: int|
                0 <= a < i ==> !matches_some_item(#[trigger] lines.deep_view()[a], items.deep_view()),
        decreases lines.len() - i,
    {
        proof {
            assert(lines.deep_view()[i as int] == lines@[i as int]@);
        }
        if line_matches_any(lines[i].as_str(), items) {
            return true;
        }
        i += 1;
    }
    false
}

/// Whether the name equals any list entry, case-insensitively.
fn name_matches_any(items: &Vec<String>, name: &str) -> (r: bool)
    ensures
        r == name_in_list(items.deep_view(), name@),
{
    let mut j: usize = 0;
    while j < items.len()
        invariant
            0 <= j <= items.len(),
            forall|b: int|
                0 <= b < j ==> lower_of(#[trigger] items.deep_view()[b]) != lower_of(name@),
        decreases items.len() - j,
    {
        proof {
            assert(items.deep_view()[j as int] == items@[j as int]@);
        }
        if eq_ci(items[j].as_str(), name) {
            return true;
        }
        j += 1;
    }
    false
}

/// The newline-separated entries stored under `name`, or none.
fn setting_lines(settings: &SettingsSnapshot, name: &str) -> (r: Vec<String>)
    ensures
        r.deep_view() == match text_setting(settings@, name@) {
            Some(t) => lines_spec(t),
            None => Seq::<Seq<char>>::empty(),
        },
{
    match settings.get_text(name) {
        Some(t) => lines_text(t.as_str()),
        None => {
            let r = Vec::new();
            proof {
                assert(r.deep_view() =~~= Seq::<Seq<char>>::empty());
            }
            r
        },
    }
}

/// The comma-separated entries stored under `name`, or none.
fn setting_commas(settings: &SettingsSnapshot, name: &str) -> (r: Vec<String>)
    ensures
        r.deep_view() == comma_list(settings@, name@),
{
    match settings.get_text(name) {
        Some(t) => split_text(t.as_str(), ','),
        None => {
            let r = Vec::new();
            proof {
                assert(r.deep_view() =~~= Seq::<Seq<char>>::empty());
            }
            r
        },
    }
}

/// Build the language-detection bundle the snapshot prescribes.
fn build_detect_options(settings: &SettingsSnapshot) -> (o: LanguageDetectOptions)
    ensures
        options_match(settings@, o),
{
    let should_detect_language = settings.get_bool("isHistoryDetectLanguageEnabled", true);
    let min_lines_required: usize = match settings.get_int("historyDetectLanguageMinLines") {
        Some(v) => {
            if v >= 0 && v as u64 <= usize::MAX as u64 {
                v as usize
            } else {
                3
            }
        },
        None => 3,
    };
    let enabled_languages = setting_commas(settings, "historyDetectLanguagesEnabledList");
    let prioritized_languages = setting_commas(settings, "historyDetectLanguagesPrioritizedList");
    let auto_mask_words_list = if settings.get_bool("isAutoMaskWordsListEnabled", false) {
        setting_lines(settings, "autoMaskWordsList")
    } else {
        let r = Vec::new();
        proof {
            assert(r.deep_view() =~~= Seq::<Seq<char>>::empty());
        }
        r
    };
    LanguageDetectOptions {
        should_detect_language,
        min_lines_required,
        enabled_languages,
        prioritized_languages,
        auto_mask_words_list,
    }
}

/// Whether the source-application exclusion filter suppresses the given
/// source.
fn app_exclusion_applies(settings: &SettingsSnapshot, source_app: &Option<String>) -> (r: bool)
    ensures
        r == app_excluded(settings@, opt_text_view(*source_app)),
{
    if !settings.get_bool("isExclusionAppListEnabled", false) {
        return false;
    }
    match source_app {
        Some(app) => {
            let items = setting_lines(settings, "historyExclusionAppList");
            name_matches_any(&items, app.as_str())
        },
        None => false,
    }
}

/// The Filter Engine: a pure decision over one settings snapshot and one
/// candidate event. The whole verdict is a function of the pair, so
/// re-evaluating the same pair always yields the same decision.
pub fn evaluate(settings: &SettingsSnapshot, event: &ClipboardEvent) -> (d: FilterDecision)
    requires
        event.wf(),
    ensures
        decision_matches(settings@, *event, d),
{
    match event {
        ClipboardEvent::Text { raw_text: _, trimmed_text, source_app } => {
            if !settings.get_bool("isHistoryEnabled", true) {
                return FilterDecision { keep: false, auto_star: false, detect_options: None };
            }
            if trimmed_text.as_str().is_empty() {
                return FilterDecision { keep: false, auto_star: false, detect_options: None };
            }
            let mut excluded = false;
            if settings.get_bool("isExclusionListEnabled", false) {
                let lines = lines_text(trimmed_text.as_str());
                let items = setting_lines(settings, "historyExclusionList");
                excluded = any_line_matches(&lines, &items);
            }
            if !excluded && app_exclusion_applies(settings, source_app) {
                excluded = true;
            }
            if excluded {
                return FilterDecision { keep: false, auto_star: false, detect_options: None };
            }
            let auto_star = settings.get_bool("isAutoFavoriteOnDoubleCopyEnabled", true);
            let detect_options = Some(build_detect_options(settings));
            FilterDecision { keep: true, auto_star, detect_options }
        },
        ClipboardEvent::Image { image: _, source_app } => {
            let excluded = app_exclusion_applies(settings, source_app);
            if excluded {
                FilterDecision { keep: false, auto_star: false, detect_options: None }
            } else {
                let auto_star = settings.get_bool("isAutoFavoriteOnDoubleCopyEnabled", true);
                FilterDecision { keep: true, auto_star, detect_options: None }
            }
        },
    }
}

/// LAW — idempotent filtering: the Filter Engine is deterministic. Any two
/// decisions that the engine's contract allows for the same settings
/// snapshot and the same event agree on the verdict, on the auto-star flag,
/// and on every field of the options bundle.
pub proof fn lemma_filter_deterministic(
    s: Seq<Setting>,
    e: ClipboardEvent,
    d1: FilterDecision,
    d2: FilterDecision,
)
    requires
        decision_matches(s, e, d1),
        decision_matches(s, e, d2),
    ensures
        d1.keep == d2.keep,
        d1.auto_star == d2.auto_star,
        d1.detect_options is Some <==> d2.detect_options is Some,
        d1.detect_options matches Some(o1) ==> (d2.detect_options matches Some(o2)
            && o1.should_detect_language == o2.should_detect_language
            && o1.min_lines_required == o2.min_lines_required
            && o1.enabled_languages.deep_view() == o2.enabled_languages.deep_view()
            && o1.prioritized_languages.deep_view() == o2.prioritized_languages.deep_view()
            && o1.auto_mask_words_list.deep_view() == o2.auto_mask_words_list.deep_view()),
{
}

} // verus!
