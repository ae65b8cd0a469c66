//! Persisted preference values and the repairs applied to them on load:
//! schema migration, bounded identifier lists and supported frame rates.
use vstd::prelude::*;

use crate::config::VIRTUAL_CAMERA_FPS_PRESETS;
use crate::text::{owned, str_eq};

verus! {

pub const STORAGE_KEY: &'static str = "camera-man-preferences-v1";

pub const CURRENT_SCHEMA_VERSION: u32 = 3;

pub const MAX_PREFERENCES_BYTES: usize = 2097152;

pub const DEFAULT_EXPORT_PATH: &'static str = "target/camera-man-app-preview.ppm";

pub const PREFERENCES_FILE_NAME: &'static str = "preferences-v3.json";

/// Longest identifier kept, in UTF-8 bytes.
pub const MAX_ID_BYTES: usize = 256;

/// Most identifiers kept in one list.
pub const MAX_IDS: usize = 64;

/// The schema version of preferences written before versions were recorded.
pub fn legacy_schema_version() -> (v: u32)
    ensures
        v == 1,
{
    1
}

/// Which kind of sources the app composes.
#[derive(Debug, Clone, Copy, PartialEq, Eq, Structural)]
pub enum InputMode {
    Synthetic,
    Real,
}

/// The interface language.
#[derive(Debug, Clone, Copy, PartialEq, Eq, Structural)]
pub enum UiLocale {
    English,
    Russian,
    /// Visual-QA expansion mode selected through an environment fixture.
    PseudoLong,
}

impl Default for UiLocale {
    fn default() -> (l: Self)
        ensures
            l == UiLocale::English,
    {
        UiLocale::English
    }
}

/// How the render and output frame rate is chosen.
#[derive(Debug, Clone, Copy, PartialEq, Eq, Structural)]
pub enum FpsMode {
    /// Follow the highest negotiated rate across selected real cameras.
    Auto,
    Fixed(u32),
}

/// A fixed rate the rate selector offers.
pub open spec fn is_preset(fps: u32) -> bool {
    fps == VIRTUAL_CAMERA_FPS_PRESETS[0] || fps == VIRTUAL_CAMERA_FPS_PRESETS[1] || fps
        == VIRTUAL_CAMERA_FPS_PRESETS[2]
}

/// A fixed rate outside the presets falls back to automatic.
pub open spec fn sanitized_fps(mode: FpsMode) -> FpsMode {
    match mode {
        FpsMode::Fixed(fps) => if is_preset(fps) {
            mode
        } else {
            FpsMode::Auto
        },
        FpsMode::Auto => FpsMode::Auto,
    }
}

/// The frame-rate mode with an unsupported fixed rate replaced by `Auto`,
/// so the rate selector always shows a selection.
pub fn sanitized_fps_mode(mode: FpsMode) -> (m: FpsMode)
    ensures
        m == sanitized_fps(mode),
{
    match mode {
        FpsMode::Fixed(fps) => {
            let presets = VIRTUAL_CAMERA_FPS_PRESETS;
            if fps == presets[0] || fps == presets[1] || fps == presets[2] {
                mode
            } else {
                FpsMode::Auto
            }
        },
        FpsMode::Auto => FpsMode::Auto,
    }
}

/// The schema version stored preferences end at: every known older version
/// migrates step by step to the current one; a newer one is unknown, and
/// the defaults replace it (`None`).
pub open spec fn migrated_version(version: u32) -> Option<u32> {
    if version > CURRENT_SCHEMA_VERSION {
        None
    } else {
        Some(CURRENT_SCHEMA_VERSION)
    }
}

/// Runs the schema migrations: `0` and `1` become `2`, `2` becomes `3`.
pub fn migrate_schema_version(version: u32) -> (r: Option<u32>)
    ensures
        r == migrated_version(version),
{
    if version > CURRENT_SCHEMA_VERSION {
        return None;
    }
    let mut current = version;
    while current < CURRENT_SCHEMA_VERSION
        invariant
            current <= CURRENT_SCHEMA_VERSION,
        decreases CURRENT_SCHEMA_VERSION - current,
    {
        current = if current <= 1 {
            2
        } else {
            3
        };
    }
    Some(current)
}

/// An identifier worth keeping: non-empty and at most 256 UTF-8 bytes.
pub open spec fn usable_id(id: Seq<char>) -> bool {
    id.len() > 0 && vstd::utf8::encode_utf8(id).len() <= MAX_ID_BYTES
}

/// The identifiers kept from `ids`: usable ones, first occurrence only, at
/// most 64.
pub open spec fn kept_ids(ids: Seq<Seq<char>>) -> Seq<Seq<char>>
    decreases ids.len(),
{
    if ids.len() == 0 {
        Seq::empty()
    } else {
        let kept = kept_ids(ids.drop_last());
        let id = ids.last();
        if kept.len() < MAX_IDS && usable_id(id) && !kept.contains(id) {
            kept.push(id)
        } else {
            kept
        }
    }
}

/// Only the empty text has an empty UTF-8 encoding.
proof fn lemma_encoding_empty_iff(s: Seq<char>)
    ensures
        (vstd::utf8::encode_utf8(s).len() == 0) == (s.len() == 0),
{
    if s.len() > 0 {
        assert(vstd::utf8::encode_scalar(s[0] as u32).len() >= 1);
    }
}

/// Keeps usable identifiers, drops repeats and caps the list at 64.
pub fn sanitized_ids(ids: Vec<String>) -> (r: Vec<String>)
    ensures
        r@.map_values(|s: String| s@) == kept_ids(ids@.map_values(|s: String| s@)),
{
    let ghost views = ids@.map_values(|s: String| s@);
    let mut kept: Vec<String> = Vec::new();
    let mut i: usize = 0;
    while i < ids.len()
        invariant
            i <= ids@.len(),
            views == ids@.map_values(|s: String| s@),
            kept@.map_values(|s: String| s@) == kept_ids(views.take(i as int)),
            kept@.len() <= MAX_IDS,
        decreases ids@.len() - i,
    {
        let ghost before = kept@.map_values(|s: String| s@);
        assert(views.take(i + 1).drop_last() =~= views.take(i as int));
        assert(views.take(i + 1).last() == ids@[i as int]@);
        let id = ids[i].as_str();
        let byte_len = id.as_bytes().len();
        if kept.len() < MAX_IDS && byte_len > 0 && byte_len <= MAX_ID_BYTES {
            let mut seen = false;
            let mut k: usize = 0;
            while k < kept.len()
                invariant
                    k <= kept@.len(),
                    before == kept@.map_values(|s: String| s@),
                    !seen ==> forall|m: int| 0 <= m < k ==> before[m] != id@,
                    seen ==> before.contains(id@),
                decreases kept@.len() - k,
            {
                if !seen && str_eq(kept[k].as_str(), id) {
                    seen = true;
                    assert(before[k as int] == id@);
                }
                k = k + 1;
            }
            proof {
                lemma_encoding_empty_iff(id@);
            }
            if !seen {
                assert(!before.contains(id@));
                kept.push(owned(id));
                assert(kept@.map_values(|s: String| s@) =~= before.push(id@));
            }
            assert(vstd::utf8::encode_utf8(id@).len() <= MAX_ID_BYTES);
            assert(id@.len() > 0);
            assert(usable_id(id@));
            assert(kept@.map_values(|s: String| s@) == kept_ids(views.take(i + 1)));
        } else {
            proof {
                lemma_encoding_empty_iff(id@);
            }
        }
        i = i + 1;
    }
    assert(views.take(ids@.len() as int) =~= views);
    kept
}

/// An empty export path falls back to the default.
pub fn sanitized_export_path(path: &str) -> (r: String)
    ensures
        r@ == (if path@.len() == 0 {
            DEFAULT_EXPORT_PATH@
        } else {
            path@
        }),
{
    if crate::text::str_chars(path).len() == 0 {
        owned(DEFAULT_EXPORT_PATH)
    } else {
        owned(path)
    }
}

/// Kept identifiers are usable, distinct and at most 64.
pub proof fn law_kept_ids_are_bounded_and_distinct(ids: Seq<Seq<char>>)
    ensures
        kept_ids(ids).len() <= MAX_IDS,
        forall|i: int| 0 <= i < kept_ids(ids).len() ==> usable_id(#[trigger] kept_ids(ids)[i]),
        forall|i: int, j: int|
            0 <= i < j < kept_ids(ids).len() ==> #[trigger] kept_ids(ids)[i] != #[trigger] kept_ids(
                ids,
            )[j],
    decreases ids.len(),
{
    if ids.len() > 0 {
        law_kept_ids_are_bounded_and_distinct(ids.drop_last());
        let kept = kept_ids(ids.drop_last());
        let id = ids.last();
        if kept.len() < MAX_IDS && usable_id(id) && !kept.contains(id) {
            let r = kept.push(id);
            assert forall|i: int, j: int| 0 <= i < j < r.len() implies r[i] != r[j] by {
                if j == kept.len() {
                    assert(kept[i] == r[i]);
                    if r[i] == r[j] {
                        assert(kept.contains(id));
                    }
                }
            }
        }
    }
}

/// Sanitizing twice keeps what sanitizing once kept.
pub proof fn law_sanitizing_ids_is_idempotent(ids: Seq<Seq<char>>)
    ensures
        kept_ids(kept_ids(ids)) == kept_ids(ids),
{
    law_kept_ids_are_bounded_and_distinct(ids);
    lemma_kept_of_clean(kept_ids(ids));
}

/// A list that is already usable, distinct and short is kept whole.
proof fn lemma_kept_of_clean(ids: Seq<Seq<char>>)
    requires
        ids.len() <= MAX_IDS,
        forall|i: int| 0 <= i < ids.len() ==> usable_id(#[trigger] ids[i]),
        forall|i: int, j: int| 0 <= i < j < ids.len() ==> #[trigger] ids[i] != #[trigger] ids[j],
    ensures
        kept_ids(ids) == ids,
    decreases ids.len(),
{
    if ids.len() > 0 {
        let prefix = ids.drop_last();
        assert forall|i: int, j: int| 0 <= i < j < prefix.len() implies prefix[i] != prefix[j] by {
            assert(prefix[i] == ids[i] && prefix[j] == ids[j]);
        }
        assert forall|i: int| 0 <= i < prefix.len() implies usable_id(#[trigger] prefix[i]) by {
            assert(prefix[i] == ids[i]);
        }
        lemma_kept_of_clean(prefix);
        assert(!prefix.contains(ids.last())) by {
            if prefix.contains(ids.last()) {
                let k = choose|k: int| 0 <= k < prefix.len() && prefix[k] == ids.last();
                assert(ids[k] == ids[ids.len() - 1]);
            }
        }
        assert(ids =~= prefix.push(ids.last()));
    }
}

/// The largest of `rates`, if any.
pub open spec fn max_rate(rates: Seq<u32>) -> Option<u32>
    decreases rates.len(),
{
    if rates.len() == 0 {
        None
    } else {
        match max_rate(rates.drop_last()) {
            Some(m) => Some(if rates.last() > m {
                rates.last()
            } else {
                m
            }),
            None => Some(rates.last()),
        }
    }
}

/// The smallest of `rates`, if any.
pub open spec fn min_rate(rates: Seq<u32>) -> Option<u32>
    decreases rates.len(),
{
    if rates.len() == 0 {
        None
    } else {
        match min_rate(rates.drop_last()) {
            Some(m) => Some(if rates.last() < m {
                rates.last()
            } else {
                m
            }),
            None => Some(rates.last()),
        }
    }
}

/// The rate the app runs at: the fixed rate, or the fastest negotiated
/// camera rate (the default without cameras), clamped to `1..=60`.
pub open spec fn target_fps(mode: FpsMode, negotiated: Seq<u32>) -> u32 {
    let fps = match mode {
        FpsMode::Fixed(f) => f,
        FpsMode::Auto => match max_rate(negotiated) {
            Some(m) => m,
            None => crate::config::VIRTUAL_CAMERA_DEFAULT_FPS,
        },
    };
    if fps < 1 {
        1
    } else if fps > crate::config::VIRTUAL_CAMERA_MAX_FPS {
        crate::config::VIRTUAL_CAMERA_MAX_FPS
    } else {
        fps
    }
}

fn extreme_rate(rates: &[u32], largest: bool) -> (r: Option<u32>)
    ensures
        r == (if largest {
            max_rate(rates@)
        } else {
            min_rate(rates@)
        }),
{
    let mut best: Option<u32> = None;
    let mut i: usize = 0;
    while i < rates.len()
        invariant
            i <= rates@.len(),
            best == (if largest {
                max_rate(rates@.take(i as int))
            } else {
                min_rate(rates@.take(i as int))
            }),
        decreases rates@.len() - i,
    {
        assert(rates@.take(i + 1).drop_last() =~= rates@.take(i as int));
        assert(rates@.take(i + 1).last() == rates@[i as int]);
        let r = rates[i];
        best = match best {
            Some(m) => Some(
                if largest {
                    if r > m {
                        r
                    } else {
                        m
                    }
                } else {
                    if r < m {
                        r
                    } else {
                        m
                    }
                },
            ),
            None => Some(r),
        };
        i = i + 1;
    }
    assert(rates@.take(rates@.len() as int) =~= rates@);
    best
}

/// The frame rate to run at, given the cameras' negotiated rates.
pub fn resolve_target_fps(mode: FpsMode, negotiated: &[u32]) -> (fps: u32)
    ensures
        fps == target_fps(mode, negotiated@),
        1 <= fps <= crate::config::VIRTUAL_CAMERA_MAX_FPS,
{
    let fps = match mode {
        FpsMode::Fixed(f) => f,
        FpsMode::Auto => match extreme_rate(negotiated, true) {
            Some(m) => m,
            None => crate::config::VIRTUAL_CAMERA_DEFAULT_FPS,
        },
    };
    if fps < 1 {
        1
    } else if fps > crate::config::VIRTUAL_CAMERA_MAX_FPS {
        crate::config::VIRTUAL_CAMERA_MAX_FPS
    } else {
        fps
    }
}

/// The warning shown when a fixed rate exceeds the slowest camera.
pub open spec fn fixed_rate_warning_text(slowest: u32) -> Seq<char> {
    "Target is above the slowest camera ("@ + crate::text::decimal(slowest as nat)
        + " fps); frames may repeat"@
}

/// Warns when a fixed target rate is above the slowest camera's rate, since
/// frames will then repeat.
pub fn fixed_fps_warning(mode: FpsMode, negotiated: &[u32]) -> (w: Option<String>)
    ensures
        match (mode, min_rate(negotiated@)) {
            (FpsMode::Fixed(target), Some(slowest)) => if target > slowest {
                w matches Some(s) && s@ == fixed_rate_warning_text(slowest)
            } else {
                w is None
            },
            _ => w is None,
        },
{
    let target = match mode {
        FpsMode::Fixed(target) => target,
        FpsMode::Auto => {
            return None;
        },
    };
    let slowest = match extreme_rate(negotiated, false) {
        Some(slowest) => slowest,
        None => {
            return None;
        },
    };
    if target > slowest {
        let mut out: Vec<char> = Vec::new();
        crate::text::push_str(&mut out, "Target is above the slowest camera (");
        crate::text::push_decimal(&mut out, slowest as u64);
        crate::text::push_str(&mut out, " fps); frames may repeat");
        Some(crate::text::string_from_chars(out.as_slice()))
    } else {
        None
    }
}

/// The persisted preference values this library repairs: input selection,
/// frame-rate policy, output and export settings, interface options and
/// the active scene's name.
#[derive(Debug, Clone, PartialEq, Eq)]
pub struct AppPreferences {
    pub schema_version: u32,
    pub input_mode: InputMode,
    pub selected_synthetic_ids: Vec<String>,
    pub selected_real_ids: Vec<String>,
    pub fps_mode: FpsMode,
    pub virtual_output_enabled: bool,
    pub export_path: String,
    pub locale: UiLocale,
    pub high_contrast: bool,
    pub active_scene_name: Option<String>,
}

/// The texts of a list of identifiers.
pub open spec fn id_texts(ids: Seq<String>) -> Seq<Seq<char>> {
    ids.map_values(|s: String| s@)
}

/// The synthetic sources selected by default.
pub open spec fn default_synthetic_ids() -> Seq<Seq<char>> {
    seq!["desk"@, "side"@, "wide"@]
}

/// Fresh preferences: the current schema, the three synthetic sources,
/// automatic rate, virtual output on, the default export path, English.
pub open spec fn is_default_preferences(p: AppPreferences) -> bool {
    &&& p.schema_version == CURRENT_SCHEMA_VERSION
    &&& p.input_mode == InputMode::Synthetic
    &&& id_texts(p.selected_synthetic_ids@) == default_synthetic_ids()
    &&& p.selected_real_ids@.len() == 0
    &&& p.fps_mode == FpsMode::Auto
    &&& p.virtual_output_enabled
    &&& p.export_path@ == DEFAULT_EXPORT_PATH@
    &&& p.locale == UiLocale::English
    &&& !p.high_contrast
    &&& p.active_scene_name is None
}

impl AppPreferences {
    /// Fresh preferences.
    pub fn new() -> (p: Self)
        ensures
            is_default_preferences(p),
    {
        let p = AppPreferences {
            schema_version: CURRENT_SCHEMA_VERSION,
            input_mode: InputMode::Synthetic,
            selected_synthetic_ids: vec![owned("desk"), owned("side"), owned("wide")],
            selected_real_ids: Vec::new(),
            fps_mode: FpsMode::Auto,
            virtual_output_enabled: true,
            export_path: owned(DEFAULT_EXPORT_PATH),
            locale: UiLocale::English,
            high_contrast: false,
            active_scene_name: None,
        };
        assert(id_texts(p.selected_synthetic_ids@) =~= default_synthetic_ids());
        p
    }

    /// Repairs loaded values: identifier lists are bounded and
    /// de-duplicated, an unsupported fixed rate becomes automatic, and an
    /// empty export path falls back to the default. Everything else is kept.
    pub fn sanitized(self) -> (p: Self)
        ensures
            id_texts(p.selected_synthetic_ids@) == kept_ids(id_texts(self.selected_synthetic_ids@)),
            id_texts(p.selected_real_ids@) == kept_ids(id_texts(self.selected_real_ids@)),
            p.fps_mode == sanitized_fps(self.fps_mode),
            p.export_path@ == (if self.export_path@.len() == 0 {
                DEFAULT_EXPORT_PATH@
            } else {
                self.export_path@
            }),
            p.schema_version == self.schema_version,
            p.input_mode == self.input_mode,
            p.virtual_output_enabled == self.virtual_output_enabled,
            p.locale == self.locale,
            p.high_contrast == self.high_contrast,
            p.active_scene_name == self.active_scene_name,
    {
        let export_path = sanitized_export_path(self.export_path.as_str());
        AppPreferences {
            schema_version: self.schema_version,
            input_mode: self.input_mode,
            selected_synthetic_ids: sanitized_ids(self.selected_synthetic_ids),
            selected_real_ids: sanitized_ids(self.selected_real_ids),
            fps_mode: sanitized_fps_mode(self.fps_mode),
            virtual_output_enabled: self.virtual_output_enabled,
            export_path,
            locale: self.locale,
            high_contrast: self.high_contrast,
            active_scene_name: self.active_scene_name,
        }
    }

    /// Brings stored preferences to the current schema; preferences from a
    /// newer schema are replaced by fresh ones.
    pub fn migrated(self) -> (p: Self)
        ensures
            self.schema_version > CURRENT_SCHEMA_VERSION ==> is_default_preferences(p),
            self.schema_version <= CURRENT_SCHEMA_VERSION ==> p == (AppPreferences {
                schema_version: CURRENT_SCHEMA_VERSION,
                ..self
            }),
    {
        match migrate_schema_version(self.schema_version) {
            None => AppPreferences::new(),
            Some(version) => AppPreferences { schema_version: version, ..self },
        }
    }
}

/// Repairing twice changes nothing more: sanitized preferences are a fixed
/// point of the repair.
pub proof fn law_sanitizing_preferences_is_idempotent(p: AppPreferences)
    ensures
        sanitized_fps(sanitized_fps(p.fps_mode)) == sanitized_fps(p.fps_mode),
        kept_ids(kept_ids(id_texts(p.selected_real_ids@))) == kept_ids(id_texts(p.selected_real_ids@)),
        kept_ids(kept_ids(id_texts(p.selected_synthetic_ids@))) == kept_ids(
            id_texts(p.selected_synthetic_ids@),
        ),
{
    law_sanitizing_ids_is_idempotent(id_texts(p.selected_real_ids@));
    law_sanitizing_ids_is_idempotent(id_texts(p.selected_synthetic_ids@));
}

/// Sanitizing keeps every fixed rate the selector offers and only those: a
/// preset such as 24, 30 or 60 stays fixed, any other fixed rate becomes
/// automatic, and automatic stays automatic.
pub proof fn law_presets_survive_sanitizing(fps: u32)
    ensures
        VIRTUAL_CAMERA_FPS_PRESETS@.contains(fps) ==> sanitized_fps(FpsMode::Fixed(fps))
            == FpsMode::Fixed(fps),
        !VIRTUAL_CAMERA_FPS_PRESETS@.contains(fps) ==> sanitized_fps(FpsMode::Fixed(fps))
            == FpsMode::Auto,
        sanitized_fps(FpsMode::Auto) == FpsMode::Auto,
        sanitized_fps(FpsMode::Fixed(24)) == FpsMode::Fixed(24),
        sanitized_fps(FpsMode::Fixed(30)) == FpsMode::Fixed(30),
        sanitized_fps(FpsMode::Fixed(60)) == FpsMode::Fixed(60),
{
    let p = VIRTUAL_CAMERA_FPS_PRESETS@;
    assert(p[0] == VIRTUAL_CAMERA_FPS_PRESETS[0]);
    assert(p[1] == VIRTUAL_CAMERA_FPS_PRESETS[1]);
    assert(p[2] == VIRTUAL_CAMERA_FPS_PRESETS[2]);
    assert(p.len() == 3);
    if p.contains(fps) {
        let i = choose|i: int| 0 <= i < p.len() && p[i] == fps;
        assert(i == 0 || i == 1 || i == 2);
    } else {
        assert(fps != p[0] && fps != p[1] && fps != p[2]);
    }
}

} // verus!
