//! The settings store: loading the record from what a read of the settings
//! file produced, and planning a mutation as the record to report and the
//! full file text to write back.
//!
//! The two operations treat a broken file differently, on purpose: loading
//! surfaces the parse failure, so the frontend learns the store is broken,
//! while a mutation falls back to the default record and overwrites, so a
//! corrupted file never blocks forward progress.

use vstd::prelude::*;
use crate::json::{JsonVal, json_of, parse_json};
use crate::settings::{
    AppSettings, SettingsError, SettingsModel, apply_setting, apply_spec, default_model,
    recognized_key, render_settings, settings_of_json, settings_text, settings_from_json,
};

verus! {

/// What a read of the settings file produced: no file, a file that could
/// not be read (with the reported reason), or its full text.
pub enum ReadOutcome {
    Missing,
    Unreadable(String),
    Content(String),
}

/// A planned mutation: the record after the change, and the full file text
/// that persists it.
#[derive(Debug)]
pub struct UpdatePlan {
    pub settings: AppSettings,
    pub text: String,
}

/// The record a settings file text denotes, or `None` where the text is not
/// valid JSON of the settings shape.
pub open spec fn strict_model(c: Seq<char>) -> Option<SettingsModel> {
    match json_of(c) {
        Some(j) => settings_of_json(j),
        None => None,
    }
}

/// The record a mutation starts from: the one the file text denotes, or the
/// default record where the text is broken.
pub open spec fn lenient_model(c: Seq<char>) -> SettingsModel {
    match strict_model(c) {
        Some(m) => m,
        None => default_model(),
    }
}

/// Loads the record: a missing file yields the default record, a failed
/// read or an unparseable file is an error.
pub fn load_settings(outcome: &ReadOutcome) -> (r: Result<AppSettings, SettingsError>)
    ensures
        (match outcome {
            ReadOutcome::Missing => r matches Ok(s) && s@ == default_model(),
            ReadOutcome::Unreadable(m) => r matches Err(SettingsError::Read(m2)) && m2@ == m@,
            ReadOutcome::Content(c) => (match strict_model(c@) {
                Some(ms) => r matches Ok(s) && s@ == ms,
                None => r matches Err(SettingsError::Parse),
            }),
        }),
{
    match outcome {
        ReadOutcome::Missing => Ok(AppSettings::default()),
        ReadOutcome::Unreadable(m) => Err(SettingsError::Read(m.clone())),
        ReadOutcome::Content(c) => (match parse_json(c.as_str()) {
            Some(j) => (match settings_from_json(&j) {
                Some(s) => Ok(s),
                None => Err(SettingsError::Parse),
            }),
            None => Err(SettingsError::Parse),
        }),
    }
}

/// Plans a mutation. A failed read is surfaced; a missing or unparseable
/// file falls back to the default record; an unrecognized key aborts before
/// anything is planned; otherwise the key is given the value and the plan
/// holds the new record with its file text.
pub fn plan_update(outcome: &ReadOutcome, key: &str, value: &JsonVal) -> (r: Result<
    UpdatePlan,
    SettingsError,
>)
    ensures
        (match outcome {
            ReadOutcome::Unreadable(m) => r matches Err(SettingsError::Read(m2)) && m2@ == m@,
            _ => {
                let base = (match outcome {
                    ReadOutcome::Content(c) => lenient_model(c@),
                    _ => default_model(),
                });
                if !recognized_key(key@) {
                    r matches Err(SettingsError::UnknownKey(k)) && k@ == key@
                } else {
                    let m2 = apply_spec(base, key@, *value);
                    match settings_text(m2) {
                        Some(t) => r matches Ok(p) && p.settings@ == m2 && p.text@ == t,
                        None => r matches Err(SettingsError::Encode),
                    }
                }
            },
        }),
{
    let base = match outcome {
        ReadOutcome::Missing => AppSettings::default(),
        ReadOutcome::Unreadable(m) => {
            return Err(SettingsError::Read(m.clone()));
        },
        ReadOutcome::Content(c) => (match parse_json(c.as_str()) {
            Some(j) => (match settings_from_json(&j) {
                Some(s) => s,
                None => AppSettings::default(),
            }),
            None => AppSettings::default(),
        }),
    };
    let settings = match apply_setting(&base, key, value) {
        Ok(s) => s,
        Err(e) => {
            return Err(e);
        },
    };
    match render_settings(&settings) {
        Some(text) => Ok(UpdatePlan { settings, text }),
        None => Err(SettingsError::Encode),
    }
}

/// Writing the same key and value twice yields the same file text both
/// times, provided the text written first reads back as the record it was
/// written from (which is `serde_json`'s round trip, assumed here as a
/// premise rather than claimed of the opaque encoding).
pub proof fn lemma_update_idempotent(m0: SettingsModel, k: Seq<char>, v: JsonVal, t1: Seq<char>)
    requires
        recognized_key(k),
        settings_text(apply_spec(m0, k, v)) == Some(t1),
        strict_model(t1) == Some(apply_spec(m0, k, v)),
    ensures
        settings_text(apply_spec(lenient_model(t1), k, v)) == Some(t1),
{
    crate::settings::lemma_apply_idempotent(m0, k, v);
}

} // verus!
