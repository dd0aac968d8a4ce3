//! The persisted preferences record, its mathematical model, the shape rule
//! that ties it to a JSON value, and the key-based mutator.

use vstd::prelude::*;
use crate::json::{JsonVal, lookup, find_entry, pretty_obj2, render_obj2};
use crate::text::str_eq;

verus! {

/// Ghost model of the preferences record: the auto-update flag and the
/// timestamp of the last update check, if one was recorded.
pub ghost struct SettingsModel {
    pub auto_update_enabled: bool,
    pub last_update_check: Option<Seq<char>>,
}

/// The persisted preferences record.
#[derive(Debug)]
pub struct AppSettings {
    pub auto_update_enabled: bool,
    pub last_update_check: Option<String>,
}

impl View for AppSettings {
    type V = SettingsModel;

    open spec fn view(&self) -> SettingsModel {
        SettingsModel {
            auto_update_enabled: self.auto_update_enabled,
            last_update_check: match self.last_update_check {
                Some(s) => Some(s@),
                None => None,
            },
        }
    }
}

/// The record used when no settings file exists yet.
pub open spec fn default_model() -> SettingsModel {
    SettingsModel { auto_update_enabled: false, last_update_check: None }
}

impl Default for AppSettings {
    fn default() -> (r: Self)
        ensures
            r@ == default_model(),
    {
        AppSettings { auto_update_enabled: false, last_update_check: None }
    }
}

impl PartialEq for AppSettings {
    fn eq(&self, other: &AppSettings) -> (r: bool) {
        self.auto_update_enabled == other.auto_update_enabled && (match (
            &self.last_update_check,
            &other.last_update_check,
        ) {
            (Some(a), Some(b)) => a.eq(b),
            (None, None) => true,
            _ => false,
        })
    }
}

impl vstd::std_specs::cmp::PartialEqSpecImpl for AppSettings {
    open spec fn obeys_eq_spec() -> bool {
        true
    }

    open spec fn eq_spec(&self, other: &AppSettings) -> bool {
        self@ == other@
    }
}

/// The record a JSON value denotes, or `None` where the value does not have
/// the settings shape. The value must be an object; `auto_update_enabled`
/// must be present and boolean; `last_update_check` may be absent, null or a
/// string; every other key is tolerated and ignored.
pub open spec fn settings_of_json(j: JsonVal) -> Option<SettingsModel> {
    match j {
        JsonVal::Obj(entries) => (match lookup(entries@, "auto_update_enabled"@) {
            Some(JsonVal::Bool(b)) => (match lookup(entries@, "last_update_check"@) {
                None => Some(SettingsModel { auto_update_enabled: b, last_update_check: None }),
                Some(JsonVal::Null) => Some(
                    SettingsModel { auto_update_enabled: b, last_update_check: None },
                ),
                Some(JsonVal::Str(s)) => Some(
                    SettingsModel { auto_update_enabled: b, last_update_check: Some(s@) },
                ),
                Some(_) => None,
            }),
            _ => None,
        }),
        _ => None,
    }
}

/// Reads a record out of a JSON value, by the shape rule `settings_of_json`.
pub fn settings_from_json(j: &JsonVal) -> (r: Option<AppSettings>)
    ensures
        (match r {
            Some(s) => settings_of_json(*j) == Some(s@),
            None => settings_of_json(*j) is None,
        }),
{
    match j {
        JsonVal::Obj(entries) => {
            let auto = match find_entry(entries, "auto_update_enabled") {
                Some(JsonVal::Bool(b)) => *b,
                _ => {
                    return None;
                },
            };
            match find_entry(entries, "last_update_check") {
                None => Some(
                    AppSettings { auto_update_enabled: auto, last_update_check: None },
                ),
                Some(JsonVal::Null) => Some(
                    AppSettings { auto_update_enabled: auto, last_update_check: None },
                ),
                Some(JsonVal::Str(s)) => Some(
                    AppSettings { auto_update_enabled: auto, last_update_check: Some(s.clone()) },
                ),
                Some(_) => None,
            }
        },
        _ => None,
    }
}

/// Builds the canonical JSON object of a record: the two recognized keys and
/// nothing else. Reading the built object back yields the record again; this
/// is the value half of the write-then-load round trip, the text half being
/// `serde_json`'s JSON encoding.
pub fn settings_to_json(s: &AppSettings) -> (r: JsonVal)
    ensures
        settings_of_json(r) == Some(s@),
{
    let mut entries: Vec<(String, JsonVal)> = Vec::new();
    entries.push(("auto_update_enabled".to_owned(), JsonVal::Bool(s.auto_update_enabled)));
    let last = match &s.last_update_check {
        Some(t) => JsonVal::Str(t.clone()),
        None => JsonVal::Null,
    };
    entries.push(("last_update_check".to_owned(), last));
    proof {
        reveal_strlit("auto_update_enabled");
        reveal_strlit("last_update_check");
        let es = entries@;
        assert(es[0].0@ == "auto_update_enabled"@);
        assert(es[1].0@ == "last_update_check"@);
        assert(es[0].0@ != "last_update_check"@);
        assert(lookup(es, "auto_update_enabled"@) == Some(es[0].1));
        assert(lookup(es, "last_update_check"@) == lookup(es.drop_first(), "last_update_check"@));
        assert(es.drop_first()[0] == es[1]);
        assert(lookup(es.drop_first(), "last_update_check"@) == Some(es[1].1));
    }
    JsonVal::Obj(entries)
}

/// The pretty-printed settings file text of a record, or `None` where the
/// encoder refuses it.
pub open spec fn settings_text(m: SettingsModel) -> Option<Seq<char>> {
    pretty_obj2("auto_update_enabled"@, m.auto_update_enabled, "last_update_check"@,
        m.last_update_check)
}

/// Serializes a record as the full settings file text.
pub fn render_settings(s: &AppSettings) -> (r: Option<String>)
    ensures
        (match r {
            Some(t) => settings_text(s@) == Some(t@),
            None => settings_text(s@) is None,
        }),
{
    render_obj2("auto_update_enabled", s.auto_update_enabled, "last_update_check",
        &s.last_update_check)
}

/// Whether a key names a setting of the record.
pub open spec fn recognized_key(k: Seq<char>) -> bool {
    k == "auto_update_enabled"@ || k == "last_update_check"@
}

/// The record after a recognized key is given a value: a value of the
/// expected JSON type replaces the field; one of any other type leaves the
/// record unchanged.
pub open spec fn apply_spec(m: SettingsModel, k: Seq<char>, v: JsonVal) -> SettingsModel
    recommends
        recognized_key(k),
{
    if k == "auto_update_enabled"@ {
        match v {
            JsonVal::Bool(b) => SettingsModel { auto_update_enabled: b, ..m },
            _ => m,
        }
    } else {
        match v {
            JsonVal::Str(s) => SettingsModel { last_update_check: Some(s@), ..m },
            _ => m,
        }
    }
}

/// The error taxonomy of the store. The reading half of an operation
/// signals `Read` or `Parse`; the mutating half signals `UnknownKey`, which
/// carries the offending key; `Encode` covers a refused serialization; and
/// `PathResolution` and `Io` stand for the failures that only the
/// surrounding process can meet (no configuration directory; a failed
/// directory creation or file write).
#[derive(Debug, PartialEq, Eq)]
pub enum SettingsError {
    PathResolution,
    Read(String),
    Parse,
    UnknownKey(String),
    Encode,
    Io(String),
}

/// Gives a recognized key a new value, leaving the field unchanged where the
/// value has the wrong JSON type, and rejects an unrecognized key.
pub fn apply_setting(s: &AppSettings, key: &str, value: &JsonVal) -> (r: Result<
    AppSettings,
    SettingsError,
>)
    ensures
        recognized_key(key@) ==> (r matches Ok(s2) && s2@ == apply_spec(s@, key@, *value)),
        !recognized_key(key@) ==> (r matches Err(SettingsError::UnknownKey(k)) && k@ == key@),
{
    if str_eq(key, "auto_update_enabled") {
        let auto = match value {
            JsonVal::Bool(b) => *b,
            _ => s.auto_update_enabled,
        };
        Ok(AppSettings { auto_update_enabled: auto, last_update_check: clone_opt(
            &s.last_update_check,
        ) })
    } else if str_eq(key, "last_update_check") {
        let last = match value {
            JsonVal::Str(t) => Some(t.clone()),
            _ => clone_opt(&s.last_update_check),
        };
        Ok(AppSettings { auto_update_enabled: s.auto_update_enabled, last_update_check: last })
    } else {
        Err(SettingsError::UnknownKey(key.to_owned()))
    }
}

/// Clones an optional string.
fn clone_opt(v: &Option<String>) -> (r: Option<String>)
    ensures
        r == *v,
{
    match v {
        Some(s) => Some(s.clone()),
        None => None,
    }
}

/// Giving a key the same value twice is the same as giving it once: the
/// second application returns the first result unchanged, so a repeated
/// update also rewrites the same file text.
pub proof fn lemma_apply_idempotent(m: SettingsModel, k: Seq<char>, v: JsonVal)
    requires
        recognized_key(k),
    ensures
        apply_spec(apply_spec(m, k, v), k, v) == apply_spec(m, k, v),
{
}

} // verus!
