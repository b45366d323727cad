//! the trait that effect pedals implement to sit on a pedal board, and what a
//! pedal does with a change of one of its settings
//!
//! A setting change names a setting and carries its new value.  The setting
//! called `bypass`, given a boolean, is the pedal's bypass switch, which every
//! pedal has; any other named change goes to the named setting of the pedal,
//! which then recomputes what depends on its settings.  A change that names no
//! setting does nothing.
use vstd::prelude::*;

use crate::json_fields::{json_field, read_field, JsonScalar};

verus! {

broadcast use vstd::string::group_string_axioms;

/// Whether two texts are the same.
pub(crate) fn same_text(a: &str, b: &str) -> (r: bool)
    ensures
        r == (a@ == b@),
{
    a.to_string() == b.to_string()
}

/// A change of one setting of a pedal: the name of the setting, if it has
/// one, and its new value.
#[derive(PartialEq, Eq, Debug, Clone)]
pub struct Setting {
    pub name: Option<String>,
    pub value: JsonScalar,
}

/// The setting change written in the JSON text `text`: the string under
/// `name` and the value under `value`; `None` when the text is not JSON.
pub open spec fn json_setting(text: Seq<char>) -> Option<Setting> {
    match (json_field(text, "name"@), json_field(text, "value"@)) {
        (Some(n), Some(v)) => Some(
            Setting {
                name: match n {
                    JsonScalar::Text(s) => Some(s),
                    _ => None,
                },
                value: v,
            },
        ),
        _ => None,
    }
}

/// Read a setting change from JSON text.
pub fn read_setting(text: &str) -> (r: Option<Setting>)
    ensures
        r == json_setting(text@),
{
    let n = match read_field(text, "name") {
        Some(n) => n,
        None => return None,
    };
    let v = match read_field(text, "value") {
        Some(v) => v,
        None => return None,
    };
    let name = match n {
        JsonScalar::Text(s) => Some(s),
        _ => None,
    };
    Some(Setting { name, value: v })
}

/// What a pedal does with a setting change.
#[derive(PartialEq, Eq, Debug, Clone)]
pub enum SettingChange {
    /// turn the bypass on or off
    SetBypass(bool),
    /// change the value of the setting called `name`, then reload the settings
    ChangeValue { name: String },
    /// nothing
    Ignore,
}

/// What a pedal does with the setting change `s`: `bypass` with a boolean sets
/// the bypass switch; any other named change goes to the named setting; a
/// change without a name does nothing.
pub open spec fn spec_setting_change(s: Setting) -> SettingChange {
    match s.name {
        Some(n) => match s.value {
            JsonScalar::Bool(b) => if n@ == "bypass"@ {
                SettingChange::SetBypass(b)
            } else {
                SettingChange::ChangeValue { name: n }
            },
            _ => SettingChange::ChangeValue { name: n },
        },
        None => SettingChange::Ignore,
    }
}

/// What a pedal does with the setting change `s`.
pub fn setting_change(s: &Setting) -> (r: SettingChange)
    ensures
        r == spec_setting_change(*s),
{
    match &s.name {
        Some(n) => match &s.value {
            JsonScalar::Bool(b) => if same_text(n.as_str(), "bypass") {
                SettingChange::SetBypass(*b)
            } else {
                SettingChange::ChangeValue { name: n.clone() }
            },
            _ => SettingChange::ChangeValue { name: n.clone() },
        },
        None => SettingChange::Ignore,
    }
}

/// The pedal `p` after the setting change `s`.
pub open spec fn changed<P: Pedal>(p: P, s: Setting) -> P {
    match spec_setting_change(s) {
        SettingChange::SetBypass(b) => p.with_bypass(b),
        SettingChange::ChangeValue { name } => p.with_value(&name, &s.value).reloaded(),
        SettingChange::Ignore => p,
    }
}

/// What an effect pedal implements to sit on a pedal board.  Each pedal type
/// says, with the spec functions, what its bypass switch is and what setting
/// one of its values and recomputing its settings do to it; a setting change
/// goes through `change_setting`, which every pedal shares.
pub trait Pedal: Sized {
    /// Whether the pedal is bypassed.
    spec fn bypassed(&self) -> bool;

    /// The pedal with its bypass switch set to `b`.
    spec fn with_bypass(&self, b: bool) -> Self;

    /// The pedal with its setting `name` set to `value`.
    spec fn with_value(&self, name: &String, value: &JsonScalar) -> Self;

    /// The pedal with what depends on its settings recomputed.
    spec fn reloaded(&self) -> Self;

    /// Whether the pedal is bypassed.
    fn bypass(&self) -> (b: bool)
        ensures
            b == self.bypassed(),
    ;

    /// Set the bypass switch.
    fn set_my_bypass(&mut self, val: bool)
        ensures
            *final(self) == old(self).with_bypass(val),
            final(self).bypassed() == val,
    ;

    /// Set the setting `name` to `value` (a knob turned).
    fn do_change_a_value(&mut self, name: &String, value: &JsonScalar)
        ensures
            *final(self) == old(self).with_value(name, value),
    ;

    /// Recompute what depends on the settings after they changed.
    fn load_from_settings(&mut self)
        ensures
            *final(self) == old(self).reloaded(),
    ;
}

/// Take a setting change on pedal `p`, as every pedal does: the bypass
/// switch, or a named setting followed by recomputing the settings, or
/// nothing.
pub fn change_setting<P: Pedal>(p: &mut P, setting: &Setting)
    ensures
        *final(p) == changed(*old(p), *setting),
        spec_setting_change(*setting) matches SettingChange::SetBypass(b) ==> final(p).bypassed() == b,
{
    match setting_change(setting) {
        SettingChange::SetBypass(b) => p.set_my_bypass(b),
        SettingChange::ChangeValue { name } => {
            p.do_change_a_value(&name, &setting.value);
            p.load_from_settings();
        },
        SettingChange::Ignore => {},
    }
}

/// What a setting change does to a pedal.  A change that names no setting
/// leaves the pedal as it is.  The `bypass` setting given a boolean sets the
/// bypass switch to it and nothing else.  Any other named change sets the
/// named value first and then recomputes what depends on the settings, so the
/// recomputed state reflects the new value.
pub proof fn lemma_setting_change_effect<P: Pedal>(p: P, s: Setting)
    ensures
        match s.name {
            None => changed(p, s) == p,
            Some(n) => match s.value {
                JsonScalar::Bool(b) => if n@ == "bypass"@ {
                    changed(p, s) == p.with_bypass(b)
                } else {
                    changed(p, s) == p.with_value(&n, &s.value).reloaded()
                },
                _ => changed(p, s) == p.with_value(&n, &s.value).reloaded(),
            },
        },
{
}

/// A setting change is read from the JSON text's `name` (when it is a
/// string) and `value`, exactly when the text is JSON.
pub proof fn lemma_setting_keys(text: Seq<char>)
    ensures
        json_setting(text) is Some <==> json_field(text, "name"@) is Some && json_field(text, "value"@) is Some,
        json_setting(text) matches Some(s) ==> {
            &&& Some(s.value) == json_field(text, "value"@)
            &&& match json_field(text, "name"@) {
                Some(JsonScalar::Text(n)) => s.name == Some(n),
                _ => s.name is None,
            }
        },
{
}

} // verus!
