use vstd::prelude::*;
use vstd::string::StringExecFns;

verus! {

/// The one populated typed slot of a configuration value: a flag, a number,
/// or free text used as a newline- or comma-delimited list.
pub enum SettingValue {
    Bool(bool),
    Int(i64),
    Text(String),
}

/// A named configuration value. Identity is the name; the core never mutates
/// settings, it only reads a point-in-time snapshot of them.
pub struct Setting {
    pub name: String,
    pub value: SettingValue,
}

/// The value stored under `name`, the most recently put entry winning.
pub open spec fn lookup(entries: Seq<Setting>, name: Seq<char>) -> Option<SettingValue>
    decreases entries.len(),
{
    if entries.len() == 0 {
        None
    } else if entries.last().name@ == name {
        Some(entries.last().value)
    } else {
        lookup(entries.drop_last(), name)
    }
}

/// The boolean stored under `name`, or `default` when the name is absent or
/// holds a slot of another type.
pub open spec fn bool_setting(entries: Seq<Setting>, name: Seq<char>, default: bool) -> bool {
    match lookup(entries, name) {
        Some(SettingValue::Bool(b)) => b,
        _ => default,
    }
}

/// The integer stored under `name`, if any.
pub open spec fn int_setting(entries: Seq<Setting>, name: Seq<char>) -> Option<i64> {
    match lookup(entries, name) {
        Some(SettingValue::Int(v)) => Some(v),
        _ => None,
    }
}

/// The free text stored under `name`, if any.
pub open spec fn text_setting(entries: Seq<Setting>, name: Seq<char>) -> Option<Seq<char>> {
    match lookup(entries, name) {
        Some(SettingValue::Text(t)) => Some(t@),
        _ => None,
    }
}

/// A point-in-time copy of the settings store, read under the settings lock
/// and held for the duration of one clipboard event.
pub struct SettingsSnapshot {
    entries: Vec<Setting>,
}

impl View for SettingsSnapshot {
    type V = Seq<Setting>;

    closed spec fn view(&self) -> Seq<Setting> {
        self.entries@
    }
}

impl SettingsSnapshot {
    /// An empty snapshot: every read falls back to its documented default.
    pub fn new() -> (s: Self)
        ensures
            s@ == Seq::<Setting>::empty(),
    {
        SettingsSnapshot { entries: Vec::new() }
    }

    /// Record one setting; a later put of the same name shadows this one.
    pub fn put(&mut self, name: String, value: SettingValue)
        ensures
            final(self)@ == old(self)@.push(Setting { name, value }),
    {
        self.entries.push(Setting { name, value });
    }

    /// Read the raw value stored under `name`.
    pub fn get_value(&self, name: &str) -> (r: Option<&SettingValue>)
        ensures
            match r {
                Some(v) => lookup(self@, name@) == Some(*v),
                None => lookup(self@, name@) is None,
            },
    {
        let key = String::from_str(name);
        let mut idx = self.entries.len();
        proof {
            assert(self@.subrange(0, idx as int) =~= self@);
        }
        while idx > 0
            invariant
                0 <= idx <= self.entries.len(),
                self@ == self.entries@,
                lookup(self@, name@) == lookup(self@.subrange(0, idx as int), name@),
                key@ == name@,
            decreases idx,
        {
            proof {
                assert(self@.subrange(0, idx as int).last() == self@[idx - 1]);
                assert(self@.subrange(0, idx as int).drop_last() =~= self@.subrange(
                    0,
                    idx - 1,
                ));
            }
            let e = &self.entries[idx - 1];
            if e.name == key {
                return Some(&e.value);
            }
            idx -= 1;
        }
        None
    }

    /// The boolean under `name`, or `default` when absent or of another type.
    pub fn get_bool(&self, name: &str, default: bool) -> (r: bool)
        ensures
            r == bool_setting(self@, name@, default),
    {
        match self.get_value(name) {
            Some(SettingValue::Bool(b)) => *b,
            _ => default,
        }
    }

    /// The integer under `name`, if present with an integer slot.
    pub fn get_int(&self, name: &str) -> (r: Option<i64>)
        ensures
            r == int_setting(self@, name@),
    {
        match self.get_value(name) {
            Some(SettingValue::Int(v)) => Some(*v),
            _ => None,
        }
    }

    /// The free text under `name`, if present with a text slot.
    pub fn get_text(&self, name: &str) -> (r: Option<&String>)
        ensures
            match r {
                Some(t) => text_setting(self@, name@) == Some(t@),
                None => text_setting(self@, name@) is None,
            },
    {
        match self.get_value(name) {
            Some(SettingValue::Text(t)) => Some(t),
            _ => None,
        }
    }
}

} // verus!
