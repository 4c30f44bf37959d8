//! The configuration value model and its mathematical view.

use vstd::prelude::*;

verus! {

/// The mathematical content of a configuration value.
pub enum ValueModel {
    Str(Seq<char>),
    Integer(int),
    Float(Seq<char>),
    Boolean(bool),
    Datetime(Seq<char>),
    List(Seq<ValueModel>),
    Table(Seq<(Seq<char>, ValueModel)>),
}

/// A parsed configuration value.
///
/// A floating-point scalar is carried as its printed text, a timestamp as the
/// text it had in the source.
#[derive(Debug, PartialEq, Eq)]
pub enum ConfigValue {
    String(String),
    Integer(i64),
    Float(String),
    Boolean(bool),
    Datetime(String),
    Array(Vec<ConfigValue>),
    Table(Vec<(String, ConfigValue)>),
}

/// What a configuration value holds.
pub open spec fn value_model(value: ConfigValue) -> ValueModel
    decreases value,
{
    match value {
        ConfigValue::String(s) => ValueModel::Str(s@),
        ConfigValue::Integer(i) => ValueModel::Integer(i as int),
        ConfigValue::Float(s) => ValueModel::Float(s@),
        ConfigValue::Boolean(b) => ValueModel::Boolean(b),
        ConfigValue::Datetime(s) => ValueModel::Datetime(s@),
        ConfigValue::Array(items) => ValueModel::List(
            Seq::new(
                items@.len(),
                |i: int|
                    if 0 <= i < items@.len() {
                        value_model(items@[i])
                    } else {
                        ValueModel::Boolean(false)
                    },
            ),
        ),
        ConfigValue::Table(entries) => ValueModel::Table(
            Seq::new(
                entries@.len(),
                |i: int|
                    if 0 <= i < entries@.len() {
                        (entries@[i].0@, value_model(entries@[i].1))
                    } else {
                        (Seq::empty(), ValueModel::Boolean(false))
                    },
            ),
        ),
    }
}

impl View for ConfigValue {
    type V = ValueModel;

    open spec fn view(&self) -> ValueModel {
        value_model(*self)
    }
}

/// The mathematical content of a table: its entries in iteration order.
pub type TableModel = Seq<(Seq<char>, ValueModel)>;

/// The entries of a table, each taken by its view.
pub open spec fn entries_view(entries: Seq<(String, ConfigValue)>) -> TableModel {
    Seq::new(entries.len(), |i: int| (entries[i].0@, entries[i].1@))
}

/// `i` is the first position of `t` that holds `key`.
pub open spec fn is_first(t: TableModel, key: Seq<char>, i: int) -> bool {
    &&& 0 <= i < t.len()
    &&& t[i].0 == key
    &&& forall|j: int| 0 <= j < i ==> (#[trigger] t[j]).0 != key
}

/// Some entry of `t` holds `key`.
pub open spec fn has_key(t: TableModel, key: Seq<char>) -> bool {
    exists|i: int| is_first(t, key, i)
}

/// The value that `t` gives to `key`, if any.
pub open spec fn lookup(t: TableModel, key: Seq<char>) -> Option<ValueModel> {
    if has_key(t, key) {
        Some(t[choose|i: int| is_first(t, key, i)].1)
    } else {
        None
    }
}

/// The set of keys that `t` defines.
pub open spec fn key_set(t: TableModel) -> Set<Seq<char>> {
    Set::new(|k: Seq<char>| has_key(t, k))
}

/// No key occurs twice in `t`.
pub open spec fn unique_keys(t: TableModel) -> bool {
    forall|i: int, j: int|
        0 <= i < j < t.len() ==> (#[trigger] t[i]).0 != (#[trigger] t[j]).0
}

/// The first entry that holds `key` decides what the table gives to the key.
pub proof fn lemma_first_is_unique(t: TableModel, key: Seq<char>, i: int)
    requires
        is_first(t, key, i),
    ensures
        has_key(t, key),
        lookup(t, key) == Some(t[i].1),
{
    let c = choose|c: int| is_first(t, key, c);
    assert(is_first(t, key, c));
    if c < i {
        assert(t[c].0 != key);
    }
    if i < c {
        assert(t[i].0 != key);
    }
}

/// A key that no entry holds is undefined.
pub proof fn lemma_absent_key(t: TableModel, key: Seq<char>)
    requires
        forall|j: int| 0 <= j < t.len() ==> (#[trigger] t[j]).0 != key,
    ensures
        !has_key(t, key),
        lookup(t, key) is None,
{
    if has_key(t, key) {
        let c = choose|c: int| is_first(t, key, c);
        assert(t[c].0 == key);
    }
}

/// The items of a list, each taken by its view.
pub open spec fn items_view(items: Seq<ConfigValue>) -> Seq<ValueModel> {
    Seq::new(items.len(), |i: int| items[i]@)
}

/// The view of a table value is the view of its entries.
pub proof fn lemma_table_view(entries: Vec<(String, ConfigValue)>)
    ensures
        ConfigValue::Table(entries)@ == ValueModel::Table(entries_view(entries@)),
{
    assert(ConfigValue::Table(entries)@->Table_0 =~= entries_view(entries@));
}

/// The view of a list value is the view of its items.
pub proof fn lemma_array_view(items: Vec<ConfigValue>)
    ensures
        ConfigValue::Array(items)@ == ValueModel::List(items_view(items@)),
{
    assert(ConfigValue::Array(items)@->List_0 =~= items_view(items@));
}

impl ConfigValue {
    /// A deep copy of the value.
    #[verifier::loop_isolation(false)]
    pub fn duplicate(&self) -> (out: ConfigValue)
        ensures
            out@ == self@,
        decreases self,
    {
        match self {
            ConfigValue::String(s) => ConfigValue::String(s.clone()),
            ConfigValue::Integer(i) => ConfigValue::Integer(*i),
            ConfigValue::Float(s) => ConfigValue::Float(s.clone()),
            ConfigValue::Boolean(b) => ConfigValue::Boolean(*b),
            ConfigValue::Datetime(s) => ConfigValue::Datetime(s.clone()),
            ConfigValue::Array(items) => {
                let mut copy: Vec<ConfigValue> = Vec::new();
                let mut i: usize = 0;
                while i < items.len()
                    invariant
                        0 <= i <= items.len(),
                        copy@.len() == i,
                        forall|j: int| 0 <= j < i ==> (#[trigger] copy@[j])@ == items@[j]@,
                    decreases items.len() - i,
                {
                    let item = items[i].duplicate();
                    copy.push(item);
                    i += 1;
                }
                let out = ConfigValue::Array(copy);
                proof {
                    lemma_array_view(*items);
                    lemma_array_view(copy);
                    assert(items_view(copy@) =~= items_view(items@));
                }
                out
            },
            ConfigValue::Table(entries) => {
                let mut copy: Vec<(String, ConfigValue)> = Vec::new();
                let mut i: usize = 0;
                while i < entries.len()
                    invariant
                        0 <= i <= entries.len(),
                        copy@.len() == i,
                        forall|j: int|
                            0 <= j < i ==> (#[trigger] copy@[j]).0@ == entries@[j].0@
                                && copy@[j].1@ == entries@[j].1@,
                    decreases entries.len() - i,
                {
                    let value = entries[i].1.duplicate();
                    copy.push((entries[i].0.clone(), value));
                    i += 1;
                }
                let out = ConfigValue::Table(copy);
                proof {
                    lemma_table_view(*entries);
                    lemma_table_view(copy);
                    assert(entries_view(copy@) =~= entries_view(entries@));
                }
                out
            },
        }
    }
}

/// A configuration table: string keys, each with its value, in iteration order.
#[derive(Debug, PartialEq, Eq)]
pub struct ConfigTable {
    pub entries: Vec<(String, ConfigValue)>,
}

impl View for ConfigTable {
    type V = TableModel;

    open spec fn view(&self) -> TableModel {
        entries_view(self.entries@)
    }
}

impl ConfigTable {
    /// No key occurs twice.
    pub open spec fn well_formed(&self) -> bool {
        unique_keys(self@)
    }

    /// The empty table.
    pub fn new() -> (out: ConfigTable)
        ensures
            out@ == Seq::<(Seq<char>, ValueModel)>::empty(),
            out.well_formed(),
    {
        let out = ConfigTable { entries: Vec::new() };
        assert(out@ =~= Seq::empty());
        out
    }

    /// The position of the first entry that holds `key`.
    pub fn position(&self, key: &String) -> (out: Option<usize>)
        ensures
            match out {
                Some(i) => is_first(self@, key@, i as int),
                None => !has_key(self@, key@),
            },
    {
        let mut i: usize = 0;
        while i < self.entries.len()
            invariant
                0 <= i <= self.entries.len(),
                self@.len() == self.entries@.len(),
                forall|j: int| 0 <= j < i ==> (#[trigger] self@[j]).0 != key@,
            decreases self.entries.len() - i,
        {
            if self.entries[i].0 == *key {
                assert(self@[i as int].0 == key@);
                return Some(i);
            }
            assert(self@[i as int].0 != key@);
            i += 1;
        }
        proof {
            lemma_absent_key(self@, key@);
        }
        None
    }

    /// The value that the table gives to `key`, if any.
    pub fn get(&self, key: &String) -> (out: Option<&ConfigValue>)
        ensures
            match out {
                Some(v) => lookup(self@, key@) == Some(v@),
                None => lookup(self@, key@) is None,
            },
    {
        match self.position(key) {
            Some(i) => {
                proof {
                    lemma_first_is_unique(self@, key@, i as int);
                }
                Some(&self.entries[i].1)
            },
            None => None,
        }
    }

    /// Sets the value of `key`: in place where the key is defined, else as a
    /// new last entry.
    pub fn insert(&mut self, key: String, value: ConfigValue)
        ensures
            match old(self).position_spec(key@) {
                Some(i) => final(self)@ == old(self)@.update(i, (key@, value@)),
                None => final(self)@ == old(self)@.push((key@, value@)),
            },
            old(self).well_formed() ==> final(self).well_formed(),
            lookup(final(self)@, key@) == Some(value@),
    {
        let found = self.position(&key);
        match found {
            Some(i) => {
                proof {
                    lemma_first_is_unique(old(self)@, key@, i as int);
                }
                self.entries.set(i, (key, value));
                assert(self@ =~= old(self)@.update(i as int, (key@, value@)));
                assert(is_first(self@, key@, i as int));
                proof {
                    lemma_first_is_unique(self@, key@, i as int);
                }
            },
            None => {
                self.entries.push((key, value));
                assert(self@ =~= old(self)@.push((key@, value@)));
                assert(is_first(self@, key@, old(self)@.len() as int)) by {
                    assert forall|j: int| 0 <= j < old(self)@.len() implies (#[trigger] self@[j]).0
                        != key@ by {
                        if old(self)@[j].0 == key@ {
                            lemma_has_some_key(old(self)@, key@, j);
                        }
                    }
                }
                proof {
                    lemma_first_is_unique(self@, key@, old(self)@.len() as int);
                }
            },
        }
    }

    /// The position of the first entry that holds `key`, as a mathematical value.
    pub open spec fn position_spec(&self, key: Seq<char>) -> Option<int> {
        if has_key(self@, key) {
            Some(choose|i: int| is_first(self@, key, i))
        } else {
            None
        }
    }

    /// A deep copy of the table.
    pub fn duplicate(&self) -> (out: ConfigTable)
        ensures
            out@ == self@,
    {
        let mut copy: Vec<(String, ConfigValue)> = Vec::new();
        let mut i: usize = 0;
        while i < self.entries.len()
            invariant
                0 <= i <= self.entries.len(),
                copy@.len() == i,
                forall|j: int|
                    0 <= j < i ==> (#[trigger] copy@[j]).0@ == self.entries@[j].0@ && copy@[j].1@
                        == self.entries@[j].1@,
            decreases self.entries.len() - i,
        {
            let value = self.entries[i].1.duplicate();
            copy.push((self.entries[i].0.clone(), value));
            i += 1;
        }
        let out = ConfigTable { entries: copy };
        assert(out@ =~= self@);
        out
    }
}

/// An entry holding `key` anywhere makes the key defined.
pub proof fn lemma_has_some_key(t: TableModel, key: Seq<char>, i: int)
    requires
        0 <= i < t.len(),
        t[i].0 == key,
    ensures
        has_key(t, key),
    decreases i,
{
    if forall|j: int| 0 <= j < i ==> (#[trigger] t[j]).0 != key {
        assert(is_first(t, key, i));
    } else {
        let j = choose|j: int| 0 <= j < i && (#[trigger] t[j]).0 == key;
        lemma_has_some_key(t, key, j);
    }
}

} // verus!
