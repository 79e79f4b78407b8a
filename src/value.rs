use vstd::prelude::*;
use vstd::string::StrSliceExecFns;

verus! {

/// A script number, carried as the bit pattern of its IEEE-754 double.
///
/// The bridge never computes with numbers: it only moves them from a
/// descriptor to the attribute they belong to, so the bit pattern is all it
/// needs to keep.
#[derive(Clone, Copy, PartialEq, Eq, Structural, Debug)]
pub struct Num {
    pub bits: u64,
}

impl Num {
    /// The number zero.
    pub open spec fn spec_zero() -> Num {
        Num { bits: 0 }
    }

    /// The number one.
    pub open spec fn spec_one() -> Num {
        Num { bits: 0x3ff0_0000_0000_0000 }
    }

    pub fn zero() -> (r: Num)
        ensures
            r == Num::spec_zero(),
    {
        Num { bits: 0 }
    }

    pub fn one() -> (r: Num)
        ensures
            r == Num::spec_one(),
    {
        Num { bits: 0x3ff0_0000_0000_0000 }
    }
}

/// The key of a script table entry: an integer index or a string name.
#[derive(Clone, Debug)]
pub enum TableKey {
    Index(i64),
    Name(String),
}

/// What a table key stands for, as a mathematical value.
pub enum KeyModel {
    Index(int),
    Name(Seq<char>),
}

impl View for TableKey {
    type V = KeyModel;

    open spec fn view(&self) -> KeyModel {
        match self {
            TableKey::Index(i) => KeyModel::Index(*i as int),
            TableKey::Name(s) => KeyModel::Name(s@),
        }
    }
}

/// A dynamically typed script value, as seen at the bridge boundary.
///
/// `Opaque` stands for functions, userdata and other values that the bridge
/// never looks into.
#[derive(Debug)]
pub enum ScriptValue {
    Nil,
    Boolean(bool),
    Number(Num),
    Str(String),
    Table(ScriptTable),
    Bytes(Vec<u8>),
    Opaque,
}

/// A script table: its entries in the order the host enumerated them.
#[derive(Debug)]
pub struct ScriptTable {
    pub entries: Vec<(TableKey, ScriptValue)>,
}

/// The value stored under `k` at or after position `i`: the first entry
/// with that key wins.
pub open spec fn lookup_from(entries: Seq<(TableKey, ScriptValue)>, k: KeyModel, i: int) -> Option<
    ScriptValue,
>
    decreases entries.len() - i,
{
    if i < 0 || i >= entries.len() {
        None
    } else if entries[i].0@ == k {
        Some(entries[i].1)
    } else {
        lookup_from(entries, k, i + 1)
    }
}

/// The value stored under `k` in a table, if any.
pub open spec fn lookup(entries: Seq<(TableKey, ScriptValue)>, k: KeyModel) -> Option<ScriptValue> {
    lookup_from(entries, k, 0)
}

/// The value stored under the name `name`.
pub open spec fn field(t: ScriptTable, name: Seq<char>) -> Option<ScriptValue> {
    lookup(t.entries@, KeyModel::Name(name))
}

/// The value stored under the index `i`.
pub open spec fn item(t: ScriptTable, i: int) -> Option<ScriptValue> {
    lookup(t.entries@, KeyModel::Index(i))
}

/// The number stored under the index `i`, if that entry is a number.
pub open spec fn number_at(t: ScriptTable, i: int) -> Option<Num> {
    match item(t, i) {
        Some(ScriptValue::Number(n)) => Some(n),
        _ => None,
    }
}

/// The number stored under the name `name`, if that entry is a number.
pub open spec fn number_named(t: ScriptTable, name: Seq<char>) -> Option<Num> {
    match field(t, name) {
        Some(ScriptValue::Number(n)) => Some(n),
        _ => None,
    }
}

/// In a table of one entry, a key finds that entry's value or nothing.
pub proof fn lemma_lookup_single(entries: Seq<(TableKey, ScriptValue)>, k: KeyModel)
    requires
        entries.len() == 1,
    ensures
        lookup(entries, k) == (if entries[0].0@ == k {
            Some(entries[0].1)
        } else {
            None
        }),
{
    reveal_with_fuel(lookup_from, 2);
}

/// Whether two strings hold the same characters.
pub fn same_text(a: &str, b: &str) -> (r: bool)
    ensures
        r == (a@ == b@),
{
    let n = a.unicode_len();
    let m = b.unicode_len();
    if n != m {
        return false;
    }
    let mut i: usize = 0;
    while i < n
        invariant
            n == a@.len(),
            m == b@.len(),
            n == m,
            i <= n,
            forall|j: int| 0 <= j < i ==> a@[j] == b@[j],
        decreases n - i,
    {
        if a.get_char(i) != b.get_char(i) {
            return false;
        }
        i = i + 1;
    }
    assert(a@ =~= b@);
    true
}

/// Whether `s` begins with the characters of `prefix`.
pub fn starts_with_text(s: &str, prefix: &str) -> (r: bool)
    ensures
        r == (prefix@.len() <= s@.len() && s@.subrange(0, prefix@.len() as int) == prefix@),
{
    let n = s.unicode_len();
    let m = prefix.unicode_len();
    if m > n {
        return false;
    }
    let mut i: usize = 0;
    while i < m
        invariant
            n == s@.len(),
            m == prefix@.len(),
            m <= n,
            i <= m,
            forall|j: int| 0 <= j < i ==> s@[j] == prefix@[j],
        decreases m - i,
    {
        if s.get_char(i) != prefix.get_char(i) {
            assert(s@.subrange(0, m as int)[i as int] != prefix@[i as int]);
            return false;
        }
        i = i + 1;
    }
    assert(s@.subrange(0, m as int) =~= prefix@);
    true
}

fn key_matches(k: &TableKey, name: &str) -> (r: bool)
    ensures
        r == (k@ == KeyModel::Name(name@)),
{
    match k {
        TableKey::Name(s) => same_text(s.as_str(), name),
        TableKey::Index(_) => false,
    }
}

impl ScriptTable {
    /// A table with no entries.
    pub fn empty() -> (r: ScriptTable)
        ensures
            r.entries@.len() == 0,
    {
        ScriptTable { entries: Vec::new() }
    }

    /// Where the entry named `name` stands, if the table has one.
    pub fn position_of(&self, name: &str) -> (r: Option<usize>)
        ensures
            match r {
                Some(i) => i < self.entries@.len() && field(*self, name@) == Some(
                    self.entries@[i as int].1,
                ),
                None => field(*self, name@) == None::<ScriptValue>,
            },
    {
        let k = Ghost(KeyModel::Name(name@));
        let mut i: usize = 0;
        while i < self.entries.len()
            invariant
                i <= self.entries@.len(),
                k@ == KeyModel::Name(name@),
                lookup_from(self.entries@, k@, 0) == lookup_from(self.entries@, k@, i as int),
            decreases self.entries@.len() - i,
        {
            if key_matches(&self.entries[i].0, name) {
                return Some(i);
            }
            i = i + 1;
        }
        None
    }

    /// Where the entry with integer key `index` stands, if the table has one.
    pub fn position_of_index(&self, index: i64) -> (r: Option<usize>)
        ensures
            match r {
                Some(i) => i < self.entries@.len() && item(*self, index as int) == Some(
                    self.entries@[i as int].1,
                ),
                None => item(*self, index as int) == None::<ScriptValue>,
            },
    {
        let k = Ghost(KeyModel::Index(index as int));
        let mut i: usize = 0;
        while i < self.entries.len()
            invariant
                i <= self.entries@.len(),
                k@ == KeyModel::Index(index as int),
                lookup_from(self.entries@, k@, 0) == lookup_from(self.entries@, k@, i as int),
            decreases self.entries@.len() - i,
        {
            let hit = match &self.entries[i].0 {
                TableKey::Index(j) => *j == index,
                TableKey::Name(_) => false,
            };
            if hit {
                return Some(i);
            }
            i = i + 1;
        }
        None
    }

    /// The value named `name`, if the table has one.
    pub fn get(&self, name: &str) -> (r: Option<&ScriptValue>)
        ensures
            match r {
                Some(v) => field(*self, name@) == Some(*v),
                None => field(*self, name@) == None::<ScriptValue>,
            },
    {
        match self.position_of(name) {
            Some(i) => Some(&self.entries[i].1),
            None => None,
        }
    }

    /// The number named `name`, if that entry is a number.
    pub fn number_field(&self, name: &str) -> (r: Option<Num>)
        ensures
            r == number_named(*self, name@),
    {
        match self.get(name) {
            Some(ScriptValue::Number(n)) => Some(*n),
            _ => None,
        }
    }

    /// The table named `name`, if that entry is a table.
    pub fn table_field(&self, name: &str) -> (r: Option<&ScriptTable>)
        ensures
            match r {
                Some(t) => field(*self, name@) == Some(ScriptValue::Table(*t)),
                None => !(field(*self, name@) matches Some(ScriptValue::Table(_))),
            },
    {
        match self.get(name) {
            Some(ScriptValue::Table(t)) => Some(t),
            _ => None,
        }
    }

    /// The number under integer key `index`, if that entry is a number.
    pub fn number(&self, index: i64) -> (r: Option<Num>)
        ensures
            r == number_at(*self, index as int),
    {
        match self.position_of_index(index) {
            Some(i) => match &self.entries[i].1 {
                ScriptValue::Number(n) => Some(*n),
                _ => None,
            },
            None => None,
        }
    }
}

} // verus!
