//! A JSON-like tagged union that carries arguments and results.
use vstd::prelude::*;

verus! {

/// A JSON value. Numbers that are not integers in range of `i64` travel
/// as their decimal text.
#[derive(Debug, PartialEq)]
pub enum Json {
    Null,
    Bool(bool),
    Int(i64),
    Decimal(String),
    Str(String),
    Array(Vec<Json>),
    Object(Vec<Member>),
}

/// One key/value entry of a JSON object.
#[derive(Debug, PartialEq)]
pub struct Member {
    pub key: String,
    pub value: Json,
}

/// The mathematical model of a [`Json`] value.
pub enum JVal {
    Null,
    Bool(bool),
    Int(int),
    Decimal(Seq<char>),
    Str(Seq<char>),
    Array(Seq<JVal>),
    Object(Seq<JMember>),
}

/// The model of one entry of an object.
pub struct JMember {
    pub key: Seq<char>,
    pub value: JVal,
}

impl View for Json {
    type V = JVal;

    open spec fn view(&self) -> JVal
        decreases self,
    {
        match self {
            Json::Null => JVal::Null,
            Json::Bool(b) => JVal::Bool(*b),
            Json::Int(n) => JVal::Int(*n as int),
            Json::Decimal(s) => JVal::Decimal(s@),
            Json::Str(s) => JVal::Str(s@),
            Json::Array(items) => JVal::Array(
                Seq::new(items.len() as nat, |i: int| if 0 <= i < items.len() { items[i].view() } else { JVal::Null }),
            ),
            Json::Object(entries) => JVal::Object(
                Seq::new(
                    entries.len() as nat,
                    |i: int|
                        if 0 <= i < entries.len() {
                            JMember { key: entries[i].key@, value: entries[i].value.view() }
                        } else {
                            JMember { key: Seq::empty(), value: JVal::Null }
                        },
                ),
            ),
        }
    }
}

} // verus!

verus! {

/// Whether `i` is the first position of `entries` whose key is `key`.
pub open spec fn is_first_key(entries: Seq<JMember>, key: Seq<char>, i: int) -> bool {
    &&& 0 <= i < entries.len()
    &&& entries[i].key == key
    &&& forall|j: int| 0 <= j < i ==> entries[j].key != key
}

/// The value stored under `key` in an object's entries: the first entry
/// with that key wins.
pub open spec fn field(entries: Seq<JMember>, key: Seq<char>) -> Option<JVal> {
    if exists|i: int| is_first_key(entries, key, i) {
        Some(entries[choose|i: int| is_first_key(entries, key, i)].value)
    } else {
        None
    }
}

/// The member `key` of `v`, if `v` is an object that has it.
pub open spec fn member(v: JVal, key: Seq<char>) -> Option<JVal> {
    match v {
        JVal::Object(entries) => field(entries, key),
        _ => None,
    }
}

/// `v` read as an unsigned 32-bit integer.
pub open spec fn u32_of(v: JVal) -> Option<u32> {
    match v {
        JVal::Int(n) => if 0 <= n <= u32::MAX {
            Some(n as u32)
        } else {
            None
        },
        _ => None,
    }
}

/// `v` read as a string.
pub open spec fn str_of(v: JVal) -> Option<Seq<char>> {
    match v {
        JVal::Str(s) => Some(s),
        _ => None,
    }
}

/// `v` read as a list of strings.
pub open spec fn str_list_of(v: JVal) -> Option<Seq<Seq<char>>> {
    match v {
        JVal::Array(items) => if forall|i: int| 0 <= i < items.len() ==> (#[trigger] items[i]) is Str {
            Some(Seq::new(items.len(), |i: int| items[i]->Str_0))
        } else {
            None
        },
        _ => None,
    }
}

/// `v` read as an object whose values are all strings, as its key/value pairs.
pub open spec fn str_pairs_of(v: JVal) -> Option<Seq<(Seq<char>, Seq<char>)>> {
    match v {
        JVal::Object(entries) => if forall|i: int| 0 <= i < entries.len() ==> (#[trigger] entries[i]).value is Str {
            Some(Seq::new(entries.len(), |i: int| (entries[i].key, entries[i].value->Str_0)))
        } else {
            None
        },
        _ => None,
    }
}

/// The model of a list of strings.
pub open spec fn strings_view(v: Seq<String>) -> Seq<Seq<char>> {
    Seq::new(v.len(), |i: int| v[i]@)
}

/// The model of a list of string pairs.
pub open spec fn string_pairs_view(v: Seq<(String, String)>) -> Seq<(Seq<char>, Seq<char>)> {
    Seq::new(v.len(), |i: int| (v[i].0@, v[i].1@))
}

/// The entries of an object's model are the models of its entries.
pub proof fn lemma_object_view(v: &Json)
    requires
        v is Object,
    ensures
        v@ is Object,
        v@->Object_0.len() == v->Object_0.len(),
        forall|i: int|
            0 <= i < v->Object_0.len() ==> #[trigger] v@->Object_0[i] == (JMember {
            key: v->Object_0[i].key@,
            value: v->Object_0[i].value@,
        }),
{
    let entries = v->Object_0;
    assert(v@ is Object);
    assert(v@->Object_0.len() == entries.len());
}

/// The items of an array's model are the models of its items.
pub proof fn lemma_array_view(v: &Json)
    requires
        v is Array,
    ensures
        v@ is Array,
        v@->Array_0.len() == v->Array_0.len(),
        forall|i: int| 0 <= i < v->Array_0.len() ==> #[trigger] v@->Array_0[i] == v->Array_0[i]@,
{
}

/// A first position of a key is the only one.
pub proof fn lemma_first_key_unique(entries: Seq<JMember>, key: Seq<char>, i: int)
    requires
        is_first_key(entries, key, i),
    ensures
        forall|j: int| is_first_key(entries, key, j) ==> j == i,
        field(entries, key) == Some(entries[i].value),
{
    assert forall|j: int| is_first_key(entries, key, j) implies j == i by {
        if j < i {
            assert(entries[j].key != key);
        } else if j > i {
            assert(entries[i].key == key);
        }
    }
}

/// The position of the first entry whose key is `key`.
fn find_key(entries: &Vec<Member>, key: &str) -> (r: Option<usize>)
    ensures
        match r {
            Some(i) => is_first_key(Json::Object(*entries)@->Object_0, key@, i as int),
            None => forall|j: int| !is_first_key(Json::Object(*entries)@->Object_0, key@, j),
        },
{
    let ghost obj = Json::Object(*entries);
    proof {
        lemma_object_view(&obj);
    }
    let k = key.to_owned();
    let mut i: usize = 0;
    while i < entries.len()
        invariant
            0 <= i <= entries.len(),
            k@ == key@,
            obj == Json::Object(*entries),
            obj@->Object_0.len() == entries.len(),
            forall|j: int|
                0 <= j < entries.len() ==> #[trigger] obj@->Object_0[j] == (JMember {
                    key: entries[j].key@,
                    value: entries[j].value@,
                }),
            forall|j: int| 0 <= j < i ==> entries[j].key@ != key@,
        decreases entries.len() - i,
    {
        if entries[i].key == k {
            return Some(i);
        }
        i = i + 1;
    }
    assert forall|j: int| !is_first_key(obj@->Object_0, key@, j) by {
        if 0 <= j < entries.len() {
            assert(obj@->Object_0[j].key == entries[j].key@);
        }
    }
    None
}

impl Json {
    /// The value stored under `key`, if `self` is an object that has it.
    pub fn get(&self, key: &str) -> (r: Option<&Json>)
        ensures
            match r {
                Some(v) => member(self@, key@) == Some(v@),
                None => member(self@, key@) is None,
            },
    {
        match self {
            Json::Object(entries) => {
                proof {
                    lemma_object_view(self);
                }
                match find_key(entries, key) {
                    Some(i) => {
                        proof {
                            lemma_first_key_unique(self@->Object_0, key@, i as int);
                        }
                        Some(&entries[i].value)
                    },
                    None => None,
                }
            },
            _ => None,
        }
    }

    /// Takes the value stored under `key` out of `self`, if `self` is an
    /// object that has it.
    pub fn take(self, key: &str) -> (r: Option<Json>)
        ensures
            match r {
                Some(v) => member(self@, key@) == Some(v@),
                None => member(self@, key@) is None,
            },
    {
        let ghost model = self@;
        proof {
            if self is Object {
                lemma_object_view(&self);
            }
        }
        match self {
            Json::Object(mut entries) => {
                match find_key(&entries, key) {
                    Some(i) => {
                        proof {
                            lemma_first_key_unique(model->Object_0, key@, i as int);
                        }
                        let m = entries.remove(i);
                        Some(m.value)
                    },
                    None => None,
                }
            },
            _ => None,
        }
    }

    /// The items, if the value is an array.
    pub fn as_array(&self) -> (r: Option<&Vec<Json>>)
        ensures
            match r {
                Some(v) => *self == Json::Array(*v),
                None => !(self is Array),
            },
    {
        match self {
            Json::Array(items) => Some(items),
            _ => None,
        }
    }

    /// The value read as an unsigned 32-bit integer.
    pub fn as_u32(&self) -> (r: Option<u32>)
        ensures
            r == u32_of(self@),
    {
        match self {
            Json::Int(n) => if 0 <= *n && *n <= u32::MAX as i64 {
                Some(*n as u32)
            } else {
                None
            },
            _ => None,
        }
    }

    /// The value read as a string.
    pub fn as_string(&self) -> (r: Option<String>)
        ensures
            match r {
                Some(s) => str_of(self@) == Some(s@),
                None => str_of(self@) is None,
            },
    {
        match self {
            Json::Str(s) => Some(s.clone()),
            _ => None,
        }
    }

    /// The value read as a list of strings.
    pub fn as_string_list(&self) -> (r: Option<Vec<String>>)
        ensures
            match r {
                Some(v) => str_list_of(self@) == Some(strings_view(v@)),
                None => str_list_of(self@) is None,
            },
    {
        match self {
            Json::Array(items) => {
                proof {
                    lemma_array_view(self);
                }
                let mut out: Vec<String> = Vec::new();
                let mut i: usize = 0;
                while i < items.len()
                    invariant
                        0 <= i <= items.len(),
                        out.len() == i,
                        self@ == Json::Array(*items)@,
                        self@->Array_0.len() == items.len(),
                        forall|j: int| 0 <= j < items.len() ==> #[trigger] self@->Array_0[j] == items[j]@,
                        forall|j: int| 0 <= j < i ==> (#[trigger] items[j])@ is Str && out[j]@ == items[j]@->Str_0,
                    decreases items.len() - i,
                {
                    match &items[i] {
                        Json::Str(s) => out.push(s.clone()),
                        _ => {
                            assert(!(self@->Array_0[i as int] is Str));
                            return None;
                        },
                    }
                    i = i + 1;
                }
                let ghost es = self@->Array_0;
                assert forall|j: int| 0 <= j < es.len() implies (#[trigger] es[j]) is Str by {
                    assert(es[j] == items[j]@);
                }
                assert(strings_view(out@) =~= Seq::new(es.len(), |j: int| es[j]->Str_0));
                Some(out)
            },
            _ => None,
        }
    }

    /// The value read as an object whose values are all strings.
    pub fn as_string_pairs(&self) -> (r: Option<Vec<(String, String)>>)
        ensures
            match r {
                Some(v) => str_pairs_of(self@) == Some(string_pairs_view(v@)),
                None => str_pairs_of(self@) is None,
            },
    {
        match self {
            Json::Object(entries) => {
                proof {
                    lemma_object_view(self);
                }
                let mut out: Vec<(String, String)> = Vec::new();
                let mut i: usize = 0;
                while i < entries.len()
                    invariant
                        0 <= i <= entries.len(),
                        out.len() == i,
                        self@ == Json::Object(*entries)@,
                        self@->Object_0.len() == entries.len(),
                        forall|j: int|
                            0 <= j < entries.len() ==> #[trigger] self@->Object_0[j] == (JMember {
                                key: entries[j].key@,
                                value: entries[j].value@,
                            }),
                        forall|j: int|
                            0 <= j < i ==> (#[trigger] entries[j]).value@ is Str && out[j].0@ == entries[j].key@
                                && out[j].1@ == entries[j].value@->Str_0,
                    decreases entries.len() - i,
                {
                    match &entries[i].value {
                        Json::Str(s) => out.push((entries[i].key.clone(), s.clone())),
                        _ => {
                            assert(!(self@->Object_0[i as int].value is Str));
                            return None;
                        },
                    }
                    i = i + 1;
                }
                let ghost es = self@->Object_0;
                assert forall|j: int| 0 <= j < es.len() implies (#[trigger] es[j]).value is Str by {
                    assert(es[j].value == entries[j].value@);
                }
                assert(string_pairs_view(out@) =~= Seq::new(es.len(), |j: int| (es[j].key, es[j].value->Str_0)));
                Some(out)
            },
            _ => None,
        }
    }
}

} // verus!
