//! A plain JSON tree, the value model every request body and response
//! envelope is made of.
//!
//! Request bodies and response envelopes are JSON documents. The pipeline
//! never interprets resource-specific fields; it only builds objects, looks
//! fields up, and takes envelope wrappers apart. Parsing JSON text into this
//! tree (and printing it back) is the transport collaborator's concern.

use vstd::prelude::*;
use vstd::string::StringExecFns;

verus! {

/// A JSON value. Numbers are modelled as signed 64-bit integers, which covers
/// every numeric field the provider's API reads or writes (identifiers,
/// counts, ports, priorities).
#[derive(Debug, PartialEq, Eq)]
pub enum JsonValue {
    Null,
    Bool(bool),
    Int(i64),
    Str(String),
    Arr(Vec<JsonValue>),
    Obj(Vec<(String, JsonValue)>),
}

/// The fields of an object, with keys abstracted to character sequences.
pub open spec fn entries(fields: Seq<(String, JsonValue)>) -> Seq<(Seq<char>, JsonValue)> {
    fields.map_values(|p: (String, JsonValue)| (p.0@, p.1))
}

/// The value under `key`, taking the first matching field.
pub open spec fn lookup(es: Seq<(Seq<char>, JsonValue)>, key: Seq<char>) -> Option<JsonValue>
    decreases es.len(),
{
    if es.len() == 0 {
        None
    } else if es[0].0 == key {
        Some(es[0].1)
    } else {
        lookup(es.drop_first(), key)
    }
}

/// `es` with the first field named `key` replaced by `value`, or with
/// `(key, value)` appended when no field carries that name.
pub open spec fn store(es: Seq<(Seq<char>, JsonValue)>, key: Seq<char>, value: JsonValue) -> Seq<
    (Seq<char>, JsonValue),
>
    decreases es.len(),
{
    if es.len() == 0 {
        seq![(key, value)]
    } else if es[0].0 == key {
        seq![(key, value)] + es.drop_first()
    } else {
        seq![es[0]] + store(es.drop_first(), key, value)
    }
}

/// Index of the first field named `key`, if any, together with what that
/// means for the lookup.
pub(crate) fn find_key(fields: &Vec<(String, JsonValue)>, key: &str) -> (r: Option<usize>)
    ensures
        match r {
            Some(i) => i < fields@.len() && entries(fields@)[i as int].0 == key@ && (forall|j: int|
                0 <= j < i ==> entries(fields@)[j].0 != key@) && lookup(entries(fields@), key@)
                == Some(entries(fields@)[i as int].1),
            None => (forall|j: int| 0 <= j < fields@.len() ==> entries(fields@)[j].0 != key@)
                && lookup(entries(fields@), key@) is None,
        },
{
    let key_string = String::from_str(key);
    let n = fields.len();
    let mut i: usize = 0;
    while i < n
        invariant
            n == fields@.len(),
            i <= n,
            key_string@ == key@,
            forall|j: int| 0 <= j < i ==> entries(fields@)[j].0 != key@,
        decreases n - i,
    {
        if fields[i].0 == key_string {
            proof {
                lemma_lookup_at(entries(fields@), key@, i as int);
            }
            return Some(i);
        }
        i = i + 1;
    }
    proof {
        lemma_lookup_none(entries(fields@), key@);
    }
    None
}

/// When the first field named `key` sits at index `at`, the lookup yields
/// exactly that field's value.
proof fn lemma_lookup_at(es: Seq<(Seq<char>, JsonValue)>, key: Seq<char>, at: int)
    requires
        0 <= at < es.len(),
        es[at].0 == key,
        forall|j: int| 0 <= j < at ==> es[j].0 != key,
    ensures
        lookup(es, key) == Some(es[at].1),
    decreases at,
{
    if at > 0 {
        lemma_lookup_at(es.drop_first(), key, at - 1);
    }
}

/// When no field is named `key`, the lookup comes up empty.
proof fn lemma_lookup_none(es: Seq<(Seq<char>, JsonValue)>, key: Seq<char>)
    requires
        forall|j: int| 0 <= j < es.len() ==> es[j].0 != key,
    ensures
        lookup(es, key) is None,
    decreases es.len(),
{
    if es.len() > 0 {
        lemma_lookup_none(es.drop_first(), key);
    }
}

/// When the first field named `key` sits at index `at`, storing replaces
/// exactly that field.
proof fn lemma_store_at(es: Seq<(Seq<char>, JsonValue)>, key: Seq<char>, value: JsonValue, at: int)
    requires
        0 <= at < es.len(),
        es[at].0 == key,
        forall|j: int| 0 <= j < at ==> es[j].0 != key,
    ensures
        store(es, key, value) =~= es.update(at, (key, value)),
    decreases at,
{
    if at > 0 {
        lemma_store_at(es.drop_first(), key, value, at - 1);
        assert(store(es, key, value) =~= seq![es[0]] + store(es.drop_first(), key, value));
        assert(es.drop_first().update(at - 1, (key, value)) =~= es.update(
            at,
            (key, value),
        ).drop_first());
    }
}

/// When no field is named `key`, storing appends the new field.
proof fn lemma_store_appends(es: Seq<(Seq<char>, JsonValue)>, key: Seq<char>, value: JsonValue)
    requires
        forall|j: int| 0 <= j < es.len() ==> es[j].0 != key,
    ensures
        store(es, key, value) =~= es + seq![(key, value)],
    decreases es.len(),
{
    if es.len() > 0 {
        lemma_store_appends(es.drop_first(), key, value);
    }
}

impl JsonValue {
    /// The object fields seen through `entries`; an empty sequence for any
    /// non-object value.
    pub open spec fn obj_entries(self) -> Seq<(Seq<char>, JsonValue)> {
        match self {
            JsonValue::Obj(fields) => entries(fields@),
            _ => Seq::empty(),
        }
    }

    /// A borrowed view of the value under `key`, taking the first matching
    /// field.
    pub fn get_field<'a>(&'a self, key: &str) -> (r: Option<&'a JsonValue>)
        ensures
            match r {
                Some(v) => self is Obj && lookup(self.obj_entries(), key@) == Some(*v),
                None => self !is Obj || lookup(self.obj_entries(), key@) is None,
            },
    {
        match self {
            JsonValue::Obj(fields) => {
                match find_key(fields, key) {
                    Some(i) => Some(&fields[i].1),
                    None => None,
                }
            },
            _ => None,
        }
    }

    /// Stores `value` under `key`. A null body becomes a one-field object, as
    /// when the first field of a fresh request body is assigned; any other
    /// non-object value is rejected by the precondition.
    pub fn set_field(&mut self, key: &str, value: JsonValue)
        requires
            *old(self) is Null || *old(self) is Obj,
        ensures
            *final(self) is Obj,
            final(self).obj_entries() == store(old(self).obj_entries(), key@, value),
    {
        let key_string = String::from_str(key);
        match self {
            JsonValue::Obj(fields) => {
                let ghost orig = entries(fields@);
                match find_key(fields, key) {
                    Some(i) => {
                        let _replaced = fields.remove(i);
                        fields.insert(i, (key_string, value));
                        proof {
                            lemma_store_at(orig, key@, value, i as int);
                            assert(entries(fields@) =~= orig.update(i as int, (key@, value)));
                        }
                    },
                    None => {
                        fields.push((key_string, value));
                        proof {
                            lemma_store_appends(orig, key@, value);
                            assert(entries(fields@) =~= orig + seq![(key@, value)]);
                        }
                    },
                }
            },
            _ => {
                *self = JsonValue::Obj(vec![(key_string, value)]);
                proof {
                    assert(self.obj_entries() =~= seq![(key@, value)]);
                    assert(store(Seq::empty(), key@, value) =~= seq![(key@, value)]);
                }
            },
        }
    }
}

/// A required integer field that fits a `usize`: anything else is a
/// structural mismatch.
pub open spec fn spec_usize_field(es: Seq<(Seq<char>, JsonValue)>, key: Seq<char>) -> Result<
    usize,
    (),
> {
    match lookup(es, key) {
        Some(JsonValue::Int(t)) => if 0 <= t as int && t as int <= usize::MAX as int {
            Ok(t as usize)
        } else {
            Err(())
        },
        _ => Err(()),
    }
}

/// An optional integer field that fits a `usize`: absent or null means none;
/// any other non-integer value is a structural mismatch.
pub open spec fn spec_opt_usize_field(es: Seq<(Seq<char>, JsonValue)>, key: Seq<char>) -> Result<
    Option<usize>,
    (),
> {
    match lookup(es, key) {
        None => Ok(None),
        Some(JsonValue::Null) => Ok(None),
        Some(JsonValue::Int(t)) => if 0 <= t as int && t as int <= usize::MAX as int {
            Ok(Some(t as usize))
        } else {
            Err(())
        },
        Some(_) => Err(()),
    }
}

/// A required text field.
pub open spec fn spec_string_field(es: Seq<(Seq<char>, JsonValue)>, key: Seq<char>) -> Result<
    String,
    (),
> {
    match lookup(es, key) {
        Some(JsonValue::Str(s)) => Ok(s),
        _ => Err(()),
    }
}

/// A required boolean field.
pub open spec fn spec_bool_field(es: Seq<(Seq<char>, JsonValue)>, key: Seq<char>) -> Result<
    bool,
    (),
> {
    match lookup(es, key) {
        Some(JsonValue::Bool(b)) => Ok(b),
        _ => Err(()),
    }
}

/// Whether every element is a text value.
pub open spec fn all_strings(items: Seq<JsonValue>) -> bool {
    forall|i: int| 0 <= i < items.len() ==> items[i] is Str
}

/// The texts of a sequence of text values.
pub open spec fn strings_of(items: Seq<JsonValue>) -> Seq<String> {
    items.map_values(
        |v: JsonValue|
            match v {
                JsonValue::Str(s) => s,
                _ => vstd::pervasive::arbitrary(),
            },
    )
}

/// A required field holding an array of texts.
pub open spec fn spec_string_list_field(es: Seq<(Seq<char>, JsonValue)>, key: Seq<char>) -> Result<
    Seq<String>,
    (),
> {
    match lookup(es, key) {
        Some(JsonValue::Arr(items)) => if all_strings(items@) {
            Ok(strings_of(items@))
        } else {
            Err(())
        },
        _ => Err(()),
    }
}

/// Reads a required integer field that fits a `usize`.
pub fn usize_field(fields: &Vec<(String, JsonValue)>, key: &str) -> (r: Result<usize, ()>)
    ensures
        r == spec_usize_field(entries(fields@), key@),
{
    match find_key(fields, key) {
        Some(i) => {
            match &fields[i].1 {
                JsonValue::Int(t) => {
                    let t = *t;
                    if t >= 0 && t as u64 <= usize::MAX as u64 {
                        Ok(t as usize)
                    } else {
                        Err(())
                    }
                },
                _ => Err(()),
            }
        },
        None => Err(()),
    }
}

/// Reads an optional integer field that fits a `usize`.
pub fn opt_usize_field(fields: &Vec<(String, JsonValue)>, key: &str) -> (r: Result<
    Option<usize>,
    (),
>)
    ensures
        r == spec_opt_usize_field(entries(fields@), key@),
{
    match find_key(fields, key) {
        Some(i) => {
            match &fields[i].1 {
                JsonValue::Null => Ok(None),
                JsonValue::Int(t) => {
                    let t = *t;
                    if t >= 0 && t as u64 <= usize::MAX as u64 {
                        Ok(Some(t as usize))
                    } else {
                        Err(())
                    }
                },
                _ => Err(()),
            }
        },
        None => Ok(None),
    }
}

/// Reads a required text field; the text is copied out.
pub fn string_field(fields: &Vec<(String, JsonValue)>, key: &str) -> (r: Result<String, ()>)
    ensures
        r == spec_string_field(entries(fields@), key@),
{
    match find_key(fields, key) {
        Some(i) => {
            match &fields[i].1 {
                JsonValue::Str(s) => Ok(s.clone()),
                _ => Err(()),
            }
        },
        None => Err(()),
    }
}

/// Reads a required boolean field.
pub fn bool_field(fields: &Vec<(String, JsonValue)>, key: &str) -> (r: Result<bool, ()>)
    ensures
        r == spec_bool_field(entries(fields@), key@),
{
    match find_key(fields, key) {
        Some(i) => {
            match &fields[i].1 {
                JsonValue::Bool(b) => Ok(*b),
                _ => Err(()),
            }
        },
        None => Err(()),
    }
}

/// Reads a required field holding an array of texts; the texts are copied
/// out in order.
pub fn string_list_field(fields: &Vec<(String, JsonValue)>, key: &str) -> (r: Result<
    Vec<String>,
    (),
>)
    ensures
        match (r, spec_string_list_field(entries(fields@), key@)) {
            (Ok(v), Ok(s)) => v@ == s,
            (Err(()), Err(())) => true,
            _ => false,
        },
{
    match find_key(fields, key) {
        Some(i) => {
            match &fields[i].1 {
                JsonValue::Arr(items) => {
                    proof {
                        assert(fields@[i as int].1 == JsonValue::Arr(*items));
                        assert(lookup(entries(fields@), key@) == Some(JsonValue::Arr(*items)));
                    }
                    let n = items.len();
                    let mut out: Vec<String> = Vec::new();
                    let mut j: usize = 0;
                    while j < n
                        invariant
                            n == items@.len(),
                            j <= n,
                            lookup(entries(fields@), key@) == Some(JsonValue::Arr(*items)),
                            out@.len() == j,
                            forall|k: int| 0 <= k < j ==> items@[k] is Str,
                            forall|k: int|
                                0 <= k < j ==> out@[k] == items@[k]->Str_0,
                        decreases n - j,
                    {
                        match &items[j] {
                            JsonValue::Str(s) => {
                                out.push(s.clone());
                            },
                            _ => {
                                proof {
                                    assert(!all_strings(items@)) by {
                                        assert(items@[j as int] !is Str);
                                    }
                                }
                                return Err(());
                            },
                        }
                        j = j + 1;
                    }
                    proof {
                        assert(out@ =~= strings_of(items@));
                    }
                    Ok(out)
                },
                _ => Err(()),
            }
        },
        None => Err(()),
    }
}

} // verus!
