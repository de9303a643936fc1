//! A structured, statically checkable stand-in for dynamic JSON-like object
//! payloads: a tagged tree of nulls, booleans, integers, strings, arrays and
//! objects. Object fields are kept as an ordered list of key/value pairs so
//! that a built payload has one definite shape.

use vstd::prelude::*;

verus! {

/// One named field of a JSON-like object.
pub struct JsonField {
    pub key: String,
    pub value: JsonValue,
}

/// An executable JSON-like tree.
pub enum JsonValue {
    Null,
    Bool(bool),
    Int(i64),
    Str(String),
    Arr(Vec<JsonValue>),
    Obj(Vec<JsonField>),
}

/// One named field in the model of a JSON-like object.
pub struct JsonFieldView {
    pub key: Seq<char>,
    pub value: JsonView,
}

/// The mathematical model of a JSON-like tree: strings are sequences of
/// characters, arrays and objects are sequences.
pub enum JsonView {
    Null,
    Bool(bool),
    Int(int),
    Str(Seq<char>),
    Arr(Seq<JsonView>),
    Obj(Seq<JsonFieldView>),
}

impl JsonValue {
    /// The model of this tree.
    pub open spec fn deep(self) -> JsonView
        decreases self, 2int,
    {
        match self {
            JsonValue::Null => JsonView::Null,
            JsonValue::Bool(b) => JsonView::Bool(b),
            JsonValue::Int(i) => JsonView::Int(i as int),
            JsonValue::Str(s) => JsonView::Str(s@),
            JsonValue::Arr(a) => JsonView::Arr(Self::deep_elems(a@)),
            JsonValue::Obj(o) => JsonView::Obj(Self::deep_fields(o@)),
        }
    }

    /// The models of the elements of an array, in order.
    pub open spec fn deep_elems(s: Seq<JsonValue>) -> Seq<JsonView>
        decreases s, 1int,
    {
        if s.len() == 0 {
            Seq::empty()
        } else {
            seq![s[0].deep()] + Self::deep_elems(s.subrange(1, s.len() as int))
        }
    }

    /// The models of the fields of an object, in order.
    pub open spec fn deep_fields(s: Seq<JsonField>) -> Seq<JsonFieldView>
        decreases s, 1int,
    {
        if s.len() == 0 {
            Seq::empty()
        } else {
            seq![JsonFieldView { key: s[0].key@, value: s[0].value.deep() }]
                + Self::deep_fields(s.subrange(1, s.len() as int))
        }
    }
}

impl View for JsonValue {
    type V = JsonView;

    open spec fn view(&self) -> JsonView {
        (*self).deep()
    }
}

impl JsonValue {
    /// The value of the field named `key`, if this tree is an object carrying
    /// it (the first such field governs, as in the model).
    pub fn get_field<'a>(&'a self, key: &str) -> (r: Option<&'a JsonValue>)
        ensures
            r matches Some(v) ==> self@.field(key@) == Option::Some(v@),
            r is None ==> self@.field(key@) is None,
    {
        let wanted: String = key.to_owned();
        match self {
            JsonValue::Obj(fields) => {
                let mut i: usize = 0;
                loop
                    invariant
                        0 <= i <= fields@.len(),
                        wanted@ == key@,
                        self@ == JsonView::Obj(JsonValue::deep_fields(fields@)),
                        JsonView::assoc_from(JsonValue::deep_fields(fields@), key@, i as int)
                            == self@.field(key@),
                    decreases fields@.len() - i,
                {
                    proof {
                        lemma_deep_fields_len(fields@);
                    }
                    if i >= fields.len() {
                        return None;
                    }
                    proof {
                        lemma_deep_fields_index(fields@, i as int);
                    }
                    if fields[i].key == wanted {
                        return Some(&fields[i].value);
                    }
                    i = i + 1;
                }
            },
            _ => None,
        }
    }
}

/// Shorthand for one field of an object model.
pub open spec fn jfield(key: Seq<char>, value: JsonView) -> JsonFieldView {
    JsonFieldView { key, value }
}

impl JsonView {
    /// The value of the field named `key`, if the view is an object and some
    /// field carries that name (the first such field governs).
    pub open spec fn field(self, key: Seq<char>) -> Option<JsonView> {
        match self {
            JsonView::Obj(fields) => Self::assoc(fields, key),
            _ => Option::None,
        }
    }

    /// The value reached by following `path` field by field.
    pub open spec fn field_path(self, path: Seq<Seq<char>>) -> Option<JsonView>
        decreases path.len(),
    {
        if path.len() == 0 {
            Option::Some(self)
        } else {
            match self.field(path[0]) {
                Option::Some(v) => v.field_path(path.skip(1)),
                Option::None => Option::None,
            }
        }
    }

    /// First value bound to `key` in an ordered field list.
    pub open spec fn assoc(fields: Seq<JsonFieldView>, key: Seq<char>) -> Option<JsonView> {
        Self::assoc_from(fields, key, 0)
    }

    /// First value bound to `key` at or after position `i`.
    pub open spec fn assoc_from(fields: Seq<JsonFieldView>, key: Seq<char>, i: int) -> Option<
        JsonView,
    >
        decreases fields.len() - i,
    {
        if i < 0 || i >= fields.len() {
            Option::None
        } else if fields[i].key == key {
            Option::Some(fields[i].value)
        } else {
            Self::assoc_from(fields, key, i + 1)
        }
    }
}

/// A field list's model has one entry per field.
pub proof fn lemma_deep_fields_len(s: Seq<JsonField>)
    ensures
        JsonValue::deep_fields(s).len() == s.len(),
    decreases s.len(),
{
    if s.len() > 0 {
        lemma_deep_fields_len(s.subrange(1, s.len() as int));
    }
}

/// A field list's model carries, position by position, each field's key and
/// its value's model.
pub proof fn lemma_deep_fields_index(s: Seq<JsonField>, i: int)
    requires
        0 <= i < s.len(),
    ensures
        JsonValue::deep_fields(s).len() == s.len(),
        JsonValue::deep_fields(s)[i] == jfield(s[i].key@, s[i].value.deep()),
    decreases s.len(),
{
    lemma_deep_fields_len(s);
    if i > 0 {
        lemma_deep_fields_index(s.subrange(1, s.len() as int), i - 1);
        assert(s.subrange(1, s.len() as int)[i - 1] == s[i]);
    }
}

/// Appending a field to a field list appends its model to the list's model.
pub proof fn lemma_deep_fields_push(s: Seq<JsonField>, f: JsonField)
    ensures
        JsonValue::deep_fields(s.push(f)) =~= JsonValue::deep_fields(s).push(
            jfield(f.key@, f.value.deep()),
        ),
    decreases s.len(),
{
    if s.len() == 0 {
        reveal_with_fuel(JsonValue::deep_fields, 3);
        assert(s.push(f)[0] == f);
        assert(s.push(f).subrange(1, 1) =~= Seq::<JsonField>::empty());
    } else {
        assert(s.push(f).subrange(1, s.len() as int + 1) =~= s.subrange(1, s.len() as int).push(
            f,
        ));
        lemma_deep_fields_push(s.subrange(1, s.len() as int), f);
        assert(s.push(f)[0] == s[0]);
    }
}

/// Adds one field, named `k` and holding `v`, at the end of an object under
/// construction.
pub fn push_field(fields: &mut Vec<JsonField>, k: &str, v: JsonValue)
    ensures
        JsonValue::deep_fields(final(fields)@) == JsonValue::deep_fields(old(fields)@).push(
            jfield(k@, v@),
        ),
{
    fields.push(JsonField { key: k.to_owned(), value: v });
    proof {
        lemma_deep_fields_push(old(fields)@, fields@[fields@.len() - 1]);
    }
}

/// An object made of the given fields, in order.
pub fn json_obj(fields: Vec<JsonField>) -> (r: JsonValue)
    ensures
        r@ == JsonView::Obj(JsonValue::deep_fields(fields@)),
{
    JsonValue::Obj(fields)
}

/// A string value, built from a string slice.
pub fn json_str(s: &str) -> (r: JsonValue)
    ensures
        r@ == JsonView::Str(s@),
{
    JsonValue::Str(s.to_owned())
}

/// An object with a single field.
pub fn json_obj1(k: &str, v: JsonValue) -> (r: JsonValue)
    ensures
        r@ == JsonView::Obj(seq![jfield(k@, v@)]),
{
    let ghost vv = v@;
    let mut fields: Vec<JsonField> = Vec::new();
    push_field(&mut fields, k, v);
    proof {
        assert(JsonValue::deep_fields(fields@) =~= seq![jfield(k@, vv)]);
    }
    JsonValue::Obj(fields)
}

/// An object with two fields, in order.
pub fn json_obj2(k1: &str, v1: JsonValue, k2: &str, v2: JsonValue) -> (r: JsonValue)
    ensures
        r@ == JsonView::Obj(seq![jfield(k1@, v1@), jfield(k2@, v2@)]),
{
    let ghost vv1 = v1@;
    let ghost vv2 = v2@;
    let mut fields: Vec<JsonField> = Vec::new();
    push_field(&mut fields, k1, v1);
    push_field(&mut fields, k2, v2);
    proof {
        assert(JsonValue::deep_fields(fields@) =~= seq![jfield(k1@, vv1), jfield(k2@, vv2)]);
    }
    JsonValue::Obj(fields)
}

/// An array with a single element.
pub fn json_arr1(v: JsonValue) -> (r: JsonValue)
    ensures
        r@ == JsonView::Arr(seq![v@]),
{
    let ghost vv = v@;
    let mut elems: Vec<JsonValue> = Vec::new();
    elems.push(v);
    let r = JsonValue::Arr(elems);
    proof {
        reveal_with_fuel(JsonValue::deep_elems, 3);
        assert(elems@.subrange(1, 1) =~= Seq::<JsonValue>::empty());
        assert(JsonValue::deep_elems(elems@) =~= seq![vv]);
    }
    r
}

} // verus!
