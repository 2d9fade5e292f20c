//! The schemaless form payload: a JSON-like tagged value, its mathematical
//! model, and the conversion rule to the shape the draft store keeps.

use vstd::prelude::*;

verus! {

broadcast use vstd::std_specs::vec::group_vec_axioms;

/// A JSON value carried as form data. Numbers are 64-bit integers: the intake
/// form sends step counters and answer codes, never fractional values.
#[derive(Debug, PartialEq, Eq)]
pub enum JsonValue {
    Null,
    Bool(bool),
    Int(i64),
    Str(String),
    Arr(Vec<JsonValue>),
    Obj(Vec<(String, JsonValue)>),
}

/// The mathematical shape of a `JsonValue`: contracts speak of this model,
/// never of allocation identity.
pub enum JsonModel {
    Null,
    Bool(bool),
    Int(int),
    Str(Seq<char>),
    Arr(Seq<JsonModel>),
    Obj(Seq<(Seq<char>, JsonModel)>),
}

impl JsonValue {
    /// The model of this value.
    pub open spec fn deep_view(&self) -> JsonModel
        decreases self,
    {
        if self is Arr {
            JsonModel::Arr(
                Seq::new(
                    self->Arr_0@.len(),
                    |i: int|
                        if 0 <= i < self->Arr_0@.len() {
                            self->Arr_0@[i].deep_view()
                        } else {
                            JsonModel::Null
                        },
                ),
            )
        } else if self is Obj {
            JsonModel::Obj(
                Seq::new(
                    self->Obj_0@.len(),
                    |i: int|
                        if 0 <= i < self->Obj_0@.len() {
                            (self->Obj_0@[i].0@, self->Obj_0@[i].1.deep_view())
                        } else {
                            (Seq::empty(), JsonModel::Null)
                        },
                ),
            )
        } else if self is Str {
            JsonModel::Str(self->Str_0@)
        } else if self is Int {
            JsonModel::Int(self->Int_0 as int)
        } else if self is Bool {
            JsonModel::Bool(self->Bool_0)
        } else {
            JsonModel::Null
        }
    }
}

/// What the store keeps for a given payload: objects are kept as they are,
/// any other shape degrades to the empty object rather than erroring.
pub open spec fn stored_model(m: JsonModel) -> JsonModel {
    if m is Obj {
        m
    } else {
        JsonModel::Obj(Seq::empty())
    }
}

impl JsonValue {
    /// The empty JSON object, the initial form data of every draft.
    pub fn empty_object() -> (r: JsonValue)
        ensures
            r.deep_view() == JsonModel::Obj(Seq::<(Seq<char>, JsonModel)>::empty()),
    {
        let r = JsonValue::Obj(Vec::new());
        proof {
            assert(r.deep_view()->Obj_0 =~= Seq::<(Seq<char>, JsonModel)>::empty());
        }
        r
    }

    /// A structural copy: the copy has the same model as the original.
    pub fn deep_clone(&self) -> (r: JsonValue)
        ensures
            r.deep_view() == self.deep_view(),
        decreases *self,
    {
        match self {
            JsonValue::Null => JsonValue::Null,
            JsonValue::Bool(b) => JsonValue::Bool(*b),
            JsonValue::Int(i) => JsonValue::Int(*i),
            JsonValue::Str(s) => JsonValue::Str(s.clone()),
            JsonValue::Arr(items) => {
                let mut out: Vec<JsonValue> = Vec::new();
                let mut i: usize = 0;
                while i < items.len()
                    invariant
                        self is Arr,
                        *items == self->Arr_0,
                        i <= items.len(),
                        out@.len() == i as int,
                        forall|j: int|
                            0 <= j < i as int ==> out@[j].deep_view() == items@[j].deep_view(),
                    decreases items.len() - i,
                {
                    proof {
                        assert(decreases_to!(*self => self->Arr_0));
                        assert(decreases_to!(self->Arr_0 => self->Arr_0@));
                        assert(decreases_to!(self->Arr_0@ => self->Arr_0@[i as int]));
                        assert(decreases_to!(*self => items@[i as int]));
                    }
                    out.push(items[i].deep_clone());
                    i = i + 1;
                }
                let r = JsonValue::Arr(out);
                proof {
                    assert(r.deep_view()->Arr_0 =~= self.deep_view()->Arr_0);
                }
                r
            },
            JsonValue::Obj(fields) => {
                let mut out: Vec<(String, JsonValue)> = Vec::new();
                let mut i: usize = 0;
                while i < fields.len()
                    invariant
                        self is Obj,
                        *fields == self->Obj_0,
                        i <= fields.len(),
                        out@.len() == i as int,
                        forall|j: int|
                            0 <= j < i as int ==> out@[j].0@ == fields@[j].0@ && out@[j].1.deep_view()
                                == fields@[j].1.deep_view(),
                    decreases fields.len() - i,
                {
                    proof {
                        assert(decreases_to!(*self => self->Obj_0));
                        assert(decreases_to!(self->Obj_0 => self->Obj_0@));
                        assert(decreases_to!(self->Obj_0@ => self->Obj_0@[i as int]));
                        assert(decreases_to!(self->Obj_0@[i as int] => self->Obj_0@[i as int].1));
                        assert(decreases_to!(*self => fields@[i as int].1));
                    }
                    let key = fields[i].0.clone();
                    let value = fields[i].1.deep_clone();
                    out.push((key, value));
                    i = i + 1;
                }
                let r = JsonValue::Obj(out);
                proof {
                    assert(r.deep_view()->Obj_0 =~= self.deep_view()->Obj_0);
                }
                r
            },
        }
    }

    /// Whether this value is a top-level object: the shapes the store keeps
    /// as they are.
    pub fn is_object(&self) -> (r: bool)
        ensures
            r == (self.deep_view() is Obj),
    {
        match self {
            JsonValue::Obj(_) => true,
            _ => false,
        }
    }

    /// Converts a payload to the shape the store keeps: an object passes
    /// through unchanged, anything else degrades to the empty object.
    pub fn into_stored(self) -> (r: JsonValue)
        ensures
            r.deep_view() == stored_model(self.deep_view()),
    {
        match self {
            JsonValue::Obj(fields) => JsonValue::Obj(fields),
            _ => {
                let r = JsonValue::Obj(Vec::new());
                proof {
                    assert(r.deep_view()->Obj_0 =~= Seq::<(Seq<char>, JsonModel)>::empty());
                }
                r
            },
        }
    }
}

} // verus!
