//! The generic structured value a journal line parses into, and its
//! mathematical model. Records are objects: ordered lists of named fields.

use vstd::prelude::*;

verus! {

/// A number from the input, kept without floating point: values that are
/// integers in range are held exactly, anything else keeps its textual form.
#[derive(PartialEq, Eq, Debug)]
pub enum NumberVal {
    Int(i64),
    Uint(u64),
    Raw(String),
}

impl NumberVal {
    /// An owned copy holding the same number.
    pub fn dup(&self) -> (r: NumberVal)
        ensures
            r == *self,
    {
        match self {
            NumberVal::Int(i) => NumberVal::Int(*i),
            NumberVal::Uint(u) => NumberVal::Uint(*u),
            NumberVal::Raw(s) => NumberVal::Raw(s.clone()),
        }
    }
}

/// A generic structured value parsed from one journal line.
#[derive(PartialEq, Eq, Debug)]
pub enum JValue {
    Null,
    Bool(bool),
    Num(NumberVal),
    Str(String),
    Arr(Vec<JValue>),
    Obj(Vec<(String, JValue)>),
}

/// Model of a number: an exact integer, or the textual form of anything else.
pub ghost enum VNum {
    I(int),
    Raw(Seq<char>),
}

/// Model of a structured value.
pub ghost enum VJson {
    Null,
    Bool(bool),
    Num(VNum),
    Str(Seq<char>),
    Arr(Seq<VJson>),
    Obj(VObj),
}

/// Model of an object: the fields in order, names as character sequences.
pub type VObj = Seq<(Seq<char>, VJson)>;

/// Model of a number value.
pub open spec fn num_view(n: NumberVal) -> VNum {
    match n {
        NumberVal::Int(i) => VNum::I(i as int),
        NumberVal::Uint(u) => VNum::I(u as int),
        NumberVal::Raw(s) => VNum::Raw(s@),
    }
}

/// Model of a structured value.
pub open spec fn jv_view(v: JValue) -> VJson
    decreases v,
{
    match v {
        JValue::Null => VJson::Null,
        JValue::Bool(b) => VJson::Bool(b),
        JValue::Num(n) => VJson::Num(num_view(n)),
        JValue::Str(s) => VJson::Str(s@),
        JValue::Arr(items) => VJson::Arr(arr_view_seq(items@)),
        JValue::Obj(fields) => VJson::Obj(obj_view_seq(fields@)),
    }
}

/// Models each element of a list value.
pub open spec fn arr_view_seq(items: Seq<JValue>) -> Seq<VJson>
    decreases items,
{
    if items.len() == 0 {
        Seq::empty()
    } else {
        seq![jv_view(items[0])] + arr_view_seq(items.drop_first())
    }
}

/// Models each field of an object, in order.
pub open spec fn obj_view_seq(fields: Seq<(String, JValue)>) -> VObj
    decreases fields,
{
    if fields.len() == 0 {
        Seq::empty()
    } else {
        seq![(fields[0].0@, jv_view(fields[0].1))] + obj_view_seq(fields.drop_first())
    }
}

/// The model of an object held as a field vector.
pub open spec fn obj_view(fields: Vec<(String, JValue)>) -> VObj {
    obj_view_seq(fields@)
}

/// The model of a list keeps the length, and models elements pointwise.
pub proof fn lemma_arr_view_at(items: Seq<JValue>)
    ensures
        arr_view_seq(items).len() == items.len(),
        forall|i: int| 0 <= i < items.len() ==> arr_view_seq(items)[i] == jv_view(items[i]),
    decreases items,
{
    if items.len() > 0 {
        lemma_arr_view_at(items.drop_first());
    }
}

/// The model of an object keeps the length, and models fields pointwise.
pub proof fn lemma_obj_view_at(fields: Seq<(String, JValue)>)
    ensures
        obj_view_seq(fields).len() == fields.len(),
        forall|i: int| 0 <= i < fields.len()
            ==> obj_view_seq(fields)[i] == (fields[i].0@, jv_view(fields[i].1)),
    decreases fields,
{
    if fields.len() > 0 {
        lemma_obj_view_at(fields.drop_first());
    }
}

/// Looks a field name up in an object model: the first field of that name.
pub open spec fn spec_lookup(fields: VObj, name: Seq<char>) -> Option<VJson>
    decreases fields.len(),
{
    if fields.len() == 0 {
        None
    } else if fields[0].0 == name {
        Some(fields[0].1)
    } else {
        spec_lookup(fields.drop_first(), name)
    }
}

/// The object with the first field of the given name taken out.
pub open spec fn spec_remove(fields: VObj, name: Seq<char>) -> VObj
    decreases fields.len(),
{
    if fields.len() == 0 {
        fields
    } else if fields[0].0 == name {
        fields.drop_first()
    } else {
        seq![fields[0]] + spec_remove(fields.drop_first(), name)
    }
}

/// Compares a held string against a literal spelling.
pub fn str_eq(a: &String, b: &str) -> (r: bool)
    ensures
        r == (a@ == b@),
{
    let bs: String = b.to_owned();
    *a == bs
}

proof fn lemma_lookup_step(fields: Vec<(String, JValue)>, name: Seq<char>, i: int)
    requires
        0 <= i < fields@.len(),
    ensures
        obj_view(fields).skip(i).drop_first() =~= obj_view(fields).skip(i + 1),
        obj_view(fields).skip(i)[0] == (fields@[i].0@, jv_view(fields@[i].1)),
{
    lemma_obj_view_at(fields@);
}

/// Finds the first field of the given name, if the object has one.
pub fn lookup<'a>(fields: &'a Vec<(String, JValue)>, name: &str) -> (r: Option<&'a JValue>)
    ensures
        match r {
            Some(v) => spec_lookup(obj_view(*fields), name@) == Some(jv_view(*v)),
            None => spec_lookup(obj_view(*fields), name@) is None,
        },
{
    let ghost whole = obj_view(*fields);
    proof {
        assert(whole.skip(0) =~= whole);
    }
    let mut i: usize = 0;
    while i < fields.len()
        invariant
            0 <= i <= fields@.len(),
            whole == obj_view(*fields),
            spec_lookup(whole, name@) == spec_lookup(whole.skip(i as int), name@),
        decreases fields@.len() - i,
    {
        proof {
            lemma_obj_view_at(fields@);
            lemma_lookup_step(*fields, name@, i as int);
        }
        if str_eq(&fields[i].0, name) {
            return Some(&fields[i].1);
        }
        i = i + 1;
    }
    proof {
        lemma_obj_view_at(fields@);
        assert(whole.skip(i as int) =~= Seq::<(Seq<char>, VJson)>::empty());
    }
    None
}

proof fn lemma_remove_at(fields: VObj, name: Seq<char>, j: int)
    requires
        0 <= j < fields.len(),
        fields[j].0 == name,
        forall|k: int| 0 <= k < j ==> fields[k].0 != name,
    ensures
        spec_lookup(fields, name) == Some(fields[j].1),
        spec_remove(fields, name) =~= fields.subrange(0, j) + fields.subrange(j + 1, fields.len() as int),
    decreases j,
{
    if j == 0 {
        assert(fields.drop_first() =~= fields.subrange(1, fields.len() as int));
    } else {
        let rest = fields.drop_first();
        lemma_remove_at(rest, name, j - 1);
        assert(rest.subrange(0, j - 1) =~= fields.subrange(1, j));
        assert(rest.subrange(j, rest.len() as int) =~= fields.subrange(j + 1, fields.len() as int));
        assert(seq![fields[0]] + (fields.subrange(1, j) + fields.subrange(j + 1, fields.len() as int))
            =~= fields.subrange(0, j) + fields.subrange(j + 1, fields.len() as int));
    }
}

/// Takes the first field of the given name out of the object, returning its
/// value; the remaining fields keep their order.
pub fn remove_field(fields: &mut Vec<(String, JValue)>, name: &str) -> (r: Option<JValue>)
    ensures
        match r {
            Some(v) => spec_lookup(obj_view(*old(fields)), name@) == Some(jv_view(v)),
            None => spec_lookup(obj_view(*old(fields)), name@) is None,
        },
        obj_view(*final(fields)) == spec_remove(obj_view(*old(fields)), name@),
{
    let ghost whole = obj_view(*old(fields));
    let mut i: usize = 0;
    while i < fields.len()
        invariant
            0 <= i <= fields@.len(),
            *fields == *old(fields),
            whole == obj_view(*fields),
            forall|k: int| 0 <= k < i ==> whole[k].0 != name@,
        decreases fields@.len() - i,
    {
        proof {
            lemma_obj_view_at(fields@);
        }
        if str_eq(&fields[i].0, name) {
            let pair = fields.remove(i);
            proof {
                lemma_obj_view_at(old(fields)@);
                lemma_obj_view_at(fields@);
                lemma_remove_at(whole, name@, i as int);
                assert(obj_view(*fields) =~= whole.subrange(0, i as int)
                    + whole.subrange(i as int + 1, whole.len() as int));
            }
            return Some(pair.1);
        }
        i = i + 1;
    }
    proof {
        lemma_obj_view_at(fields@);
        lemma_lookup_none(whole, name@);
    }
    None
}

proof fn lemma_lookup_none(fields: VObj, name: Seq<char>)
    requires
        forall|k: int| 0 <= k < fields.len() ==> fields[k].0 != name,
    ensures
        spec_lookup(fields, name) is None,
        spec_remove(fields, name) =~= fields,
    decreases fields.len(),
{
    if fields.len() > 0 {
        lemma_lookup_none(fields.drop_first(), name);
        assert(seq![fields[0]] + fields.drop_first() =~= fields);
    }
}

/// Appending a field on the right models to appending its model.
pub proof fn lemma_obj_view_push(fields: Seq<(String, JValue)>, x: (String, JValue))
    ensures
        obj_view_seq(fields.push(x)) =~= obj_view_seq(fields).push((x.0@, jv_view(x.1))),
    decreases fields,
{
    let vx = (x.0@, jv_view(x.1));
    assert(fields.push(x).len() == fields.len() + 1);
    assert(fields.push(x)[0] == (if fields.len() == 0 { x } else { fields[0] }));
    if fields.len() == 0 {
        assert(fields.push(x).drop_first() =~= Seq::<(String, JValue)>::empty());
        assert(obj_view_seq(fields.push(x).drop_first()) =~= Seq::<(Seq<char>, VJson)>::empty());
        assert(obj_view_seq(fields.push(x)) =~= seq![vx]);
        assert(obj_view_seq(fields).push(vx) =~= seq![vx]);
    } else {
        let h = (fields[0].0@, jv_view(fields[0].1));
        lemma_obj_view_push(fields.drop_first(), x);
        assert(fields.push(x).drop_first() =~= fields.drop_first().push(x));
        assert(obj_view_seq(fields.push(x)) == seq![h] + obj_view_seq(fields.drop_first().push(x)));
        assert(obj_view_seq(fields.drop_first().push(x)) == obj_view_seq(fields.drop_first()).push(vx));
        assert(seq![h] + obj_view_seq(fields.drop_first()).push(vx) =~= (seq![h] + obj_view_seq(
            fields.drop_first(),
        )).push(vx));
        assert(obj_view_seq(fields) == seq![h] + obj_view_seq(fields.drop_first()));
    }
}

} // verus!
