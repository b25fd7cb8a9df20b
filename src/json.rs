use vstd::prelude::*;

verus! {

/// A JSON document as the library reads and writes it. Objects keep their
/// fields in order; numbers are integers that fit in `i64`, or else the text
/// of the number.
#[derive(Debug)]
pub enum Json {
    Null,
    Bool(bool),
    Int(i64),
    Number(String),
    Str(String),
    Array(Vec<Json>),
    Object(Vec<(String, Json)>),
}

/// The value of the first field named `key`, if any.
pub open spec fn field(fields: Seq<(String, Json)>, key: Seq<char>) -> Option<Json>
    decreases fields.len(),
{
    if fields.len() == 0 {
        None
    } else if fields[0].0@ == key {
        Some(fields[0].1)
    } else {
        field(fields.drop_first(), key)
    }
}

/// No field before `i` is named `key`.
pub open spec fn absent_before(fields: Seq<(String, Json)>, key: Seq<char>, i: int) -> bool {
    forall|j: int| 0 <= j < i ==> #[trigger] fields[j].0@ != key
}

/// The fields after setting the field `name` to `value`: the first field of
/// that name takes the new value in place, or a new field goes at the end.
pub open spec fn with_field(fields: Seq<(String, Json)>, name: String, value: Json) -> Seq<(String, Json)>
    decreases fields.len(),
{
    if fields.len() == 0 {
        seq![(name, value)]
    } else if fields[0].0@ == name@ {
        seq![(fields[0].0, value)] + fields.drop_first()
    } else {
        seq![fields[0]] + with_field(fields.drop_first(), name, value)
    }
}

/// The fields of an object with each name as its text.
pub open spec fn keyed(fields: Seq<(String, Json)>) -> Seq<(Seq<char>, Json)> {
    fields.map_values(|p: (String, Json)| (p.0@, p.1))
}

/// `with_field` over named text: the first field named `key` takes `value`
/// in place, or a new field goes at the end.
pub open spec fn with_key(fields: Seq<(Seq<char>, Json)>, key: Seq<char>, value: Json) -> Seq<(Seq<char>, Json)>
    decreases fields.len(),
{
    if fields.len() == 0 {
        seq![(key, value)]
    } else if fields[0].0 == key {
        seq![(key, value)] + fields.drop_first()
    } else {
        seq![fields[0]] + with_key(fields.drop_first(), key, value)
    }
}

proof fn lemma_keyed_with_field(fields: Seq<(String, Json)>, name: String, value: Json)
    ensures
        keyed(with_field(fields, name, value)) == with_key(keyed(fields), name@, value),
    decreases fields.len(),
{
    let w = with_field(fields, name, value);
    if fields.len() > 0 {
        assert(keyed(fields.drop_first()) =~= keyed(fields).drop_first());
        if fields[0].0@ != name@ {
            lemma_keyed_with_field(fields.drop_first(), name, value);
        }
    }
    assert(keyed(w) =~= with_key(keyed(fields), name@, value));
}

/// The first field named `key` stands at `i`.
pub proof fn lemma_field_at(fields: Seq<(String, Json)>, key: Seq<char>, i: int)
    requires
        0 <= i < fields.len(),
        fields[i].0@ == key,
        absent_before(fields, key, i),
    ensures
        field(fields, key) == Some(fields[i].1),
    decreases i,
{
    if i > 0 {
        let rest = fields.drop_first();
        assert(fields[0].0@ != key);
        assert forall|j: int| 0 <= j < i - 1 implies #[trigger] rest[j].0@ != key by {
            assert(rest[j] == fields[j + 1]);
        }
        lemma_field_at(rest, key, i - 1);
    }
}

/// No field is named `key`.
pub proof fn lemma_field_none(fields: Seq<(String, Json)>, key: Seq<char>)
    requires
        absent_before(fields, key, fields.len() as int),
    ensures
        field(fields, key) is None,
    decreases fields.len(),
{
    if fields.len() > 0 {
        let rest = fields.drop_first();
        assert(fields[0].0@ != key);
        assert forall|j: int| 0 <= j < rest.len() implies #[trigger] rest[j].0@ != key by {
            assert(rest[j] == fields[j + 1]);
        }
        lemma_field_none(rest, key);
    }
}

/// Setting a field gives that field the new value and leaves every other
/// field as it was.
pub proof fn lemma_with_field(fields: Seq<(String, Json)>, name: String, value: Json, other: Seq<char>)
    ensures
        field(with_field(fields, name, value), name@) == Some(value),
        other != name@ ==> field(with_field(fields, name, value), other) == field(fields, other),
    decreases fields.len(),
{
    if fields.len() > 0 {
        let rest = fields.drop_first();
        let w = with_field(fields, name, value);
        if fields[0].0@ == name@ {
            assert(w[0] == (fields[0].0, value));
            assert(w.drop_first() =~= rest);
            if other != name@ {
                assert(field(w, other) == field(rest, other));
            }
        } else {
            lemma_with_field(rest, name, value, other);
            assert(w[0] == fields[0]);
            assert(w.drop_first() =~= with_field(rest, name, value));
            if other != name@ {
                assert(field(w, other) == field(fields, other));
            }
        }
    } else {
        let w = with_field(fields, name, value);
        assert(w[0] == (name, value));
        assert(w.drop_first() =~= Seq::<(String, Json)>::empty());
        if other != name@ {
            assert(field(w, other) == field(w.drop_first(), other));
        }
    }
}

/// Returns the position of the first field named `key`.
pub fn find_field(fields: &Vec<(String, Json)>, key: &String) -> (r: Option<usize>)
    ensures
        match r {
            Some(i) => i < fields@.len() && fields@[i as int].0@ == key@ && absent_before(fields@, key@, i as int),
            None => absent_before(fields@, key@, fields@.len() as int),
        },
        field(fields@, key@) == match r {
            Some(i) => Some(fields@[i as int].1),
            None => None::<Json>,
        },
{
    let mut i: usize = 0;
    while i < fields.len()
        invariant
            i <= fields@.len(),
            absent_before(fields@, key@, i as int),
        decreases fields@.len() - i,
    {
        if fields[i].0 == *key {
            proof {
                lemma_field_at(fields@, key@, i as int);
            }
            return Some(i);
        }
        i = i + 1;
    }
    proof {
        lemma_field_none(fields@, key@);
    }
    None
}

/// Sets the field `name` of an object to `value`, in place where a field of
/// that name exists, else at the end.
pub fn set_field(fields: &mut Vec<(String, Json)>, name: String, value: Json)
    ensures
        final(fields)@ == with_field(old(fields)@, name, value),
        keyed(final(fields)@) == with_key(keyed(old(fields)@), name@, value),
{
    let ghost start = fields@;
    proof {
        lemma_keyed_with_field(start, name, value);
    }
    match find_field(fields, &name) {
        Some(i) => {
            proof {
                lemma_with_field_at(start, name, value, i as int);
            }
            let old_pair = fields.remove(i);
            fields.insert(i, (old_pair.0, value));
            assert(fields@ =~= with_field(start, name, value));
        },
        None => {
            proof {
                lemma_with_field_end(start, name, value);
            }
            fields.push((name, value));
        },
    }
}

/// Where the first field of that name stands at `i`, setting it replaces
/// the value there.
proof fn lemma_with_field_at(fields: Seq<(String, Json)>, name: String, value: Json, i: int)
    requires
        0 <= i < fields.len(),
        fields[i].0@ == name@,
        absent_before(fields, name@, i),
    ensures
        with_field(fields, name, value) == fields.update(i, (fields[i].0, value)),
    decreases i,
{
    let rest = fields.drop_first();
    if i > 0 {
        assert(fields[0].0@ != name@);
        assert forall|j: int| 0 <= j < i - 1 implies #[trigger] rest[j].0@ != name@ by {
            assert(rest[j] == fields[j + 1]);
        }
        lemma_with_field_at(rest, name, value, i - 1);
        assert(with_field(fields, name, value) =~= fields.update(i, (fields[i].0, value)));
    } else {
        assert(with_field(fields, name, value) =~= fields.update(i, (fields[i].0, value)));
    }
}

/// Where no field has that name, setting it appends a field.
proof fn lemma_with_field_end(fields: Seq<(String, Json)>, name: String, value: Json)
    requires
        absent_before(fields, name@, fields.len() as int),
    ensures
        with_field(fields, name, value) == fields.push((name, value)),
    decreases fields.len(),
{
    if fields.len() > 0 {
        let rest = fields.drop_first();
        assert(fields[0].0@ != name@);
        assert forall|j: int| 0 <= j < rest.len() implies #[trigger] rest[j].0@ != name@ by {
            assert(rest[j] == fields[j + 1]);
        }
        lemma_with_field_end(rest, name, value);
        assert(with_field(fields, name, value) =~= fields.push((name, value)));
    } else {
        assert(with_field(fields, name, value) =~= fields.push((name, value)));
    }
}

} // verus!
