//! Named, typed fields and the schemas they make.

use crate::datatypes::arrow_types::ArrowType;
use crate::error::QueryError;
use crate::text::text_eq;
use vstd::prelude::*;
use vstd::string::*;

verus! {

/// A field as mathematics sees it: a name and a type.
pub struct FieldSpec {
    pub name: Seq<char>,
    pub data_type: ArrowType,
}

/// A named, typed column.
#[derive(Debug)]
pub struct Field {
    pub name: String,
    pub data_type: ArrowType,
}

impl View for Field {
    type V = FieldSpec;

    open spec fn view(&self) -> FieldSpec {
        FieldSpec { name: self.name@, data_type: self.data_type }
    }
}

impl Clone for Field {
    fn clone(&self) -> (r: Self)
        ensures
            r@ == self@,
    {
        Field { name: self.name.clone(), data_type: self.data_type }
    }
}

/// The place of the first field called `name`; the number of fields where
/// none is called so.
pub open spec fn first_index(fields: Seq<FieldSpec>, name: Seq<char>) -> int
    decreases fields.len(),
{
    if fields.len() == 0 || fields[0].name == name {
        0
    } else {
        1 + first_index(fields.drop_first(), name)
    }
}

/// Whether some field is called `name`.
pub open spec fn has_field(fields: Seq<FieldSpec>, name: Seq<char>) -> bool {
    first_index(fields, name) < fields.len()
}

/// The first field called `name`.
pub open spec fn find_field(fields: Seq<FieldSpec>, name: Seq<char>) -> Option<FieldSpec> {
    if has_field(fields, name) {
        Some(fields[first_index(fields, name)])
    } else {
        None
    }
}

/// `first_index` is the least place of a field called `name`.
pub proof fn lemma_first_index(fields: Seq<FieldSpec>, name: Seq<char>)
    ensures
        0 <= first_index(fields, name) <= fields.len(),
        forall|k: int| 0 <= k < first_index(fields, name) ==> (#[trigger] fields[k]).name != name,
        first_index(fields, name) < fields.len() ==> fields[first_index(fields, name)].name
            == name,
    decreases fields.len(),
{
    if fields.len() > 0 && fields[0].name != name {
        let rest = fields.drop_first();
        lemma_first_index(rest, name);
        assert forall|k: int| 0 <= k < first_index(fields, name) implies (#[trigger] fields[k]).name
            != name by {
            if k > 0 {
                assert(rest[k - 1] == fields[k]);
            }
        }
    }
}

/// A place before which no field is called `name`, and which either holds
/// such a field or is the end, is `first_index`.
pub proof fn lemma_first_index_is(fields: Seq<FieldSpec>, name: Seq<char>, j: int)
    requires
        0 <= j <= fields.len(),
        forall|k: int| 0 <= k < j ==> (#[trigger] fields[k]).name != name,
        j < fields.len() ==> fields[j].name == name,
    ensures
        first_index(fields, name) == j,
{
    lemma_first_index(fields, name);
}

/// A name is the name of some field exactly if `has_field` says so.
pub proof fn lemma_has_field(fields: Seq<FieldSpec>, name: Seq<char>)
    ensures
        has_field(fields, name) <==> exists|k: int|
            0 <= k < fields.len() && (#[trigger] fields[k]).name == name,
{
    lemma_first_index(fields, name);
}

/// The fields that a list of names selects: for each name the first field
/// called so.
pub open spec fn selected(fields: Seq<FieldSpec>, names: Seq<Seq<char>>) -> Seq<FieldSpec> {
    Seq::new(names.len(), |i: int| fields[first_index(fields, names[i])])
}

/// Whether every name of a list is the name of some field.
pub open spec fn all_known(fields: Seq<FieldSpec>, names: Seq<Seq<char>>) -> bool {
    forall|i: int| 0 <= i < names.len() ==> has_field(fields, #[trigger] names[i])
}

/// The first name of a list that is the name of no field.
pub open spec fn is_first_unknown(
    fields: Seq<FieldSpec>,
    names: Seq<Seq<char>>,
    name: Seq<char>,
) -> bool {
    exists|i: int|
        0 <= i < names.len() && #[trigger] names[i] == name && !has_field(fields, name)
            && all_known(fields, names.subrange(0, i))
}

/// Only one name is the first of a list that is the name of no field.
pub proof fn lemma_one_first_unknown(fields: Seq<FieldSpec>, names: Seq<Seq<char>>, name: Seq<char>)
    requires
        is_first_unknown(fields, names, name),
    ensures
        (choose|n: Seq<char>| is_first_unknown(fields, names, n)) == name,
{
    let other = choose|n: Seq<char>| is_first_unknown(fields, names, n);
    let i = choose|i: int|
        0 <= i < names.len() && #[trigger] names[i] == name && !has_field(fields, name)
            && all_known(fields, names.subrange(0, i));
    let j = choose|j: int|
        0 <= j < names.len() && #[trigger] names[j] == other && !has_field(fields, other)
            && all_known(fields, names.subrange(0, j));
    if i < j {
        assert(names.subrange(0, j)[i] == names[i]);
    } else if j < i {
        assert(names.subrange(0, i)[j] == names[j]);
    }
}

/// The texts of a list of string slices.
pub open spec fn slice_views(names: Seq<&str>) -> Seq<Seq<char>> {
    names.map_values(|s: &str| s@)
}

/// An ordered sequence of fields.
#[derive(Debug)]
pub struct Schema {
    pub fields: Vec<Field>,
}

impl View for Schema {
    type V = Seq<FieldSpec>;

    open spec fn view(&self) -> Seq<FieldSpec> {
        self.fields@.map_values(|f: Field| f@)
    }
}

impl Clone for Schema {
    fn clone(&self) -> (r: Self)
        ensures
            r@ == self@,
    {
        let mut fields: Vec<Field> = Vec::new();
        let mut i: usize = 0;
        while i < self.fields.len()
            invariant
                i <= self.fields.len(),
                fields@.len() == i,
                forall|k: int| 0 <= k < i ==> (#[trigger] fields@[k])@ == self.fields@[k]@,
            decreases self.fields.len() - i,
        {
            fields.push(self.fields[i].clone());
            i = i + 1;
        }
        let r = Schema { fields };
        r
    }
}

/// The text of one field in a printed schema: the name, a colon and the
/// type.
pub open spec fn field_text(f: FieldSpec) -> Seq<char> {
    f.name + ": "@ + f.data_type.spec_name()
}

/// The fields of a printed schema, each but the first after a comma.
pub open spec fn fields_text(fields: Seq<FieldSpec>) -> Seq<char>
    decreases fields.len(),
{
    if fields.len() == 0 {
        Seq::empty()
    } else if fields.len() == 1 {
        field_text(fields[0])
    } else {
        fields_text(fields.drop_last()) + ", "@ + field_text(fields.last())
    }
}

/// The text of a printed schema: its fields between square brackets.
pub open spec fn schema_text(fields: Seq<FieldSpec>) -> Seq<char> {
    "["@ + fields_text(fields) + "]"@
}

impl Schema {
    /// The place of the first field called `name`.
    pub fn index_of(&self, name: &str) -> (r: Option<usize>)
        ensures
            has_field(self@, name@) ==> r is Some && r->Some_0 == first_index(self@, name@),
            !has_field(self@, name@) ==> r is None,
            r matches Some(i) ==> i < self.fields@.len(),
    {
        let mut i: usize = 0;
        while i < self.fields.len()
            invariant
                i <= self.fields.len(),
                forall|k: int| 0 <= k < i ==> (#[trigger] self@[k]).name != name@,
            decreases self.fields.len() - i,
        {
            if text_eq(self.fields[i].name.as_str(), name) {
                proof {
                    lemma_first_index_is(self@, name@, i as int);
                }
                return Some(i);
            }
            i = i + 1;
        }
        proof {
            lemma_first_index_is(self@, name@, i as int);
        }
        None
    }

    /// The schema of the fields at `indices`, in the order of `indices`.
    pub fn project(&self, indices: Vec<usize>) -> (r: Schema)
        requires
            forall|k: int| 0 <= k < indices@.len() ==> (#[trigger] indices@[k]) < self@.len(),
        ensures
            r@ == Seq::new(indices@.len(), |k: int| self@[indices@[k] as int]),
    {
        let mut fields: Vec<Field> = Vec::new();
        let mut k: usize = 0;
        while k < indices.len()
            invariant
                k <= indices.len(),
                fields@.len() == k,
                forall|j: int| 0 <= j < indices@.len() ==> (#[trigger] indices@[j]) < self@.len(),
                forall|j: int| 0 <= j < k ==> (#[trigger] fields@[j])@ == self@[indices@[j] as int],
            decreases indices.len() - k,
        {
            let i: usize = indices[k];
            fields.push(self.fields[i].clone());
            k = k + 1;
        }
        let r = Schema { fields };
        r
    }

    /// The schema of the fields called `names`, in the order of `names`:
    /// for each name the first field called so. Fails with the first name
    /// that no field has.
    pub fn select(&self, names: Vec<&str>) -> (r: Result<Schema, QueryError>)
        ensures
            all_known(self@, slice_views(names@)) ==> r is Ok && r->Ok_0@ == selected(
                self@,
                slice_views(names@),
            ),
            !all_known(self@, slice_views(names@)) ==> (r matches Err(
                QueryError::UnknownField(n),
            ) && is_first_unknown(self@, slice_views(names@), n@)),
    {
        let ghost wanted = slice_views(names@);
        let mut fields: Vec<Field> = Vec::new();
        let mut k: usize = 0;
        while k < names.len()
            invariant
                k <= names.len(),
                wanted == slice_views(names@),
                fields@.len() == k,
                all_known(self@, wanted.subrange(0, k as int)),
                forall|j: int|
                    0 <= j < k ==> (#[trigger] fields@[j])@ == self@[first_index(self@, wanted[j])],
            decreases names.len() - k,
        {
            let name: &str = names[k];
            match self.index_of(name) {
                Some(i) => {
                    fields.push(self.fields[i].clone());
                },
                None => {
                    proof {
                        assert(!has_field(self@, wanted[k as int]));
                    }
                    return Err(QueryError::UnknownField(name.to_owned()));
                },
            }
            k = k + 1;
        }
        proof {
            assert(wanted.subrange(0, k as int) =~= wanted);
        }
        let r = Schema { fields };
        Ok(r)
    }

    /// The printed schema: `[name: Type, name: Type]`.
    pub fn to_string(&self) -> (r: String)
        ensures
            r@ == schema_text(self@),
    {
        let mut out = String::new();
        out.append("[");
        let ghost head = out@;
        let mut i: usize = 0;
        while i < self.fields.len()
            invariant
                i <= self.fields.len(),
                head == "["@,
                out@ == head + fields_text(self@.subrange(0, i as int)),
            decreases self.fields.len() - i,
        {
            if i != 0 {
                out.append(", ");
            }
            out.append(self.fields[i].name.as_str());
            out.append(": ");
            out.append(self.fields[i].data_type.name());
            proof {
                let t = self@.subrange(0, i + 1);
                assert(t.drop_last() =~= self@.subrange(0, i as int));
            }
            i = i + 1;
        }
        proof {
            assert(self@.subrange(0, i as int) =~= self@);
        }
        out.append("]");
        out
    }
}

} // verus!
