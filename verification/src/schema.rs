//! Column schemas: ordered lists of named, typed column declarations.
//!
//! Every dataset carries a fixed, explicit schema; nothing is ever inferred
//! from the raw text. Parsing is positional, so the order of the fields must
//! match the column order of the raw data exactly.

use vstd::prelude::*;

verus! {

/// The declared type of a column.
#[derive(Clone, Copy, Debug, PartialEq, Eq, Structural)]
pub enum ColumnType {
    /// Signed 64-bit integers.
    Int64,
    /// 64-bit floating point numbers, carried by this library as validated
    /// decimal text (see `Column`).
    Float64,
    /// Text.
    Utf8,
}

/// Mathematical image of a [`Field`].
pub struct FieldV {
    pub name: Seq<char>,
    pub data_type: ColumnType,
    pub nullable: bool,
}

/// One named, typed column declaration.
///
/// The `nullable` flag is declarative metadata kept with the field; every
/// bundled dataset declares all of its columns non-nullable, and the parser
/// treats every column as required.
#[derive(Debug)]
pub struct Field {
    name: String,
    data_type: ColumnType,
    nullable: bool,
}

impl View for Field {
    type V = FieldV;

    closed spec fn view(&self) -> FieldV {
        FieldV { name: self.name@, data_type: self.data_type, nullable: self.nullable }
    }
}

impl DeepView for Field {
    type V = FieldV;

    open spec fn deep_view(&self) -> FieldV {
        self.view()
    }
}

impl Field {
    pub fn new(name: String, data_type: ColumnType, nullable: bool) -> (r: Field)
        ensures
            r@ == (FieldV { name: name@, data_type, nullable }),
    {
        Field { name, data_type, nullable }
    }

    /// The field's name.
    pub fn name(&self) -> (r: &str)
        ensures
            r@ == self@.name,
    {
        self.name.as_str()
    }

    /// The field's declared column type.
    pub fn data_type(&self) -> (r: &ColumnType)
        ensures
            *r == self@.data_type,
    {
        &self.data_type
    }

    /// Whether the field is declared nullable.
    pub fn is_nullable(&self) -> (r: bool)
        ensures
            r == self@.nullable,
    {
        self.nullable
    }

    /// A copy of this field.
    pub fn duplicate(&self) -> (r: Field)
        ensures
            r@ == self@,
    {
        Field { name: self.name.clone(), data_type: self.data_type, nullable: self.nullable }
    }
}

/// Field names are pairwise distinct.
pub open spec fn distinct_names(fields: Seq<FieldV>) -> bool {
    forall|i: int, j: int| 0 <= i < j < fields.len() ==> fields[i].name != fields[j].name
}

/// An ordered list of column declarations shared by the batches of a table.
#[derive(Debug)]
pub struct Schema {
    fields: Vec<Field>,
}

impl View for Schema {
    type V = Seq<FieldV>;

    closed spec fn view(&self) -> Seq<FieldV> {
        self.fields.deep_view()
    }
}

impl DeepView for Schema {
    type V = Seq<FieldV>;

    open spec fn deep_view(&self) -> Seq<FieldV> {
        self.view()
    }
}

impl Schema {
    pub fn new(fields: Vec<Field>) -> (r: Schema)
        ensures
            r@ == fields.deep_view(),
    {
        Schema { fields }
    }

    /// The number of declared columns.
    pub fn num_fields(&self) -> (r: usize)
        ensures
            r == self@.len(),
    {
        self.fields.len()
    }

    /// The declaration of column `i`.
    pub fn field(&self, i: usize) -> (r: &Field)
        requires
            i < self@.len(),
        ensures
            r@ == self@[i as int],
    {
        &self.fields[i]
    }

    /// A copy of this schema.
    pub fn duplicate(&self) -> (r: Schema)
        ensures
            r@ == self@,
    {
        let mut fields: Vec<Field> = Vec::new();
        let mut i: usize = 0;
        while i < self.fields.len()
            invariant
                i <= self.fields.len(),
                fields.len() == i,
                forall|k: int| 0 <= k < i ==> fields@[k]@ == self.fields@[k]@,
            decreases self.fields.len() - i,
        {
            fields.push(self.fields[i].duplicate());
            i = i + 1;
        }
        proof {
            assert(fields.deep_view() =~= self.fields.deep_view());
        }
        Schema { fields }
    }
}

} // verus!
