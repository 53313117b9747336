//! Schemas: the ordered (name, logical type) pairs of a record's fields, and
//! the accessors derived from them.

use vstd::prelude::*;

use crate::dataset::{ColumnType, Dataset, DatasetColumn};
use crate::descriptor::{resolve, LogicalType, LogicalTypeModel, TypeDescriptor};

verus! {

/// One field of a record: its name and its declared type.
#[derive(Debug, PartialEq, Eq)]
pub struct FieldDescriptor {
    pub name: String,
    pub type_descriptor: TypeDescriptor,
}

impl FieldDescriptor {
    /// A field of the given name and declared type.
    pub fn new(name: &str, type_descriptor: TypeDescriptor) -> (r: FieldDescriptor)
        ensures
            r.name@ == name@,
            r.type_descriptor == type_descriptor,
    {
        FieldDescriptor { name: String::from_str(name), type_descriptor }
    }

    /// A field whose type is written as text, such as `Option < i32 >`.
    pub fn from_text(name: &str, type_text: &str) -> (r: FieldDescriptor)
        ensures
            r.name@ == name@,
            r.type_descriptor == crate::type_text::descriptor_of_text(type_text@),
    {
        FieldDescriptor {
            name: String::from_str(name),
            type_descriptor: crate::type_text::parse_type_descriptor(type_text),
        }
    }
}

/// The schema entry of a field: its name and resolved logical type.
pub open spec fn field_entry(f: FieldDescriptor) -> (Seq<char>, LogicalTypeModel) {
    (f.name@, crate::descriptor::logical_of(f.type_descriptor))
}

/// The schema entries of a field list, in declaration order.
pub open spec fn schema_of(fields: Seq<FieldDescriptor>) -> Seq<(Seq<char>, LogicalTypeModel)> {
    fields.map_values(|f: FieldDescriptor| field_entry(f))
}

/// The names of schema entries, in order.
pub open spec fn names_of(entries: Seq<(Seq<char>, LogicalTypeModel)>) -> Seq<Seq<char>> {
    entries.map_values(|e: (Seq<char>, LogicalTypeModel)| e.0)
}

/// The columns of a zero-row dataset for schema entries: one per entry, in
/// order, with the entry's name and logical type.
pub open spec fn empty_columns(entries: Seq<(Seq<char>, LogicalTypeModel)>) -> Seq<
    (Seq<char>, crate::dataset::ColumnTypeModel),
> {
    entries.map_values(
        |e: (Seq<char>, LogicalTypeModel)| (e.0, crate::dataset::ColumnTypeModel::Logical(e.1)),
    )
}

/// A schema generated from fields `[f1, ..., fn]` keeps their order: entry
/// `i` carries the name of field `i`, and the column names are exactly the
/// field names in declaration order, not a permutation of them.
pub proof fn lemma_order_preserved(fields: Seq<FieldDescriptor>)
    ensures
        schema_of(fields).len() == fields.len(),
        forall|i: int| 0 <= i < fields.len() ==> #[trigger] schema_of(fields)[i].0 == fields[i].name@,
        names_of(schema_of(fields)) == fields.map_values(|f: FieldDescriptor| f.name@),
{
    assert(names_of(schema_of(fields)) =~= fields.map_values(|f: FieldDescriptor| f.name@));
}

/// An expression that selects one column by name.
#[derive(Debug, Clone, PartialEq, Eq)]
pub struct ColumnExpr {
    name: String,
}

impl View for ColumnExpr {
    type V = Seq<char>;

    closed spec fn view(&self) -> Seq<char> {
        self.name@
    }
}

impl ColumnExpr {
    /// The expression selecting the column `name`.
    pub fn new(name: &str) -> (r: ColumnExpr)
        ensures
            r@ == name@,
    {
        ColumnExpr { name: String::from_str(name) }
    }

    /// The name of the selected column.
    pub fn name(&self) -> (r: &str)
        ensures
            r@ == self@,
    {
        self.name.as_str()
    }
}

struct SchemaField {
    name: String,
    logical_type: LogicalType,
}

/// The ordered (name, logical type) pairs of a record's fields. Names are
/// distinct; the order is the declaration order.
pub struct Schema {
    fields: Vec<SchemaField>,
}

impl View for Schema {
    type V = Seq<(Seq<char>, LogicalTypeModel)>;

    closed spec fn view(&self) -> Seq<(Seq<char>, LogicalTypeModel)> {
        self.fields@.map_values(|f: SchemaField| (f.name@, f.logical_type@))
    }
}

/// Column-name accessors of a record shape.
pub trait PolarsColumns {
    /// The column names, in declaration order.
    spec fn spec_column_names(&self) -> Seq<Seq<char>>;

    /// All column names, in declaration order.
    fn column_names(&self) -> (r: Vec<&str>)
        ensures
            r@.map_values(|s: &str| s@) == self.spec_column_names(),
    ;

    /// The column name at `index`; `None` past the last column.
    fn column_name_at(&self, index: usize) -> (r: Option<&str>)
        ensures
            index < self.spec_column_names().len() ==> (r matches Some(s) && s@
                == self.spec_column_names()[index as int]),
            index >= self.spec_column_names().len() ==> r is None,
    ;

    /// The expression selecting the column `field_name`; `None` when no
    /// column has that name.
    fn col_expr(&self, field_name: &str) -> (r: Option<ColumnExpr>)
        ensures
            r is Some <==> self.spec_column_names().contains(field_name@),
            r matches Some(e) ==> e@ == field_name@,
    ;
}

/// Further column-name accessors.
pub trait PolarsColumnsExt: PolarsColumns {
    /// All column names, in declaration order.
    fn columns(&self) -> (r: Vec<&str>)
        ensures
            r@.map_values(|s: &str| s@) == self.spec_column_names(),
    ;
}

impl Schema {
    /// Well formed: no two fields share a name.
    pub open spec fn wf(&self) -> bool {
        crate::text::all_distinct(names_of(self@))
    }

    /// Generates the schema of a record from its fields, resolving each
    /// field's declared type, in declaration order. `None` when two fields
    /// share a name.
    pub fn from_fields(fields: Vec<FieldDescriptor>) -> (r: Option<Schema>)
        ensures
            r is Some <==> crate::text::all_distinct(names_of(schema_of(fields@))),
            r matches Some(s) ==> s.wf() && s@ == schema_of(fields@),
    {
        let n = fields.len();
        let mut out: Vec<SchemaField> = Vec::new();
        let mut i: usize = 0;
        while i < n
            invariant
                i <= n,
                n == fields@.len(),
                out@.len() == i,
                forall|j: int|
                    0 <= j < i ==> (out@[j].name@, out@[j].logical_type@) == field_entry(
                        #[trigger] fields@[j],
                    ),
            decreases n - i,
        {
            let f = &fields[i];
            out.push(SchemaField { name: f.name.clone(), logical_type: resolve(&f.type_descriptor) });
            i += 1;
        }
        let s = Schema { fields: out };
        assert(s@ =~= schema_of(fields@));
        let names = s.column_names();
        if crate::text::distinct_names(&names) {
            Some(s)
        } else {
            None
        }
    }

    /// Number of fields.
    pub fn len(&self) -> (r: usize)
        ensures
            r == self@.len(),
    {
        self.fields.len()
    }

    /// All column names, in declaration order, for selecting exactly the
    /// declared columns of a wider dataset.
    pub fn all_columns(&self) -> (r: Vec<&str>)
        ensures
            r@.map_values(|s: &str| s@) == names_of(self@),
    {
        self.column_names()
    }

    /// All logical types, in declaration order.
    pub fn all_types(&self) -> (r: Vec<LogicalType>)
        ensures
            r@.map_values(|t: LogicalType| t@) == self@.map_values(
                |e: (Seq<char>, LogicalTypeModel)| e.1,
            ),
    {
        let n = self.fields.len();
        let mut out: Vec<LogicalType> = Vec::new();
        let mut i: usize = 0;
        while i < n
            invariant
                i <= n,
                n == self.fields@.len(),
                out@.len() == i,
                forall|j: int| 0 <= j < i ==> out@[j]@ == self.fields@[j].logical_type@,
            decreases n - i,
        {
            out.push(self.fields[i].logical_type.duplicate());
            i += 1;
        }
        assert(out@.map_values(|t: LogicalType| t@) =~= self@.map_values(
            |e: (Seq<char>, LogicalTypeModel)| e.1,
        ));
        out
    }

    /// The logical type at `index`; `None` past the last field.
    pub fn type_at(&self, index: usize) -> (r: Option<LogicalType>)
        ensures
            index < self@.len() ==> (r matches Some(t) && t@ == self@[index as int].1),
            index >= self@.len() ==> r is None,
    {
        if index < self.fields.len() {
            Some(self.fields[index].logical_type.duplicate())
        } else {
            None
        }
    }

    /// The column name of the field `field`; `None` when there is no such
    /// field.
    pub fn column_name(&self, field: &str) -> (r: Option<&str>)
        ensures
            r is Some <==> names_of(self@).contains(field@),
            r matches Some(s) ==> s@ == field@,
    {
        let n = self.fields.len();
        let mut i: usize = 0;
        while i < n
            invariant
                i <= n,
                n == self.fields@.len(),
                forall|j: int| 0 <= j < i ==> #[trigger] self.fields@[j].name@ != field@,
            decreases n - i,
        {
            if crate::text::same_text(self.fields[i].name.as_str(), field) {
                assert(names_of(self@)[i as int] == field@);
                return Some(self.fields[i].name.as_str());
            }
            i += 1;
        }
        assert forall|j: int| 0 <= j < names_of(self@).len() implies names_of(self@)[j]
            != field@ by {
            assert(names_of(self@)[j] == self.fields@[j].name@);
        }
        None
    }

    /// The logical type of the field named `name`; `None` when there is no
    /// such field.
    pub fn column_type(&self, name: &str) -> (r: Option<LogicalType>)
        ensures
            r is None <==> !names_of(self@).contains(name@),
            r matches Some(t) ==> exists|i: int|
                0 <= i < self@.len() && #[trigger] self@[i] == (name@, t@) && forall|j: int|
                    0 <= j < i ==> self@[j].0 != name@,
    {
        let n = self.fields.len();
        let mut i: usize = 0;
        while i < n
            invariant
                i <= n,
                n == self@.len(),
                forall|j: int| 0 <= j < i ==> #[trigger] self@[j].0 != name@,
            decreases n - i,
        {
            assert(self@[i as int] == (self.fields@[i as int].name@, self.fields@[i as int].logical_type@));
            if crate::text::same_text(self.fields[i].name.as_str(), name) {
                assert(names_of(self@)[i as int] == name@);
                return Some(self.fields[i].logical_type.duplicate());
            }
            i += 1;
        }
        assert forall|j: int| 0 <= j < names_of(self@).len() implies names_of(self@)[j] != name@ by {
            assert(names_of(self@)[j] == self@[j].0);
        }
        None
    }

    /// Expressions selecting every declared column, in declaration order.
    pub fn all_cols(&self) -> (r: Vec<ColumnExpr>)
        ensures
            r@.map_values(|e: ColumnExpr| e@) == names_of(self@),
    {
        let n = self.fields.len();
        let mut out: Vec<ColumnExpr> = Vec::new();
        let mut i: usize = 0;
        while i < n
            invariant
                i <= n,
                n == self.fields@.len(),
                out@.len() == i,
                forall|j: int| 0 <= j < i ==> out@[j]@ == self.fields@[j].name@,
            decreases n - i,
        {
            out.push(ColumnExpr::new(self.fields[i].name.as_str()));
            i += 1;
        }
        assert(out@.map_values(|e: ColumnExpr| e@) =~= names_of(self@));
        out
    }

    /// A zero-row dataset whose columns are exactly this schema's names and
    /// logical types, in declaration order.
    pub fn empty_dataset(&self) -> (r: Dataset)
        requires
            self.wf(),
        ensures
            r.wf(),
            r@.columns == empty_columns(self@),
            r@.height == 0,
    {
        let n = self.fields.len();
        let mut out: Vec<DatasetColumn> = Vec::new();
        let mut i: usize = 0;
        while i < n
            invariant
                i <= n,
                n == self.fields@.len(),
                out@.len() == i,
                forall|j: int|
                    0 <= j < i ==> #[trigger] out@[j]@ == (
                        self.fields@[j].name@,
                        crate::dataset::ColumnTypeModel::Logical(self.fields@[j].logical_type@),
                    ),
            decreases n - i,
        {
            out.push(
                DatasetColumn {
                    name: self.fields[i].name.clone(),
                    dtype: ColumnType::Logical(self.fields[i].logical_type.duplicate()),
                },
            );
            i += 1;
        }
        assert(out@.map_values(|c: DatasetColumn| c@) =~= empty_columns(self@));
        assert(crate::dataset::column_names_of(empty_columns(self@)) =~= names_of(self@));
        Dataset::from_distinct(out, 0)
    }
}

impl PolarsColumns for Schema {
    open spec fn spec_column_names(&self) -> Seq<Seq<char>> {
        names_of(self@)
    }

    fn column_names(&self) -> (r: Vec<&str>) {
        let n = self.fields.len();
        let mut out: Vec<&str> = Vec::new();
        let mut i: usize = 0;
        while i < n
            invariant
                i <= n,
                n == self.fields@.len(),
                out@.len() == i,
                forall|j: int| 0 <= j < i ==> out@[j]@ == self.fields@[j].name@,
            decreases n - i,
        {
            out.push(self.fields[i].name.as_str());
            i += 1;
        }
        assert(out@.map_values(|s: &str| s@) =~= names_of(self@));
        out
    }

    fn column_name_at(&self, index: usize) -> (r: Option<&str>) {
        if index < self.fields.len() {
            Some(self.fields[index].name.as_str())
        } else {
            None
        }
    }

    fn col_expr(&self, field_name: &str) -> (r: Option<ColumnExpr>) {
        let n = self.fields.len();
        let mut i: usize = 0;
        while i < n
            invariant
                i <= n,
                n == self.fields@.len(),
                forall|j: int| 0 <= j < i ==> #[trigger] self.fields@[j].name@ != field_name@,
            decreases n - i,
        {
            if crate::text::same_text(self.fields[i].name.as_str(), field_name) {
                assert(names_of(self@)[i as int] == field_name@);
                return Some(ColumnExpr::new(field_name));
            }
            i += 1;
        }
        assert forall|j: int| 0 <= j < names_of(self@).len() implies names_of(self@)[j]
            != field_name@ by {
            assert(names_of(self@)[j] == self.fields@[j].name@);
        }
        None
    }
}

impl PolarsColumnsExt for Schema {
    fn columns(&self) -> (r: Vec<&str>) {
        self.column_names()
    }
}

} // verus!
