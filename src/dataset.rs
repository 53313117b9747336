//! The dataset model that schemas are validated against: an ordered list of
//! named, typed columns and a row count. Row values are never read.

use vstd::prelude::*;

use crate::descriptor::{LogicalType, LogicalTypeModel};
use crate::text::same_text;

verus! {

/// The storage type of a dataset column: one of the logical types, or a type
/// outside them, kept by the name that the tabular engine gives it.
#[derive(Debug, Clone, PartialEq, Eq)]
pub enum ColumnType {
    Logical(LogicalType),
    Other(String),
}

/// Mathematical model of a `ColumnType`.
pub enum ColumnTypeModel {
    Logical(LogicalTypeModel),
    Other(Seq<char>),
}

impl View for ColumnType {
    type V = ColumnTypeModel;

    open spec fn view(&self) -> ColumnTypeModel {
        match self {
            ColumnType::Logical(t) => ColumnTypeModel::Logical(t@),
            ColumnType::Other(s) => ColumnTypeModel::Other(s@),
        }
    }
}

impl ColumnType {
    /// A copy of this type.
    pub fn duplicate(&self) -> (r: ColumnType)
        ensures
            r@ == self@,
    {
        match self {
            ColumnType::Logical(t) => ColumnType::Logical(t.duplicate()),
            ColumnType::Other(s) => ColumnType::Other(s.clone()),
        }
    }

    /// Whether this column type is exactly the logical type `t`.
    pub fn is_logical(&self, t: &LogicalType) -> (r: bool)
        ensures
            r == (self@ == ColumnTypeModel::Logical(t@)),
    {
        match self {
            ColumnType::Logical(own) => own.same_as(t),
            ColumnType::Other(_) => false,
        }
    }
}

/// One column of a dataset.
#[derive(Debug, Clone, PartialEq, Eq)]
pub struct DatasetColumn {
    pub name: String,
    pub dtype: ColumnType,
}

impl View for DatasetColumn {
    type V = (Seq<char>, ColumnTypeModel);

    open spec fn view(&self) -> (Seq<char>, ColumnTypeModel) {
        (self.name@, self.dtype@)
    }
}

/// A tabular dataset as far as validation sees it: column names and types, in
/// order, and the number of rows.
#[derive(Debug, Clone, PartialEq, Eq)]
pub struct Dataset {
    columns: Vec<DatasetColumn>,
    height: usize,
}

/// Mathematical model of a `Dataset`: its columns as (name, type) pairs,
/// in order, and its row count.
pub struct DatasetModel {
    pub columns: Seq<(Seq<char>, ColumnTypeModel)>,
    pub height: nat,
}

impl View for Dataset {
    type V = DatasetModel;

    closed spec fn view(&self) -> DatasetModel {
        DatasetModel {
            columns: self.columns@.map_values(|c: DatasetColumn| c@),
            height: self.height as nat,
        }
    }
}

/// The names of a list of columns, in order.
pub open spec fn column_names_of(columns: Seq<(Seq<char>, ColumnTypeModel)>) -> Seq<Seq<char>> {
    columns.map_values(|c: (Seq<char>, ColumnTypeModel)| c.0)
}

/// The type of the first column named `name`, if there is one.
pub open spec fn lookup(columns: Seq<(Seq<char>, ColumnTypeModel)>, name: Seq<char>) -> Option<
    ColumnTypeModel,
>
    decreases columns.len(),
{
    if columns.len() == 0 {
        None
    } else if columns[0].0 == name {
        Some(columns[0].1)
    } else {
        lookup(columns.drop_first(), name)
    }
}

/// A column whose name no earlier column has is what `lookup` finds.
pub proof fn lemma_lookup_finds(columns: Seq<(Seq<char>, ColumnTypeModel)>, i: int)
    requires
        0 <= i < columns.len(),
        forall|j: int| 0 <= j < i ==> columns[j].0 != columns[i].0,
    ensures
        lookup(columns, columns[i].0) == Some(columns[i].1),
    decreases i,
{
    if i > 0 {
        let rest = columns.drop_first();
        assert(rest[i - 1] == columns[i]);
        assert forall|j: int| 0 <= j < i - 1 implies #[trigger] rest[j].0 != rest[i - 1].0 by {
            assert(rest[j] == columns[j + 1]);
        }
        lemma_lookup_finds(rest, i - 1);
    }
}

impl Dataset {
    /// Well formed: no two columns share a name.
    pub open spec fn wf(&self) -> bool {
        crate::text::all_distinct(column_names_of(self@.columns))
    }

    /// A dataset of the given columns and row count; `None` when two columns
    /// share a name.
    pub fn new(columns: Vec<DatasetColumn>, height: usize) -> (r: Option<Dataset>)
        ensures
            r is Some <==> crate::text::all_distinct(
                column_names_of(columns@.map_values(|c: DatasetColumn| c@)),
            ),
            r matches Some(d) ==> d.wf() && d@.columns == columns@.map_values(
                |c: DatasetColumn| c@,
            ) && d@.height == height,
    {
        let mut names: Vec<&str> = Vec::new();
        let n = columns.len();
        let mut i: usize = 0;
        while i < n
            invariant
                i <= n,
                n == columns@.len(),
                names@.len() == i,
                forall|j: int| 0 <= j < i ==> names@[j]@ == columns@[j].name@,
            decreases n - i,
        {
            names.push(columns[i].name.as_str());
            i += 1;
        }
        let ghost cols = columns@.map_values(|c: DatasetColumn| c@);
        assert(names@.map_values(|s: &str| s@) =~= column_names_of(cols));
        if crate::text::distinct_names(&names) {
            Some(Dataset { columns, height })
        } else {
            None
        }
    }

    /// A dataset of columns already known to have distinct names.
    pub(crate) fn from_distinct(columns: Vec<DatasetColumn>, height: usize) -> (r: Dataset)
        requires
            crate::text::all_distinct(column_names_of(columns@.map_values(|c: DatasetColumn| c@))),
        ensures
            r.wf(),
            r@.columns == columns@.map_values(|c: DatasetColumn| c@),
            r@.height == height,
    {
        Dataset { columns, height }
    }

    /// Number of columns.
    pub fn width(&self) -> (r: usize)
        ensures
            r == self@.columns.len(),
    {
        self.columns.len()
    }

    /// Number of rows.
    pub fn height(&self) -> (r: usize)
        ensures
            r == self@.height,
    {
        self.height
    }

    /// The columns, in order.
    pub fn columns(&self) -> (r: &Vec<DatasetColumn>)
        ensures
            r@.map_values(|c: DatasetColumn| c@) == self@.columns,
    {
        &self.columns
    }

    /// The column names, in order.
    pub fn column_names(&self) -> (r: Vec<&str>)
        ensures
            r@.map_values(|s: &str| s@) == column_names_of(self@.columns),
    {
        let mut names: Vec<&str> = Vec::new();
        let n = self.columns.len();
        let mut i: usize = 0;
        while i < n
            invariant
                i <= n,
                n == self.columns@.len(),
                names@.len() == i,
                forall|j: int| 0 <= j < i ==> names@[j]@ == self.columns@[j].name@,
            decreases n - i,
        {
            names.push(self.columns[i].name.as_str());
            i += 1;
        }
        assert(names@.map_values(|s: &str| s@) =~= column_names_of(self@.columns));
        names
    }

    /// The type of the column named `name`, if there is one. Names are
    /// compared case-sensitively.
    pub fn column_type(&self, name: &str) -> (r: Option<&ColumnType>)
        ensures
            match r {
                Some(t) => lookup(self@.columns, name@) == Some(t@),
                None => lookup(self@.columns, name@) is None,
            },
    {
        let ghost cols = self@.columns;
        let n = self.columns.len();
        let mut i: usize = 0;
        assert(cols.subrange(0, n as int) =~= cols);
        while i < n
            invariant
                i <= n,
                n == cols.len(),
                cols == self@.columns,
                lookup(cols, name@) == lookup(cols.subrange(i as int, n as int), name@),
            decreases n - i,
        {
            let ghost rest = cols.subrange(i as int, n as int);
            assert(rest.drop_first() =~= cols.subrange(i + 1, n as int));
            assert(rest[0] == self.columns@[i as int]@);
            if same_text(self.columns[i].name.as_str(), name) {
                return Some(&self.columns[i].dtype);
            }
            i += 1;
        }
        None
    }
}

} // verus!
