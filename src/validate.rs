//! Validation of a dataset against a schema, permissive and strict, stopping
//! at the first failure.

use vstd::prelude::*;

use crate::dataset::{ColumnType, ColumnTypeModel, Dataset};
use crate::descriptor::{LogicalType, LogicalTypeModel};
use crate::schema::Schema;

verus! {

/// Why a dataset does not match a schema, or why a label is not a valid
/// enumeration value.
#[derive(Debug, Clone, PartialEq, Eq)]
pub enum ValidationError {
    /// The dataset lacks a column that the schema requires.
    MissingColumn { column_name: String },
    /// The column is present but holds another type.
    TypeMismatch { column_name: String, actual_type: ColumnType, expected_type: LogicalType },
    /// Strict validation only: the dataset's set of column names differs from
    /// the schema's. Each list holds its side's names in order.
    ColumnCountMismatch { expected: Vec<String>, actual: Vec<String> },
    /// A column that the schema does not declare.
    UnexpectedColumn { column_name: String },
    /// A text value that is not one of an enumeration's labels.
    InvalidEnumValue { field: String, value: String, valid_values: Vec<String> },
}

/// Mathematical model of a `ValidationError`: the name lists of a column
/// count mismatch are sets.
pub enum ValidationErrorModel {
    MissingColumn { column_name: Seq<char> },
    TypeMismatch {
        column_name: Seq<char>,
        actual_type: ColumnTypeModel,
        expected_type: LogicalTypeModel,
    },
    ColumnCountMismatch { expected: Set<Seq<char>>, actual: Set<Seq<char>> },
    UnexpectedColumn { column_name: Seq<char> },
    InvalidEnumValue { field: Seq<char>, value: Seq<char>, valid_values: Seq<Seq<char>> },
}

/// The character sequences of a list of strings.
pub open spec fn strings_view(v: Vec<String>) -> Seq<Seq<char>> {
    v@.map_values(|s: String| s@)
}

impl View for ValidationError {
    type V = ValidationErrorModel;

    open spec fn view(&self) -> ValidationErrorModel {
        match self {
            ValidationError::MissingColumn { column_name } => ValidationErrorModel::MissingColumn {
                column_name: column_name@,
            },
            ValidationError::TypeMismatch { column_name, actual_type, expected_type } =>
                ValidationErrorModel::TypeMismatch {
                column_name: column_name@,
                actual_type: actual_type@,
                expected_type: expected_type@,
            },
            ValidationError::ColumnCountMismatch { expected, actual } =>
                ValidationErrorModel::ColumnCountMismatch {
                expected: strings_view(*expected).to_set(),
                actual: strings_view(*actual).to_set(),
            },
            ValidationError::UnexpectedColumn { column_name } =>
                ValidationErrorModel::UnexpectedColumn { column_name: column_name@ },
            ValidationError::InvalidEnumValue { field, value, valid_values } =>
                ValidationErrorModel::InvalidEnumValue {
                field: field@,
                value: value@,
                valid_values: strings_view(*valid_values),
            },
        }
    }
}

/// The failure, if any, of one schema entry against a dataset's columns: the
/// column is missing, or its type is not the expected one.
pub open spec fn field_error(
    columns: Seq<(Seq<char>, ColumnTypeModel)>,
    entry: (Seq<char>, LogicalTypeModel),
) -> Option<ValidationErrorModel> {
    match crate::dataset::lookup(columns, entry.0) {
        None => Some(ValidationErrorModel::MissingColumn { column_name: entry.0 }),
        Some(t) => if t == ColumnTypeModel::Logical(entry.1) {
            None
        } else {
            Some(
                ValidationErrorModel::TypeMismatch {
                    column_name: entry.0,
                    actual_type: t,
                    expected_type: entry.1,
                },
            )
        },
    }
}

/// The failure of the first schema entry, in declaration order, that fails.
pub open spec fn first_error(
    entries: Seq<(Seq<char>, LogicalTypeModel)>,
    columns: Seq<(Seq<char>, ColumnTypeModel)>,
) -> Option<ValidationErrorModel>
    decreases entries.len(),
{
    if entries.len() == 0 {
        None
    } else {
        match field_error(columns, entries[0]) {
            Some(e) => Some(e),
            None => first_error(entries.drop_first(), columns),
        }
    }
}

/// Strict validation: the permissive failure if any; otherwise a failure
/// when the two sets of column names differ.
pub open spec fn strict_error(
    entries: Seq<(Seq<char>, LogicalTypeModel)>,
    columns: Seq<(Seq<char>, ColumnTypeModel)>,
) -> Option<ValidationErrorModel> {
    match first_error(entries, columns) {
        Some(e) => Some(e),
        None => {
            let expected = crate::schema::names_of(entries).to_set();
            let actual = crate::dataset::column_names_of(columns).to_set();
            if expected == actual {
                None
            } else {
                Some(ValidationErrorModel::ColumnCountMismatch { expected, actual })
            }
        },
    }
}

/// Permissive validation reports only missing columns and type mismatches.
proof fn lemma_first_error_kind(
    entries: Seq<(Seq<char>, LogicalTypeModel)>,
    columns: Seq<(Seq<char>, ColumnTypeModel)>,
)
    ensures
        first_error(entries, columns) matches Some(e) ==> (e is MissingColumn || e is TypeMismatch),
    decreases entries.len(),
{
    if entries.len() > 0 {
        lemma_first_error_kind(entries.drop_first(), columns);
    }
}

/// When no single entry fails, the entries as a whole do not fail.
proof fn lemma_no_field_error(
    entries: Seq<(Seq<char>, LogicalTypeModel)>,
    columns: Seq<(Seq<char>, ColumnTypeModel)>,
)
    requires
        forall|i: int| 0 <= i < entries.len() ==> field_error(columns, #[trigger] entries[i]) is None,
    ensures
        first_error(entries, columns) is None,
    decreases entries.len(),
{
    if entries.len() > 0 {
        let rest = entries.drop_first();
        assert forall|i: int| 0 <= i < rest.len() implies field_error(columns, #[trigger] rest[i]) is None by {
            assert(rest[i] == entries[i + 1]);
        }
        assert(field_error(columns, entries[0]) is None);
        lemma_no_field_error(rest, columns);
    }
}

/// The zero-row dataset of a schema has exactly the schema's columns, in
/// order and with the schema's types, and passes both permissive and strict
/// validation against that schema.
pub proof fn lemma_empty_dataset_round_trip(entries: Seq<(Seq<char>, LogicalTypeModel)>)
    requires
        crate::text::all_distinct(crate::schema::names_of(entries)),
    ensures
        crate::schema::empty_columns(entries).len() == entries.len(),
        forall|i: int|
            0 <= i < entries.len() ==> #[trigger] crate::schema::empty_columns(entries)[i] == (
                entries[i].0,
                ColumnTypeModel::Logical(entries[i].1),
            ),
        crate::dataset::column_names_of(crate::schema::empty_columns(entries)) == crate::schema::names_of(entries),
        first_error(entries, crate::schema::empty_columns(entries)) is None,
        strict_error(entries, crate::schema::empty_columns(entries)) is None,
{
    let columns = crate::schema::empty_columns(entries);
    assert forall|i: int| 0 <= i < entries.len() implies field_error(
        columns,
        #[trigger] entries[i],
    ) is None by {
        assert forall|j: int| 0 <= j < i implies #[trigger] columns[j].0 != columns[i].0 by {
            assert(crate::schema::names_of(entries)[j] == entries[j].0);
            assert(crate::schema::names_of(entries)[i] == entries[i].0);
        }
        crate::dataset::lemma_lookup_finds(columns, i);
    }
    lemma_no_field_error(entries, columns);
    assert(crate::dataset::column_names_of(columns) =~= crate::schema::names_of(entries));
}

/// When permissive validation passes, every declared field has a column of
/// its name holding exactly its type.
proof fn lemma_first_error_none(
    entries: Seq<(Seq<char>, LogicalTypeModel)>,
    columns: Seq<(Seq<char>, ColumnTypeModel)>,
)
    requires
        first_error(entries, columns) is None,
    ensures
        forall|i: int|
            0 <= i < entries.len() ==> crate::dataset::lookup(columns, #[trigger] entries[i].0) == Some(
                ColumnTypeModel::Logical(entries[i].1),
            ),
    decreases entries.len(),
{
    if entries.len() > 0 {
        let rest = entries.drop_first();
        lemma_first_error_none(rest, columns);
        assert forall|i: int| 0 <= i < entries.len() implies crate::dataset::lookup(
            columns,
            #[trigger] entries[i].0,
        ) == Some(ColumnTypeModel::Logical(entries[i].1)) by {
            if i > 0 {
                assert(entries[i] == rest[i - 1]);
            }
        }
    }
}

/// Projecting a dataset that passes permissive validation onto the declared
/// columns, in declaration order (what the tabular engine's selection of
/// `all_columns` gives: `selected`), yields exactly the schema's columns, and
/// the projection passes strict validation.
pub proof fn lemma_select_declared_columns(
    entries: Seq<(Seq<char>, LogicalTypeModel)>,
    columns: Seq<(Seq<char>, ColumnTypeModel)>,
    selected: Seq<(Seq<char>, ColumnTypeModel)>,
)
    requires
        crate::text::all_distinct(crate::schema::names_of(entries)),
        first_error(entries, columns) is None,
        selected.len() == entries.len(),
        forall|i: int|
            0 <= i < entries.len() ==> #[trigger] selected[i] == (
                entries[i].0,
                crate::dataset::lookup(columns, entries[i].0)->Some_0,
            ),
    ensures
        selected == crate::schema::empty_columns(entries),
        strict_error(entries, selected) is None,
{
    lemma_first_error_none(entries, columns);
    assert(selected =~= crate::schema::empty_columns(entries));
    lemma_empty_dataset_round_trip(entries);
}

/// The failure that a validation result reports, if any.
pub open spec fn failure_of(r: Result<(), ValidationError>) -> Option<ValidationErrorModel> {
    match r {
        Ok(_) => None,
        Err(e) => Some(e@),
    }
}

/// Whether every name of `a` is in `b`.
fn all_held(a: &Vec<&str>, b: &Vec<&str>) -> (r: bool)
    ensures
        r == (forall|i: int|
            0 <= i < a@.len() ==> b@.map_values(|s: &str| s@).contains(#[trigger] a@[i]@)),
{
    let n = a.len();
    let mut i: usize = 0;
    while i < n
        invariant
            i <= n,
            n == a@.len(),
            forall|j: int| 0 <= j < i ==> b@.map_values(|s: &str| s@).contains(#[trigger] a@[j]@),
        decreases n - i,
    {
        if !crate::text::contains_text(b, a[i]) {
            return false;
        }
        i += 1;
    }
    true
}

/// Owned copies of names, in order.
pub(crate) fn owned_names(names: &Vec<&str>) -> (r: Vec<String>)
    ensures
        strings_view(r) == names@.map_values(|s: &str| s@),
{
    let n = names.len();
    let mut out: Vec<String> = Vec::new();
    let mut i: usize = 0;
    while i < n
        invariant
            i <= n,
            n == names@.len(),
            out@.len() == i,
            forall|j: int| 0 <= j < i ==> out@[j]@ == names@[j]@,
        decreases n - i,
    {
        out.push(String::from_str(names[i]));
        i += 1;
    }
    assert(strings_view(out) =~= names@.map_values(|s: &str| s@));
    out
}

impl Schema {
    /// Validates, field by field in declaration order, that the dataset has a
    /// column of the field's name holding exactly the field's logical type.
    /// Stops at the first failure; columns the schema does not declare are
    /// ignored.
    pub fn validate(&self, dataset: &Dataset) -> (r: Result<(), ValidationError>)
        ensures
            failure_of(r) == first_error(self@, dataset@.columns),
    {
        let ghost entries = self@;
        let ghost columns = dataset@.columns;
        let names = crate::schema::PolarsColumns::column_names(self);
        let types = self.all_types();
        let n = names.len();
        assert(crate::schema::names_of(entries).len() == n);
        assert(names@.map_values(|s: &str| s@).len() == names@.len());
        assert(types@.map_values(|t: LogicalType| t@).len() == types@.len());
        assert(entries.subrange(0, n as int) =~= entries);
        let mut i: usize = 0;
        while i < n
            invariant
                i <= n,
                n == entries.len(),
                names@.len() == n,
                types@.len() == n,
                entries == self@,
                columns == dataset@.columns,
                names@.map_values(|s: &str| s@) == crate::schema::names_of(entries),
                types@.map_values(|t: LogicalType| t@) == entries.map_values(
                    |e: (Seq<char>, LogicalTypeModel)| e.1,
                ),
                first_error(entries, columns) == first_error(
                    entries.subrange(i as int, n as int),
                    columns,
                ),
            decreases n - i,
        {
            let ghost rest = entries.subrange(i as int, n as int);
            assert(rest.drop_first() =~= entries.subrange(i + 1, n as int));
            assert(names@[i as int]@ == crate::schema::names_of(entries)[i as int]);
            assert(types@[i as int]@ == entries.map_values(
                |e: (Seq<char>, LogicalTypeModel)| e.1,
            )[i as int]);
            assert(rest[0] == (names@[i as int]@, types@[i as int]@));
            match dataset.column_type(names[i]) {
                None => {
                    return Err(ValidationError::MissingColumn { column_name: String::from_str(names[i]) });
                },
                Some(actual) => {
                    if !actual.is_logical(&types[i]) {
                        return Err(
                            ValidationError::TypeMismatch {
                                column_name: String::from_str(names[i]),
                                actual_type: actual.duplicate(),
                                expected_type: types[i].duplicate(),
                            },
                        );
                    }
                },
            }
            i += 1;
        }
        Ok(())
    }

    /// Validates as `validate` does, then requires the dataset's set of
    /// column names to equal the schema's.
    pub fn validate_strict(&self, dataset: &Dataset) -> (r: Result<(), ValidationError>)
        ensures
            failure_of(r) == strict_error(self@, dataset@.columns),
            r matches Err(ValidationError::ColumnCountMismatch { expected, actual }) ==> {
                &&& strings_view(expected) == crate::schema::names_of(self@)
                &&& strings_view(actual) == crate::dataset::column_names_of(dataset@.columns)
            },
    {
        match self.validate(dataset) {
            Err(e) => {
                proof {
                    lemma_first_error_kind(self@, dataset@.columns);
                }
                return Err(e);
            },
            Ok(()) => {},
        }
        let expected = crate::schema::PolarsColumns::column_names(self);
        let actual = dataset.column_names();
        let ghost ev = expected@.map_values(|s: &str| s@);
        let ghost av = actual@.map_values(|s: &str| s@);
        let same = all_held(&expected, &actual) && all_held(&actual, &expected);
        if same {
            assert forall|x: Seq<char>| ev.to_set().contains(x) <==> av.to_set().contains(x) by {
                if ev.contains(x) {
                    let i = choose|i: int| 0 <= i < ev.len() && ev[i] == x;
                    assert(expected@[i]@ == x);
                }
                if av.contains(x) {
                    let i = choose|i: int| 0 <= i < av.len() && av[i] == x;
                    assert(actual@[i]@ == x);
                }
            }
            assert(ev.to_set() =~= av.to_set());
            Ok(())
        } else {
            if !all_held(&expected, &actual) {
                let ghost i = choose|i: int|
                    0 <= i < expected@.len() && !av.contains(#[trigger] expected@[i]@);
                assert(ev[i] == expected@[i]@);
                assert(ev.to_set().contains(ev[i]));
                assert(!av.to_set().contains(ev[i]));
            } else {
                let ghost i = choose|i: int|
                    0 <= i < actual@.len() && !ev.contains(#[trigger] actual@[i]@);
                assert(av[i] == actual@[i]@);
                assert(av.to_set().contains(av[i]));
                assert(!ev.to_set().contains(av[i]));
            }
            Err(
                ValidationError::ColumnCountMismatch {
                    expected: owned_names(&expected),
                    actual: owned_names(&actual),
                },
            )
        }
    }
}

} // verus!
