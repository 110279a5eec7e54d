//! What the four assemblers share: the table-scoped context and the
//! per-column plans for form fields and list cells.
use vstd::prelude::*;
use crate::classify::{first_kind, lower_of, FieldClassifier, RuleView};
use crate::column::{editable_names, excluded, is_excluded, lemma_editable_excludes, ColumnInfo};
use crate::naming::{
    camel_case, camel_of, singular_name, singular_type_name, snake_case, snake_of, title_case,
    title_of,
};
use crate::navigation::InputType;

verus! {

/// The table-scoped facts every assembler reads.
pub struct ScaffoldContext {
    /// The table's schema name.
    pub table_name: String,
    /// The singular type name derived from the table name.
    pub record_type: String,
    /// The name of the first column of the catalog.
    pub id_column: String,
    /// The snake-case form of the type name.
    pub type_snake: String,
    /// The snake-case form of the table name.
    pub table_snake: String,
}

impl ScaffoldContext {
    /// The context of table `table_name` with catalog `cols`; none for an
    /// empty catalog, which has no identity column.
    pub fn new(table_name: &str, cols: &Vec<ColumnInfo>) -> (r: Option<ScaffoldContext>)
        ensures
            cols@.len() == 0 <==> r is None,
            r matches Some(c) ==> {
                &&& c.table_name@ == table_name@
                &&& c.record_type@ == singular_name(table_name@, camel_of(table_name@))
                &&& c.id_column@ == cols@[0].column_name@
                &&& c.type_snake@ == snake_of(c.record_type@)
                &&& c.table_snake@ == snake_of(table_name@)
            },
    {
        if cols.len() == 0 {
            return None;
        }
        let record_type = singular_type_name(table_name.to_owned());
        let type_snake = snake_case(record_type.as_str());
        Some(
            ScaffoldContext {
                table_name: table_name.to_owned(),
                record_type,
                id_column: cols[0].column_name.clone(),
                type_snake,
                table_snake: snake_case(table_name),
            },
        )
    }
}

/// The plan of one editable form field.
pub struct FieldSpec {
    /// The column the field edits.
    pub column_name: String,
    /// The kind of control.
    pub input_type: InputType,
    /// The human-readable label: the column name in title case.
    pub label: String,
    /// The field's identifier: the column name in snake case.
    pub ident: String,
}

/// A field plan as plain values.
pub type FieldView = (Seq<char>, InputType, Seq<char>, Seq<char>);

impl FieldSpec {
    pub open spec fn view(&self) -> FieldView {
        (self.column_name@, self.input_type, self.label@, self.ident@)
    }
}

/// The plan of the field for column `name`, under the classifier rules `rules`.
pub open spec fn field_view(rules: Seq<RuleView>, name: Seq<char>) -> FieldView {
    (name, first_kind(rules, lower_of(name)), title_of(name), snake_of(name))
}

/// The field plans of the editable columns, in catalog order.
pub open spec fn field_views(rules: Seq<RuleView>, id_column: Seq<char>, cols: Seq<ColumnInfo>) -> Seq<FieldView> {
    editable_names(id_column, cols).map_values(|n: Seq<char>| field_view(rules, n))
}

pub open spec fn field_seq_view(fields: Seq<FieldSpec>) -> Seq<FieldView> {
    fields.map_values(|f: FieldSpec| f.view())
}

/// The plan of one display cell of a list row.
pub struct ListCell {
    /// The column shown.
    pub column_name: String,
    /// The cell's heading: the column name in camel case.
    pub title: String,
    /// Whether the column may be empty: its nullability flag is not `NO`.
    pub nullable: bool,
}

/// A cell plan as plain values.
pub type CellView = (Seq<char>, Seq<char>, bool);

impl ListCell {
    pub open spec fn view(&self) -> CellView {
        (self.column_name@, self.title@, self.nullable)
    }
}

/// The cell plans of the listed columns (the editable ones), in catalog order.
pub open spec fn cell_views(id_column: Seq<char>, cols: Seq<ColumnInfo>) -> Seq<CellView>
    decreases cols.len(),
{
    if cols.len() == 0 {
        Seq::empty()
    } else {
        let rest = cell_views(id_column, cols.drop_last());
        let c = cols.last();
        if is_excluded(c.column_name@, id_column) {
            rest
        } else {
            rest.push((c.column_name@, camel_of(c.column_name@), !c.required_spec()))
        }
    }
}

pub open spec fn cell_seq_view(cells: Seq<ListCell>) -> Seq<CellView> {
    cells.map_values(|c: ListCell| c.view())
}

/// For every catalog, no field of the edit and create forms and no cell of
/// the list rows is for the identity column, a column whose name ends in
/// `_id`, or the column named `uuid`.
pub proof fn lemma_plans_exclude_keys(rules: Seq<RuleView>, id_column: Seq<char>, cols: Seq<ColumnInfo>)
    ensures
        forall|k: int|
            0 <= k < field_views(rules, id_column, cols).len() ==> !is_excluded(
                (#[trigger] field_views(rules, id_column, cols)[k]).0,
                id_column,
            ),
        forall|k: int|
            0 <= k < cell_views(id_column, cols).len() ==> !is_excluded(
                (#[trigger] cell_views(id_column, cols)[k]).0,
                id_column,
            ),
    decreases cols.len(),
{
    lemma_editable_excludes(id_column, cols);
    let names = editable_names(id_column, cols);
    assert forall|k: int| 0 <= k < field_views(rules, id_column, cols).len() implies !is_excluded(
        (#[trigger] field_views(rules, id_column, cols)[k]).0,
        id_column,
    ) by {
        assert(field_views(rules, id_column, cols)[k].0 == names[k]);
    }
    if cols.len() > 0 {
        lemma_plans_exclude_keys(rules, id_column, cols.drop_last());
        let prev = cell_views(id_column, cols.drop_last());
        let cells = cell_views(id_column, cols);
        assert forall|k: int| 0 <= k < cells.len() implies !is_excluded(
            (#[trigger] cells[k]).0,
            id_column,
        ) by {
            if k < prev.len() {
                assert(cells[k] == prev[k]);
            }
        }
    }
}

/// The list rows show exactly the columns that the forms edit, in the same
/// order: the cells and the form fields are for the same column names.
pub proof fn lemma_cells_match_fields(rules: Seq<RuleView>, id_column: Seq<char>, cols: Seq<ColumnInfo>)
    ensures
        cell_views(id_column, cols).len() == field_views(rules, id_column, cols).len(),
        forall|k: int|
            0 <= k < cell_views(id_column, cols).len() ==> (#[trigger] cell_views(id_column, cols)[k]).0
                == field_views(rules, id_column, cols)[k].0,
    decreases cols.len(),
{
    if cols.len() > 0 {
        lemma_cells_match_fields(rules, id_column, cols.drop_last());
        let prev = cell_views(id_column, cols.drop_last());
        let names = editable_names(id_column, cols);
        let prev_names = editable_names(id_column, cols.drop_last());
        assert forall|k: int| 0 <= k < cell_views(id_column, cols).len() implies (#[trigger] cell_views(
            id_column,
            cols,
        )[k]).0 == field_views(rules, id_column, cols)[k].0 by {
            if k < prev.len() {
                assert(cell_views(id_column, cols)[k] == prev[k]);
                assert(names[k] == prev_names[k]);
                assert(field_views(rules, id_column, cols.drop_last())[k].0 == prev_names[k]);
            }
        }
    }
}

/// The field plans of the editable columns of `cols`, in catalog order.
pub fn editable_fields(classifier: &FieldClassifier, id_column: &str, cols: &Vec<ColumnInfo>) -> (r: Vec<FieldSpec>)
    ensures
        field_seq_view(r@) == field_views(classifier.view(), id_column@, cols@),
{
    let mut r: Vec<FieldSpec> = Vec::new();
    let mut i: usize = 0;
    while i < cols.len()
        invariant
            i <= cols@.len(),
            field_seq_view(r@) == field_views(classifier.view(), id_column@, cols@.take(i as int)),
        decreases cols@.len() - i,
    {
        let c = &cols[i];
        assert(cols@.take(i + 1).drop_last() =~= cols@.take(i as int));
        let name = c.column_name.as_str();
        if !excluded(name, id_column) {
            let f = FieldSpec {
                column_name: c.column_name.clone(),
                input_type: classifier.classify(name),
                label: title_case(name),
                ident: snake_case(name),
            };
            let ghost prev = r@;
            r.push(f);
            assert(cols@.take(i + 1).last() == cols@[i as int]);
            assert(editable_names(id_column@, cols@.take(i + 1)) == editable_names(
                id_column@,
                cols@.take(i as int),
            ).push(name@));
            assert(field_seq_view(r@) =~= field_seq_view(prev).push(f.view()));
            assert(field_seq_view(r@) =~= field_views(classifier.view(), id_column@, cols@.take(i + 1)));
        }
        i = i + 1;
    }
    assert(cols@.take(cols@.len() as int) =~= cols@);
    r
}

/// The cell plans of the listed columns of `cols`, in catalog order.
pub fn list_cells(id_column: &str, cols: &Vec<ColumnInfo>) -> (r: Vec<ListCell>)
    ensures
        cell_seq_view(r@) == cell_views(id_column@, cols@),
{
    let mut r: Vec<ListCell> = Vec::new();
    let mut i: usize = 0;
    while i < cols.len()
        invariant
            i <= cols@.len(),
            cell_seq_view(r@) == cell_views(id_column@, cols@.take(i as int)),
        decreases cols@.len() - i,
    {
        let c = &cols[i];
        assert(cols@.take(i + 1).drop_last() =~= cols@.take(i as int));
        let name = c.column_name.as_str();
        if !excluded(name, id_column) {
            let cell = ListCell {
                column_name: c.column_name.clone(),
                title: camel_case(name),
                nullable: !c.required(),
            };
            r.push(cell);
            assert(cell_seq_view(r@) =~= cell_views(id_column@, cols@.take(i + 1)));
        }
        i = i + 1;
    }
    assert(cols@.take(cols@.len() as int) =~= cols@);
    r
}

} // verus!
