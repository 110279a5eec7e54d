//! The whole generator for one table: validation of the table name, the
//! shared plan, the five files and their names.
use vstd::prelude::*;
use crate::classify::{standard_input_rules, FieldClassifier, RuleView};
use crate::column::ColumnInfo;
use crate::create_view::{add_rs, add_text};
use crate::edit_view::{edit_rs, edit_text};
use crate::list_view::{list_rs, list_text};
use crate::model::{column_types, data_rs, mod_rs, model_text, module_text, names_of, types_of};
use crate::naming::{camel_of, singular_name, snake_of};
use crate::plan::{cell_views, editable_fields, field_views, list_cells, ScaffoldContext};
use crate::text::char_vec;
use crate::typemap::{standard_type_table, TypeMap};

verus! {

/// A character allowed in a table name: an ASCII letter, a digit or `_`.
pub open spec fn is_name_char(c: char) -> bool {
    ('0' <= c && c <= '9') || ('A' <= c && c <= 'Z') || ('a' <= c && c <= 'z') || c == '_'
}

/// A table name of four to thirty-two letters, digits and underscores.
pub open spec fn valid_table_name(name: Seq<char>) -> bool {
    4 <= name.len() <= 32 && forall|i: int| 0 <= i < name.len() ==> is_name_char(#[trigger] name[i])
}

/// Whether `name` is four to thirty-two ASCII letters, digits and underscores.
pub fn is_valid_table_name(name: &str) -> (r: bool)
    ensures
        r == valid_table_name(name@),
{
    let chars = char_vec(name);
    let n = chars.len();
    if n < 4 || n > 32 {
        return false;
    }
    let mut i: usize = 0;
    while i < n
        invariant
            chars@ == name@,
            n == name@.len(),
            i <= n,
            forall|k: int| 0 <= k < i ==> is_name_char(#[trigger] name@[k]),
        decreases n - i,
    {
        let c = chars[i];
        if !(('0' <= c && c <= '9') || ('A' <= c && c <= 'Z') || ('a' <= c && c <= 'z') || c
            == '_') {
            assert(!is_name_char(name@[i as int]));
            return false;
        }
        i = i + 1;
    }
    true
}

/// Why no scaffold was produced.
pub enum ScaffoldError {
    /// The table name is not four to thirty-two letters, digits and underscores.
    InvalidTableName,
    /// The catalog has no column, hence no identity column.
    EmptyCatalog,
    /// No rule maps the declared type and driver type of a column.
    UnmappedType { sql_type: String, udt_name: String },
}

/// The five generated files of one table.
pub struct Scaffold {
    /// `data.rs`: the record type and the input type.
    pub model: String,
    /// `list.rs`: the list page.
    pub list: String,
    /// `edit.rs`: the edit page.
    pub edit: String,
    /// `add.rs`: the create page.
    pub create: String,
    /// `mod.rs`: the module declarations and the record loader.
    pub module: String,
}

impl Scaffold {
    /// The file name and the text of each file, in the order data model,
    /// list, edit, create, module.
    pub fn files(self) -> (r: Vec<(String, String)>)
        ensures
            r@.len() == 5,
            r@[0].0@ == "data.rs"@ && r@[0].1 == self.model,
            r@[1].0@ == "list.rs"@ && r@[1].1 == self.list,
            r@[2].0@ == "edit.rs"@ && r@[2].1 == self.edit,
            r@[3].0@ == "add.rs"@ && r@[3].1 == self.create,
            r@[4].0@ == "mod.rs"@ && r@[4].1 == self.module,
    {
        let mut r: Vec<(String, String)> = Vec::new();
        r.push(("data.rs".to_owned(), self.model));
        r.push(("list.rs".to_owned(), self.list));
        r.push(("edit.rs".to_owned(), self.edit));
        r.push(("add.rs".to_owned(), self.create));
        r.push(("mod.rs".to_owned(), self.module));
        r
    }
}

/// The texts that the generator owes for table `table` with catalog `cols`,
/// under the type rules of `map` and the classifier rules `rules`, given
/// the Rust type of every column.
pub open spec fn scaffold_matches(
    s: Scaffold,
    rules: Seq<RuleView>,
    table: Seq<char>,
    cols: Seq<ColumnInfo>,
    types: Seq<Seq<char>>,
) -> bool {
    let record = singular_name(table, camel_of(table));
    let id = cols[0].column_name@;
    &&& s.model@ == model_text(table, record, id, names_of(cols), types)
    &&& s.list@ == list_text(table, record, id, snake_of(record), snake_of(table), cell_views(id, cols))
    &&& s.edit@ == edit_text(table, record, id, field_views(rules, id, cols))
    &&& s.create@ == add_text(table, record, id, names_of(cols), field_views(rules, id, cols))
    &&& s.module@ == module_text(table, record, id)
}

/// The scaffold of table `table_name` with catalog `cols`, under the type
/// rules of `map` and the field classifier `classifier`. It fails, in this
/// order, on an invalid table name, on an empty catalog, and on the first
/// column whose types `map` cannot map.
pub fn scaffold_with(map: &TypeMap, classifier: &FieldClassifier, table_name: &str, cols: &Vec<ColumnInfo>) -> (r: Result<Scaffold, ScaffoldError>)
    ensures
        !valid_table_name(table_name@) ==> r is Err && r->Err_0 is InvalidTableName,
        valid_table_name(table_name@) && cols@.len() == 0 ==> r is Err && r->Err_0 is EmptyCatalog,
        valid_table_name(table_name@) && cols@.len() > 0 ==> match types_of(map.table(), map.default_type(), cols@) {
            Err(pair) => r matches Err(ScaffoldError::UnmappedType { sql_type, udt_name })
                && sql_type@ == pair.0 && udt_name@ == pair.1,
            Ok(types) => r matches Ok(s) && scaffold_matches(s, classifier.view(), table_name@, cols@, types),
        },
{
    if !is_valid_table_name(table_name) {
        return Err(ScaffoldError::InvalidTableName);
    }
    let ctx = match ScaffoldContext::new(table_name, cols) {
        Some(c) => c,
        None => {
            return Err(ScaffoldError::EmptyCatalog);
        },
    };
    let types = match column_types(map, cols) {
        Ok(t) => t,
        Err(e) => {
            return Err(ScaffoldError::UnmappedType { sql_type: e.sql_type, udt_name: e.udt_name });
        },
    };
    let id = ctx.id_column.as_str();
    let cells = list_cells(id, cols);
    let fields = editable_fields(classifier, id, cols);
    let s = Scaffold {
        model: data_rs(&ctx, cols, &types),
        list: list_rs(&ctx, &cells),
        edit: edit_rs(&ctx, &fields),
        create: add_rs(&ctx, cols, &fields),
        module: mod_rs(&ctx),
    };
    Ok(s)
}

/// The scaffold of table `table_name` with catalog `cols`, under the
/// standard type rules and the standard field classifier.
pub fn scaffold(table_name: &str, cols: &Vec<ColumnInfo>) -> (r: Result<Scaffold, ScaffoldError>)
    ensures
        !valid_table_name(table_name@) ==> r is Err && r->Err_0 is InvalidTableName,
        valid_table_name(table_name@) && cols@.len() == 0 ==> r is Err && r->Err_0 is EmptyCatalog,
        valid_table_name(table_name@) && cols@.len() > 0 ==> match types_of(standard_type_table(), None, cols@) {
            Err(pair) => r matches Err(ScaffoldError::UnmappedType { sql_type, udt_name })
                && sql_type@ == pair.0 && udt_name@ == pair.1,
            Ok(types) => r matches Ok(s) && scaffold_matches(
                s,
                standard_input_rules(),
                table_name@,
                cols@,
                types,
            ),
        },
{
    let map = TypeMap::standard();
    let classifier = FieldClassifier::standard();
    scaffold_with(&map, &classifier, table_name, cols)
}

} // verus!
