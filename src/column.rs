//! The column catalog of a table and the rule that decides which columns a
//! user may edit.
use vstd::prelude::*;
use crate::text::{ends_with, has_suffix, same_text};

verus! {

/// One row of schema metadata, as the introspection query returns it.
pub struct ColumnInfo {
    pub column_name: String,
    pub data_type: String,
    pub udt_name: String,
    pub character_maximum_length: Option<i64>,
    pub is_nullable: String,
}

impl ColumnInfo {
    pub fn new(
        column_name: &str,
        data_type: &str,
        udt_name: &str,
        character_maximum_length: Option<i64>,
        is_nullable: &str,
    ) -> (r: ColumnInfo)
        ensures
            r.column_name@ == column_name@,
            r.data_type@ == data_type@,
            r.udt_name@ == udt_name@,
            r.character_maximum_length == character_maximum_length,
            r.is_nullable@ == is_nullable@,
    {
        ColumnInfo {
            column_name: column_name.to_owned(),
            data_type: data_type.to_owned(),
            udt_name: udt_name.to_owned(),
            character_maximum_length,
            is_nullable: is_nullable.to_owned(),
        }
    }

    /// The column admits NULL: its nullability flag reads `YES`.
    pub open spec fn nullable_spec(&self) -> bool {
        self.is_nullable@ == "YES"@
    }

    /// The column requires a value: its nullability flag reads `NO`.
    pub open spec fn required_spec(&self) -> bool {
        self.is_nullable@ == "NO"@
    }

    pub fn nullable(&self) -> (r: bool)
        ensures
            r == self.nullable_spec(),
    {
        same_text(self.is_nullable.as_str(), "YES")
    }

    pub fn required(&self) -> (r: bool)
        ensures
            r == self.required_spec(),
    {
        same_text(self.is_nullable.as_str(), "NO")
    }
}

/// A column that users never edit: the identity column, a foreign key
/// (a name ending in `_id`), or the column named `uuid`.
pub open spec fn is_excluded(name: Seq<char>, id_column: Seq<char>) -> bool {
    name == id_column || has_suffix(name, "_id"@) || name == "uuid"@
}

/// A foreign-key column, or the identity column.
pub open spec fn is_key(name: Seq<char>, id_column: Seq<char>) -> bool {
    name == id_column || has_suffix(name, "_id"@)
}

/// Whether users never edit the column `name` of a table whose identity
/// column is `id_column`.
pub fn excluded(name: &str, id_column: &str) -> (r: bool)
    ensures
        r == is_excluded(name@, id_column@),
{
    same_text(name, id_column) || ends_with(name, "_id") || same_text(name, "uuid")
}

/// Whether `name` is the identity column or a foreign key.
pub fn key_column(name: &str, id_column: &str) -> (r: bool)
    ensures
        r == is_key(name@, id_column@),
{
    same_text(name, id_column) || ends_with(name, "_id")
}

/// The names of the columns that users may edit, in catalog order.
pub open spec fn editable_names(id_column: Seq<char>, cols: Seq<ColumnInfo>) -> Seq<Seq<char>>
    decreases cols.len(),
{
    if cols.len() == 0 {
        Seq::empty()
    } else {
        let rest = editable_names(id_column, cols.drop_last());
        let name = cols.last().column_name@;
        if is_excluded(name, id_column) {
            rest
        } else {
            rest.push(name)
        }
    }
}

/// No editable column is the identity column, a foreign key or `uuid`;
/// each is a column of the catalog; and each column of the catalog that is
/// none of these is editable.
pub proof fn lemma_editable_excludes(id_column: Seq<char>, cols: Seq<ColumnInfo>)
    ensures
        forall|k: int|
            0 <= k < editable_names(id_column, cols).len() ==> !is_excluded(
                #[trigger] editable_names(id_column, cols)[k],
                id_column,
            ),
        forall|k: int|
            #![trigger editable_names(id_column, cols)[k]]
            0 <= k < editable_names(id_column, cols).len() ==> exists|j: int|
                0 <= j < cols.len() && (#[trigger] cols[j]).column_name@ == editable_names(
                    id_column,
                    cols,
                )[k],
        forall|j: int|
            0 <= j < cols.len() && !is_excluded((#[trigger] cols[j]).column_name@, id_column)
                ==> editable_names(id_column, cols).contains(cols[j].column_name@),
    decreases cols.len(),
{
    if cols.len() > 0 {
        let init = cols.drop_last();
        lemma_editable_excludes(id_column, init);
        let names = editable_names(id_column, cols);
        let prev = editable_names(id_column, init);
        assert forall|k: int| #![trigger names[k]] 0 <= k < names.len() implies exists|j: int|
            0 <= j < cols.len() && (#[trigger] cols[j]).column_name@ == names[k] by {
            if k < prev.len() {
                let j = choose|j: int| 0 <= j < init.len() && (#[trigger] init[j]).column_name@ == prev[k];
                assert(cols[j] == init[j]);
            } else {
                assert(cols[cols.len() - 1].column_name@ == names[k]);
            }
        }
        assert forall|j: int|
            0 <= j < cols.len() && !is_excluded((#[trigger] cols[j]).column_name@, id_column)
            implies names.contains(cols[j].column_name@) by {
            if j < init.len() {
                assert(init[j] == cols[j]);
                let k = choose|k: int| 0 <= k < prev.len() && prev[k] == cols[j].column_name@;
                assert(names[k] == prev[k]);
            } else {
                assert(names[names.len() - 1] == cols[j].column_name@);
            }
        }
    }
}

} // verus!
