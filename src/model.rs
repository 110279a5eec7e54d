//! Data-model assembler: the record type of the table with one field per
//! column, the narrower input type without key and `uuid` columns, and the
//! module file that loads a record by its identity column.
use vstd::prelude::*;
use crate::column::{excluded, is_excluded, ColumnInfo};
use crate::plan::ScaffoldContext;
use crate::typemap::{column_type_in, TypeMap, TypeMapError};

verus! {

pub const MODEL_USE: &'static str = "use crate::schema::";

pub const MODEL_DERIVE: &'static str = ";\n#[derive(Insertable, AsChangeset, Queryable, Associations, Serialize, Deserialize, Debug, Clone)]\n#[table_name = \"";

pub const MODEL_STRUCT: &'static str = "\"]\npub struct ";

pub const OPEN_BODY: &'static str = " {\n";

pub const CLOSE_BODY: &'static str = "}\n";

pub const DATA_STRUCT: &'static str = "#[derive(Debug, Serialize, Deserialize, Clone)]\npub struct ";

pub const DATA_SUFFIX: &'static str = "Data";

pub const FIELD_PUB: &'static str = "pub ";

pub const FIELD_COLON: &'static str = ": ";

pub const FIELD_END: &'static str = ",\n";

pub const NEWLINE: &'static str = "\n";

pub const MOD_HEAD: &'static str = "\npub mod add;\npub mod data;\npub mod edit;\npub mod list;\n\nuse self::data::";

pub const MOD_SCHEMA: &'static str = ";\nuse crate::schema::";

pub const MOD_IMPORTS: &'static str = "::dsl::*;\n\nuse actix_web::HttpRequest;\nuse futures::future::Future;\n\nuse pinnaculum::db::{AppState, DbExecutorError, SQuery};\n\nimpl ";

pub const MOD_LOAD: &'static str = " {\n    pub fn load(req: &HttpRequest<AppState>, cid: i64) -> Result<";

pub const MOD_QUERY: &'static str = ", DbExecutorError> {\n        use diesel::prelude::*;\n        use std::marker::PhantomData;\n        let query = ";

pub const MOD_FILTER: &'static str = ".filter(crate::schema::";

pub const PATH_SEP: &'static str = "::";

pub const MOD_SELECT: &'static str = ".eq(cid));\n        let select = SQuery {\n            select: query,\n            phantom: PhantomData::<";

pub const MOD_TAIL: &'static str = ">,\n        };\n        let tmp = req.state().rdb.send(select).wait()??;\n        if let Some(obj) = tmp.first() {\n            return Ok((*obj).clone());\n        }\n        Err(DbExecutorError::Unknown)\n    }\n}\n";

/// The text of the module file, which declares the four artifacts and loads
/// one record by the value of its identity column.
pub open spec fn module_text(table: Seq<char>, record: Seq<char>, id_column: Seq<char>) -> Seq<char> {
    MOD_HEAD@ + record + MOD_SCHEMA@ + table + MOD_IMPORTS@ + record + MOD_LOAD@ + record
        + MOD_QUERY@ + table + MOD_FILTER@ + table + PATH_SEP@ + id_column + MOD_SELECT@ + record
        + MOD_TAIL@
}

/// The column names of a catalog.
pub open spec fn names_of(cols: Seq<ColumnInfo>) -> Seq<Seq<char>> {
    cols.map_values(|c: ColumnInfo| c.column_name@)
}

/// The Rust types of the columns, or the types of the first column that no
/// rule maps.
pub open spec fn types_of(
    table: Seq<(Seq<char>, Seq<char>)>,
    default: Option<Seq<char>>,
    cols: Seq<ColumnInfo>,
) -> Result<Seq<Seq<char>>, (Seq<char>, Seq<char>)>
    decreases cols.len(),
{
    if cols.len() == 0 {
        Ok(Seq::empty())
    } else {
        match types_of(table, default, cols.drop_last()) {
            Err(e) => Err(e),
            Ok(ts) => {
                let c = cols.last();
                match column_type_in(table, default, c.data_type@, c.udt_name@, c.nullable_spec()) {
                    Some(t) => Ok(ts.push(t)),
                    None => Err((c.data_type@, c.udt_name@)),
                }
            },
        }
    }
}

/// A failure at a prefix of the catalog is the failure of the whole catalog.
proof fn lemma_types_error_stays(
    table: Seq<(Seq<char>, Seq<char>)>,
    default: Option<Seq<char>>,
    cols: Seq<ColumnInfo>,
    i: int,
)
    requires
        0 <= i <= cols.len(),
        types_of(table, default, cols.take(i)) is Err,
    ensures
        types_of(table, default, cols) == types_of(table, default, cols.take(i)),
    decreases cols.len(),
{
    if i == cols.len() {
        assert(cols.take(i) =~= cols);
    } else {
        assert(cols.drop_last().take(i) =~= cols.take(i));
        lemma_types_error_stays(table, default, cols.drop_last(), i);
    }
}

/// One field declaration: `pub name: type,`.
pub open spec fn field_line(name: Seq<char>, ty: Seq<char>) -> Seq<char> {
    FIELD_PUB@ + name + FIELD_COLON@ + ty + FIELD_END@
}

/// The field declarations of the first `n` columns; with `skip_id` set, the
/// columns users never edit are left out.
pub open spec fn field_lines(names: Seq<Seq<char>>, types: Seq<Seq<char>>, id_column: Seq<char>, skip: bool, n: int) -> Seq<char>
    decreases n,
{
    if n <= 0 {
        Seq::empty()
    } else {
        let rest = field_lines(names, types, id_column, skip, n - 1);
        if skip && is_excluded(names[n - 1], id_column) {
            rest
        } else {
            rest + field_line(names[n - 1], types[n - 1])
        }
    }
}

/// The text of the data-model file.
pub open spec fn model_text(table: Seq<char>, record: Seq<char>, id_column: Seq<char>, names: Seq<Seq<char>>, types: Seq<Seq<char>>) -> Seq<char> {
    MODEL_USE@ + table + MODEL_DERIVE@ + table + MODEL_STRUCT@ + record + OPEN_BODY@
        + field_lines(names, types, id_column, false, names.len() as int) + CLOSE_BODY@
        + DATA_STRUCT@ + record + DATA_SUFFIX@ + OPEN_BODY@
        + field_lines(names, types, id_column, true, names.len() as int) + CLOSE_BODY@ + NEWLINE@
}

/// The Rust type of each column under `map`, or the first pair of types
/// that `map` cannot map.
pub fn column_types(map: &TypeMap, cols: &Vec<ColumnInfo>) -> (r: Result<Vec<String>, TypeMapError>)
    ensures
        match r {
            Ok(v) => types_of(map.table(), map.default_type(), cols@) == Ok::<Seq<Seq<char>>, (Seq<char>, Seq<char>)>(
                v@.map_values(|t: String| t@),
            ),
            Err(e) => types_of(map.table(), map.default_type(), cols@) == Err::<Seq<Seq<char>>, (Seq<char>, Seq<char>)>(
                (e.sql_type@, e.udt_name@),
            ),
        },
        r matches Ok(v) ==> v@.len() == cols@.len(),
{
    let mut v: Vec<String> = Vec::new();
    let mut i: usize = 0;
    assert(cols@.take(0) =~= Seq::<ColumnInfo>::empty());
    assert(v@.map_values(|t: String| t@) =~= Seq::<Seq<char>>::empty());
    while i < cols.len()
        invariant
            i <= cols@.len(),
            v@.len() == i,
            types_of(map.table(), map.default_type(), cols@.take(i as int)) == Ok::<Seq<Seq<char>>, (Seq<char>, Seq<char>)>(
                v@.map_values(|t: String| t@),
            ),
        decreases cols@.len() - i,
    {
        let c = &cols[i];
        assert(cols@.take(i + 1).drop_last() =~= cols@.take(i as int));
        assert(cols@.take(i + 1).last() == cols@[i as int]);
        match map.map_column_type(c.data_type.as_str(), c.udt_name.as_str(), c.nullable()) {
            Ok(t) => {
                let ghost prev = v@;
                v.push(t);
                assert(v@.map_values(|t: String| t@) =~= prev.map_values(|t: String| t@).push(t@));
            },
            Err(e) => {
                proof {
                    lemma_types_error_stays(map.table(), map.default_type(), cols@, i + 1);
                }
                return Err(e);
            },
        }
        i = i + 1;
    }
    assert(cols@.take(cols@.len() as int) =~= cols@);
    Ok(v)
}

/// Appends the field declarations of all columns, or with `skip` set of the
/// columns users may edit.
fn push_field_lines(out: &mut String, cols: &Vec<ColumnInfo>, types: &Vec<String>, id_column: &str, skip: bool)
    requires
        types@.len() == cols@.len(),
    ensures
        final(out)@ == old(out)@ + field_lines(
            names_of(cols@),
            types@.map_values(|t: String| t@),
            id_column@,
            skip,
            cols@.len() as int,
        ),
{
    let ghost names = names_of(cols@);
    let ghost tys = types@.map_values(|t: String| t@);
    let ghost start = out@;
    let mut i: usize = 0;
    while i < cols.len()
        invariant
            i <= cols@.len(),
            types@.len() == cols@.len(),
            names == names_of(cols@),
            tys == types@.map_values(|t: String| t@),
            out@ == start + field_lines(names, tys, id_column@, skip, i as int),
        decreases cols@.len() - i,
    {
        let name = cols[i].column_name.as_str();
        assert(names[i as int] == name@);
        assert(tys[i as int] == types@[i as int]@);
        if !(skip && excluded(name, id_column)) {
            out.append(FIELD_PUB);
            out.append(name);
            out.append(FIELD_COLON);
            out.append(types[i].as_str());
            out.append(FIELD_END);
            assert(out@ =~= start + field_lines(names, tys, id_column@, skip, i + 1));
        }
        i = i + 1;
    }
}

/// The data-model file: the record type with one field per column, then the
/// input type with the fields of the columns users may edit.
pub fn data_rs(ctx: &ScaffoldContext, cols: &Vec<ColumnInfo>, types: &Vec<String>) -> (r: String)
    requires
        types@.len() == cols@.len(),
    ensures
        r@ == model_text(
            ctx.table_name@,
            ctx.record_type@,
            ctx.id_column@,
            names_of(cols@),
            types@.map_values(|t: String| t@),
        ),
{
    let mut out = String::new();
    out.append(MODEL_USE);
    out.append(ctx.table_name.as_str());
    out.append(MODEL_DERIVE);
    out.append(ctx.table_name.as_str());
    out.append(MODEL_STRUCT);
    out.append(ctx.record_type.as_str());
    out.append(OPEN_BODY);
    push_field_lines(&mut out, cols, types, ctx.id_column.as_str(), false);
    out.append(CLOSE_BODY);
    out.append(DATA_STRUCT);
    out.append(ctx.record_type.as_str());
    out.append(DATA_SUFFIX);
    out.append(OPEN_BODY);
    push_field_lines(&mut out, cols, types, ctx.id_column.as_str(), true);
    out.append(CLOSE_BODY);
    out.append(NEWLINE);
    assert(names_of(cols@).len() == cols@.len());
    out
}

/// The module file of the table's artifacts.
pub fn mod_rs(ctx: &ScaffoldContext) -> (r: String)
    ensures
        r@ == module_text(ctx.table_name@, ctx.record_type@, ctx.id_column@),
{
    let table = ctx.table_name.as_str();
    let record = ctx.record_type.as_str();
    let mut out = String::new();
    out.append(MOD_HEAD);
    out.append(record);
    out.append(MOD_SCHEMA);
    out.append(table);
    out.append(MOD_IMPORTS);
    out.append(record);
    out.append(MOD_LOAD);
    out.append(record);
    out.append(MOD_QUERY);
    out.append(table);
    out.append(MOD_FILTER);
    out.append(table);
    out.append(PATH_SEP);
    out.append(ctx.id_column.as_str());
    out.append(MOD_SELECT);
    out.append(record);
    out.append(MOD_TAIL);
    out
}

} // verus!
