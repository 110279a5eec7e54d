//! Create assembler: an empty form with one field per editable column, and
//! a save operation that inserts a new record, leaves the identity column to
//! the store and draws a fresh UUID for a `uuid` column.
use vstd::prelude::*;
use crate::column::{is_key, key_column, ColumnInfo};
use crate::edit_view::{
    editor_render_text, fields_text, gen_index_render, push_fields, EQ_FORM, SAVE_HEAD, USE_SEP,
};
use crate::list_view::USE_DATA;
use crate::model::{names_of, DATA_SUFFIX, NEWLINE, OPEN_BODY};
use crate::plan::{field_seq_view, FieldSpec, FieldView, ScaffoldContext};
use crate::text::same_text;

verus! {

pub const ADD_USE_HEAD: &'static str = "\nuse actix_web::{ HttpResponse, HttpRequest, Error, Path, FromRequest, Form };\nuse actix_web::middleware::identity::RequestIdentity;\nuse actix_web::middleware::session::RequestSession;\n\nuse std::marker::PhantomData;\nuse futures::future::Future;\nuse diesel::prelude::*;\n\nuse pinnaculum::render::Failure;\nuse pinnaculum::utils::http_ok;\nuse pinnaculum::db::{ AppState, SQuery, WQuery };\nuse pinnaculum::modules::navigation::{ ListContext, EditableField, InputType };\n\nuse crate::modules::meta::default_meta;\nuse crate::schema::";

pub const ADD_USE_END: &'static str = " };\nuse pinnaculum::schema::user_meta::dsl::*;\nuse pinnaculum::modules::user::UserMeta;\n";

pub const ADD_FIELDS_HEAD: &'static str = "fn create_fields() -> Vec<EditableField> {\n    let mut fields = Vec::new();\n    let links = Vec::new();\n    let typ = ";

pub const INIT_LEAD: &'static str = "        ";

pub const INIT_ZERO: &'static str = ": 0,\n";

pub const INIT_EMPTY: &'static str = ": String::new(),\n";

pub const INIT_END: &'static str = "    };\n";

pub const ADD_FIELDS_END: &'static str = "    fields\n}";

pub const ADD_INDEX: &'static str = "pub fn index(_req: &HttpRequest<AppState>) -> Result<HttpResponse, Error> {\n    // let owner_id = Path::<String>::extract(req).unwrap().parse::<i64>().unwrap();\n    let fields = create_fields();\n    http_ok(index_render(fields))\n}";

pub const ADD_SAVE_CHECK: &'static str = "Data>),) -> HttpResponse {\nif let Ok(owner_id) = Path::<String>::extract(&req).unwrap().parse::<i64>() {\n    if let Some(mail) = req.identity() {\n        if let Ok(usr_meta) = UserMeta::load(req, mail) {\n            info!(\"New ";

pub const ADD_SAVE_LOG: &'static str = " {} by: {:?}-{:?}\", form.title.clone(), usr_meta.user_id, usr_meta.email);\n            use diesel::insert_into;\n            let query = insert_into(";

pub const ADD_SAVE_VALUES: &'static str = ").values((";

pub const INS_LEAD: &'static str = "\n            ";

pub const INS_UUID: &'static str = ".eq(::uuid::Uuid::new_v4()),";

pub const INS_END: &'static str = ".clone()),";

pub const ADD_SAVE_TAIL: &'static str = "\n        ));\n        let upd = WQuery {\n            query,\n            phantom: PhantomData::<";

pub const ADD_SAVE_END: &'static str = ">,\n        };\n        let res = req.state().wdb.send(upd)\n            .map_err(actix_web::Error::from)\n            .wait()\n            .ok()\n            .unwrap()\n            .unwrap();\n        debug!(\"{:?}\", res);\n        }\n    }}\n    HttpResponse::Found().header(\"location\", \"list\").finish()\n}";

/// The import block of the create file.
pub open spec fn add_use_text(table: Seq<char>, record: Seq<char>) -> Seq<char> {
    ADD_USE_HEAD@ + table + USE_DATA@ + record + USE_SEP@ + record + DATA_SUFFIX@ + ADD_USE_END@
}

/// The initializers of the blank record for the first `n` columns: zero for
/// the identity column and foreign keys, an empty string for the others.
pub open spec fn inits_text(id_column: Seq<char>, names: Seq<Seq<char>>, n: int) -> Seq<char>
    decreases n,
{
    if n <= 0 {
        Seq::empty()
    } else {
        inits_text(id_column, names, n - 1) + INIT_LEAD@ + names[n - 1] + if is_key(
            names[n - 1],
            id_column,
        ) {
            INIT_ZERO@
        } else {
            INIT_EMPTY@
        }
    }
}

/// The function that builds the form fields from a blank record.
pub open spec fn add_fields_text(record: Seq<char>, id_column: Seq<char>, names: Seq<Seq<char>>, fields: Seq<FieldView>) -> Seq<char> {
    ADD_FIELDS_HEAD@ + record + OPEN_BODY@ + inits_text(id_column, names, names.len() as int)
        + INIT_END@ + fields_text(false, fields, fields.len() as int) + ADD_FIELDS_END@
}

/// The value inserted for the first `n` columns: none for the identity
/// column, a fresh UUID for `uuid`, the submitted value for the others.
pub open spec fn inserts_text(id_column: Seq<char>, names: Seq<Seq<char>>, n: int) -> Seq<char>
    decreases n,
{
    if n <= 0 {
        Seq::empty()
    } else {
        let rest = inserts_text(id_column, names, n - 1);
        let c = names[n - 1];
        if c == id_column {
            rest
        } else if c == "uuid"@ {
            rest + INS_LEAD@ + c + INS_UUID@
        } else {
            rest + INS_LEAD@ + c + EQ_FORM@ + c + INS_END@
        }
    }
}

/// The save operation: it inserts a new record built from the form.
pub open spec fn add_save_text(table: Seq<char>, record: Seq<char>, id_column: Seq<char>, names: Seq<Seq<char>>) -> Seq<char> {
    SAVE_HEAD@ + record + ADD_SAVE_CHECK@ + record + ADD_SAVE_LOG@ + table + ADD_SAVE_VALUES@
        + inserts_text(id_column, names, names.len() as int) + ADD_SAVE_TAIL@ + record
        + ADD_SAVE_END@
}

/// The text of the create file.
pub open spec fn add_text(
    table: Seq<char>,
    record: Seq<char>,
    id_column: Seq<char>,
    names: Seq<Seq<char>>,
    fields: Seq<FieldView>,
) -> Seq<char> {
    add_use_text(table, record) + NEWLINE@ + add_fields_text(record, id_column, names, fields)
        + NEWLINE@ + ADD_INDEX@ + NEWLINE@ + editor_render_text(record) + NEWLINE@
        + add_save_text(table, record, id_column, names) + NEWLINE@
}

/// The import block of the create file.
pub fn gen_use(ctx: &ScaffoldContext) -> (r: String)
    ensures
        r@ == add_use_text(ctx.table_name@, ctx.record_type@),
{
    let record = ctx.record_type.as_str();
    let mut out = String::new();
    out.append(ADD_USE_HEAD);
    out.append(ctx.table_name.as_str());
    out.append(USE_DATA);
    out.append(record);
    out.append(USE_SEP);
    out.append(record);
    out.append(DATA_SUFFIX);
    out.append(ADD_USE_END);
    out
}

/// The function that builds the form fields from a blank record.
pub fn gen_create_fields(ctx: &ScaffoldContext, cols: &Vec<ColumnInfo>, fields: &Vec<FieldSpec>) -> (r: String)
    ensures
        r@ == add_fields_text(ctx.record_type@, ctx.id_column@, names_of(cols@), field_seq_view(fields@)),
{
    let ghost names = names_of(cols@);
    let id = ctx.id_column.as_str();
    let mut out = String::new();
    out.append(ADD_FIELDS_HEAD);
    out.append(ctx.record_type.as_str());
    out.append(OPEN_BODY);
    let ghost start = out@;
    let mut i: usize = 0;
    while i < cols.len()
        invariant
            i <= cols@.len(),
            names == names_of(cols@),
            id@ == ctx.id_column@,
            out@ == start + inits_text(ctx.id_column@, names, i as int),
        decreases cols@.len() - i,
    {
        let name = cols[i].column_name.as_str();
        assert(names[i as int] == name@);
        out.append(INIT_LEAD);
        out.append(name);
        if key_column(name, id) {
            out.append(INIT_ZERO);
        } else {
            out.append(INIT_EMPTY);
        }
        assert(out@ =~= start + inits_text(ctx.id_column@, names, i + 1));
        i = i + 1;
    }
    out.append(INIT_END);
    push_fields(&mut out, false, fields);
    out.append(ADD_FIELDS_END);
    out
}

/// The request handler of the create page.
pub fn gen_index() -> (r: String)
    ensures
        r@ == ADD_INDEX@,
{
    ADD_INDEX.to_owned()
}

/// The save operation of the create page.
pub fn gen_save(ctx: &ScaffoldContext, cols: &Vec<ColumnInfo>) -> (r: String)
    ensures
        r@ == add_save_text(ctx.table_name@, ctx.record_type@, ctx.id_column@, names_of(cols@)),
{
    let ghost names = names_of(cols@);
    let id = ctx.id_column.as_str();
    let record = ctx.record_type.as_str();
    let mut out = String::new();
    out.append(SAVE_HEAD);
    out.append(record);
    out.append(ADD_SAVE_CHECK);
    out.append(record);
    out.append(ADD_SAVE_LOG);
    out.append(ctx.table_name.as_str());
    out.append(ADD_SAVE_VALUES);
    let ghost start = out@;
    let mut i: usize = 0;
    while i < cols.len()
        invariant
            i <= cols@.len(),
            names == names_of(cols@),
            id@ == ctx.id_column@,
            out@ == start + inserts_text(ctx.id_column@, names, i as int),
        decreases cols@.len() - i,
    {
        let name = cols[i].column_name.as_str();
        assert(names[i as int] == name@);
        if same_text(name, id) {
        } else if same_text(name, "uuid") {
            out.append(INS_LEAD);
            out.append(name);
            out.append(INS_UUID);
        } else {
            out.append(INS_LEAD);
            out.append(name);
            out.append(EQ_FORM);
            out.append(name);
            out.append(INS_END);
        }
        assert(out@ =~= start + inserts_text(ctx.id_column@, names, i + 1));
        i = i + 1;
    }
    out.append(ADD_SAVE_TAIL);
    out.append(record);
    out.append(ADD_SAVE_END);
    out
}

/// The create file: imports, the field builder, the handler, the renderer
/// and the save operation.
pub fn add_rs(ctx: &ScaffoldContext, cols: &Vec<ColumnInfo>, fields: &Vec<FieldSpec>) -> (r: String)
    ensures
        r@ == add_text(
            ctx.table_name@,
            ctx.record_type@,
            ctx.id_column@,
            names_of(cols@),
            field_seq_view(fields@),
        ),
{
    let mut out = gen_use(ctx);
    out.append(NEWLINE);
    out.append(gen_create_fields(ctx, cols, fields).as_str());
    out.append(NEWLINE);
    out.append(gen_index().as_str());
    out.append(NEWLINE);
    out.append(gen_index_render(ctx).as_str());
    out.append(NEWLINE);
    out.append(gen_save(ctx, cols).as_str());
    out.append(NEWLINE);
    out
}

} // verus!
