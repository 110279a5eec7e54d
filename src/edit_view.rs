//! Edit assembler: a form pre-filled from an existing record, with one field
//! per editable column, and a save operation that updates those columns of
//! the record that the identity value selects.
use vstd::prelude::*;
use crate::list_view::{INDEX_FILTER, USE_DATA, USE_END};
use crate::model::{DATA_SUFFIX, NEWLINE};
use crate::navigation::input_type_name;
use crate::plan::{field_seq_view, FieldSpec, FieldView, ScaffoldContext};

verus! {

pub const EDIT_USE_HEAD: &'static str = "use actix_web::{ HttpResponse, HttpRequest, Error, Path, FromRequest, Form };\n\nuse std::marker::PhantomData;\nuse futures::future::Future;\nuse diesel::prelude::*;\n\nuse pinnaculum::render::Failure;\nuse pinnaculum::utils::http_ok;\nuse pinnaculum::db::{ AppState, SQuery, WQuery };\nuse pinnaculum::modules::navigation::{ ListContext, EditableField, InputType };\n\nuse crate::modules::meta::default_meta;\nuse crate::schema::";

pub const USE_SEP: &'static str = ", ";

pub const EDIT_FIELDS_HEAD: &'static str = "fn create_fields(data: &[";

pub const EDIT_FIELDS_LOOP: &'static str = "]) -> Vec<EditableField> {\n    let mut fields = Vec::new();\n    let links = Vec::new();\n    for typ in data {\n";

pub const EDIT_FIELDS_END: &'static str = "    }\n    fields\n}";

pub const EF_LET: &'static str = "        let ";

pub const EF_TYPE: &'static str = "_field = EditableField{\n            input_type: InputType::";

pub const EF_TITLE: &'static str = ",\n            title: \"";

pub const EF_NAME: &'static str = "\".to_string(),\n            name: \"";

pub const EF_VALUE: &'static str = "\".to_string(),\n            value: typ.";

pub const EF_TAIL: &'static str = ".to_string(),\n            links: links.clone(),\n            required: false,\n        };\n        fields.push(";

pub const CF_LET: &'static str = "    let ";

pub const CF_TYPE: &'static str = "_field = EditableField{\n        input_type: InputType::";

pub const CF_TITLE: &'static str = ",\n        title: \"";

pub const CF_NAME: &'static str = "\".to_string(),\n        name: \"";

pub const CF_VALUE: &'static str = "\".to_string(),\n        value: typ.";

pub const CF_TAIL: &'static str = ".to_string(),\n        links: links.clone(),\n        required: false,\n        };\n        fields.push(";

pub const FIELD_PUSH_END: &'static str = "_field);\n";

pub const EDIT_INDEX: &'static str = "pub fn index(req: &HttpRequest<AppState>) -> Result<HttpResponse, Error> {\n    let pid = Path::<String>::extract(req).unwrap().parse::<i64>().unwrap();\n    let query = ";

pub const EDIT_INDEX_SELECT: &'static str = ".eq(pid));\n    let select = SQuery{ select: query, phantom: PhantomData::<";

pub const EDIT_INDEX_TAIL: &'static str = "> };\n    if let Ok(thing) = req.state().rdb.send(select)\n    .map_err(actix_web::Error::from)\n    .wait() {\n        if let Ok(data) = thing {\n            let fields = create_fields(&data);\n            return http_ok(index_render(fields));\n        }\n    }\n    Ok(HttpResponse::Ok().finish())\n}";

pub const EDITOR_RENDER: &'static str = "fn index_render(fields: Vec<EditableField>) -> Result<String, Failure> {\n    let links = crate::menu::default_menu();\n    let ctx = ListContext{ title: \"";

pub const EDITOR_HEAD: &'static str = "\".to_string(), head: \"";

pub const EDITOR_PERM: &'static str = " Editor\".to_string(), search: false };\n    let perm = pinnaculum::modules::navigation::PermissionSet{\n        browse: true,\n        read: true,\n        edit: true,\n        add: true,\n        delete: true\n    };\n    let list = ructe_block_res!(pinnaculum::templates::navigation::edit, &fields, &ctx, &perm)?;\n    let meta = default_meta(\"";

pub const EDITOR_TAIL: &'static str = " Editor\");\n    ructe_page_res!(pinnaculum::templates::navigation::frame, meta, &links, &list)\n}\n";

pub const SAVE_HEAD: &'static str = "pub fn save((req, form): (HttpRequest<AppState>, Form<";

pub const EDIT_SAVE_PID: &'static str = "Data>),) -> HttpResponse {\n    let pid = Path::<String>::extract(&req).unwrap().parse::<i64>().unwrap();\n    //if id == form.";

pub const EDIT_SAVE_TARGET: &'static str = " {\n        let target = ";

pub const EDIT_SAVE_SET: &'static str = ".eq(pid));\n        let query = diesel::update(target).set((\n";

pub const UPD_LEAD: &'static str = "        ";

pub const EQ_FORM: &'static str = ".eq(form.";

pub const UPD_END: &'static str = ".clone()),\n";

pub const EDIT_SAVE_TAIL: &'static str = "        ));\n        let upd = WQuery {\n            query,\n            phantom: PhantomData::<";

pub const EDIT_SAVE_END: &'static str = ">,\n        };\n        let res = req.state().wdb.send(upd)\n            .map_err(actix_web::Error::from)\n            .wait()\n            .ok()\n            .unwrap()\n            .unwrap();\n        debug!(\"{:?}\", res);\n    //}\n    HttpResponse::Ok().finish()\n}";

/// The pieces that surround the values of a form field, in the layout of
/// the edit form (`edit`) or of the create form.
pub open spec fn field_layout(edit: bool) -> (Seq<char>, Seq<char>, Seq<char>, Seq<char>, Seq<char>, Seq<char>) {
    if edit {
        (EF_LET@, EF_TYPE@, EF_TITLE@, EF_NAME@, EF_VALUE@, EF_TAIL@)
    } else {
        (CF_LET@, CF_TYPE@, CF_TITLE@, CF_NAME@, CF_VALUE@, CF_TAIL@)
    }
}

/// The statements that build and collect one form field.
pub open spec fn field_text(edit: bool, f: FieldView) -> Seq<char> {
    let p = field_layout(edit);
    p.0 + f.0 + p.1 + input_type_name(f.1) + p.2 + f.2 + p.3 + f.3 + p.4 + f.0 + p.5 + f.0
        + FIELD_PUSH_END@
}

/// The statements of the first `n` form fields.
pub open spec fn fields_text(edit: bool, fields: Seq<FieldView>, n: int) -> Seq<char>
    decreases n,
{
    if n <= 0 {
        Seq::empty()
    } else {
        fields_text(edit, fields, n - 1) + field_text(edit, fields[n - 1])
    }
}

/// The import block of the edit file.
pub open spec fn edit_use_text(table: Seq<char>, record: Seq<char>) -> Seq<char> {
    EDIT_USE_HEAD@ + table + USE_DATA@ + record + USE_SEP@ + record + DATA_SUFFIX@ + USE_END@
}

/// The function that builds the form fields of each loaded record.
pub open spec fn edit_fields_text(record: Seq<char>, fields: Seq<FieldView>) -> Seq<char> {
    EDIT_FIELDS_HEAD@ + record + EDIT_FIELDS_LOOP@ + fields_text(true, fields, fields.len() as int)
        + EDIT_FIELDS_END@
}

/// The request handler that loads the record named in the path.
pub open spec fn edit_index_text(table: Seq<char>, id_column: Seq<char>, record: Seq<char>) -> Seq<char> {
    EDIT_INDEX@ + table + INDEX_FILTER@ + id_column + EDIT_INDEX_SELECT@ + record + EDIT_INDEX_TAIL@
}

/// The function that renders a form page.
pub open spec fn editor_render_text(record: Seq<char>) -> Seq<char> {
    EDITOR_RENDER@ + record + EDITOR_HEAD@ + record + EDITOR_PERM@ + record + EDITOR_TAIL@
}

/// The assignments of the first `n` form fields' columns from the form.
pub open spec fn updates_text(fields: Seq<FieldView>, n: int) -> Seq<char>
    decreases n,
{
    if n <= 0 {
        Seq::empty()
    } else {
        updates_text(fields, n - 1) + UPD_LEAD@ + fields[n - 1].0 + EQ_FORM@ + fields[n - 1].0
            + UPD_END@
    }
}

/// The save operation: it updates the editable columns of the record whose
/// identity value is in the path.
pub open spec fn edit_save_text(table: Seq<char>, id_column: Seq<char>, record: Seq<char>, fields: Seq<FieldView>) -> Seq<char> {
    SAVE_HEAD@ + record + EDIT_SAVE_PID@ + id_column + EDIT_SAVE_TARGET@ + table + INDEX_FILTER@
        + id_column + EDIT_SAVE_SET@ + updates_text(fields, fields.len() as int) + EDIT_SAVE_TAIL@
        + record + EDIT_SAVE_END@
}

/// The text of the edit file.
pub open spec fn edit_text(table: Seq<char>, record: Seq<char>, id_column: Seq<char>, fields: Seq<FieldView>) -> Seq<char> {
    edit_use_text(table, record) + NEWLINE@ + edit_fields_text(record, fields) + NEWLINE@
        + edit_index_text(table, id_column, record) + NEWLINE@ + editor_render_text(record)
        + NEWLINE@ + edit_save_text(table, id_column, record, fields) + NEWLINE@
}

/// The statements of one form field, in the edit (`edit`) or create layout.
pub fn field_string(edit: bool, f: &FieldSpec) -> (r: String)
    ensures
        r@ == field_text(edit, f.view()),
{
    let (p0, p1, p2, p3, p4, p5) = if edit {
        (EF_LET, EF_TYPE, EF_TITLE, EF_NAME, EF_VALUE, EF_TAIL)
    } else {
        (CF_LET, CF_TYPE, CF_TITLE, CF_NAME, CF_VALUE, CF_TAIL)
    };
    let name = f.column_name.as_str();
    let mut out = String::new();
    out.append(p0);
    out.append(name);
    out.append(p1);
    out.append(f.input_type.name());
    out.append(p2);
    out.append(f.label.as_str());
    out.append(p3);
    out.append(f.ident.as_str());
    out.append(p4);
    out.append(name);
    out.append(p5);
    out.append(name);
    out.append(FIELD_PUSH_END);
    out
}

/// Appends the statements of all form fields.
pub fn push_fields(out: &mut String, edit: bool, fields: &Vec<FieldSpec>)
    ensures
        final(out)@ == old(out)@ + fields_text(edit, field_seq_view(fields@), fields@.len() as int),
{
    let ghost views = field_seq_view(fields@);
    let ghost start = out@;
    let mut i: usize = 0;
    while i < fields.len()
        invariant
            i <= fields@.len(),
            views == field_seq_view(fields@),
            out@ == start + fields_text(edit, views, i as int),
        decreases fields@.len() - i,
    {
        assert(views[i as int] == fields@[i as int].view());
        let piece = field_string(edit, &fields[i]);
        out.append(piece.as_str());
        assert(out@ =~= start + fields_text(edit, views, i + 1));
        i = i + 1;
    }
}

/// The import block of the edit file.
pub fn gen_use(ctx: &ScaffoldContext) -> (r: String)
    ensures
        r@ == edit_use_text(ctx.table_name@, ctx.record_type@),
{
    let record = ctx.record_type.as_str();
    let mut out = String::new();
    out.append(EDIT_USE_HEAD);
    out.append(ctx.table_name.as_str());
    out.append(USE_DATA);
    out.append(record);
    out.append(USE_SEP);
    out.append(record);
    out.append(DATA_SUFFIX);
    out.append(USE_END);
    out
}

/// The function that builds the form fields of each loaded record.
pub fn gen_create_fields(ctx: &ScaffoldContext, fields: &Vec<FieldSpec>) -> (r: String)
    ensures
        r@ == edit_fields_text(ctx.record_type@, field_seq_view(fields@)),
{
    let mut out = String::new();
    out.append(EDIT_FIELDS_HEAD);
    out.append(ctx.record_type.as_str());
    out.append(EDIT_FIELDS_LOOP);
    push_fields(&mut out, true, fields);
    out.append(EDIT_FIELDS_END);
    out
}

/// The request handler of the edit page.
pub fn gen_index(ctx: &ScaffoldContext) -> (r: String)
    ensures
        r@ == edit_index_text(ctx.table_name@, ctx.id_column@, ctx.record_type@),
{
    let mut out = String::new();
    out.append(EDIT_INDEX);
    out.append(ctx.table_name.as_str());
    out.append(INDEX_FILTER);
    out.append(ctx.id_column.as_str());
    out.append(EDIT_INDEX_SELECT);
    out.append(ctx.record_type.as_str());
    out.append(EDIT_INDEX_TAIL);
    out
}

/// The function that renders a form page, shared by the edit and create views.
pub fn gen_index_render(ctx: &ScaffoldContext) -> (r: String)
    ensures
        r@ == editor_render_text(ctx.record_type@),
{
    let record = ctx.record_type.as_str();
    let mut out = String::new();
    out.append(EDITOR_RENDER);
    out.append(record);
    out.append(EDITOR_HEAD);
    out.append(record);
    out.append(EDITOR_PERM);
    out.append(record);
    out.append(EDITOR_TAIL);
    out
}

/// The save operation of the edit page.
pub fn gen_save(ctx: &ScaffoldContext, fields: &Vec<FieldSpec>) -> (r: String)
    ensures
        r@ == edit_save_text(ctx.table_name@, ctx.id_column@, ctx.record_type@, field_seq_view(fields@)),
{
    let ghost views = field_seq_view(fields@);
    let id = ctx.id_column.as_str();
    let mut out = String::new();
    out.append(SAVE_HEAD);
    out.append(ctx.record_type.as_str());
    out.append(EDIT_SAVE_PID);
    out.append(id);
    out.append(EDIT_SAVE_TARGET);
    out.append(ctx.table_name.as_str());
    out.append(INDEX_FILTER);
    out.append(id);
    out.append(EDIT_SAVE_SET);
    let ghost start = out@;
    let mut i: usize = 0;
    while i < fields.len()
        invariant
            i <= fields@.len(),
            views == field_seq_view(fields@),
            out@ == start + updates_text(views, i as int),
        decreases fields@.len() - i,
    {
        let name = fields[i].column_name.as_str();
        assert(views[i as int].0 == name@);
        out.append(UPD_LEAD);
        out.append(name);
        out.append(EQ_FORM);
        out.append(name);
        out.append(UPD_END);
        assert(out@ =~= start + updates_text(views, i + 1));
        i = i + 1;
    }
    out.append(EDIT_SAVE_TAIL);
    out.append(ctx.record_type.as_str());
    out.append(EDIT_SAVE_END);
    out
}

/// The edit file: imports, the field builder, the handler, the renderer and
/// the save operation.
pub fn edit_rs(ctx: &ScaffoldContext, fields: &Vec<FieldSpec>) -> (r: String)
    ensures
        r@ == edit_text(ctx.table_name@, ctx.record_type@, ctx.id_column@, field_seq_view(fields@)),
{
    let mut out = gen_use(ctx);
    out.append(NEWLINE);
    out.append(gen_create_fields(ctx, fields).as_str());
    out.append(NEWLINE);
    out.append(gen_index(ctx).as_str());
    out.append(NEWLINE);
    out.append(gen_index_render(ctx).as_str());
    out.append(NEWLINE);
    out.append(gen_save(ctx, fields).as_str());
    out.append(NEWLINE);
    out
}

} // verus!
