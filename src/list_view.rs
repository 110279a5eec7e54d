//! List assembler: a page that shows every record of the table as a row of
//! cells, one per listed column, with edit and delete links.
use vstd::prelude::*;
use crate::model::NEWLINE;
use crate::plan::{cell_seq_view, CellView, ListCell, ScaffoldContext};

verus! {

pub const LIST_USE_HEAD: &'static str = "use actix_web::{ HttpResponse, HttpRequest, Error };\n\nuse std::marker::PhantomData;\nuse futures::future::Future;\nuse diesel::prelude::*;\n\nuse pinnaculum::render::Failure;\nuse pinnaculum::utils::http_ok;\nuse pinnaculum::db::{ AppState, SQuery };\nuse pinnaculum::modules::navigation::{ Link, ListContext, Permission, Row, Cell, CellContent };\n\nuse crate::modules::meta::default_meta;\nuse crate::schema::";

pub const USE_DATA: &'static str = "::dsl::*;\nuse super::data::{ ";

pub const USE_END: &'static str = " };\n";

pub const LIST_FN_HEAD: &'static str = "fn create_list(data: &[";

pub const LIST_FN_LOOP: &'static str = "]) -> Vec<Row> {\n    let mut res = Vec::new();\n    for ent in data {\n    let mut cells = Vec::new();\n";

pub const CELL_LET: &'static str = "    let ";

pub const CELL_CONT: &'static str = "_cont = CellContent::new(ent.";

pub const CELL_CONT_END: &'static str = ".to_string());\n    let ";

pub const CELL_CELL: &'static str = "_cell = Cell{ title: \"";

pub const CELL_CONTENT: &'static str = "\".to_string(), content: ";

pub const CELL_NULLABLE: &'static str = "_cont, is_nullable: ";

pub const CELL_PUSH: &'static str = " };\n    cells.push(";

pub const CELL_END: &'static str = "_cell);\n";

pub const LIST_LINK_EDIT: &'static str = "\n    let ed = Link{\n        visual: \"Edit\".to_string(),\n        url: format!(\"/";

pub const LINK_URL_ARG: &'static str = "/{}\", ent.";

pub const LIST_LINK_DELETE: &'static str = "),\n        active: false,\n        icon: \"fa-edit\".to_string(),\n        clearance: Permission::Edit,\n        children: None,\n    };\n    let del = Link{\n        visual: \"Delete\".to_string(),\n        url: format!(\"/";

pub const LIST_ROW: &'static str = "),\n        active: false,\n        icon: \"fa-trash\".to_string(),\n        clearance: Permission::Delete,\n        children: None,\n    };\n    let links = vec![ed, del];\n    let row = Row {cells, links};\n    res.push(row);\n    }\n    res\n}";

pub const LIST_INDEX: &'static str = "pub fn index(req: &HttpRequest<AppState>) -> Result<HttpResponse, Error> {\n    let query = ";

pub const INDEX_FILTER: &'static str = ".filter(";

pub const LIST_INDEX_SELECT: &'static str = ".is_not_null());\n    let select = SQuery{ select: query, phantom: PhantomData::<";

pub const LIST_INDEX_TAIL: &'static str = "> };\n    if let Ok(thing) = req.state().rdb.send(select)\n    .map_err(actix_web::Error::from)\n    .wait() {\n        if let Ok(data) = thing {\n            let list = create_list(&data);\n            return http_ok(index_render(list));\n        }\n    }\n    Ok(HttpResponse::Ok().finish())\n}";

pub const LIST_RENDER: &'static str = "fn index_render(list: Vec<Row>) -> Result<String, Failure> {\n    let links = crate::menu::default_menu();\n    let ctx = ListContext{ title: \"";

pub const LIST_RENDER_HEAD: &'static str = "\".to_string(), head: \"List of ";

pub const LIST_RENDER_PERM: &'static str = "\".to_string(), search: false };\n    let perm = pinnaculum::modules::navigation::PermissionSet{\n        browse: true,\n        read: true,\n        edit: true,\n        add: true,\n        delete: true\n    };\n    let list = ructe_block_res!(pinnaculum::templates::navigation::table, &list, &ctx, &perm)?;\n    let meta = default_meta(\"List of ";

pub const RENDER_TAIL: &'static str = "\");\n    ructe_page_res!(pinnaculum::templates::navigation::frame, meta, &links, &list)\n}\n";

/// `true` or `false`.
pub open spec fn bool_text(b: bool) -> Seq<char> {
    if b {
        "true"@
    } else {
        "false"@
    }
}

/// The import block of the list file.
pub open spec fn list_use_text(table: Seq<char>, record: Seq<char>) -> Seq<char> {
    LIST_USE_HEAD@ + table + USE_DATA@ + record + USE_END@
}

/// The statements that build and collect the cell of one column.
pub open spec fn cell_text(cell: CellView) -> Seq<char> {
    CELL_LET@ + cell.0 + CELL_CONT@ + cell.0 + CELL_CONT_END@ + cell.0 + CELL_CELL@ + cell.1
        + CELL_CONTENT@ + cell.0 + CELL_NULLABLE@ + bool_text(cell.2) + CELL_PUSH@ + cell.0
        + CELL_END@
}

/// The statements of the first `n` cells.
pub open spec fn cells_text(cells: Seq<CellView>, n: int) -> Seq<char>
    decreases n,
{
    if n <= 0 {
        Seq::empty()
    } else {
        cells_text(cells, n - 1) + cell_text(cells[n - 1])
    }
}

/// The function that turns records into rows: the cells, then an edit link
/// and a delete link that carry the record's identity value.
pub open spec fn create_list_text(
    record: Seq<char>,
    id_column: Seq<char>,
    type_snake: Seq<char>,
    table_snake: Seq<char>,
    cells: Seq<CellView>,
) -> Seq<char> {
    LIST_FN_HEAD@ + record + LIST_FN_LOOP@ + cells_text(cells, cells.len() as int)
        + LIST_LINK_EDIT@ + type_snake + LINK_URL_ARG@ + id_column + LIST_LINK_DELETE@
        + table_snake + LINK_URL_ARG@ + id_column + LIST_ROW@
}

/// The request handler that loads every record and renders the list.
pub open spec fn list_index_text(table: Seq<char>, id_column: Seq<char>, record: Seq<char>) -> Seq<char> {
    LIST_INDEX@ + table + INDEX_FILTER@ + id_column + LIST_INDEX_SELECT@ + record + LIST_INDEX_TAIL@
}

/// The function that renders the rows into a page.
pub open spec fn list_render_text(table: Seq<char>, record: Seq<char>) -> Seq<char> {
    LIST_RENDER@ + record + LIST_RENDER_HEAD@ + table + LIST_RENDER_PERM@ + record + RENDER_TAIL@
}

/// The text of the list file.
pub open spec fn list_text(
    table: Seq<char>,
    record: Seq<char>,
    id_column: Seq<char>,
    type_snake: Seq<char>,
    table_snake: Seq<char>,
    cells: Seq<CellView>,
) -> Seq<char> {
    list_use_text(table, record) + NEWLINE@ + create_list_text(
        record,
        id_column,
        type_snake,
        table_snake,
        cells,
    ) + NEWLINE@ + list_index_text(table, id_column, record) + NEWLINE@ + list_render_text(
        table,
        record,
    ) + NEWLINE@
}

/// The import block of the list file.
pub fn gen_use(ctx: &ScaffoldContext) -> (r: String)
    ensures
        r@ == list_use_text(ctx.table_name@, ctx.record_type@),
{
    let mut out = String::new();
    out.append(LIST_USE_HEAD);
    out.append(ctx.table_name.as_str());
    out.append(USE_DATA);
    out.append(ctx.record_type.as_str());
    out.append(USE_END);
    out
}

/// The statements of one cell.
fn cell_string(c: &ListCell) -> (r: String)
    ensures
        r@ == cell_text(c.view()),
{
    let name = c.column_name.as_str();
    let mut out = String::new();
    out.append(CELL_LET);
    out.append(name);
    out.append(CELL_CONT);
    out.append(name);
    out.append(CELL_CONT_END);
    out.append(name);
    out.append(CELL_CELL);
    out.append(c.title.as_str());
    out.append(CELL_CONTENT);
    out.append(name);
    out.append(CELL_NULLABLE);
    if c.nullable {
        out.append("true");
    } else {
        out.append("false");
    }
    out.append(CELL_PUSH);
    out.append(name);
    out.append(CELL_END);
    out
}

/// The function that turns records into rows.
pub fn gen_create_list(ctx: &ScaffoldContext, cells: &Vec<ListCell>) -> (r: String)
    ensures
        r@ == create_list_text(
            ctx.record_type@,
            ctx.id_column@,
            ctx.type_snake@,
            ctx.table_snake@,
            cell_seq_view(cells@),
        ),
{
    let ghost views = cell_seq_view(cells@);
    let mut out = String::new();
    out.append(LIST_FN_HEAD);
    out.append(ctx.record_type.as_str());
    out.append(LIST_FN_LOOP);
    let ghost start = out@;
    let mut i: usize = 0;
    while i < cells.len()
        invariant
            i <= cells@.len(),
            views == cell_seq_view(cells@),
            out@ == start + cells_text(views, i as int),
        decreases cells@.len() - i,
    {
        assert(views[i as int] == cells[i as int].view());
        let piece = cell_string(&cells[i]);
        out.append(piece.as_str());
        assert(out@ =~= start + cells_text(views, i + 1));
        i = i + 1;
    }
    let id = ctx.id_column.as_str();
    out.append(LIST_LINK_EDIT);
    out.append(ctx.type_snake.as_str());
    out.append(LINK_URL_ARG);
    out.append(id);
    out.append(LIST_LINK_DELETE);
    out.append(ctx.table_snake.as_str());
    out.append(LINK_URL_ARG);
    out.append(id);
    out.append(LIST_ROW);
    out
}

/// The request handler of the list page.
pub fn gen_index(ctx: &ScaffoldContext) -> (r: String)
    ensures
        r@ == list_index_text(ctx.table_name@, ctx.id_column@, ctx.record_type@),
{
    let mut out = String::new();
    out.append(LIST_INDEX);
    out.append(ctx.table_name.as_str());
    out.append(INDEX_FILTER);
    out.append(ctx.id_column.as_str());
    out.append(LIST_INDEX_SELECT);
    out.append(ctx.record_type.as_str());
    out.append(LIST_INDEX_TAIL);
    out
}

/// The function that renders the list page.
pub fn gen_index_render(ctx: &ScaffoldContext) -> (r: String)
    ensures
        r@ == list_render_text(ctx.table_name@, ctx.record_type@),
{
    let mut out = String::new();
    out.append(LIST_RENDER);
    out.append(ctx.record_type.as_str());
    out.append(LIST_RENDER_HEAD);
    out.append(ctx.table_name.as_str());
    out.append(LIST_RENDER_PERM);
    out.append(ctx.record_type.as_str());
    out.append(RENDER_TAIL);
    out
}

/// The list file: imports, the row builder, the handler and the renderer.
pub fn list_rs(ctx: &ScaffoldContext, cells: &Vec<ListCell>) -> (r: String)
    ensures
        r@ == list_text(
            ctx.table_name@,
            ctx.record_type@,
            ctx.id_column@,
            ctx.type_snake@,
            ctx.table_snake@,
            cell_seq_view(cells@),
        ),
{
    let mut out = gen_use(ctx);
    out.append(NEWLINE);
    out.append(gen_create_list(ctx, cells).as_str());
    out.append(NEWLINE);
    out.append(gen_index(ctx).as_str());
    out.append(NEWLINE);
    out.append(gen_index_render(ctx).as_str());
    out.append(NEWLINE);
    out
}

} // verus!
