use scrambler::classify::FieldClassifier;
use scrambler::column::{excluded, ColumnInfo};
use scrambler::navigation::InputType;
use scrambler::plan::{editable_fields, list_cells, ScaffoldContext};
use scrambler::scaffold::{is_valid_table_name, scaffold, Scaffold, ScaffoldError};

fn col(name: &str, sql: &str, udt: &str, nullable: &str) -> ColumnInfo {
    ColumnInfo::new(name, sql, udt, None, nullable)
}

fn todo_catalog() -> Vec<ColumnInfo> {
    vec![
        col("id", "bigint", "int8", "NO"),
        col("title", "text", "text", "NO"),
        col("description", "text", "text", "YES"),
        col("email", "text", "text", "YES"),
        col("phone", "text", "text", "YES"),
        col("project_id", "uuid", "uuid", "NO"),
        col("completed", "boolean", "bool", "NO"),
        col("completed_at", "timestamp with time zone", "timestamptz", "NO"),
    ]
}

fn notes_catalog() -> Vec<ColumnInfo> {
    vec![
        col("id", "bigint", "int8", "NO"),
        col("body", "text", "text", "YES"),
        col("user_id", "bigint", "int8", "NO"),
    ]
}

fn generate(table: &str, cols: &Vec<ColumnInfo>) -> Scaffold {
    match scaffold(table, cols) {
        Ok(s) => s,
        Err(_) => panic!("no scaffold for {}", table),
    }
}

#[test]
fn todo_editable_fields_in_catalog_order() {
    let cols = todo_catalog();
    let fields = editable_fields(&FieldClassifier::standard(), "id", &cols);
    let got: Vec<(String, InputType)> =
        fields.iter().map(|f| (f.column_name.clone(), f.input_type)).collect();
    let expected: Vec<(String, InputType)> = vec![
        ("title".to_string(), InputType::Input),
        ("description".to_string(), InputType::Input),
        ("email".to_string(), InputType::Input),
        ("phone".to_string(), InputType::Input),
        ("completed".to_string(), InputType::Input),
        ("completed_at".to_string(), InputType::Input),
    ];
    assert_eq!(got, expected);
    assert_eq!(fields[5].label, "Completed At");
    assert_eq!(fields[5].ident, "completed_at");
}

#[test]
fn todo_scaffold_end_to_end() {
    let cols = todo_catalog();
    let s = generate("todos", &cols);
    assert!(s.model.contains("pub struct Todo {\n"));
    assert!(s.model.contains("pub struct TodoData {\n"));
    assert!(s.model.contains("pub completed_at: DateTime<Utc>,\n"));
    assert!(s.model.contains("pub description: Option<String>,\n"));
    assert!(s.model.contains("pub project_id: ::uuid::Uuid,\n"));
    let data_part = &s.model[s.model.find("TodoData").unwrap()..];
    assert!(!data_part.contains("pub id:"));
    assert!(!data_part.contains("project_id"));
    assert!(data_part.contains("pub completed_at:"));
    let order = ["title_field", "description_field", "email_field", "phone_field", "completed_field", "completed_at_field"];
    let mut at = 0;
    for name in order.iter() {
        let pos = s.edit[at..].find(&format!("let {} = EditableField", name)).unwrap();
        at += pos + 1;
    }
    assert!(!s.edit.contains("let id_field"));
    assert!(!s.edit.contains("project_id_field"));
    assert!(s.edit.contains("        completed_at.eq(form.completed_at.clone()),\n"));
    assert!(!s.edit.contains("project_id.eq(form"));
    assert!(s.module.contains("impl Todo {"));
    assert!(s.module.contains("let query = todos.filter(crate::schema::todos::id.eq(cid));"));
}

#[test]
fn exclusion_of_keys_and_uuid() {
    let cols = vec![
        col("entry", "bigint", "int8", "NO"),
        col("uuid", "uuid", "uuid", "NO"),
        col("owner_id", "bigint", "int8", "NO"),
        col("title", "text", "text", "NO"),
        col("id", "bigint", "int8", "NO"),
        col("identity", "text", "text", "NO"),
    ];
    let fields = editable_fields(&FieldClassifier::standard(), "entry", &cols);
    let names: Vec<String> = fields.iter().map(|f| f.column_name.clone()).collect();
    assert_eq!(names, vec!["title".to_string(), "id".to_string(), "identity".to_string()]);
    let cells = list_cells("entry", &cols);
    let names: Vec<String> = cells.iter().map(|c| c.column_name.clone()).collect();
    assert_eq!(names, vec!["title".to_string(), "id".to_string(), "identity".to_string()]);
    for f in fields.iter() {
        assert!(!excluded(&f.column_name, "entry"));
    }
    let s = generate("entries", &cols);
    assert!(!s.edit.contains("let uuid_field"));
    assert!(!s.create.contains("let uuid_field"));
    assert!(!s.create.contains("let owner_id_field"));
    assert!(!s.create.contains("let entry_field"));
    assert!(s.create.contains("\n            uuid.eq(::uuid::Uuid::new_v4()),"));
    assert!(!s.create.contains("entry.eq("));
}

#[test]
fn exclusion_rule() {
    assert!(excluded("id", "id"));
    assert!(excluded("team_id", "id"));
    assert!(excluded("uuid", "id"));
    assert!(!excluded("uuids", "id"));
    assert!(!excluded("idea", "id"));
    assert!(!excluded("completed_at", "id"));
    assert!(excluded("_id", "pk"));
}

#[test]
fn model_file_text() {
    let s = generate("notes", &notes_catalog());
    let expected = "use crate::schema::notes;\n#[derive(Insertable, AsChangeset, Queryable, Associations, Serialize, Deserialize, Debug, Clone)]\n#[table_name = \"notes\"]\npub struct Note {\npub id: i64,\npub body: Option<String>,\npub user_id: i64,\n}\n#[derive(Debug, Serialize, Deserialize, Clone)]\npub struct NoteData {\npub body: Option<String>,\n}\n\n";
    assert_eq!(s.model, expected);
}

#[test]
fn module_file_text() {
    let s = generate("notes", &notes_catalog());
    assert!(s.module.starts_with("\npub mod add;\npub mod data;\npub mod edit;\npub mod list;\n\nuse self::data::Note;\nuse crate::schema::notes::dsl::*;\n"));
    assert!(s.module.contains("pub fn load(req: &HttpRequest<AppState>, cid: i64) -> Result<Note, DbExecutorError> {"));
    assert!(s.module.contains("phantom: PhantomData::<Note>,"));
    assert!(s.module.ends_with("Err(DbExecutorError::Unknown)\n    }\n}\n"));
}

#[test]
fn list_file_text() {
    let s = generate("notes", &notes_catalog());
    assert!(s.list.starts_with("use actix_web::{ HttpResponse, HttpRequest, Error };\n"));
    assert!(s.list.contains("use super::data::{ Note };\n\nfn create_list(data: &[Note]) -> Vec<Row> {\n"));
    assert!(s.list.contains("    let body_cont = CellContent::new(ent.body.to_string());\n    let body_cell = Cell{ title: \"Body\".to_string(), content: body_cont, is_nullable: true };\n    cells.push(body_cell);\n"));
    assert!(!s.list.contains("user_id_cont"));
    assert!(!s.list.contains("let id_cont"));
    assert!(s.list.contains("url: format!(\"/note/{}\", ent.id),"));
    assert!(s.list.contains("url: format!(\"/notes/{}\", ent.id),"));
    assert!(s.list.contains("let query = notes.filter(id.is_not_null());"));
    assert!(s.list.contains("head: \"List of notes\".to_string()"));
    assert!(s.list.contains("default_meta(\"List of Note\")"));
}

#[test]
fn list_cell_headings_are_camel_case() {
    let cols = vec![col("id", "bigint", "int8", "NO"), col("due_date", "date", "date", "NO")];
    let cells = list_cells("id", &cols);
    assert_eq!(cells.len(), 1);
    assert_eq!(cells[0].title, "DueDate");
    assert!(!cells[0].nullable);
}

#[test]
fn edit_file_text() {
    let s = generate("notes", &notes_catalog());
    assert!(s.edit.contains("use super::data::{ Note, NoteData };\n"));
    assert!(s.edit.contains("        let body_field = EditableField{\n            input_type: InputType::TextArea,\n            title: \"Body\".to_string(),\n            name: \"body\".to_string(),\n            value: typ.body.to_string(),\n            links: links.clone(),\n            required: false,\n        };\n        fields.push(body_field);\n"));
    assert!(s.edit.contains("let query = notes.filter(id.eq(pid));"));
    assert!(s.edit.contains("head: \"Note Editor\".to_string()"));
    assert!(s.edit.contains("let query = diesel::update(target).set((\n        body.eq(form.body.clone()),\n        ));"));
}

#[test]
fn create_file_text() {
    let s = generate("notes", &notes_catalog());
    assert!(s.create.contains("use pinnaculum::modules::user::UserMeta;\n"));
    assert!(s.create.contains("    let typ = Note {\n        id: 0,\n        body: String::new(),\n        user_id: 0,\n    };\n"));
    assert!(s.create.contains("    let body_field = EditableField{\n        input_type: InputType::TextArea,\n"));
    assert!(s.create.contains("let query = insert_into(notes).values((\n            body.eq(form.body.clone()),\n            user_id.eq(form.user_id.clone()),\n        ));"));
    assert!(s.create.contains("info!(\"New Note {} by: {:?}-{:?}\""));
    assert!(s.create.contains("pub fn index(_req: &HttpRequest<AppState>) -> Result<HttpResponse, Error> {\n"));
}

#[test]
fn invalid_table_names_are_rejected() {
    let cols = notes_catalog();
    for name in ["abc", "to-do", "", "a_very_long_table_name_of_33_char", "tãble"].iter() {
        match scaffold(name, &cols) {
            Err(ScaffoldError::InvalidTableName) => {}
            _ => panic!("accepted {}", name),
        }
    }
    assert!(is_valid_table_name("abcd"));
    assert!(is_valid_table_name("a_very_long_table_name_of_32_chr"));
    assert!(!is_valid_table_name("a_very_long_table_name_of_33_char"));
    assert!(is_valid_table_name("Tbl_09"));
    assert!(!is_valid_table_name("tab le"));
}

#[test]
fn empty_catalog_is_an_error() {
    match scaffold("notes", &Vec::new()) {
        Err(ScaffoldError::EmptyCatalog) => {}
        _ => panic!("empty catalog accepted"),
    }
    assert!(ScaffoldContext::new("notes", &Vec::new()).is_none());
}

#[test]
fn unmapped_column_type_is_an_error() {
    let cols = vec![
        col("id", "bigint", "int8", "NO"),
        col("shape", "USER-DEFINED", "geometry", "NO"),
        col("count", "integer", "int4", "NO"),
    ];
    match scaffold("shapes", &cols) {
        Err(ScaffoldError::UnmappedType { sql_type, udt_name }) => {
            assert_eq!(sql_type, "USER-DEFINED");
            assert_eq!(udt_name, "geometry");
        }
        _ => panic!("unmapped type accepted"),
    }
}

#[test]
fn generation_is_deterministic() {
    let a = generate("todos", &todo_catalog());
    let b = generate("todos", &todo_catalog());
    assert_eq!(a.model, b.model);
    assert_eq!(a.list, b.list);
    assert_eq!(a.edit, b.edit);
    assert_eq!(a.create, b.create);
    assert_eq!(a.module, b.module);
}

#[test]
fn file_names() {
    let s = generate("notes", &notes_catalog());
    let model = s.model.clone();
    let files = s.files();
    let names: Vec<&str> = files.iter().map(|f| f.0.as_str()).collect();
    assert_eq!(names, vec!["data.rs", "list.rs", "edit.rs", "add.rs", "mod.rs"]);
    assert_eq!(files[0].1, model);
}

#[test]
fn context_names() {
    let cols = notes_catalog();
    let ctx = ScaffoldContext::new("todo_items", &cols).unwrap();
    assert_eq!(ctx.record_type, "TodoItem");
    assert_eq!(ctx.type_snake, "todo_item");
    assert_eq!(ctx.table_snake, "todo_items");
    assert_eq!(ctx.id_column, "id");
}
