//! Scaffold generator: turns the column catalog of one relational table into
//! the source text of a data model, a list view, an edit view and a create
//! view, following the conventions of the surrounding web application.
pub mod text;
pub mod typemap;
pub mod naming;
pub mod navigation;
pub mod classify;
pub mod column;
pub mod plan;
pub mod model;
pub mod list_view;
pub mod edit_view;
pub mod create_view;
pub mod scaffold;
pub mod menu;
pub mod meta;
