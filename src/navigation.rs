//! The view model that generated code fills: navigation links, permission
//! sets, list rows and cells, and editable form fields.
use vstd::prelude::*;

verus! {

/// A navigation link, possibly with nested child links.
#[derive(Debug)]
pub struct Link {
    pub visual: String,
    pub url: String,
    pub active: bool,
    pub icon: String,
    pub clearance: Permission,
    pub children: Option<Vec<Link>>,
}

impl Link {
    /// The child links, none when the link has no child list.
    pub open spec fn child_seq(&self) -> Seq<Link> {
        match self.children {
            Some(v) => v@,
            None => Seq::empty(),
        }
    }

    /// An inactive link without icon or children, visible to browsing users.
    pub fn new(visual: &str, url: &str) -> (r: Link)
        ensures
            r.visual@ == visual@,
            r.url@ == url@,
            !r.active,
            r.icon@ == Seq::<char>::empty(),
            r.clearance == Permission::Browse,
            r.children is None,
    {
        Link {
            visual: visual.to_owned(),
            url: url.to_owned(),
            active: false,
            icon: String::new(),
            clearance: Permission::Browse,
            children: None,
        }
    }

    /// Appends `child` to the child links, starting a child list if there is none.
    pub fn add_child(&mut self, child: Link)
        ensures
            final(self).children is Some,
            final(self).child_seq() == old(self).child_seq().push(child),
            final(self).visual == old(self).visual,
            final(self).url == old(self).url,
            final(self).active == old(self).active,
            final(self).icon == old(self).icon,
            final(self).clearance == old(self).clearance,
    {
        match &mut self.children {
            Some(chld) => {
                chld.push(child);
            },
            None => {
                let mut chld: Vec<Link> = Vec::new();
                chld.push(child);
                self.children = Some(chld);
            },
        }
    }
}

/// The five permissions a user may hold on a resource.
#[derive(Debug, Clone, Copy, PartialEq, Eq, Structural)]
pub enum Permission {
    Browse,
    Read,
    Edit,
    Add,
    Delete,
}

/// Which of the five permissions are granted.
#[derive(Debug, Clone, Copy, PartialEq, Eq, Structural)]
pub struct PermissionSet {
    pub browse: bool,
    pub read: bool,
    pub edit: bool,
    pub add: bool,
    pub delete: bool,
}

/// `s`, followed by `p` when `granted`.
pub open spec fn push_if(s: Seq<Permission>, granted: bool, p: Permission) -> Seq<Permission> {
    if granted {
        s.push(p)
    } else {
        s
    }
}

impl PermissionSet {
    /// The granted permissions in the order browse, read, edit, add, delete.
    pub open spec fn granted(&self) -> Seq<Permission> {
        push_if(
            push_if(
                push_if(
                    push_if(push_if(Seq::empty(), self.browse, Permission::Browse), self.read, Permission::Read),
                    self.edit,
                    Permission::Edit,
                ),
                self.add,
                Permission::Add,
            ),
            self.delete,
            Permission::Delete,
        )
    }

    /// The granted permissions, in the order browse, read, edit, add, delete.
    pub fn as_vec(&self) -> (r: Vec<Permission>)
        ensures
            r@ == self.granted(),
    {
        let mut res: Vec<Permission> = Vec::new();
        if self.browse {
            res.push(Permission::Browse);
        }
        if self.read {
            res.push(Permission::Read);
        }
        if self.edit {
            res.push(Permission::Edit);
        }
        if self.add {
            res.push(Permission::Add);
        }
        if self.delete {
            res.push(Permission::Delete);
        }
        res
    }

    /// The set that grants nothing.
    pub fn deny() -> (r: PermissionSet)
        ensures
            !r.browse && !r.read && !r.edit && !r.add && !r.delete,
    {
        PermissionSet { browse: false, read: false, edit: false, add: false, delete: false }
    }
}

/// The side menu of the user pages: the user list and the user's profile.
pub fn default_menu() -> (r: Vec<Link>)
    ensures
        r@.len() == 2,
        r@[0].visual@ == "User list"@ && r@[0].url@ == "/user/list"@,
        r@[1].visual@ == "My Profile"@ && r@[1].url@ == "/user/"@,
        forall|i: int|
            0 <= i < 2 ==> !(#[trigger] r@[i]).active && r@[i].icon@ == Seq::<char>::empty()
                && r@[i].clearance == Permission::Browse && r@[i].children is None,
{
    let mut r: Vec<Link> = Vec::new();
    r.push(Link::new("User list", "/user/list"));
    r.push(Link::new("My Profile", "/user/"));
    r
}

/// One entry of a generic listing.
pub struct Listing {
    pub id: i64,
    pub name: String,
    pub date: String,
    pub detail_first: String,
    pub detail_last: String,
    pub comment: Option<String>,
    pub edit: Link,
    pub delete: Link,
}

/// Relies on `rand::random::<i64>`: some 64-bit integer, of which nothing
/// is promised.
#[verifier::external_body]
fn random_id() -> (r: i64) {
    rand::random::<i64>()
}

impl Listing {
    /// An entry with a random id and an empty date.
    pub fn new(name: &str) -> (r: Listing)
        ensures
            r.name@ == name@,
            r.date@ == Seq::<char>::empty(),
            r.detail_first@ == Seq::<char>::empty(),
            r.detail_last@ == Seq::<char>::empty(),
            r.comment is None,
            r.edit.visual@ == Seq::<char>::empty() && r.edit.url@ == Seq::<char>::empty(),
            r.delete.visual@ == Seq::<char>::empty() && r.delete.url@ == Seq::<char>::empty(),
    {
        Listing::with_id(name, random_id())
    }

    /// An entry with the given id and an empty date.
    pub fn with_id(name: &str, id: i64) -> (r: Listing)
        ensures
            r.id == id,
            r.name@ == name@,
            r.date@ == Seq::<char>::empty(),
            r.detail_first@ == Seq::<char>::empty(),
            r.detail_last@ == Seq::<char>::empty(),
            r.comment is None,
            r.edit.visual@ == Seq::<char>::empty() && r.edit.url@ == Seq::<char>::empty(),
            r.delete.visual@ == Seq::<char>::empty() && r.delete.url@ == Seq::<char>::empty(),
    {
        proof {
            reveal_strlit("");
        }
        Listing::with_id_date(name, id, "")
    }

    /// An entry with the given id and date, empty details, no comment, and
    /// blank edit and delete links.
    pub fn with_id_date(name: &str, id: i64, date: &str) -> (r: Listing)
        ensures
            r.id == id,
            r.name@ == name@,
            r.date@ == date@,
            r.detail_first@ == Seq::<char>::empty(),
            r.detail_last@ == Seq::<char>::empty(),
            r.comment is None,
            r.edit.visual@ == Seq::<char>::empty() && r.edit.url@ == Seq::<char>::empty(),
            r.delete.visual@ == Seq::<char>::empty() && r.delete.url@ == Seq::<char>::empty(),
    {
        let empty = "";
        proof {
            reveal_strlit("");
        }
        Listing {
            id,
            name: name.to_owned(),
            date: date.to_owned(),
            detail_first: String::new(),
            detail_last: String::new(),
            comment: None,
            edit: Link::new(empty, empty),
            delete: Link::new(empty, empty),
        }
    }
}

/// Title and heading of a list page, and whether it offers a search box.
pub struct ListContext {
    pub head: String,
    pub title: String,
    pub search: bool,
}

/// One row of a list page: its cells and its action links.
pub struct Row {
    pub cells: Vec<Cell>,
    pub links: Vec<Link>,
}

/// One cell of a list row.
pub struct Cell {
    pub title: String,
    pub content: CellContent,
    pub is_nullable: bool,
}

/// The text of a cell, with three optional lines of detail.
pub struct CellContent {
    pub title: String,
    pub detail: (String, String, String),
}

impl CellContent {
    /// Content with the given text and empty details.
    pub fn new(title: String) -> (r: CellContent)
        ensures
            r.title@ == title@,
            r.detail.0@ == Seq::<char>::empty(),
            r.detail.1@ == Seq::<char>::empty(),
            r.detail.2@ == Seq::<char>::empty(),
    {
        CellContent { title, detail: (String::new(), String::new(), String::new()) }
    }
}

/// The kind of form control that edits a field.
#[derive(Debug, Clone, Copy, PartialEq, Eq, Structural)]
pub enum InputType {
    Input,
    TextArea,
    Select,
    Hidden,
}

/// The name of an input kind as generated code writes it.
pub open spec fn input_type_name(k: InputType) -> Seq<char> {
    match k {
        InputType::Input => "Input"@,
        InputType::TextArea => "TextArea"@,
        InputType::Select => "Select"@,
        InputType::Hidden => "Hidden"@,
    }
}

impl InputType {
    /// The variant's name, as generated code writes it.
    pub fn name(&self) -> (r: &'static str)
        ensures
            r@ == input_type_name(*self),
    {
        match self {
            InputType::Input => "Input",
            InputType::TextArea => "TextArea",
            InputType::Select => "Select",
            InputType::Hidden => "Hidden",
        }
    }
}

/// One field of an edit or create form.
pub struct EditableField {
    pub input_type: InputType,
    pub title: String,
    pub name: String,
    pub value: String,
    pub links: Vec<Link>,
    pub required: bool,
}

} // verus!
