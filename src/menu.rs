//! The application's standard menus.
use vstd::prelude::*;
use crate::navigation::{Link, Permission};

verus! {

/// The top menu: the project list, the project todos, and the account entry.
pub fn default_top_menu() -> (r: Vec<Link>)
    ensures
        r@.len() == 3,
        r@[0].visual@ == "Project list"@ && r@[0].url@ == "/project/list"@,
        r@[1].visual@ == "Project todos"@ && r@[1].url@ == "/project/todolist"@,
        r@[0].icon@ == Seq::<char>::empty() && r@[1].icon@ == Seq::<char>::empty(),
        r@[2].visual@ == "My Account"@ && r@[2].url@ == ""@ && r@[2].icon@ == "fa-hourglass-start"@,
        forall|i: int|
            0 <= i < 3 ==> !(#[trigger] r@[i]).active && r@[i].clearance == Permission::Browse
                && r@[i].children is None,
{
    let mut lnk: Vec<Link> = Vec::new();
    lnk.push(Link::new("Project list", "/project/list"));
    lnk.push(Link::new("Project todos", "/project/todolist"));
    let myacc_link = Link {
        active: false,
        children: None,
        clearance: Permission::Browse,
        icon: "fa-hourglass-start".to_owned(),
        url: "".to_owned(),
        visual: "My Account".to_owned(),
    };
    lnk.push(myacc_link);
    lnk
}

/// The side menu: one `Project` entry whose children list and add projects.
pub fn default_menu() -> (r: Vec<Link>)
    ensures
        r@.len() == 1,
        r@[0].visual@ == "Project"@ && r@[0].url@ == ""@ && r@[0].icon@ == "fa-ticket-alt"@,
        !r@[0].active && r@[0].clearance == Permission::Browse,
        r@[0].child_seq().len() == 2,
        r@[0].child_seq()[0].visual@ == "List"@ && r@[0].child_seq()[0].url@ == "/project/list"@,
        r@[0].child_seq()[1].visual@ == "Add"@ && r@[0].child_seq()[1].url@ == "/project/add"@,
        r@[0].children is Some,
{
    let mut lnk: Vec<Link> = Vec::new();
    let mut project_links: Vec<Link> = Vec::new();
    project_links.push(Link::new("List", "/project/list"));
    project_links.push(Link::new("Add", "/project/add"));
    let project_link = Link {
        active: false,
        children: Some(project_links),
        clearance: Permission::Browse,
        icon: "fa-ticket-alt".to_owned(),
        url: "".to_owned(),
        visual: "Project".to_owned(),
    };
    lnk.push(project_link);
    lnk
}

} // verus!
