//! `/permissions`: who may look at and change a user's permissions, and
//! the panel that shows and edits them.

use vstd::prelude::*;
use crate::permissions::{Permission, PermissionEditor, all_permissions, holds};
use crate::response::{Refusal, is_refusal, missing_permission, missing_permission_text, missing_permission_titled,
    no_member, no_member_text, no_member_title, no_permission_title, refusal, refuses};
use crate::text::{push_str, str_eq};

verus! {

/// Shows and edits the permissions of users and roles.
#[derive(Debug)]
pub struct PermissionsCommand;

/// The subcommands of `/permissions`.
#[derive(Clone, Copy, Debug, PartialEq, Eq, Structural)]
pub enum PermissionsSub {
    ForUser,
    ForRole,
}

/// The subcommand an option names.
pub open spec fn permissions_sub(name: Seq<char>) -> Option<PermissionsSub> {
    if name == "user"@ {
        Some(PermissionsSub::ForUser)
    } else if name == "role"@ {
        Some(PermissionsSub::ForRole)
    } else {
        None
    }
}

/// The first option naming a subcommand.
pub open spec fn first_permissions_sub(names: Seq<Seq<char>>) -> Option<PermissionsSub>
    decreases names.len(),
{
    if names.len() == 0 {
        None
    } else {
        match permissions_sub(names[0]) {
            Some(s) => Some(s),
            None => first_permissions_sub(names.skip(1)),
        }
    }
}

/// The views of some strings.
pub open spec fn views(v: Seq<String>) -> Seq<Seq<char>> {
    v.map_values(|s: String| s@)
}

/// How the permission panel of a user opens: the permissions shown, and
/// whether they can be changed from it.
#[derive(Debug)]
pub struct PermissionPanel {
    pub existing: Vec<Permission>,
    pub editable: bool,
}

/// The permissions shown for a user: every permission for the server's
/// owner and for administrators, the stored ones otherwise.
pub open spec fn shown_permissions(is_owner: bool, is_admin: bool, stored: Seq<Permission>) -> Seq<Permission> {
    if is_owner || is_admin { all_permissions() } else { stored }
}

/// The lines listing permissions: each in backticks on a line of its own.
pub open spec fn permission_lines(ps: Seq<Permission>) -> Seq<char>
    decreases ps.len(),
{
    if ps.len() == 0 {
        Seq::empty()
    } else {
        permission_lines(ps.drop_last()) + "`"@ + ps.last().spec_name() + "`\n"@
    }
}

/// The label of a permission in the editor's menu: `Remove p` for one
/// held, `Add p` for another.
pub open spec fn menu_label(held: Seq<Permission>, p: Permission) -> Seq<char> {
    if held.contains(p) { "Remove "@ + p.spec_name() } else { "Add "@ + p.spec_name() }
}

impl PermissionsCommand {
    /// The command's name.
    pub fn name(&self) -> (r: &'static str)
        ensures
            r@ == "permissions"@,
    {
        "permissions"
    }

    /// Checks the `permissions.view` permission, then picks the
    /// subcommand: the first option naming one, or a refusal.
    pub fn route(&self, held: &Vec<Permission>, options: &Vec<String>) -> (r: Result<PermissionsSub, Refusal>)
        ensures
            !held@.contains(Permission::PermissionsView) ==> refuses(r, no_permission_title(), missing_permission_text(Permission::PermissionsView)),
            held@.contains(Permission::PermissionsView) ==> match first_permissions_sub(views(options@)) {
                Some(s) => r == Ok::<PermissionsSub, Refusal>(s),
                None => refuses(r, "Invalid command"@, "You must specify a subcommand to use this command!"@),
            },
    {
        if !holds(held, Permission::PermissionsView) {
            return Err(missing_permission(Permission::PermissionsView));
        }
        let mut i: usize = 0;
        assert(views(options@).skip(0) =~= views(options@));
        while i < options.len()
            invariant
                held@.contains(Permission::PermissionsView),
                i <= options.len(),
                first_permissions_sub(views(options@)) == first_permissions_sub(views(options@).skip(i as int)),
            decreases options.len() - i,
        {
            let ghost rest = views(options@).skip(i as int);
            assert(rest[0] == options@[i as int]@);
            assert(rest.skip(1) =~= views(options@).skip(i + 1));
            let name = options[i].as_str();
            if str_eq(name, "user") {
                return Ok(PermissionsSub::ForUser);
            } else if str_eq(name, "role") {
                return Ok(PermissionsSub::ForRole);
            }
            i += 1;
        }
        assert(views(options@).skip(i as int).len() == 0);
        Err(refusal("Invalid command", "You must specify a subcommand to use this command!"))
    }

    /// Checks a request to see a user's permissions: the user must be
    /// given and rank below the invoker.
    pub fn check_user(&self, user: Option<u64>, moderator_rank: u64, target_rank: u64) -> (r: Result<u64, Refusal>)
        ensures
            match user {
                None => refuses(r, no_member_title(), no_member_text()),
                Some(u) => if moderator_rank <= target_rank {
                    refuses(r, "You cannot change the permissions of this user!"@,
                        "You cannot change the permissions of a user with a role equal to or higher than yours."@)
                } else {
                    r == Ok::<u64, Refusal>(u)
                },
            },
    {
        match user {
            None => Err(no_member()),
            Some(u) => if moderator_rank <= target_rank {
                Err(refusal("You cannot change the permissions of this user!",
                    "You cannot change the permissions of a user with a role equal to or higher than yours."))
            } else {
                Ok(u)
            },
        }
    }

    /// Opens the panel: the permissions shown (see `shown_permissions`),
    /// which can be changed only by holders of `permissions.edit`, and
    /// never for the owner or an administrator.
    pub fn open_panel(&self, is_owner: bool, is_admin: bool, stored: Vec<Permission>, can_edit: bool) -> (r: PermissionPanel)
        ensures
            r.existing@ == shown_permissions(is_owner, is_admin, stored@),
            r.editable == (can_edit && !is_owner && !is_admin),
    {
        let existing = if is_owner || is_admin { Permission::all() } else { stored };
        PermissionPanel { existing, editable: can_edit && !is_owner && !is_admin }
    }
}

/// The title of a user's panel.
pub fn panel_title(name: &str) -> (r: String)
    ensures
        r@ == name@ + "'s permissions"@,
{
    let mut s = String::new();
    push_str(&mut s, name);
    push_str(&mut s, "'s permissions");
    assert(s@ =~= name@ + "'s permissions"@);
    s
}

/// The list of permissions on the panel; see `permission_lines`.
pub fn panel_lines(ps: &Vec<Permission>) -> (r: String)
    ensures
        r@ == permission_lines(ps@),
{
    let mut s = String::new();
    let mut i: usize = 0;
    while i < ps.len()
        invariant
            i <= ps.len(),
            s@ == permission_lines(ps@.subrange(0, i as int)),
        decreases ps.len() - i,
    {
        let ghost next = ps@.subrange(0, i + 1);
        assert(next.drop_last() =~= ps@.subrange(0, i as int));
        push_str(&mut s, "`");
        push_str(&mut s, ps[i].name());
        push_str(&mut s, "`\n");
        i += 1;
        assert(s@ =~= permission_lines(ps@.subrange(0, i as int)));
    }
    assert(ps@.subrange(0, ps.len() as int) =~= ps@);
    s
}

/// One entry of the editor's menu: its label and its value, the
/// permission's name.
#[derive(Debug)]
pub struct MenuEntry {
    pub label: String,
    pub value: String,
}

/// The editor's menu: every permission, in order, labelled by whether it
/// is held; see `menu_label`.
pub fn panel_menu(held: &Vec<Permission>) -> (r: Vec<MenuEntry>)
    ensures
        r.len() == all_permissions().len(),
        forall|i: int| 0 <= i < r.len() ==> (#[trigger] r@[i]).label@ == menu_label(held@, all_permissions()[i])
            && r@[i].value@ == all_permissions()[i].spec_name(),
{
    let all = Permission::all();
    let mut r: Vec<MenuEntry> = Vec::new();
    let mut i: usize = 0;
    while i < all.len()
        invariant
            all@ == all_permissions(),
            i <= all.len(),
            r.len() == i,
            forall|j: int| 0 <= j < i ==> (#[trigger] r@[j]).label@ == menu_label(held@, all_permissions()[j])
                && r@[j].value@ == all_permissions()[j].spec_name(),
        decreases all.len() - i,
    {
        let p = all[i];
        let mut label = String::new();
        if crate::permissions::holds(held, p) {
            push_str(&mut label, "Remove ");
        } else {
            push_str(&mut label, "Add ");
        }
        push_str(&mut label, p.name());
        let mut value = String::new();
        push_str(&mut value, p.name());
        assert(label@ =~= menu_label(held@, p));
        assert(value@ =~= p.spec_name());
        r.push(MenuEntry { label, value });
        i += 1;
    }
    r
}

impl PermissionEditor {
    /// What someone who may not edit is told.
    pub fn refusal(&self) -> (r: Refusal)
        ensures
            is_refusal(r, "You do not have permission to do this"@, missing_permission_text(Permission::PermissionsEdit)),
    {
        missing_permission_titled("You do not have permission to do this", Permission::PermissionsEdit)
    }
}

/// The lines listing permissions inherited from roles: each in
/// backticks, then ` from ` and the role's mention, on a line of its own.
pub open spec fn inherited_lines(ps: Seq<(i64, Permission)>) -> Seq<char>
    decreases ps.len(),
{
    if ps.len() == 0 {
        Seq::empty()
    } else {
        inherited_lines(ps.drop_last()) + "`"@ + ps.last().1.spec_name() + "` from <@&"@
            + crate::text::decimal_text(ps.last().0 as int) + ">\n"@
    }
}

/// What the permission listing of a user says: their own permissions,
/// then those inherited from roles, with a sentence for each case.
pub open spec fn user_listing(user: i64, own: Seq<Permission>, inherited: Seq<(i64, Permission)>) -> Seq<char> {
    let head = "<@"@ + crate::text::decimal_text(user as int) + ">"@;
    if own.len() == 0 && inherited.len() == 0 {
        head + " has no permissions"@
    } else if inherited.len() == 0 {
        head + " has the following permissions:\n"@ + permission_lines(own)
    } else if own.len() == 0 {
        head + " has no permissions, but they have inherited these permissions from their roles:\n"@
            + inherited_lines(inherited)
    } else {
        head + " has the following permissions:\n"@ + permission_lines(own)
            + "\nThey have also inherited these permissions from their roles:\n"@ + inherited_lines(inherited)
    }
}

/// What the permission listing of a role says.
pub open spec fn role_listing(role: i64, own: Seq<Permission>) -> Seq<char> {
    let head = "<@&"@ + crate::text::decimal_text(role as int) + ">"@;
    if own.len() == 0 {
        head + " has no permissions"@
    } else {
        head + " has the following permissions:\n"@ + permission_lines(own)
    }
}

fn inherited_text(ps: &Vec<(i64, Permission)>) -> (r: String)
    ensures
        r@ == inherited_lines(ps@),
{
    let mut s = String::new();
    let mut i: usize = 0;
    while i < ps.len()
        invariant
            i <= ps.len(),
            s@ == inherited_lines(ps@.subrange(0, i as int)),
        decreases ps.len() - i,
    {
        let ghost next = ps@.subrange(0, i + 1);
        assert(next.drop_last() =~= ps@.subrange(0, i as int));
        let (role, p) = ps[i];
        push_str(&mut s, "`");
        push_str(&mut s, p.name());
        push_str(&mut s, "` from <@&");
        crate::text::push_i64(&mut s, role);
        push_str(&mut s, ">\n");
        i += 1;
        assert(s@ =~= inherited_lines(ps@.subrange(0, i as int)));
    }
    assert(ps@.subrange(0, ps.len() as int) =~= ps@);
    s
}

/// The permission listing of a user; see `user_listing`.
pub fn list_user_permissions(user: i64, own: &Vec<Permission>, inherited: &Vec<(i64, Permission)>) -> (r: String)
    ensures
        r@ == user_listing(user, own@, inherited@),
{
    let mut s = String::new();
    push_str(&mut s, "<@");
    crate::text::push_i64(&mut s, user);
    push_str(&mut s, ">");
    let ghost head = s@;
    if own.len() == 0 && inherited.len() == 0 {
        push_str(&mut s, " has no permissions");
    } else if inherited.len() == 0 {
        push_str(&mut s, " has the following permissions:\n");
        let l = panel_lines(own);
        push_str(&mut s, l.as_str());
    } else if own.len() == 0 {
        push_str(&mut s, " has no permissions, but they have inherited these permissions from their roles:\n");
        let l = inherited_text(inherited);
        push_str(&mut s, l.as_str());
    } else {
        push_str(&mut s, " has the following permissions:\n");
        let l = panel_lines(own);
        push_str(&mut s, l.as_str());
        push_str(&mut s, "\nThey have also inherited these permissions from their roles:\n");
        let m = inherited_text(inherited);
        push_str(&mut s, m.as_str());
    }
    assert(s@ =~= user_listing(user, own@, inherited@));
    s
}

/// The permission listing of a role; see `role_listing`.
pub fn list_role_permissions(role: i64, own: &Vec<Permission>) -> (r: String)
    ensures
        r@ == role_listing(role, own@),
{
    let mut s = String::new();
    push_str(&mut s, "<@&");
    crate::text::push_i64(&mut s, role);
    push_str(&mut s, ">");
    if own.len() == 0 {
        push_str(&mut s, " has no permissions");
    } else {
        push_str(&mut s, " has the following permissions:\n");
        let l = panel_lines(own);
        push_str(&mut s, l.as_str());
    }
    assert(s@ =~= role_listing(role, own@));
    s
}

/// The list of every permission: a heading, then each in backticks on a
/// line of its own.
pub fn list_all_permissions() -> (r: String)
    ensures
        r@ == "The following permissions are available:\n"@ + permission_lines(all_permissions()),
{
    let mut s = String::new();
    push_str(&mut s, "The following permissions are available:\n");
    let all = Permission::all();
    let l = panel_lines(&all);
    push_str(&mut s, l.as_str());
    assert(s@ =~= "The following permissions are available:\n"@ + permission_lines(all_permissions()));
    s
}

/// The position of the entry for role `id`, if any.
pub open spec fn entry_of(m: Seq<(i64, Permission)>, id: i64) -> Option<int>
    decreases m.len(),
{
    if m.len() == 0 {
        None
    } else {
        match entry_of(m.drop_last(), id) {
            Some(k) => Some(k),
            None => if m.last().0 == id { Some(m.len() - 1) } else { None },
        }
    }
}

/// What a user inherits from their roles' grants `(role, permission)`,
/// taken in order: each grant of a permission the user does not hold
/// sets the entry of its role, so each role keeps one entry, its last such
/// grant. Entries come in the order their roles are first met (the
/// listing keeps them in a map whose order is not specified).
pub open spec fn inherited_from(own: Seq<Permission>, grants: Seq<(i64, Permission)>) -> Seq<(i64, Permission)>
    decreases grants.len(),
{
    if grants.len() == 0 {
        Seq::empty()
    } else {
        let m = inherited_from(own, grants.drop_last());
        let g = grants.last();
        if own.contains(g.1) {
            m
        } else {
            match entry_of(m, g.0) {
                Some(k) => m.update(k, g),
                None => m.push(g),
            }
        }
    }
}

proof fn lemma_entry_of(m: Seq<(i64, Permission)>, id: i64)
    ensures
        match entry_of(m, id) {
            Some(k) => 0 <= k < m.len() && m[k].0 == id && forall|j: int| 0 <= j < k ==> m[j].0 != id,
            None => forall|j: int| 0 <= j < m.len() ==> m[j].0 != id,
        },
    decreases m.len(),
{
    if m.len() > 0 {
        lemma_entry_of(m.drop_last(), id);
        assert forall|j: int| 0 <= j < m.len() - 1 implies m.drop_last()[j] == m[j] by {}
    }
}

fn find_role(m: &Vec<(i64, Permission)>, id: i64) -> (r: Option<usize>)
    ensures
        match r {
            Some(k) => entry_of(m@, id) == Some(k as int),
            None => entry_of(m@, id) is None,
        },
{
    proof {
        lemma_entry_of(m@, id);
    }
    let mut i: usize = 0;
    while i < m.len()
        invariant
            i <= m.len(),
            forall|j: int| 0 <= j < i ==> m@[j].0 != id,
            match entry_of(m@, id) {
                Some(k) => 0 <= k < m@.len() && m@[k].0 == id && forall|j: int| 0 <= j < k ==> m@[j].0 != id,
                None => forall|j: int| 0 <= j < m@.len() ==> m@[j].0 != id,
            },
        decreases m.len() - i,
    {
        if m[i].0 == id {
            return Some(i);
        }
        i += 1;
    }
    None
}

/// The permissions a user inherits from their roles; see
/// `inherited_from`. `grants` lists each role's permissions in turn.
pub fn inherited_permissions(own: &Vec<Permission>, grants: &Vec<(i64, Permission)>) -> (r: Vec<(i64, Permission)>)
    ensures
        r@ == inherited_from(own@, grants@),
{
    let mut m: Vec<(i64, Permission)> = Vec::new();
    let mut i: usize = 0;
    while i < grants.len()
        invariant
            i <= grants.len(),
            m@ == inherited_from(own@, grants@.subrange(0, i as int)),
        decreases grants.len() - i,
    {
        let ghost next = grants@.subrange(0, i + 1);
        assert(next.drop_last() =~= grants@.subrange(0, i as int));
        let g = grants[i];
        if !crate::permissions::holds(own, g.1) {
            match find_role(&m, g.0) {
                Some(k) => {
                    proof {
                        lemma_entry_of(m@, g.0);
                    }
                    m.set(k, g);
                },
                None => {
                    m.push(g);
                },
            }
        }
        i += 1;
    }
    assert(grants@.subrange(0, grants.len() as int) =~= grants@);
    m
}

/// What a user inherits names each role once, and never a permission the
/// user holds.
pub proof fn law_inherited_once_per_role(own: Seq<Permission>, grants: Seq<(i64, Permission)>)
    ensures
        forall|a: int, b: int| 0 <= a < b < inherited_from(own, grants).len() ==>
            (#[trigger] inherited_from(own, grants)[a]).0 != (#[trigger] inherited_from(own, grants)[b]).0,
        forall|a: int| 0 <= a < inherited_from(own, grants).len() ==>
            !own.contains((#[trigger] inherited_from(own, grants)[a]).1),
    decreases grants.len(),
{
    if grants.len() > 0 {
        law_inherited_once_per_role(own, grants.drop_last());
        let m = inherited_from(own, grants.drop_last());
        let g = grants.last();
        lemma_entry_of(m, g.0);
    }
}

} // verus!
