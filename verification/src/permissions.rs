//! The bot's own permissions, which server staff grant to users and roles,
//! and the rules that decide who holds one.

use vstd::prelude::*;
use crate::text::str_eq;

verus! {

/// A permission of the bot.
#[derive(Clone, Copy, Debug, PartialEq, Eq, Structural)]
pub enum Permission {
    ConfigEdit,
    GiveawayCreate,
    GiveawayDelete,
    GiveawayEnd,
    GiveawayReroll,
    ModerationDuration,
    ModerationExpire,
    ModerationKick,
    ModerationMute,
    ModerationPurge,
    ModerationReason,
    ModerationRemove,
    ModerationSearchOthers,
    ModerationSearchOthersExpired,
    ModerationSearchSelf,
    ModerationSearchSelfExpired,
    ModerationStrike,
    ModerationUnban,
    ModerationUnmute,
    PermissionsEdit,
    PermissionsView,
    XPEdit,
}

/// Every permission, in the order the bot lists them.
pub open spec fn all_permissions() -> Seq<Permission> {
    seq![
        Permission::ConfigEdit,
        Permission::GiveawayCreate,
        Permission::GiveawayDelete,
        Permission::GiveawayEnd,
        Permission::GiveawayReroll,
        Permission::ModerationDuration,
        Permission::ModerationExpire,
        Permission::ModerationKick,
        Permission::ModerationMute,
        Permission::ModerationPurge,
        Permission::ModerationReason,
        Permission::ModerationRemove,
        Permission::ModerationSearchOthers,
        Permission::ModerationSearchOthersExpired,
        Permission::ModerationSearchSelf,
        Permission::ModerationSearchSelfExpired,
        Permission::ModerationStrike,
        Permission::ModerationUnban,
        Permission::ModerationUnmute,
        Permission::PermissionsEdit,
        Permission::PermissionsView,
        Permission::XPEdit,
    ]
}

impl Permission {
    /// The name under which the permission is shown and stored.
    pub open spec fn spec_name(self) -> Seq<char> {
        match self {
            Permission::ConfigEdit => "config.edit"@,
            Permission::GiveawayCreate => "giveaway.create"@,
            Permission::GiveawayDelete => "giveaway.delete"@,
            Permission::GiveawayEnd => "giveaway.end"@,
            Permission::GiveawayReroll => "giveaway.reroll"@,
            Permission::ModerationDuration => "moderation.duration"@,
            Permission::ModerationExpire => "moderation.expire"@,
            Permission::ModerationKick => "moderation.kick"@,
            Permission::ModerationMute => "moderation.mute"@,
            Permission::ModerationPurge => "moderation.purge"@,
            Permission::ModerationReason => "moderation.reason"@,
            Permission::ModerationRemove => "moderation.remove"@,
            Permission::ModerationSearchOthers => "moderation.search.others"@,
            Permission::ModerationSearchOthersExpired => "moderation.search.others.expired"@,
            Permission::ModerationSearchSelf => "moderation.search.self"@,
            Permission::ModerationSearchSelfExpired => "moderation.search.self.expired"@,
            Permission::ModerationStrike => "moderation.strike"@,
            Permission::ModerationUnban => "moderation.unban"@,
            Permission::ModerationUnmute => "moderation.unmute"@,
            Permission::PermissionsEdit => "permissions.edit"@,
            Permission::PermissionsView => "permissions.view"@,
            Permission::XPEdit => "xp.edit"@,
        }
    }

    /// The name under which the permission is shown and stored.
    pub fn name(&self) -> (r: &'static str)
        ensures
            r@ == self.spec_name(),
    {
        match self {
            Permission::ConfigEdit => "config.edit",
            Permission::GiveawayCreate => "giveaway.create",
            Permission::GiveawayDelete => "giveaway.delete",
            Permission::GiveawayEnd => "giveaway.end",
            Permission::GiveawayReroll => "giveaway.reroll",
            Permission::ModerationDuration => "moderation.duration",
            Permission::ModerationExpire => "moderation.expire",
            Permission::ModerationKick => "moderation.kick",
            Permission::ModerationMute => "moderation.mute",
            Permission::ModerationPurge => "moderation.purge",
            Permission::ModerationReason => "moderation.reason",
            Permission::ModerationRemove => "moderation.remove",
            Permission::ModerationSearchOthers => "moderation.search.others",
            Permission::ModerationSearchOthersExpired => "moderation.search.others.expired",
            Permission::ModerationSearchSelf => "moderation.search.self",
            Permission::ModerationSearchSelfExpired => "moderation.search.self.expired",
            Permission::ModerationStrike => "moderation.strike",
            Permission::ModerationUnban => "moderation.unban",
            Permission::ModerationUnmute => "moderation.unmute",
            Permission::PermissionsEdit => "permissions.edit",
            Permission::PermissionsView => "permissions.view",
            Permission::XPEdit => "xp.edit",
        }
    }

    /// The permission with the given name, if any.
    pub fn from_name(name: &str) -> (r: Option<Permission>)
        ensures
            match r {
                Some(p) => p.spec_name() == name@,
                None => forall|p: Permission| p.spec_name() != name@,
            },
    {
        if str_eq(name, "config.edit") {
            return Some(Permission::ConfigEdit);
        }
        if str_eq(name, "giveaway.create") {
            return Some(Permission::GiveawayCreate);
        }
        if str_eq(name, "giveaway.delete") {
            return Some(Permission::GiveawayDelete);
        }
        if str_eq(name, "giveaway.end") {
            return Some(Permission::GiveawayEnd);
        }
        if str_eq(name, "giveaway.reroll") {
            return Some(Permission::GiveawayReroll);
        }
        if str_eq(name, "moderation.duration") {
            return Some(Permission::ModerationDuration);
        }
        if str_eq(name, "moderation.expire") {
            return Some(Permission::ModerationExpire);
        }
        if str_eq(name, "moderation.kick") {
            return Some(Permission::ModerationKick);
        }
        if str_eq(name, "moderation.mute") {
            return Some(Permission::ModerationMute);
        }
        if str_eq(name, "moderation.purge") {
            return Some(Permission::ModerationPurge);
        }
        if str_eq(name, "moderation.reason") {
            return Some(Permission::ModerationReason);
        }
        if str_eq(name, "moderation.remove") {
            return Some(Permission::ModerationRemove);
        }
        if str_eq(name, "moderation.search.others") {
            return Some(Permission::ModerationSearchOthers);
        }
        if str_eq(name, "moderation.search.others.expired") {
            return Some(Permission::ModerationSearchOthersExpired);
        }
        if str_eq(name, "moderation.search.self") {
            return Some(Permission::ModerationSearchSelf);
        }
        if str_eq(name, "moderation.search.self.expired") {
            return Some(Permission::ModerationSearchSelfExpired);
        }
        if str_eq(name, "moderation.strike") {
            return Some(Permission::ModerationStrike);
        }
        if str_eq(name, "moderation.unban") {
            return Some(Permission::ModerationUnban);
        }
        if str_eq(name, "moderation.unmute") {
            return Some(Permission::ModerationUnmute);
        }
        if str_eq(name, "permissions.edit") {
            return Some(Permission::PermissionsEdit);
        }
        if str_eq(name, "permissions.view") {
            return Some(Permission::PermissionsView);
        }
        if str_eq(name, "xp.edit") {
            return Some(Permission::XPEdit);
        }
        None
    }

    /// Every permission, in the order the bot lists them.
    pub fn all() -> (r: Vec<Permission>)
        ensures
            r@ == all_permissions(),
    {
        let mut r: Vec<Permission> = Vec::new();
        r.push(Permission::ConfigEdit);
        r.push(Permission::GiveawayCreate);
        r.push(Permission::GiveawayDelete);
        r.push(Permission::GiveawayEnd);
        r.push(Permission::GiveawayReroll);
        r.push(Permission::ModerationDuration);
        r.push(Permission::ModerationExpire);
        r.push(Permission::ModerationKick);
        r.push(Permission::ModerationMute);
        r.push(Permission::ModerationPurge);
        r.push(Permission::ModerationReason);
        r.push(Permission::ModerationRemove);
        r.push(Permission::ModerationSearchOthers);
        r.push(Permission::ModerationSearchOthersExpired);
        r.push(Permission::ModerationSearchSelf);
        r.push(Permission::ModerationSearchSelfExpired);
        r.push(Permission::ModerationStrike);
        r.push(Permission::ModerationUnban);
        r.push(Permission::ModerationUnmute);
        r.push(Permission::PermissionsEdit);
        r.push(Permission::PermissionsView);
        r.push(Permission::XPEdit);
        assert(r@ =~= all_permissions());
        r
    }
}

proof fn lemma_all_permissions_complete(p: Permission)
    ensures
        all_permissions().contains(p),
{
    match p {
        Permission::ConfigEdit => assert(all_permissions()[0] == p),
        Permission::GiveawayCreate => assert(all_permissions()[1] == p),
        Permission::GiveawayDelete => assert(all_permissions()[2] == p),
        Permission::GiveawayEnd => assert(all_permissions()[3] == p),
        Permission::GiveawayReroll => assert(all_permissions()[4] == p),
        Permission::ModerationDuration => assert(all_permissions()[5] == p),
        Permission::ModerationExpire => assert(all_permissions()[6] == p),
        Permission::ModerationKick => assert(all_permissions()[7] == p),
        Permission::ModerationMute => assert(all_permissions()[8] == p),
        Permission::ModerationPurge => assert(all_permissions()[9] == p),
        Permission::ModerationReason => assert(all_permissions()[10] == p),
        Permission::ModerationRemove => assert(all_permissions()[11] == p),
        Permission::ModerationSearchOthers => assert(all_permissions()[12] == p),
        Permission::ModerationSearchOthersExpired => assert(all_permissions()[13] == p),
        Permission::ModerationSearchSelf => assert(all_permissions()[14] == p),
        Permission::ModerationSearchSelfExpired => assert(all_permissions()[15] == p),
        Permission::ModerationStrike => assert(all_permissions()[16] == p),
        Permission::ModerationUnban => assert(all_permissions()[17] == p),
        Permission::ModerationUnmute => assert(all_permissions()[18] == p),
        Permission::PermissionsEdit => assert(all_permissions()[19] == p),
        Permission::PermissionsView => assert(all_permissions()[20] == p),
        Permission::XPEdit => assert(all_permissions()[21] == p),
    }
}


/// The position of the first `p` in `s` (or `s.len()` when absent).
pub open spec fn first_index(s: Seq<Permission>, p: Permission) -> int
    decreases s.len(),
{
    if s.len() == 0 {
        0
    } else if s[0] == p {
        0
    } else {
        1 + first_index(s.skip(1), p)
    }
}

proof fn lemma_first_index(s: Seq<Permission>, p: Permission)
    ensures
        0 <= first_index(s, p) <= s.len(),
        s.contains(p) ==> first_index(s, p) < s.len() && s[first_index(s, p)] == p,
        !s.contains(p) ==> first_index(s, p) == s.len(),
        forall|j: int| 0 <= j < first_index(s, p) ==> s[j] != p,
    decreases s.len(),
{
    if s.len() > 0 && s[0] != p {
        lemma_first_index(s.skip(1), p);
        if s.contains(p) {
            let k = choose|k: int| 0 <= k < s.len() && s[k] == p;
            assert(s.skip(1)[k - 1] == p);
        }
        if s.skip(1).contains(p) {
            let k = choose|k: int| 0 <= k < s.skip(1).len() && s.skip(1)[k] == p;
            assert(s[k + 1] == p);
        }
        assert forall|j: int| 0 <= j < first_index(s, p) implies s[j] != p by {
            if j > 0 {
                assert(s[j] == s.skip(1)[j - 1]);
            }
        }
    }
}

/// The permissions after choosing `p` in the editor: a held permission is
/// dropped (its first occurrence), another is added at the end.
pub open spec fn toggled(s: Seq<Permission>, p: Permission) -> Seq<Permission> {
    if s.contains(p) {
        s.remove(first_index(s, p))
    } else {
        s.push(p)
    }
}

/// Whether `s` holds `p`.
pub fn holds(s: &Vec<Permission>, p: Permission) -> (r: bool)
    ensures
        r == s@.contains(p),
{
    let mut i: usize = 0;
    while i < s.len()
        invariant
            i <= s.len(),
            forall|j: int| 0 <= j < i ==> s@[j] != p,
        decreases s.len() - i,
    {
        if s[i] == p {
            return true;
        }
        i += 1;
    }
    false
}

/// Chooses `p` in the editor: see `toggled`.
pub fn toggle(perms: &mut Vec<Permission>, p: Permission)
    ensures
        final(perms)@ == toggled(old(perms)@, p),
{
    proof {
        lemma_first_index(perms@, p);
    }
    let ghost fi = first_index(perms@, p);
    let mut i: usize = 0;
    while i < perms.len()
        invariant
            i <= perms.len(),
            perms@ == old(perms)@,
            forall|j: int| 0 <= j < i ==> perms@[j] != p,
            fi == first_index(perms@, p),
            0 <= fi <= perms@.len(),
            perms@.contains(p) ==> fi < perms@.len() && perms@[fi] == p,
            !perms@.contains(p) ==> fi == perms@.len(),
            forall|j: int| 0 <= j < fi ==> perms@[j] != p,
            i <= fi,
        decreases perms.len() - i,
    {
        if perms[i] == p {
            assert(perms@.contains(p));
            assert(i == first_index(perms@, p));
            perms.remove(i);
            return;
        }
        i += 1;
    }
    assert(!perms@.contains(p));
    perms.push(p);
}

/// The members of `s`, in order, that `other` does not hold.
pub open spec fn missing_from(s: Seq<Permission>, other: Seq<Permission>) -> Seq<Permission>
    decreases s.len(),
{
    if s.len() == 0 {
        Seq::empty()
    } else if other.contains(s.last()) {
        missing_from(s.drop_last(), other)
    } else {
        missing_from(s.drop_last(), other).push(s.last())
    }
}

proof fn lemma_push_contains(t: Seq<Permission>, x: Permission, p: Permission)
    ensures
        t.push(x).contains(p) <==> (t.contains(p) || x == p),
{
    if t.contains(p) {
        let k = choose|k: int| 0 <= k < t.len() && t[k] == p;
        assert(t.push(x)[k] == p);
    }
    if x == p {
        assert(t.push(x)[t.len() as int] == p);
    }
    if t.push(x).contains(p) {
        let k = choose|k: int| 0 <= k < t.push(x).len() && t.push(x)[k] == p;
        if k < t.len() {
            assert(t[k] == p);
        }
    }
}

proof fn lemma_missing_from_members(s: Seq<Permission>, other: Seq<Permission>, p: Permission)
    ensures
        missing_from(s, other).contains(p) <==> (s.contains(p) && !other.contains(p)),
    decreases s.len(),
{
    if s.len() > 0 {
        let t = s.drop_last();
        let x = s.last();
        lemma_missing_from_members(t, other, p);
        assert(s =~= t.push(x));
        lemma_push_contains(t, x, p);
        lemma_push_contains(missing_from(t, other), x, p);
    }
}

/// The members of `s`, in order, that `other` does not hold.
pub fn permissions_missing_from(s: &Vec<Permission>, other: &Vec<Permission>) -> (r: Vec<Permission>)
    ensures
        r@ == missing_from(s@, other@),
{
    let mut r: Vec<Permission> = Vec::new();
    let mut i: usize = 0;
    while i < s.len()
        invariant
            i <= s.len(),
            r@ == missing_from(s@.subrange(0, i as int), other@),
        decreases s.len() - i,
    {
        let ghost prefix = s@.subrange(0, i + 1);
        assert(prefix.drop_last() =~= s@.subrange(0, i as int));
        if !holds(other, s[i]) {
            r.push(s[i]);
        }
        i += 1;
    }
    assert(s@.subrange(0, s.len() as int) =~= s@);
    r
}

/// What a user of the permission editor did.
#[derive(Clone, Copy, Debug, PartialEq, Eq, Structural)]
pub enum EditorEvent {
    /// The "done" button.
    Done,
    /// Another button.
    OtherButton,
    /// A permission chosen in the menu.
    Chose(Permission),
    /// Any other kind of component.
    OtherComponent,
}

/// What the editor does in answer.
#[derive(Clone, Debug, PartialEq, Eq)]
pub enum EditorStep {
    /// The user may not edit: they are told they lack `permissions.edit`.
    Refused,
    /// Nothing changes.
    Ignored,
    /// The chosen permissions changed; the message is redrawn.
    Changed,
    /// Editing ends: `remove` are revoked and `add` granted.
    Finished { remove: Vec<Permission>, add: Vec<Permission> },
}

/// The permission editor for one user: what they held when it opened and
/// what is chosen now.
#[derive(Debug)]
pub struct PermissionEditor {
    pub existing: Vec<Permission>,
    pub chosen: Vec<Permission>,
}

impl PermissionEditor {
    /// An editor opened on what the user holds.
    pub fn new(existing: Vec<Permission>) -> (r: PermissionEditor)
        ensures
            r.existing@ == existing@,
            r.chosen@ == existing@,
    {
        let chosen = existing.clone();
        PermissionEditor { existing, chosen }
    }

    /// Handles one interaction. `by_invoker` tells whether it came from the
    /// person who opened the editor, `actor_can_edit` whether its author
    /// holds `permissions.edit`.
    pub fn step(&mut self, by_invoker: bool, actor_can_edit: bool, event: EditorEvent) -> (r:
        EditorStep)
        ensures
            final(self).existing@ == old(self).existing@,
            !by_invoker && !actor_can_edit ==> r == EditorStep::Refused && final(self).chosen@
                == old(self).chosen@,
            by_invoker || actor_can_edit ==> match event {
                EditorEvent::Chose(p) => r == EditorStep::Changed && final(self).chosen@ == toggled(
                    old(self).chosen@,
                    p,
                ),
                EditorEvent::Done => final(self).chosen@ == old(self).chosen@ && (match r {
                    EditorStep::Finished { remove, add } => remove@ == missing_from(
                        old(self).existing@,
                        old(self).chosen@,
                    ) && add@ == missing_from(old(self).chosen@, old(self).existing@),
                    _ => false,
                }),
                _ => r == EditorStep::Ignored && final(self).chosen@ == old(self).chosen@,
            },
    {
        if !by_invoker && !actor_can_edit {
            return EditorStep::Refused;
        }
        match event {
            EditorEvent::Done => {
                let remove = permissions_missing_from(&self.existing, &self.chosen);
                let add = permissions_missing_from(&self.chosen, &self.existing);
                EditorStep::Finished { remove, add }
            },
            EditorEvent::Chose(p) => {
                toggle(&mut self.chosen, p);
                EditorStep::Changed
            },
            _ => EditorStep::Ignored,
        }
    }
}

/// Choosing a permission twice gives back the permissions held before:
/// exactly when it was not held, and as a set when it was held once.
pub proof fn law_toggle_twice(s: Seq<Permission>, p: Permission)
    ensures
        !s.contains(p) ==> toggled(toggled(s, p), p) == s,
        s.no_duplicates() ==> toggled(toggled(s, p), p).to_set() == s.to_set(),
{
    lemma_first_index(s, p);
    if !s.contains(p) {
        lemma_push_contains(s, p, p);
        let t = s.push(p);
        lemma_first_index(t, p);
        let k = first_index(t, p);
        if k < s.len() {
            assert(t[k] == s[k]);
        }
        assert(t.remove(k) =~= s);
    } else if s.no_duplicates() {
        let k = first_index(s, p);
        let t = s.remove(k);
        if t.contains(p) {
            let j = choose|j: int| 0 <= j < t.len() && t[j] == p;
            let b = if j < k { j } else { j + 1 };
            assert(s[b] == p && b != k);
            assert(false);
        }
        let u = t.push(p);
        assert forall|q: Permission| #[trigger] u.to_set().contains(q) == s.to_set().contains(q) by {
            lemma_push_contains(t, p, q);
            if t.contains(q) {
                let a = choose|a: int| 0 <= a < t.len() && t[a] == q;
                let b = if a < k { a } else { a + 1 };
                assert(s[b] == q);
            }
            if s.contains(q) && q != p {
                let a = choose|a: int| 0 <= a < s.len() && s[a] == q;
                let b = if a < k { a } else { a - 1 };
                assert(t[b] == q);
            }
        }
        assert(u.to_set() =~= s.to_set());
    }
}

/// Choosing a permission never makes one appear twice.
pub proof fn law_toggle_keeps_distinct(s: Seq<Permission>, p: Permission)
    requires
        s.no_duplicates(),
    ensures
        toggled(s, p).no_duplicates(),
{
    lemma_first_index(s, p);
    if s.contains(p) {
        let k = first_index(s, p);
        let t = s.remove(k);
        assert forall|a: int, b: int| 0 <= a < b < t.len() implies t[a] != t[b] by {
            let a2 = if a < k { a } else { a + 1 };
            let b2 = if b < k { b } else { b + 1 };
            assert(t[a] == s[a2]);
            assert(t[b] == s[b2]);
        }
    } else {
        let t = s.push(p);
        assert forall|a: int, b: int| 0 <= a < b < t.len() implies t[a] != t[b] by {
            if b == s.len() {
                assert(t[a] == s[a]);
            } else {
                assert(t[a] == s[a] && t[b] == s[b]);
            }
        }
    }
}

/// When the editor finishes, revoking `remove` from and granting `add` to
/// what the user held leaves them with exactly the chosen permissions.
pub proof fn law_editor_finish_applies(existing: Seq<Permission>, chosen: Seq<Permission>, p: Permission)
    ensures
        ((existing.contains(p) && !missing_from(existing, chosen).contains(p))
            || missing_from(chosen, existing).contains(p)) <==> chosen.contains(p),
        !(missing_from(existing, chosen).contains(p) && missing_from(chosen, existing).contains(p)),
{
    lemma_missing_from_members(existing, chosen, p);
    lemma_missing_from_members(chosen, existing, p);
}

/// Whether someone holds `p`: the server's owner and administrators hold
/// every permission, others those granted to them or to one of their
/// roles.
pub open spec fn holds_permission(is_owner: bool, is_admin: bool, own: Seq<Permission>, roles: Seq<Seq<Permission>>,
    p: Permission) -> bool {
    is_owner || is_admin || own.contains(p) || exists|i: int| 0 <= i < roles.len() && (#[trigger] roles[i]).contains(p)
}

/// Decides whether someone holds `p`; see `holds_permission`. `roles`
/// holds what each of their roles was granted.
pub fn has_permission(is_owner: bool, is_admin: bool, own: &Vec<Permission>, roles: &Vec<Vec<Permission>>,
    p: Permission) -> (r: bool)
    ensures
        r == holds_permission(is_owner, is_admin, own@, roles@.map_values(|v: Vec<Permission>| v@), p),
{
    let ghost rs = roles@.map_values(|v: Vec<Permission>| v@);
    if is_owner || is_admin {
        return true;
    }
    if holds(own, p) {
        return true;
    }
    let mut i: usize = 0;
    while i < roles.len()
        invariant
            i <= roles.len(),
            rs == roles@.map_values(|v: Vec<Permission>| v@),
            forall|j: int| 0 <= j < i ==> !(#[trigger] rs[j]).contains(p),
        decreases roles.len() - i,
    {
        if holds(&roles[i], p) {
            assert(rs[i as int] == roles@[i as int]@);
            return true;
        }
        i += 1;
    }
    false
}

/// Every permission is listed in `all_permissions`.
pub proof fn law_every_permission_listed(p: Permission)
    ensures
        all_permissions().contains(p),
{
    match p {
        Permission::ConfigEdit => assert(all_permissions()[0] == p),
        Permission::GiveawayCreate => assert(all_permissions()[1] == p),
        Permission::GiveawayDelete => assert(all_permissions()[2] == p),
        Permission::GiveawayEnd => assert(all_permissions()[3] == p),
        Permission::GiveawayReroll => assert(all_permissions()[4] == p),
        Permission::ModerationDuration => assert(all_permissions()[5] == p),
        Permission::ModerationExpire => assert(all_permissions()[6] == p),
        Permission::ModerationKick => assert(all_permissions()[7] == p),
        Permission::ModerationMute => assert(all_permissions()[8] == p),
        Permission::ModerationPurge => assert(all_permissions()[9] == p),
        Permission::ModerationReason => assert(all_permissions()[10] == p),
        Permission::ModerationRemove => assert(all_permissions()[11] == p),
        Permission::ModerationSearchOthers => assert(all_permissions()[12] == p),
        Permission::ModerationSearchOthersExpired => assert(all_permissions()[13] == p),
        Permission::ModerationSearchSelf => assert(all_permissions()[14] == p),
        Permission::ModerationSearchSelfExpired => assert(all_permissions()[15] == p),
        Permission::ModerationStrike => assert(all_permissions()[16] == p),
        Permission::ModerationUnban => assert(all_permissions()[17] == p),
        Permission::ModerationUnmute => assert(all_permissions()[18] == p),
        Permission::PermissionsEdit => assert(all_permissions()[19] == p),
        Permission::PermissionsView => assert(all_permissions()[20] == p),
        Permission::XPEdit => assert(all_permissions()[21] == p),
    }
}

/// Everything someone holds (see `holds_permission`), in the order of
/// `all_permissions`.
pub fn held_permissions(is_owner: bool, is_admin: bool, own: &Vec<Permission>, roles: &Vec<Vec<Permission>>)
    -> (r: Vec<Permission>)
    ensures
        forall|p: Permission|
            #[trigger] r@.contains(p) == holds_permission(is_owner, is_admin, own@,
                roles@.map_values(|v: Vec<Permission>| v@), p),
{
    let all = Permission::all();
    let ghost rs = roles@.map_values(|v: Vec<Permission>| v@);
    let mut r: Vec<Permission> = Vec::new();
    let mut i: usize = 0;
    while i < all.len()
        invariant
            i <= all.len(),
            all@ == all_permissions(),
            rs == roles@.map_values(|v: Vec<Permission>| v@),
            forall|p: Permission| #[trigger] r@.contains(p) ==> holds_permission(is_owner, is_admin, own@, rs, p),
            forall|j: int| 0 <= j < i ==> (holds_permission(is_owner, is_admin, own@, rs, #[trigger] all@[j])
                ==> r@.contains(all@[j])),
        decreases all.len() - i,
    {
        let p = all[i];
        let ghost before = r@;
        if has_permission(is_owner, is_admin, own, roles, p) {
            r.push(p);
            assert(r@[r@.len() - 1] == p);
            assert forall|q: Permission| #[trigger] r@.contains(q) implies holds_permission(is_owner, is_admin, own@, rs, q) by {
                if q != p {
                    let k = choose|k: int| 0 <= k < r@.len() && r@[k] == q;
                    assert(k < before.len());
                    assert(before[k] == q);
                    assert(before.contains(q));
                } else {
                    assert(holds_permission(is_owner, is_admin, own@, rs, p));
                }
            }
            assert forall|j: int| 0 <= j < i && holds_permission(is_owner, is_admin, own@, rs, #[trigger] all@[j])
                implies r@.contains(all@[j]) by {
                assert(before.contains(all@[j]));
                let k = choose|k: int| 0 <= k < before.len() && before[k] == all@[j];
                assert(r@[k] == all@[j]);
            }
        }
        i += 1;
    }
    proof {
        assert forall|p: Permission| #[trigger] r@.contains(p) == holds_permission(is_owner, is_admin, own@, rs, p) by {
            law_every_permission_listed(p);
            if holds_permission(is_owner, is_admin, own@, rs, p) {
                let k = choose|k: int| 0 <= k < all@.len() && all@[k] == p;
                assert(holds_permission(is_owner, is_admin, own@, rs, all@[k]));
            }
        }
    }
    r
}

/// The notice sent when a permission is missing and the server asks for
/// such notices.
pub fn missing_notice(p: Permission) -> (r: String)
    ensures
        r@ == "You are missing the `"@ + p.spec_name() + "` permission"@,
{
    let mut s = String::new();
    crate::text::push_str(&mut s, "You are missing the `");
    crate::text::push_str(&mut s, p.name());
    crate::text::push_str(&mut s, "` permission");
    assert(s@ =~= "You are missing the `"@ + p.spec_name() + "` permission"@);
    s
}

/// `s` without any occurrence of `p`.
pub open spec fn without(s: Seq<Permission>, p: Permission) -> Seq<Permission>
    decreases s.len(),
{
    if s.len() == 0 {
        Seq::empty()
    } else if s.last() == p {
        without(s.drop_last(), p)
    } else {
        without(s.drop_last(), p).push(s.last())
    }
}

/// Who permissions are granted to: a user or a role.
#[derive(Clone, Copy, Debug, PartialEq, Eq, Structural)]
pub enum Holder {
    User(i64),
    Role(i64),
}

/// How a holder is written: `<@id>` for a user, `<@&id>` for a role.
pub open spec fn holder_tag(h: Holder) -> Seq<char> {
    match h {
        Holder::User(u) => "<@"@ + crate::text::decimal_text(u as int) + ">"@,
        Holder::Role(r) => "<@&"@ + crate::text::decimal_text(r as int) + ">"@,
    }
}

fn push_holder(s: &mut String, h: Holder)
    ensures
        final(s)@ == old(s)@ + holder_tag(h),
{
    match h {
        Holder::User(u) => {
            crate::text::push_str(s, "<@");
            crate::text::push_i64(s, u);
        },
        Holder::Role(r) => {
            crate::text::push_str(s, "<@&");
            crate::text::push_i64(s, r);
        },
    }
    crate::text::push_str(s, ">");
    assert(s@ =~= old(s)@ + holder_tag(h));
}

/// Grants `p` to a holder whose permissions are `held`: one who already
/// holds it is told so and nothing changes; otherwise it is added at the
/// end.
pub fn grant(h: Holder, held: &mut Vec<Permission>, p: Permission) -> (r: String)
    ensures
        old(held)@.contains(p) ==> final(held)@ == old(held)@
            && r@ == holder_tag(h) + " already has the `"@ + p.spec_name() + "` permission"@,
        !old(held)@.contains(p) ==> final(held)@ == old(held)@.push(p)
            && r@ == "Successfully added the permission `"@ + p.spec_name() + "` to "@ + holder_tag(h),
{
    let mut s = String::new();
    if holds(held, p) {
        push_holder(&mut s, h);
        crate::text::push_str(&mut s, " already has the `");
        crate::text::push_str(&mut s, p.name());
        crate::text::push_str(&mut s, "` permission");
        assert(s@ =~= holder_tag(h) + " already has the `"@ + p.spec_name() + "` permission"@);
    } else {
        held.push(p);
        crate::text::push_str(&mut s, "Successfully added the permission `");
        crate::text::push_str(&mut s, p.name());
        crate::text::push_str(&mut s, "` to ");
        push_holder(&mut s, h);
        assert(s@ =~= "Successfully added the permission `"@ + p.spec_name() + "` to "@ + holder_tag(h));
    }
    s
}

/// Revokes `p` from a holder whose permissions are `held`: one who does
/// not hold it is told so and nothing changes; otherwise every occurrence
/// is removed. A role is named as `the <@&id>` in the confirmation.
pub fn revoke(h: Holder, held: &mut Vec<Permission>, p: Permission) -> (r: String)
    ensures
        !old(held)@.contains(p) ==> final(held)@ == old(held)@
            && r@ == holder_tag(h) + " does not has the `"@ + p.spec_name() + "` permission"@,
        old(held)@.contains(p) ==> final(held)@ == without(old(held)@, p)
            && r@ == "Successfully removed the permission `"@ + p.spec_name() + "` from "@
                + (if h is Role { "the "@ } else { Seq::empty() }) + holder_tag(h),
{
    let mut s = String::new();
    if !holds(held, p) {
        push_holder(&mut s, h);
        crate::text::push_str(&mut s, " does not has the `");
        crate::text::push_str(&mut s, p.name());
        crate::text::push_str(&mut s, "` permission");
        assert(s@ =~= holder_tag(h) + " does not has the `"@ + p.spec_name() + "` permission"@);
        return s;
    }
    let mut kept: Vec<Permission> = Vec::new();
    let mut i: usize = 0;
    while i < held.len()
        invariant
            i <= held.len(),
            kept@ == without(held@.subrange(0, i as int), p),
        decreases held.len() - i,
    {
        let ghost next = held@.subrange(0, i + 1);
        assert(next.drop_last() =~= held@.subrange(0, i as int));
        if held[i] != p {
            kept.push(held[i]);
        }
        i += 1;
    }
    assert(held@.subrange(0, held.len() as int) =~= held@);
    *held = kept;
    crate::text::push_str(&mut s, "Successfully removed the permission `");
    crate::text::push_str(&mut s, p.name());
    crate::text::push_str(&mut s, "` from ");
    match h {
        Holder::Role(_) => crate::text::push_str(&mut s, "the "),
        Holder::User(_) => {},
    }
    push_holder(&mut s, h);
    assert(s@ =~= "Successfully removed the permission `"@ + p.spec_name() + "` from "@
        + (if h is Role { "the "@ } else { Seq::empty() }) + holder_tag(h));
    s
}

proof fn lemma_without_absent(s: Seq<Permission>, p: Permission)
    requires
        !s.contains(p),
    ensures
        without(s, p) == s,
    decreases s.len(),
{
    if s.len() > 0 {
        let t = s.drop_last();
        assert(!t.contains(p)) by {
            if t.contains(p) {
                let k = choose|k: int| 0 <= k < t.len() && t[k] == p;
                assert(s[k] == p);
            }
        }
        assert(s.last() != p) by {
            assert(s[s.len() - 1] == s.last());
        }
        lemma_without_absent(t, p);
        assert(t.push(s.last()) =~= s);
    }
}

/// Granting a permission someone did not hold and then revoking it gives
/// back the permissions they held.
pub proof fn law_grant_then_revoke(held: Seq<Permission>, p: Permission)
    requires
        !held.contains(p),
    ensures
        held.push(p).contains(p),
        without(held.push(p), p) == held,
{
    assert(held.push(p)[held.len() as int] == p);
    assert(held.push(p).drop_last() =~= held);
    lemma_without_absent(held, p);
}

/// After a revocation the permission is not held any more.
pub proof fn law_revoked_not_held(held: Seq<Permission>, p: Permission)
    ensures
        !without(held, p).contains(p),
    decreases held.len(),
{
    if held.len() > 0 {
        law_revoked_not_held(held.drop_last(), p);
        let t = without(held.drop_last(), p);
        if held.last() != p {
            assert forall|k: int| 0 <= k < t.push(held.last()).len() implies t.push(held.last())[k] != p by {
                if k < t.len() {
                    assert(t.push(held.last())[k] == t[k]);
                }
            }
        }
    }
}

} // verus!
