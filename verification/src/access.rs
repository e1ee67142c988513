//! Which Matrix users may use the restricted commands.
//!
//! Admins are fixed when the list is built and are always allowed; they
//! cannot be removed. Further users are added and removed at run time.
//! Comparisons ignore case (`str::to_lowercase` on both sides). Whoever owns
//! an `AccessControl` persists `allowed_users()` when an operation reports a
//! change, and hands the outcome of that save to `AccessOutcome::reply`.
use vstd::prelude::*;
use crate::text::{cat, lowercase, to_lowercase, views};

verus! {

/// The access lists as plain sequences.
pub struct AccessView {
    pub admins: Seq<Seq<char>>,
    pub allowed: Seq<Seq<char>>,
}

/// Some entry of `list` equals `id` once both are lower-cased.
pub open spec fn lists_user(list: Seq<Seq<char>>, id: Seq<char>) -> bool {
    exists|i: int| 0 <= i < list.len() && lowercase(#[trigger] list[i]) == lowercase(id)
}

/// `list` without the entries that equal `id` once lower-cased.
pub open spec fn without_user(list: Seq<Seq<char>>, id: Seq<char>) -> Seq<Seq<char>>
    decreases list.len(),
{
    if list.len() == 0 {
        list
    } else {
        let rest = without_user(list.drop_last(), id);
        if lowercase(list.last()) == lowercase(id) {
            rest
        } else {
            rest.push(list.last())
        }
    }
}

impl AccessView {
    /// The lists after `add_user(id)`.
    pub open spec fn add_spec(self, id: Seq<char>) -> AccessView {
        if self.permits(id) {
            self
        } else {
            AccessView { allowed: self.allowed.push(lowercase(id)), ..self }
        }
    }

    /// The lists after `remove_user(id)`.
    pub open spec fn remove_spec(self, id: Seq<char>) -> AccessView {
        if self.is_admin(id) {
            self
        } else {
            AccessView { allowed: without_user(self.allowed, id), ..self }
        }
    }

    pub open spec fn is_admin(self, id: Seq<char>) -> bool {
        lists_user(self.admins, id)
    }

    pub open spec fn permits(self, id: Seq<char>) -> bool {
        lists_user(self.admins, id) || lists_user(self.allowed, id)
    }
}

/// Dropping the entries equal to `id` shortens the list exactly when some
/// entry equals `id`, and leaves it as it was otherwise.
pub proof fn lemma_without_user(list: Seq<Seq<char>>, id: Seq<char>)
    ensures
        without_user(list, id).len() <= list.len(),
        (without_user(list, id).len() == list.len()) == !lists_user(list, id),
        !lists_user(list, id) ==> without_user(list, id) == list,
        !lists_user(without_user(list, id), id),
        forall|other: Seq<char>|
            lowercase(other) != lowercase(id) ==> (lists_user(without_user(list, id), other)
                == lists_user(list, other)),
    decreases list.len(),
{
    if list.len() > 0 {
        let p = list.drop_last();
        lemma_without_user(p, id);
        let rest = without_user(p, id);
        assert(list =~= p.push(list.last()));
        assert(lists_user(list, id) == (lists_user(p, id) || lowercase(list.last()) == lowercase(id))) by {
            if lists_user(list, id) {
                let i = choose|i: int| 0 <= i < list.len() && lowercase(#[trigger] list[i]) == lowercase(id);
                if i < p.len() {
                    assert(p[i] == list[i]);
                }
            }
            if lists_user(p, id) {
                let i = choose|i: int| 0 <= i < p.len() && lowercase(#[trigger] p[i]) == lowercase(id);
                assert(p[i] == list[i]);
            }
            if lowercase(list.last()) == lowercase(id) {
                assert(list[list.len() - 1] == list.last());
            }
        }
        assert forall|other: Seq<char>|
            #[trigger] lists_user(list, other) == (lists_user(p, other) || lowercase(list.last()) == lowercase(other)) by {
            if lists_user(list, other) {
                let i = choose|i: int| 0 <= i < list.len() && lowercase(#[trigger] list[i]) == lowercase(other);
                if i < p.len() {
                    assert(p[i] == list[i]);
                }
            }
            if lists_user(p, other) {
                let i = choose|i: int| 0 <= i < p.len() && lowercase(#[trigger] p[i]) == lowercase(other);
                assert(p[i] == list[i]);
            }
            if lowercase(list.last()) == lowercase(other) {
                assert(list[list.len() - 1] == list.last());
            }
        }
        if lowercase(list.last()) != lowercase(id) {
            let r = rest.push(list.last());
            assert forall|other: Seq<char>|
                #[trigger] lists_user(r, other) == (lists_user(rest, other) || lowercase(list.last()) == lowercase(other)) by {
                if lists_user(r, other) {
                    let i = choose|i: int| 0 <= i < r.len() && lowercase(#[trigger] r[i]) == lowercase(other);
                    if i < rest.len() {
                        assert(rest[i] == r[i]);
                    }
                }
                if lists_user(rest, other) {
                    let i = choose|i: int| 0 <= i < rest.len() && lowercase(#[trigger] rest[i]) == lowercase(other);
                    assert(rest[i] == r[i]);
                }
                if lowercase(list.last()) == lowercase(other) {
                    assert(r[r.len() - 1] == list.last());
                }
            }
        }
    }
}

/// After `add_user(id)`, `id` is allowed (wherever lower-casing `id` twice
/// gives what lower-casing it once gives, as it does for ASCII).
pub proof fn law_added_user_is_allowed(v: AccessView, id: Seq<char>)
    requires
        lowercase(lowercase(id)) == lowercase(id),
    ensures
        v.add_spec(id).permits(id),
{
    if !v.permits(id) {
        let a = v.allowed.push(lowercase(id));
        assert(a[a.len() - 1] == lowercase(id));
        assert(lists_user(a, id));
    }
}

/// Adding an ID again, in any letter case, changes nothing: the second add
/// finds it allowed (wherever lower-casing `id` twice gives what lower-casing
/// it once gives, as it does for ASCII).
pub proof fn law_adding_again_changes_nothing(v: AccessView, id: Seq<char>, again: Seq<char>)
    requires
        lowercase(again) == lowercase(id),
        lowercase(lowercase(id)) == lowercase(id),
    ensures
        v.add_spec(id).permits(again),
        v.add_spec(id).add_spec(again) == v.add_spec(id),
{
    law_added_user_is_allowed(v, id);
}

/// Removing a user just added, who was not allowed before and is no admin,
/// gives back the lists from before the add (wherever lower-casing `id` twice
/// gives what lower-casing it once gives, as it does for ASCII).
pub proof fn law_remove_undoes_add(v: AccessView, id: Seq<char>)
    requires
        !v.permits(id),
        lowercase(lowercase(id)) == lowercase(id),
    ensures
        v.add_spec(id).remove_spec(id) == v,
{
    let a = v.allowed.push(lowercase(id));
    lemma_without_user(v.allowed, id);
    assert(a.drop_last() =~= v.allowed);
    assert(a.last() == lowercase(id));
}

/// After `remove_user(id)`, a user who is not an admin is no longer allowed.
pub proof fn law_removed_user_is_not_allowed(v: AccessView, id: Seq<char>)
    requires
        !v.is_admin(id),
    ensures
        !v.remove_spec(id).permits(id),
{
    lemma_without_user(v.allowed, id);
}

/// Adding and removing never change the admins, so an admin stays allowed
/// whatever is added or removed.
pub proof fn law_admins_stay_allowed(v: AccessView, id: Seq<char>, admin: Seq<char>)
    requires
        v.is_admin(admin),
    ensures
        v.add_spec(id).admins == v.admins,
        v.remove_spec(id).admins == v.admins,
        v.add_spec(id).permits(admin),
        v.remove_spec(id).permits(admin),
{
}

/// Adding a user takes nobody's permission away.
pub proof fn law_add_keeps_others(v: AccessView, id: Seq<char>, other: Seq<char>)
    requires
        v.permits(other),
    ensures
        v.add_spec(id).permits(other),
{
    if !v.permits(id) && !lists_user(v.admins, other) {
        let a = v.allowed.push(lowercase(id));
        let i = choose|i: int| 0 <= i < v.allowed.len() && lowercase(#[trigger] v.allowed[i]) == lowercase(other);
        assert(a[i] == v.allowed[i]);
    }
}

/// Removing a user leaves every user that differs from it (ignoring case)
/// as allowed or not allowed as before.
pub proof fn law_remove_keeps_others(v: AccessView, id: Seq<char>, other: Seq<char>)
    requires
        lowercase(other) != lowercase(id),
    ensures
        v.remove_spec(id).permits(other) == v.permits(other),
{
    lemma_without_user(v.allowed, id);
}

/// A remove that finds nothing to remove leaves the lists as they were.
pub proof fn law_remove_unknown_changes_nothing(v: AccessView, id: Seq<char>)
    requires
        !v.permits(id),
    ensures
        v.remove_spec(id) == v,
{
    lemma_without_user(v.allowed, id);
}

/// Whether a user is allowed does not depend on case: two IDs that are
/// equal once lower-cased are both allowed or both not.
pub proof fn law_permission_ignores_case(v: AccessView, a: Seq<char>, b: Seq<char>)
    requires
        lowercase(a) == lowercase(b),
    ensures
        v.permits(a) == v.permits(b),
        v.is_admin(a) == v.is_admin(b),
{
}

/// Tracks which Matrix users are permitted to use restricted commands.
pub struct AccessControl {
    admins: Vec<String>,
    allowed: Vec<String>,
}

impl View for AccessControl {
    type V = AccessView;

    closed spec fn view(&self) -> AccessView {
        AccessView { admins: views(self.admins@), allowed: views(self.allowed@) }
    }
}

/// What an add or remove did: nothing (with the reply to send), or a change
/// of the allowed list that is to be saved before the reply is sent.
pub enum AccessOutcome {
    Unchanged(String),
    Changed(String),
}

impl AccessOutcome {
    /// The reply text when the list was saved, or when nothing was to save.
    pub open spec fn message(self) -> Seq<char> {
        match self {
            AccessOutcome::Unchanged(m) => m@,
            AccessOutcome::Changed(m) => m@,
        }
    }

    /// Whether the allowed list changed and must be saved.
    pub fn needs_save(&self) -> (r: bool)
        ensures
            r == (self is Changed),
    {
        match self {
            AccessOutcome::Unchanged(_) => false,
            AccessOutcome::Changed(_) => true,
        }
    }

    /// The reply to send, given how saving the list went (`Ok(())` where
    /// nothing was to save).
    pub fn reply(self, saved: Result<(), String>) -> (r: String)
        ensures
            (self is Unchanged || saved is Ok) ==> r@ == self.message(),
            self is Changed ==> (saved matches Err(e) ==> r@ == "Fehler beim Speichern: "@ + e@),
    {
        match self {
            AccessOutcome::Unchanged(m) => m,
            AccessOutcome::Changed(m) => match saved {
                Ok(()) => m,
                Err(e) => cat("Fehler beim Speichern: ", e.as_str()),
            },
        }
    }
}

impl AccessControl {
    /// The access lists with the given admins and previously allowed users.
    pub fn new(admins: Vec<String>, allowed: Vec<String>) -> (ac: Self)
        ensures
            ac@.admins == views(admins@),
            ac@.allowed == views(allowed@),
    {
        AccessControl { admins, allowed }
    }

    /// The users added at run time, in the form to persist.
    pub fn allowed_users(&self) -> (r: &Vec<String>)
        ensures
            views(r@) == self@.allowed,
    {
        &self.allowed
    }

    fn list_has(list: &Vec<String>, id: &String) -> (r: bool)
        ensures
            r == exists|i: int| 0 <= i < list@.len() && lowercase(#[trigger] list@[i]@) == id@,
    {
        let mut i: usize = 0;
        while i < list.len()
            invariant
                i <= list@.len(),
                forall|j: int| 0 <= j < i ==> lowercase(#[trigger] list@[j]@) != id@,
            decreases list.len() - i,
        {
            let l = to_lowercase(list[i].as_str());
            if l == *id {
                return true;
            }
            i = i + 1;
        }
        false
    }

    /// Whether `user_id` is an admin or on the allowed list, ignoring case.
    pub fn is_allowed(&self, user_id: &str) -> (r: bool)
        ensures
            r == self@.permits(user_id@),
    {
        let id = to_lowercase(user_id);
        let r = Self::list_has(&self.admins, &id) || Self::list_has(&self.allowed, &id);
        proof {
            if Self::lists_match(self.admins@, id@) {
                let i = choose|i: int| 0 <= i < self.admins@.len() && lowercase(#[trigger] self.admins@[i]@) == id@;
                assert(views(self.admins@)[i] == self.admins@[i]@);
            }
            if Self::lists_match(self.allowed@, id@) {
                let i = choose|i: int| 0 <= i < self.allowed@.len() && lowercase(#[trigger] self.allowed@[i]@) == id@;
                assert(views(self.allowed@)[i] == self.allowed@[i]@);
            }
            if lists_user(views(self.admins@), user_id@) {
                let i = choose|i: int| 0 <= i < views(self.admins@).len() && lowercase(#[trigger] views(self.admins@)[i]) == lowercase(user_id@);
                assert(views(self.admins@)[i] == self.admins@[i]@);
            }
            if lists_user(views(self.allowed@), user_id@) {
                let i = choose|i: int| 0 <= i < views(self.allowed@).len() && lowercase(#[trigger] views(self.allowed@)[i]) == lowercase(user_id@);
                assert(views(self.allowed@)[i] == self.allowed@[i]@);
            }
        }
        r
    }

    /// Adds `user_id` (lower-cased) to the allowed list unless it is allowed
    /// already. That `user_id` is allowed afterwards holds wherever
    /// lower-casing is idempotent on it (ASCII IDs among them; see
    /// `law_added_user_is_allowed`): std documents no such property of
    /// `str::to_lowercase` for other text, so none is claimed here.
    pub fn add_user(&mut self, user_id: &str) -> (out: AccessOutcome)
        ensures
            final(self)@ == old(self)@.add_spec(user_id@),
            old(self)@.permits(user_id@) ==> out is Unchanged && out.message() == user_id@
                + " ist bereits erlaubt."@,
            !old(self)@.permits(user_id@) ==> out is Changed && out.message() == user_id@
                + " wurde zur Erlaubtenliste hinzugefügt."@,
    {
        if self.is_allowed(user_id) {
            return AccessOutcome::Unchanged(cat(user_id, " ist bereits erlaubt."));
        }
        let l = to_lowercase(user_id);
        self.allowed.push(l);
        proof {
            assert(views(self.allowed@) =~= views(old(self).allowed@).push(lowercase(user_id@)));
        }
        AccessOutcome::Changed(cat(user_id, " wurde zur Erlaubtenliste hinzugefügt."))
    }

    /// Removes every allowed entry that equals `user_id` ignoring case;
    /// admins cannot be removed.
    pub fn remove_user(&mut self, user_id: &str) -> (out: AccessOutcome)
        ensures
            final(self)@ == old(self)@.remove_spec(user_id@),
            old(self)@.is_admin(user_id@) ==> out is Unchanged && out.message() == user_id@
                + " ist ein Admin und kann nicht entfernt werden."@,
            !old(self)@.is_admin(user_id@) && !lists_user(old(self)@.allowed, user_id@) ==> out is Unchanged
                && out.message() == user_id@ + " ist nicht in der Erlaubtenliste."@,
            !old(self)@.is_admin(user_id@) && lists_user(old(self)@.allowed, user_id@) ==> out is Changed
                && out.message() == user_id@ + " wurde aus der Erlaubtenliste entfernt."@,
    {
        if self.is_admin(user_id) {
            return AccessOutcome::Unchanged(
                cat(user_id, " ist ein Admin und kann nicht entfernt werden."),
            );
        }
        let id = to_lowercase(user_id);
        let before = self.allowed.len();
        let mut kept: Vec<String> = Vec::new();
        let mut i: usize = 0;
        while i < self.allowed.len()
            invariant
                i <= self.allowed@.len(),
                id@ == lowercase(user_id@),
                views(kept@) == without_user(views(self.allowed@).take(i as int), user_id@),
            decreases self.allowed.len() - i,
        {
            proof {
                let t = views(self.allowed@).take(i + 1);
                assert(t.drop_last() =~= views(self.allowed@).take(i as int));
                assert(t.last() == self.allowed@[i as int]@);
            }
            let l = to_lowercase(self.allowed[i].as_str());
            if l != id {
                let ghost old_kept = kept@;
                kept.push(self.allowed[i].clone());
                assert(views(kept@) =~= views(old_kept).push(self.allowed@[i as int]@));
            }
            i = i + 1;
        }
        proof {
            assert(views(self.allowed@).take(self.allowed@.len() as int) =~= views(self.allowed@));
            lemma_without_user(views(self.allowed@), user_id@);
        }
        let removed = kept.len() != before;
        self.allowed = kept;
        if !removed {
            return AccessOutcome::Unchanged(cat(user_id, " ist nicht in der Erlaubtenliste."));
        }
        AccessOutcome::Changed(cat(user_id, " wurde aus der Erlaubtenliste entfernt."))
    }

    spec fn lists_match(list: Seq<String>, id: Seq<char>) -> bool {
        exists|i: int| 0 <= i < list.len() && lowercase(#[trigger] list[i]@) == id
    }

    /// Whether `user_id` is an admin, ignoring case.
    pub fn is_admin(&self, user_id: &str) -> (r: bool)
        ensures
            r == self@.is_admin(user_id@),
    {
        let id = to_lowercase(user_id);
        let r = Self::list_has(&self.admins, &id);
        proof {
            if Self::lists_match(self.admins@, id@) {
                let i = choose|i: int| 0 <= i < self.admins@.len() && lowercase(#[trigger] self.admins@[i]@) == id@;
                assert(views(self.admins@)[i] == self.admins@[i]@);
            }
            if lists_user(views(self.admins@), user_id@) {
                let i = choose|i: int| 0 <= i < views(self.admins@).len() && lowercase(#[trigger] views(self.admins@)[i]) == lowercase(user_id@);
                assert(views(self.admins@)[i] == self.admins@[i]@);
            }
        }
        r
    }
}

} // verus!
