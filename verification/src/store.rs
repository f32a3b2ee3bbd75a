//! The state of the user collection and the four operations of the
//! service.
//!
//! The store models the `users` table that the service keeps behind its
//! HTTP surface: a collection of rows with unique identifiers, issued
//! by the store itself on insert. Each operation of the service is one
//! method, with a contract that pins down the rows after the call.

use vstd::prelude::*;

use crate::user::{apply_update, apply_update_view, NewUser, UpdateUser, User, UserView};

verus! {

/// No two rows of `s` carry the same identifier.
pub open spec fn ids_unique(s: Seq<UserView>) -> bool {
    forall|i: int, j: int|
        0 <= i < s.len() && 0 <= j < s.len() && i != j ==> s[i].id != s[j].id
}

/// Some row of `s` carries the identifier `id`.
pub open spec fn contains_id(s: Seq<UserView>, id: u128) -> bool {
    exists|i: int| 0 <= i < s.len() && s[i].id == id
}

/// The index of the row of `s` that carries `id`; meaningful only when
/// `contains_id(s, id)` holds.
pub open spec fn index_of_id(s: Seq<UserView>, id: u128) -> int {
    choose|i: int| 0 <= i < s.len() && s[i].id == id
}

/// The create-then-list law: a create appends a row with the issued
/// identifier and the requested attributes, and since the identifier
/// is fresh, the listing afterwards holds exactly one row with that
/// identifier — the new one.
pub proof fn lemma_create_then_list(pre: Seq<UserView>, id: u128, name: Seq<char>, email: Seq<char>)
    requires
        forall|i: int| 0 <= i < pre.len() ==> pre[i].id != id,
    ensures
        ({
            let post = pre.push((UserView { id, name, email }));
            &&& contains_id(post, id)
            &&& post[pre.len() as int] == (UserView { id, name, email })
            &&& forall|i: int| 0 <= i < post.len() && post[i].id == id ==> i == pre.len()
        }),
{
    let post = pre.push((UserView { id, name, email }));
    assert(post[pre.len() as int].id == id);
}

/// The collection of user rows, together with the source of fresh
/// identifiers. The next identifier to be issued is strictly above
/// every identifier in use, which keeps identifiers unique and never
/// reassigned, even after a row is deleted.
pub struct UserStore {
    users: Vec<User>,
    next_id: u128,
}

impl View for UserStore {
    type V = Seq<UserView>;

    /// The rows of the store, in storage order.
    closed spec fn view(&self) -> Seq<UserView> {
        self.users@.map_values(|u: User| u@)
    }
}

impl UserStore {
    /// The store's invariant: identifiers are unique across rows, and
    /// every identifier in use lies below the next one to be issued.
    pub closed spec fn wf(&self) -> bool {
        &&& ids_unique(self@)
        &&& forall|i: int| 0 <= i < self@.len() ==> self@[i].id < self.next_id
    }

    /// The identifier that the next successful create will issue.
    pub closed spec fn fresh_id(&self) -> u128 {
        self.next_id
    }

    /// An empty store, whose first issued identifier is zero.
    pub fn new() -> (s: UserStore)
        ensures
            s.wf(),
            s@ == Seq::<UserView>::empty(),
            s.fresh_id() == 0,
    {
        let s = UserStore { users: Vec::new(), next_id: 0 };
        proof {
            assert(s@ =~= Seq::<UserView>::empty());
        }
        s
    }

    /// Inserts a row built from the request body under a freshly issued
    /// identifier and returns that identifier. The new row stands at
    /// the end of the listing, and no earlier row carries its
    /// identifier.
    pub fn create_user(&mut self, new_user: NewUser) -> (id: u128)
        requires
            old(self).wf(),
            old(self).fresh_id() < u128::MAX,
        ensures
            final(self).wf(),
            id == old(self).fresh_id(),
            final(self).fresh_id() == old(self).fresh_id() + 1,
            final(self)@ == old(self)@.push(
                (UserView { id, name: new_user.name@, email: new_user.email@ }),
            ),
            forall|i: int| 0 <= i < old(self)@.len() ==> old(self)@[i].id != id,
    {
        let id: u128 = self.next_id;
        let user = User { id, name: new_user.name, email: new_user.email };
        self.users.push(user);
        self.next_id = self.next_id + 1;
        proof {
            assert(self@ =~= old(self)@.push(
                (UserView { id, name: new_user.name@, email: new_user.email@ }),
            ));
        }
        id
    }

    /// Lists every row of the store, value for value and in storage
    /// order.
    pub fn get_users(&self) -> (r: Vec<User>)
        ensures
            r@.len() == self@.len(),
            forall|i: int| 0 <= i < r@.len() ==> #[trigger] r@[i]@ == self@[i],
    {
        let mut out: Vec<User> = Vec::new();
        let n: usize = self.users.len();
        let mut idx: usize = 0;
        while idx < n
            invariant
                n == self.users@.len(),
                idx <= n,
                out@.len() == idx,
                forall|i: int| 0 <= i < idx ==> #[trigger] out@[i]@ == self@[i],
            decreases n - idx,
        {
            out.push(self.users[idx].duplicate());
            idx = idx + 1;
        }
        out
    }

    /// The position of the row that carries `id`, if any.
    fn find_index(users: &Vec<User>, id: u128) -> (r: Option<usize>)
        ensures
            match r {
                Some(i) => i < users@.len() && users@[i as int].id == id,
                None => forall|j: int| 0 <= j < users@.len() ==> users@[j].id != id,
            },
    {
        let n: usize = users.len();
        let mut idx: usize = 0;
        while idx < n
            invariant
                n == users@.len(),
                idx <= n,
                forall|j: int| 0 <= j < idx ==> users@[j].id != id,
            decreases n - idx,
        {
            if users[idx].id == id {
                return Some(idx);
            }
            idx = idx + 1;
        }
        None
    }

    /// Looks up the row under `id`; when it is absent nothing changes
    /// and nothing is returned. When it is present, the attributes that
    /// the request supplies replace the row's, the rest of the row and
    /// every other row stay as they were, and the updated row is
    /// returned. The outcome of a miss does not depend on the request
    /// body.
    pub fn update_user(&mut self, id: u128, update: &UpdateUser) -> (r: Option<User>)
        requires
            old(self).wf(),
        ensures
            final(self).wf(),
            final(self).fresh_id() == old(self).fresh_id(),
            r is Some <==> contains_id(old(self)@, id),
            r is None ==> final(self)@ == old(self)@,
            r is Some ==> ({
                let i: int = index_of_id(old(self)@, id);
                &&& 0 <= i < old(self)@.len()
                &&& old(self)@[i].id == id
                &&& r->Some_0@ == apply_update_view(old(self)@[i], update@)
                &&& final(self)@ == old(self)@.update(i, apply_update_view(old(self)@[i], update@))
            }),
    {
        match Self::find_index(&self.users, id) {
            None => None,
            Some(i) => {
                let updated = apply_update(&self.users[i], update);
                let ret = updated.duplicate();
                self.users[i] = updated;
                proof {
                    let gi: int = index_of_id(old(self)@, id);
                    assert(old(self)@[i as int].id == id);
                    assert(contains_id(old(self)@, id));
                    assert(gi == i) by {
                        assert(0 <= gi < old(self)@.len() && old(self)@[gi].id == id);
                    }
                    assert(self@ =~= old(self)@.update(
                        i as int,
                        apply_update_view(old(self)@[i as int], update@),
                    ));
                }
                Some(ret)
            },
        }
    }

    /// Looks up the row under `id`; when it is absent nothing changes
    /// and the miss is reported. When it is present, that row and no
    /// other leaves the store, so a later lookup of the same identifier
    /// misses.
    pub fn delete_user(&mut self, id: u128) -> (found: bool)
        requires
            old(self).wf(),
        ensures
            final(self).wf(),
            final(self).fresh_id() == old(self).fresh_id(),
            found <==> contains_id(old(self)@, id),
            !found ==> final(self)@ == old(self)@,
            found ==> ({
                let i: int = index_of_id(old(self)@, id);
                &&& 0 <= i < old(self)@.len()
                &&& old(self)@[i].id == id
                &&& final(self)@ == old(self)@.remove(i)
            }),
            found ==> !contains_id(final(self)@, id),
    {
        match Self::find_index(&self.users, id) {
            None => false,
            Some(i) => {
                self.users.remove(i);
                proof {
                    let gi: int = index_of_id(old(self)@, id);
                    assert(old(self)@[i as int].id == id);
                    assert(contains_id(old(self)@, id));
                    assert(gi == i) by {
                        assert(0 <= gi < old(self)@.len() && old(self)@[gi].id == id);
                    }
                    assert(self@ =~= old(self)@.remove(i as int));
                    assert forall|j: int| 0 <= j < self@.len() implies self@[j].id != id by {
                        if j < i {
                            assert(self@[j] == old(self)@[j]);
                        } else {
                            assert(self@[j] == old(self)@[j + 1]);
                        }
                    }
                }
                true
            },
        }
    }
}

} // verus!
