//! A small user directory: a view over a list of users, one of which can
//! be selected by name.

use vstd::prelude::*;

verus! {

/// One user: a name and an age.
pub struct User {
    username: String,
    age: u8,
}

impl User {
    /// The user's name.
    pub closed spec fn spec_username(&self) -> Seq<char> {
        self.username@
    }

    /// The user's age.
    pub closed spec fn spec_age(&self) -> u8 {
        self.age
    }

    /// The user's name.
    pub fn username(&self) -> (r: &str)
        ensures
            r@ == self.spec_username(),
    {
        self.username.as_str()
    }

    /// The user's age.
    pub fn age(&self) -> (r: u8)
        ensures
            r == self.spec_age(),
    {
        self.age
    }
}

impl Clone for User {
    fn clone(&self) -> (r: Self)
        ensures
            r.spec_username() == self.spec_username(),
            r.spec_age() == self.spec_age(),
    {
        User { username: self.username.clone(), age: self.age }
    }
}

/// The predicate holding of the users whose name is not `username`.
pub open spec fn not_named(username: Seq<char>) -> spec_fn(User) -> bool {
    |u: User| u.spec_username() != username
}

/// A view over a list of users, with at most one of them selected.
pub struct UserView {
    users: Vec<User>,
    selected: Option<User>,
}

impl UserView {
    /// The listed users.
    pub closed spec fn spec_users(&self) -> Seq<User> {
        self.users@
    }

    /// The selected user, if any.
    pub closed spec fn spec_selected(&self) -> Option<User> {
        self.selected
    }

    /// The selected user's name, if one is selected.
    pub fn selected_username(&self) -> (r: Option<&str>)
        ensures
            r is Some <==> self.spec_selected() is Some,
            r matches Some(n) ==> (self.spec_selected() matches Some(u) && n@
                == u.spec_username()),
    {
        match &self.selected {
            Some(u) => Some(u.username.as_str()),
            None => None,
        }
    }

    /// How many users are listed.
    pub fn user_count(&self) -> (r: usize)
        ensures
            r == self.spec_users().len(),
    {
        self.users.len()
    }

    /// Append a new user with the given name and age to the view.
    pub fn add_user(&mut self, username: String, age: u8)
        ensures
            final(self).spec_users().len() == old(self).spec_users().len() + 1,
            final(self).spec_users().last().spec_username() == username@,
            final(self).spec_users().last().spec_age() == age,
            final(self).spec_users().drop_last() == old(self).spec_users(),
            final(self).spec_selected() == old(self).spec_selected(),
    {
        self.users.push(User { username, age });
        proof {
            assert(self.users@.drop_last() =~= old(self).users@);
        }
    }

    /// Remove every user with the given name from the view; if the
    /// selected user carries that name, the selection is cleared.
    pub fn del_user(&mut self, username: &String)
        ensures
            final(self).spec_users() == old(self).spec_users().filter(not_named(username@)),
            final(self).spec_selected() == (match old(self).spec_selected() {
                Some(u) => if u.spec_username() == username@ {
                    None
                } else {
                    Some(u)
                },
                None => None::<User>,
            }),
    {
        let ghost pred = not_named(username@);
        let mut src: Vec<User> = Vec::new();
        core::mem::swap(&mut src, &mut self.users);
        let ghost orig = src@;
        let mut kept: Vec<User> = Vec::new();
        let ghost mut i: int = 0;
        proof {
            reveal(Seq::filter);
            assert(kept@ =~= orig.take(0).filter(pred));
            assert(src@ =~= orig.skip(0));
        }
        while src.len() > 0
            invariant
                pred == not_named(username@),
                0 <= i <= orig.len(),
                src@ == orig.skip(i),
                kept@ == orig.take(i).filter(pred),
            decreases src@.len(),
        {
            let u = src.remove(0);
            proof {
                reveal(Seq::filter);
                assert(u == orig[i]);
                assert(orig.take(i + 1).drop_last() =~= orig.take(i));
                assert(orig.take(i + 1).last() == orig[i]);
                assert(src@ =~= orig.skip(i + 1));
            }
            if !u.username.eq(username) {
                proof {
                    assert(pred(orig[i]));
                }
                kept.push(u);
                proof {
                    assert(kept@ =~= orig.take(i + 1).filter(pred));
                }
            } else {
                proof {
                    assert(!pred(orig[i]));
                    assert(kept@ =~= orig.take(i + 1).filter(pred));
                }
            }
            proof {
                i = i + 1;
            }
        }
        proof {
            assert(i == orig.len());
            assert(orig.take(orig.len() as int) =~= orig);
        }
        self.users = kept;
        let clear = match &self.selected {
            Some(u) => u.username.eq(username),
            None => false,
        };
        if clear {
            self.selected = None;
        }
    }

    /// Select the first listed user with the given name; when no user
    /// carries it, the selection is left as it was.
    pub fn select_user(&mut self, username: &String)
        ensures
            final(self).spec_users() == old(self).spec_users(),
            (exists|i: int|
                0 <= i < old(self).spec_users().len() && old(self).spec_users()[i].spec_username()
                    == username@) ==> (final(self).spec_selected() matches Some(u) && exists|i: int|
                {
                    &&& 0 <= i < old(self).spec_users().len()
                    &&& old(self).spec_users()[i].spec_username() == username@
                    &&& u.spec_username() == old(self).spec_users()[i].spec_username()
                    &&& u.spec_age() == old(self).spec_users()[i].spec_age()
                    &&& forall|j: int|
                        0 <= j < i ==> old(self).spec_users()[j].spec_username() != username@
                }),
            !(exists|i: int|
                0 <= i < old(self).spec_users().len() && old(self).spec_users()[i].spec_username()
                    == username@) ==> *final(self) == *old(self),
    {
        let mut i: usize = 0;
        while i < self.users.len()
            invariant
                i <= self.users@.len(),
                *self == *old(self),
                forall|j: int| 0 <= j < i ==> self.users@[j].spec_username() != username@,
            decreases self.users@.len() - i,
        {
            if self.users[i].username.eq(username) {
                let u = self.users[i].clone();
                proof {
                    assert(0 <= i < old(self).spec_users().len() && old(
                        self,
                    ).spec_users()[i as int].spec_username() == username@);
                }
                self.selected = Some(u);
                return ;
            }
            i = i + 1;
        }
    }
}

impl Default for UserView {
    /// An empty view: no users, nothing selected.
    fn default() -> (r: Self)
        ensures
            r.spec_users() == Seq::<User>::empty(),
            r.spec_selected() is None,
    {
        UserView { users: Vec::new(), selected: None }
    }
}

} // verus!
