use vstd::prelude::*;

verus! {

use crate::Repository;
use crate::models::Identifiable;
use crate::models::User;
use crate::utils::IdGenerator;

/// Constructs users and offers lookup over an in-memory collection.
///
/// `create` hands the new user to the caller without inserting it into the
/// collection, which therefore stays as it was constructed: lookups observe
/// only what the collection actually holds.
pub struct UserService {
    users: Vec<User>,
}

impl View for UserService {
    type V = Seq<User>;

    /// The users the service holds, in storage order.
    closed spec fn view(&self) -> Seq<User> {
        self.users@
    }
}

/// Whether position `i` of `users` holds the first user named `name`.
pub open spec fn first_match_by_name(users: Seq<User>, name: Seq<char>, i: int) -> bool {
    &&& 0 <= i < users.len()
    &&& users[i].name@ == name
    &&& forall|j: int| 0 <= j < i ==> (#[trigger] users[j]).name@ != name
}

impl UserService {
    /// A service over an empty collection.
    pub fn new() -> (service: UserService)
        ensures
            service@ == Seq::<User>::empty(),
    {
        UserService { users: Vec::new() }
    }

    /// Constructs a user with a fresh id from `ids`. The new user is handed
    /// to the caller only: the service's collection is left as it is.
    pub fn create(&self, ids: &mut IdGenerator, name: &str) -> (user: User)
        ensures
            user.id == old(ids)@,
            final(ids)@ == (if old(ids)@ == u64::MAX {
                0u64
            } else {
                (old(ids)@ + 1) as u64
            }),
            user.name@ == name@,
            user.email is None,
    {
        User::new(ids, name)
    }

    /// Returns the first user in the collection with exactly this name,
    /// or nothing when no user carries it.
    pub fn find_by_name(&self, name: &str) -> (found: Option<&User>)
        ensures
            found matches Some(user) ==> exists|i: int|
                first_match_by_name(self@, name@, i) && *user == self@[i],
            found is None ==> forall|i: int|
                0 <= i < self@.len() ==> (#[trigger] self@[i]).name@ != name@,
    {
        let target: String = name.to_owned();
        let mut i: usize = 0;
        while i < self.users.len()
            invariant
                i <= self.users.len(),
                target@ == name@,
                forall|j: int| 0 <= j < i ==> (#[trigger] self@[j]).name@ != name@,
            decreases self.users.len() - i,
        {
            if self.users[i].name == target {
                return Some(&self.users[i]);
            }
            i = i + 1;
        }
        None
    }
}

impl Default for UserService {
    /// The same state a freshly constructed service has: an empty
    /// collection, and with it the same behaviour on every later call.
    fn default() -> (service: Self)
        ensures
            service@ == Seq::<User>::empty(),
    {
        Self::new()
    }
}

impl Repository<User> for UserService {
    open spec fn contents(&self) -> Seq<User> {
        self@
    }

    open spec fn save_accepts(&self, item: User) -> bool {
        true
    }

    /// Always succeeds; nothing is persisted.
    fn save(&self, item: &User) -> (result: Result<(), String>)
        ensures
            result is Ok <==> self.save_accepts(*item),
    {
        Ok(())
    }

    /// Linear scan by id; returns a copy of the first user found.
    fn find(&self, id: u64) -> (found: Option<User>)
        ensures
            found matches Some(item) ==> item.spec_id() == id && self.contents().contains(
                item,
            ),
            found is None ==> forall|i: int|
                0 <= i < self.contents().len() ==> (#[trigger] self.contents()[i]).spec_id()
                    != id,
    {
        let mut i: usize = 0;
        while i < self.users.len()
            invariant
                i <= self.users.len(),
                forall|j: int| 0 <= j < i ==> (#[trigger] self@[j]).spec_id() != id,
            decreases self.users.len() - i,
        {
            if self.users[i].id() == id {
                return Some(self.users[i].clone());
            }
            i = i + 1;
        }
        None
    }
}

} // verus!
