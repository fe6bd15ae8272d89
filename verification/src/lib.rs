use vstd::prelude::*;

pub mod models;
pub mod services;
pub mod utils;

verus! {

use crate::models::Identifiable;
use crate::models::User;
use crate::services::UserService;
use crate::utils::IdGenerator;

/// Facade: constructs a fresh service and delegates user creation to it.
/// The returned user carries a fresh id from `ids`, the given name, and
/// no email.
pub fn create_user(ids: &mut IdGenerator, name: &str) -> (user: User)
    ensures
        user.id == old(ids)@,
        final(ids)@ == (if old(ids)@ == u64::MAX {
            0u64
        } else {
            (old(ids)@ + 1) as u64
        }),
        user.name@ == name@,
        user.email is None,
{
    let service = UserService::new();
    service.create(ids, name)
}

/// Capability of persisting and retrieving entities of one type. Each
/// implementer fixes, through `contents` and `save_accepts`, what it stores
/// and when `save` succeeds; `find` returns a copy of a stored entity with
/// the asked-for id exactly when one is stored.
pub trait Repository<T: Identifiable> {
    /// The entities the repository currently holds, in storage order.
    spec fn contents(&self) -> Seq<T>;

    /// Whether `save` succeeds on this item in this state.
    spec fn save_accepts(&self, item: T) -> bool;

    /// Persists the item or reports failure. Success promises nothing
    /// about durability.
    fn save(&self, item: &T) -> (result: Result<(), String>)
        ensures
            result is Ok <==> self.save_accepts(*item),
    ;

    /// Returns a copy of a stored entity carrying this id, if one is known,
    /// else nothing.
    fn find(&self, id: u64) -> (found: Option<T>)
        ensures
            found matches Some(item) ==> item.spec_id() == id && self.contents().contains(
                item,
            ),
            found is None ==> forall|i: int|
                0 <= i < self.contents().len() ==> (#[trigger] self.contents()[i]).spec_id()
                    != id,
    ;
}

} // verus!
