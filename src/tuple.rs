use vstd::prelude::*;
use atomic_refcell::{AtomicRef, AtomicRefCell, AtomicRefMut};
use crate::extension::EntityExtension;
use crate::ids::PlayerId;
use crate::player::Player;

verus! {

#[verifier::external_type_specification]
#[verifier::external_body]
#[verifier::reject_recursive_types(T)]
pub struct ExAtomicRefCell<T: ?Sized>(atomic_refcell::AtomicRefCell<T>);

#[verifier::external_type_specification]
#[verifier::external_body]
#[verifier::reject_recursive_types(T)]
pub struct ExAtomicRef<'b, T: ?Sized>(atomic_refcell::AtomicRef<'b, T>);

#[verifier::external_type_specification]
#[verifier::external_body]
#[verifier::reject_recursive_types(T)]
pub struct ExAtomicRefMut<'b, T: ?Sized + 'b>(atomic_refcell::AtomicRefMut<'b, T>);

#[verifier::external_type_specification]
#[verifier::external_body]
pub struct ExBorrowError(atomic_refcell::BorrowError);

#[verifier::external_type_specification]
#[verifier::external_body]
pub struct ExBorrowMutError(atomic_refcell::BorrowMutError);

/// The player that a cell was made with. Later writes through a mutable
/// borrow do not change it.
pub uninterp spec fn made_with(cell: AtomicRefCell<Player>) -> Player;

/// Relies on AtomicRefCell::new, which stores `value` as it is, with no
/// borrow outstanding.
#[verifier::external_body]
fn new_cell(value: Player) -> (r: AtomicRefCell<Player>)
    ensures
        made_with(r) == value,
{
    AtomicRefCell::new(value)
}

/// Relies on AtomicRefCell::try_borrow: a shared borrow, or an error while a
/// mutable borrow is outstanding. Which one comes depends on the other
/// threads, so nothing is claimed of it. (It panics only past about 2^63
/// live shared borrows of one cell, or about 2^62 refused ones during a
/// single mutable borrow.)
pub assume_specification<'a, T: ?Sized>[ atomic_refcell::AtomicRefCell::<T>::try_borrow ](cell: &'a atomic_refcell::AtomicRefCell<T>) -> Result<atomic_refcell::AtomicRef<'a, T>, atomic_refcell::BorrowError>;

/// Relies on AtomicRefCell::try_borrow_mut: an exclusive borrow, or an error
/// while any other borrow is outstanding. Which one comes depends on the
/// other threads, so nothing is claimed of it.
pub assume_specification<'a, T: ?Sized>[ atomic_refcell::AtomicRefCell::<T>::try_borrow_mut ](cell: &'a atomic_refcell::AtomicRefCell<T>) -> Result<atomic_refcell::AtomicRefMut<'a, T>, atomic_refcell::BorrowMutError>;

/// Relies on std::ptr::eq: whether two references point at the same place.
/// Addresses depend on the allocator, so only this is claimed: one place
/// holds one cell.
#[verifier::external_body]
fn same_cell(a: &AtomicRefCell<Player>, b: &AtomicRefCell<Player>) -> (r: bool)
    ensures
        r ==> *a == *b,
{
    std::ptr::eq(a, b)
}

/// Why a borrow of a tuple's player was refused.
#[derive(Copy, Clone, Debug, PartialEq, Eq, Structural)]
pub enum BorrowConflict {
    /// A mutable borrow is outstanding, so no shared borrow is given.
    MutablyBorrowed,
    /// Some borrow is outstanding, so no mutable borrow is given.
    Borrowed,
}

/// A player shared between threads, beside the payload that its avatar owns.
///
/// The player is behind a cell whose borrows are counted at run time: any
/// number of shared borrows, or one mutable borrow and no other. A borrow
/// that conflicts is refused at once, never waited for. The payload is
/// reached through the tuple itself, so Rust's own borrow rules give the
/// holder of the avatar its exclusive access.
#[derive(Debug)]
pub struct PlayerTuple {
    player: AtomicRefCell<Player>,
    extension: EntityExtension,
}

impl PlayerTuple {
    /// The payload beside the player.
    pub closed spec fn extension_of(&self) -> EntityExtension {
        self.extension
    }

    /// The cell that holds the player.
    pub closed spec fn player_cell(&self) -> AtomicRefCell<Player> {
        self.player
    }

    /// A fresh player with the given id, beside a blank payload.
    pub fn new(player_id: PlayerId) -> (r: PlayerTuple)
        ensures
            made_with(r.player_cell()).is_fresh(player_id),
            r.extension_of().is_blank(),
    {
        PlayerTuple {
            player: new_cell(Player::new(player_id)),
            extension: EntityExtension::default(),
        }
    }

    /// Borrows the player for reading, or reports that a mutable borrow is
    /// outstanding.
    pub fn borrow(&self) -> (r: Result<AtomicRef<'_, Player>, BorrowConflict>)
        ensures
            r is Err ==> r->Err_0 == BorrowConflict::MutablyBorrowed,
    {
        match self.player.try_borrow() {
            Ok(guard) => Ok(guard),
            Err(_) => Err(BorrowConflict::MutablyBorrowed),
        }
    }

    /// Borrows the player for writing, or reports that another borrow is
    /// outstanding.
    pub fn borrow_mut(&self) -> (r: Result<AtomicRefMut<'_, Player>, BorrowConflict>)
        ensures
            r is Err ==> r->Err_0 == BorrowConflict::Borrowed,
    {
        match self.player.try_borrow_mut() {
            Ok(guard) => Ok(guard),
            Err(_) => Err(BorrowConflict::Borrowed),
        }
    }

    /// The payload, for reading.
    pub fn unsafe_extension(&self) -> (r: &EntityExtension)
        ensures
            *r == self.extension_of(),
    {
        &self.extension
    }

    /// The payload, for writing. What is written there is what the tuple
    /// holds afterwards; the player is untouched.
    pub fn unsafe_extension_mut(&mut self) -> (r: &mut EntityExtension)
        ensures
            *r == old(self).extension_of(),
            final(self).extension_of() == *final(r),
            final(self).player_cell() == old(self).player_cell(),
    {
        &mut self.extension
    }
}

impl PartialEq for PlayerTuple {
    /// Two tuples are equal only where they are one and the same tuple,
    /// whatever their players hold.
    fn eq(&self, other: &Self) -> (r: bool) {
        same_cell(&self.player, &other.player)
    }
}

impl vstd::std_specs::cmp::PartialEqSpecImpl for PlayerTuple {
    open spec fn obeys_eq_spec() -> bool {
        false
    }

    open spec fn eq_spec(&self, other: &Self) -> bool {
        false
    }
}

} // verus!
