//! The verdict of the one-time startup: written once, read by every later
//! caller.

use crate::error::NotifierError;
use once_cell::sync::OnceCell;
use vstd::prelude::*;

verus! {

/// How a startup ended: well, or with the failure that ended it.
pub type Outcome = Result<(), NotifierError>;

/// The thread-safe write-once cell of once_cell, as an opaque type.
#[verifier::external_type_specification]
#[verifier::external_body]
#[verifier::reject_recursive_types(T)]
pub struct ExOnceCell<T>(once_cell::sync::OnceCell<T>);

/// What a cell holds: nothing, or the one value that was ever set. Nothing is
/// proved of it: the three functions below state what once_cell's
/// documentation says of `new`, `get` and `set`.
pub uninterp spec fn cell_value(cell: OnceCell<Outcome>) -> Option<Outcome>;

/// `OnceCell::new` of once_cell: the cell it makes is empty.
#[verifier::external_body]
fn new_cell() -> (cell: OnceCell<Outcome>)
    ensures
        cell_value(cell) is None,
{
    OnceCell::new()
}

/// `OnceCell::get` of once_cell: `None` for an empty cell, else the value that
/// the cell holds. (It also returns `None` while another thread is setting
/// the cell. Here a cell is set through `&mut` only, so nobody reads it
/// meanwhile.)
#[verifier::external_body]
fn cell_get(cell: &OnceCell<Outcome>) -> (held: Option<&Outcome>)
    ensures
        match held {
            Some(value) => cell_value(*cell) == Some(*value),
            None => cell_value(*cell) is None,
        },
{
    cell.get()
}

/// `OnceCell::set` of once_cell: an empty cell takes the value and the call
/// returns `Ok`; a full cell keeps what it has and the value comes back in
/// `Err`.
#[verifier::external_body]
fn cell_set(cell: &mut OnceCell<Outcome>, value: Outcome) -> (taken: Result<(), Outcome>)
    ensures
        taken is Ok <==> cell_value(*old(cell)) is None,
        taken is Err ==> taken->Err_0 == value,
        cell_value(*final(cell)) == if cell_value(*old(cell)) is None {
            Some(value)
        } else {
            cell_value(*old(cell))
        },
{
    cell.set(value)
}

/// The result of the first startup, once there is one.
///
/// The first result is the authoritative one: it is kept for good, and a
/// second one is turned away.
pub struct Verdict {
    cell: OnceCell<Outcome>,
}

impl View for Verdict {
    type V = Option<Outcome>;

    closed spec fn view(&self) -> Option<Outcome> {
        cell_value(self.cell)
    }
}

impl Verdict {
    /// A verdict that is still open.
    pub fn open() -> (verdict: Self)
        ensures
            verdict@ is None,
    {
        Verdict { cell: new_cell() }
    }

    /// The recorded result, if the startup has ended.
    pub fn get(&self) -> (recorded: Option<Outcome>)
        ensures
            recorded == self@,
    {
        match cell_get(&self.cell) {
            Some(result) => Some(*result),
            None => None,
        }
    }

    /// Records `result` if none was recorded before. Returns whether it was
    /// taken.
    pub fn record(&mut self, result: Outcome) -> (taken: bool)
        ensures
            taken == (old(self)@ is None),
            final(self)@ == if old(self)@ is None {
                Some(result)
            } else {
                old(self)@
            },
    {
        match cell_set(&mut self.cell, result) {
            Ok(_) => true,
            Err(_) => false,
        }
    }
}

} // verus!
