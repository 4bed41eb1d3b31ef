use vstd::prelude::*;

verus! {

/// A request that changes some fields of a stored thing and leaves the others as
/// they are. It tells of each field it declares whether the field changes.
pub trait UpdateContract {
    /// One flag per declared field, in the order of declaration: whether the request
    /// changes the field.
    spec fn changes(&self) -> Seq<bool>;

    /// The number of fields that the request declares.
    fn field_count(&self) -> (n: usize)
        ensures
            n == self.changes().len(),
    ;

    /// Whether the request changes the field at the given place.
    fn changes_field(&self, index: usize) -> (b: bool)
        requires
            index < self.changes().len(),
        ensures
            b == self.changes()[index as int],
    ;
}

/// Whether at least one of the flags is set.
pub open spec fn any_change(changes: Seq<bool>) -> bool {
    exists|i: int| 0 <= i < changes.len() && changes[i]
}

/// The one rule of validity for every update: it changes at least one field.
pub fn is_valid<U: UpdateContract>(update: &U) -> (ok: bool)
    ensures
        ok == any_change(update.changes()),
{
    let n: usize = update.field_count();
    let mut i: usize = 0;
    while i < n
        invariant
            i <= n,
            n == update.changes().len(),
            forall|j: int| 0 <= j < i ==> !update.changes()[j],
        decreases n - i,
    {
        if update.changes_field(i) {
            return true;
        }
        i += 1;
    }
    false
}

/// Why an update is turned away before anything is changed.
#[derive(Clone, Copy, Debug, PartialEq, Eq)]
pub enum ValidationError {
    /// The update leaves every field as it is.
    NoFieldsSet,
}

/// Lets a valid update through and turns away one that changes nothing.
pub fn validate<U: UpdateContract>(update: U) -> (r: Result<U, ValidationError>)
    ensures
        any_change(update.changes()) ==> r == Ok::<U, ValidationError>(update),
        !any_change(update.changes()) ==> r == Err::<U, ValidationError>(
            ValidationError::NoFieldsSet,
        ),
{
    if is_valid(&update) {
        Ok(update)
    } else {
        Err(ValidationError::NoFieldsSet)
    }
}

} // verus!
