//! The persistence contract: what it means for a record type to be created,
//! read, updated and deleted in some storage, whatever the storage is.

use vstd::prelude::*;

verus! {

/// Why a storage operation did not succeed.
#[derive(Debug, Clone, Copy, PartialEq, Eq, Structural)]
pub enum StoreError {
    /// No record has the requested key.
    NotFound,
    /// The storage could not be reached or did not answer.
    Unavailable,
    /// The write would break a constraint of the storage.
    ConstraintViolation,
}

/// A record type with an integer primary key and a settable part.
pub trait Record: View + Sized {
    /// The settable part of a record: what `create` and `update` take.
    type Mutable;

    /// The primary key of a record.
    spec fn key(record: Self::V) -> int;

    /// `record` with its settable part replaced by `input`.
    spec fn apply(record: Self::V, input: &Self::Mutable) -> Self::V;

    /// Replacing the settable part leaves the key alone, and doing it twice
    /// is doing it once.
    proof fn apply_is_stable(record: Self::V, input: &Self::Mutable)
        ensures
            Self::key(Self::apply(record, input)) == Self::key(record),
            Self::apply(Self::apply(record, input), input) == Self::apply(record, input),
    ;
}

/// A record type that a storage can hold under its primary key.
///
/// The contract speaks of the records that the storage holds, as a sequence
/// in storage order, and of the record found under a key. An operation that
/// fails leaves the storage as it was. Updating or deleting under a key that
/// no record has succeeds and changes nothing.
pub trait Model: Record {
    /// What holds the records.
    type Storage;

    /// The records in `storage`, in storage order.
    spec fn records(storage: &Self::Storage) -> Seq<Self::V>;

    /// The invariant of the storage, which every operation keeps.
    spec fn valid(storage: &Self::Storage) -> bool;

    /// In a valid storage no key occurs twice.
    proof fn valid_keys_distinct(storage: &Self::Storage)
        requires
            Self::valid(storage),
        ensures
            distinct_keys::<Self>(Self::records(storage)),
    ;

    /// Stores a new record that carries `input`, under a key that was free.
    fn create(storage: &mut Self::Storage, input: &Self::Mutable) -> (done: Result<(), StoreError>)
        requires
            Self::valid(old(storage)),
        ensures
            Self::valid(final(storage)),
            created::<Self>(Self::records(old(storage)), input, Self::records(final(storage)), done),
    ;

    /// The record under `id`; `NotFound` only where there is none.
    fn read_one(storage: &Self::Storage, id: i32) -> (found: Result<Self, StoreError>)
        requires
            Self::valid(storage),
        ensures
            match found {
                Ok(record) => lookup::<Self>(Self::records(storage), id as int) == Some(record@),
                Err(StoreError::NotFound) => lookup::<Self>(Self::records(storage), id as int)
                    is None,
                Err(_) => true,
            },
    ;

    /// Every record, in storage order.
    fn read_all(storage: &Self::Storage) -> (all: Result<Vec<Self>, StoreError>)
        requires
            Self::valid(storage),
        ensures
            listed::<Self>(Self::records(storage), all),
    ;

    /// Replaces the settable part of the record under `id` by `input`.
    fn update(storage: &mut Self::Storage, id: i32, input: &Self::Mutable) -> (done: Result<(), StoreError>)
        requires
            Self::valid(old(storage)),
        ensures
            Self::valid(final(storage)),
            updated::<Self>(
                Self::records(old(storage)),
                id as int,
                input,
                Self::records(final(storage)),
                done,
            ),
    ;

    /// Removes the record under `id`.
    fn delete(storage: &mut Self::Storage, id: i32) -> (done: Result<(), StoreError>)
        requires
            Self::valid(old(storage)),
        ensures
            Self::valid(final(storage)),
            deleted::<Self>(Self::records(old(storage)), id as int, Self::records(final(storage)), done),
    ;
}

/// The views of a list of records, in order.
pub open spec fn views<M: View>(list: Seq<M>) -> Seq<M::V> {
    list.map_values(|record: M| record@)
}

/// Whether some record has the key `id`.
pub open spec fn has_key<M: Record>(records: Seq<M::V>, id: int) -> bool {
    exists|i: int| 0 <= i < records.len() && M::key(#[trigger] records[i]) == id
}

/// Whether no key occurs twice.
pub open spec fn distinct_keys<M: Record>(records: Seq<M::V>) -> bool {
    forall|i: int, j: int|
        0 <= i < j < records.len() ==> M::key(#[trigger] records[i]) != M::key(
            #[trigger] records[j],
        )
}

/// A position at which a record with the key `id` stands, where there is
/// one.
pub open spec fn position<M: Record>(records: Seq<M::V>, id: int) -> int {
    choose|i: int| 0 <= i < records.len() && M::key(#[trigger] records[i]) == id
}

/// The record under `id`, if there is one.
pub open spec fn lookup<M: Record>(records: Seq<M::V>, id: int) -> Option<M::V> {
    if has_key::<M>(records, id) {
        Some(records[position::<M>(records, id)])
    } else {
        None
    }
}

/// Whether `before` and `after` hold the same record under every key but
/// `id`.
pub open spec fn same_elsewhere<M: Record>(before: Seq<M::V>, after: Seq<M::V>, id: int) -> bool {
    forall|other: int|
        other != id ==> #[trigger] lookup::<M>(after, other) == lookup::<M>(before, other)
}

/// What `read_all` answers: every record, in storage order.
pub open spec fn listed<M: Record>(records: Seq<M::V>, all: Result<Vec<M>, StoreError>) -> bool {
    match all {
        Ok(list) => views(list@) == records,
        Err(error) => error != StoreError::NotFound,
    }
}

/// What `create` leaves behind.
pub open spec fn created<M: Record>(
    before: Seq<M::V>,
    input: &M::Mutable,
    after: Seq<M::V>,
    done: Result<(), StoreError>,
) -> bool {
    match done {
        Ok(_) => exists|id: int|
            {
                &&& !has_key::<M>(before, id)
                &&& #[trigger] lookup::<M>(after, id) matches Some(record)
                &&& M::apply(record, input) == record
                &&& same_elsewhere::<M>(before, after, id)
            },
        Err(error) => after == before && error != StoreError::NotFound,
    }
}

/// What `update` leaves behind.
pub open spec fn updated<M: Record>(
    before: Seq<M::V>,
    id: int,
    input: &M::Mutable,
    after: Seq<M::V>,
    done: Result<(), StoreError>,
) -> bool {
    match done {
        Ok(_) => {
            &&& lookup::<M>(after, id) == match lookup::<M>(before, id) {
                Some(record) => Some(M::apply(record, input)),
                None => None,
            }
            &&& same_elsewhere::<M>(before, after, id)
        },
        Err(error) => after == before && error != StoreError::NotFound,
    }
}

/// What `delete` leaves behind.
pub open spec fn deleted<M: Record>(
    before: Seq<M::V>,
    id: int,
    after: Seq<M::V>,
    done: Result<(), StoreError>,
) -> bool {
    match done {
        Ok(_) => lookup::<M>(after, id) is None && same_elsewhere::<M>(before, after, id),
        Err(error) => after == before && error != StoreError::NotFound,
    }
}

} // verus!
