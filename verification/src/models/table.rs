//! A page table held in memory, and the persistence contract for pages on
//! it.

use crate::models::contract::{distinct_keys, has_key, lookup, views, Model, Record, StoreError};
use crate::models::lemmas::{
    lemma_filter_absent, lemma_lookup_at, lemma_lookup_found, lemma_push, lemma_remove,
    lemma_remove_is_filter, lemma_rewrite, other_key,
};
use crate::models::page::{MutPage, Page, PageRow};
use chrono::NaiveDateTime;
use vstd::prelude::*;

verus! {

/// What a page table is, mathematically: its rows in storage order, the key
/// that the next new row gets, and the instant that it stamps on new rows.
pub ghost struct TableState {
    pub rows: Seq<PageRow>,
    pub next_id: int,
    pub clock: NaiveDateTime,
}

impl TableState {
    /// Every key is below the next key, and none occurs twice.
    pub open spec fn wf(self) -> bool {
        &&& i32::MIN <= self.next_id <= i32::MAX + 1
        &&& distinct_keys::<Page>(self.rows)
        &&& forall|i: int| 0 <= i < self.rows.len() ==> (#[trigger] self.rows[i]).id < self.next_id
    }

    /// The table without rows, which stamps `clock` on the rows it creates.
    pub open spec fn empty(clock: NaiveDateTime) -> TableState {
        TableState { rows: Seq::empty(), next_id: 1, clock }
    }

    /// Whether a key is left for one more row.
    pub open spec fn has_room(self) -> bool {
        self.next_id <= i32::MAX
    }

    /// The row under `id`, if there is one.
    pub open spec fn find(self, id: int) -> Option<PageRow> {
        lookup::<Page>(self.rows, id)
    }

    /// The table after a row with `title` was created: the row stands last,
    /// under the next key, stamped with the table's clock.
    pub open spec fn inserted(self, title: Seq<char>) -> TableState {
        TableState {
            rows: self.rows.push(PageRow { id: self.next_id, title, created: self.clock }),
            next_id: self.next_id + 1,
            clock: self.clock,
        }
    }

    /// The table after the row under `id` got `title`: every other row, and
    /// the rest of that row, is as before.
    pub open spec fn retitled(self, id: int, title: Seq<char>) -> TableState {
        TableState {
            rows: self.rows.map_values(
                |row: PageRow|
                    if row.id == id {
                        PageRow { id: row.id, title, created: row.created }
                    } else {
                        row
                    },
            ),
            next_id: self.next_id,
            clock: self.clock,
        }
    }

    /// The table after the row under `id` was removed: the other rows stay,
    /// in their order.
    pub open spec fn removed(self, id: int) -> TableState {
        TableState {
            rows: self.rows.filter(other_key::<Page>(id)),
            next_id: self.next_id,
            clock: self.clock,
        }
    }
}

/// A page table in memory. Keys are handed out in rising order, and never
/// again after a row was deleted.
pub struct PageTable {
    rows: Vec<Page>,
    next: Option<i32>,
    clock: NaiveDateTime,
}

impl View for PageTable {
    type V = TableState;

    closed spec fn view(&self) -> TableState {
        TableState {
            rows: views(self.rows@),
            next_id: match self.next {
                Some(id) => id as int,
                None => i32::MAX + 1,
            },
            clock: self.clock,
        }
    }
}

impl PageTable {
    /// An empty table that stamps `clock` on the rows it creates. Its first
    /// row gets the key 1.
    pub fn new(clock: NaiveDateTime) -> (table: PageTable)
        ensures
            table@ == TableState::empty(clock),
            table@.wf(),
    {
        PageTable::starting_at(1, clock)
    }

    /// An empty table whose first row gets the key `first_key`.
    pub fn starting_at(first_key: i32, clock: NaiveDateTime) -> (table: PageTable)
        ensures
            table@ == (TableState { rows: Seq::empty(), next_id: first_key as int, clock }),
            table@.wf(),
    {
        let table = PageTable { rows: Vec::new(), next: Some(first_key), clock };
        assert(table@.rows =~= Seq::empty());
        table
    }

    /// The key that the next new row gets, where one is left.
    pub fn next_key(&self) -> (key: Option<i32>)
        ensures
            match key {
                Some(id) => self@.has_room() && id == self@.next_id,
                None => !self@.has_room(),
            },
    {
        self.next
    }

    /// The instant that the table stamps on the rows it creates.
    pub fn clock(&self) -> (clock: NaiveDateTime)
        ensures
            clock == self@.clock,
    {
        self.clock
    }

    /// Sets the instant that the table stamps on the rows it creates from
    /// now on. The rows stay as they are.
    pub fn set_clock(&mut self, clock: NaiveDateTime)
        ensures
            final(self)@ == (TableState { clock, ..old(self)@ }),
    {
        self.clock = clock;
    }

    /// The number of rows.
    pub fn len(&self) -> (count: usize)
        ensures
            count == self@.rows.len(),
    {
        self.rows.len()
    }

    /// Whether the table has no rows.
    pub fn is_empty(&self) -> (empty: bool)
        ensures
            empty == (self@.rows.len() == 0),
    {
        self.rows.len() == 0
    }

    /// The position of the row under `id`, if there is one.
    fn locate(&self, id: i32) -> (at: Option<usize>)
        ensures
            match at {
                Some(i) => i < self.rows.len() && self@.rows[i as int].id == id,
                None => !has_key::<Page>(self@.rows, id as int),
            },
    {
        let mut i: usize = 0;
        while i < self.rows.len()
            invariant
                i <= self.rows.len(),
                forall|j: int| 0 <= j < i ==> (#[trigger] self@.rows[j]).id != id,
            decreases self.rows.len() - i,
        {
            if self.rows[i].page_id() == id {
                return Some(i);
            }
            i += 1;
        }
        None
    }
}

impl Model for Page {
    type Storage = PageTable;

    open spec fn records(storage: &PageTable) -> Seq<PageRow> {
        storage@.rows
    }

    open spec fn valid(storage: &PageTable) -> bool {
        storage@.wf()
    }

    proof fn valid_keys_distinct(storage: &PageTable) {
    }

    /// Creates a row with the title of `new_page`, under the next key and
    /// stamped with the table's clock. It fails, with `ConstraintViolation`,
    /// exactly where the keys are used up.
    fn create(storage: &mut PageTable, new_page: &MutPage) -> (done: Result<(), StoreError>)
        ensures
            done is Ok <==> old(storage)@.has_room(),
            done is Ok ==> final(storage)@ == old(storage)@.inserted(new_page@),
            done is Err ==> done == Err::<(), StoreError>(StoreError::ConstraintViolation)
                && final(storage)@ == old(storage)@,
    {
        let id: i32 = match storage.next {
            Some(id) => id,
            None => { return Err(StoreError::ConstraintViolation); },
        };
        let page = Page::new(id, new_page.title().to_owned(), storage.clock);
        proof {
            let before = storage@.rows;
            if has_key::<Page>(before, id as int) {
                let i = lemma_lookup_found::<Page>(before, id as int);
                assert(before[i].id < id);
            }
            lemma_push::<Page>(before, page@);
            assert(views(storage.rows@.push(page)) =~= before.push(page@));
        }
        storage.rows.push(page);
        storage.next = if id == i32::MAX {
            None
        } else {
            Some(id + 1)
        };
        Ok(())
    }

    /// The row under `id`, or `NotFound` where there is none.
    fn read_one(storage: &PageTable, id: i32) -> (found: Result<Page, StoreError>)
        ensures
            found is Ok <==> has_key::<Page>(storage@.rows, id as int),
            match found {
                Ok(page) => storage@.find(id as int) == Some(page@),
                Err(error) => error == StoreError::NotFound,
            },
    {
        match storage.locate(id) {
            Some(i) => {
                proof {
                    lemma_lookup_at::<Page>(storage@.rows, i as int);
                }
                Ok(storage.rows[i].clone())
            },
            None => Err(StoreError::NotFound),
        }
    }

    /// Every row, in storage order.
    fn read_all(storage: &PageTable) -> (all: Result<Vec<Page>, StoreError>)
        ensures
            all matches Ok(list) && views(list@) == storage@.rows,
    {
        let mut list: Vec<Page> = Vec::new();
        let mut i: usize = 0;
        while i < storage.rows.len()
            invariant
                i <= storage.rows.len(),
                list.len() == i,
                forall|j: int| 0 <= j < i ==> (#[trigger] list@[j])@ == storage.rows@[j]@,
            decreases storage.rows.len() - i,
        {
            list.push(storage.rows[i].clone());
            i += 1;
        }
        assert(views(list@) =~= storage@.rows);
        Ok(list)
    }

    /// Gives the row under `id` the title of `new_page`. Where there is no
    /// such row, nothing changes.
    fn update(storage: &mut PageTable, id: i32, new_page: &MutPage) -> (done: Result<(), StoreError>)
        ensures
            done is Ok,
            final(storage)@ == old(storage)@.retitled(id as int, new_page@),
    {
        let ghost before = storage@.rows;
        match storage.locate(id) {
            Some(i) => {
                let created = storage.rows[i].time_created();
                let page = Page::new(id, new_page.title().to_owned(), created);
                storage.rows.set(i, page);
            },
            None => {},
        }
        proof {
            let after = storage@.rows;
            assert(after =~= old(storage)@.retitled(id as int, new_page@).rows) by {
                assert forall|j: int| 0 <= j < before.len() implies #[trigger] after[j]
                    == old(storage)@.retitled(id as int, new_page@).rows[j] by {
                    if before[j].id == id {
                        lemma_lookup_at::<Page>(before, j);
                    }
                }
            }
            lemma_rewrite::<Page>(before, id as int, new_page, after);
        }
        Ok(())
    }

    /// Removes the row under `id`. Where there is no such row, nothing
    /// changes.
    fn delete(storage: &mut PageTable, id: i32) -> (done: Result<(), StoreError>)
        ensures
            done is Ok,
            final(storage)@ == old(storage)@.removed(id as int),
    {
        let ghost before = storage@.rows;
        match storage.locate(id) {
            Some(i) => {
                storage.rows.remove(i);
                proof {
                    lemma_remove_is_filter::<Page>(before, i as int);
                    lemma_remove::<Page>(before, i as int);
                    assert(storage@.rows =~= before.remove(i as int));
                }
            },
            None => {
                proof {
                    lemma_filter_absent::<Page>(before, id as int);
                }
            },
        }
        Ok(())
    }
}

} // verus!
