//! The page record and its write-only projection.

use crate::models::contract::Record;
use chrono::NaiveDateTime;
use vstd::prelude::*;
use vstd::std_specs::cmp::PartialEqSpecImpl;

verus! {

/// `chrono::NaiveDateTime`, carried through as an opaque value: nothing in
/// this crate looks inside one.
#[verifier::external_type_specification]
#[verifier::external_body]
pub struct ExNaiveDateTime(chrono::NaiveDateTime);

/// `==` of `chrono::NaiveDateTime`, which compares the date and the time of
/// day field by field: two instants are equal exactly where they are the
/// same value.
#[verifier::external_body]
fn same_instant(left: &NaiveDateTime, right: &NaiveDateTime) -> (same: bool)
    ensures
        same == (*left == *right),
{
    left == right
}

/// What a page is, mathematically: its key, its title and the instant at
/// which storage created it.
pub ghost struct PageRow {
    pub id: int,
    pub title: Seq<char>,
    pub created: NaiveDateTime,
}

/// A persisted content page.
#[derive(Debug)]
pub struct Page {
    page_id: i32,
    title: String,
    time_created: NaiveDateTime,
}

impl View for Page {
    type V = PageRow;

    closed spec fn view(&self) -> PageRow {
        PageRow { id: self.page_id as int, title: self.title@, created: self.time_created }
    }
}

impl Page {
    /// A page with the given key, title and creation instant.
    pub fn new(page_id: i32, title: String, time_created: NaiveDateTime) -> (page: Page)
        ensures
            page@ == (PageRow { id: page_id as int, title: title@, created: time_created }),
    {
        Page { page_id, title, time_created }
    }

    /// The primary key.
    pub fn page_id(&self) -> (id: i32)
        ensures
            id == self@.id,
    {
        self.page_id
    }

    /// The title.
    pub fn title(&self) -> (title: &str)
        ensures
            title@ == self@.title,
    {
        self.title.as_str()
    }

    /// The instant at which storage created the page.
    pub fn time_created(&self) -> (created: NaiveDateTime)
        ensures
            created == self@.created,
    {
        self.time_created
    }
}

impl Record for Page {
    type Mutable = MutPage;

    open spec fn key(record: PageRow) -> int {
        record.id
    }

    open spec fn apply(record: PageRow, input: &MutPage) -> PageRow {
        PageRow { id: record.id, title: input@, created: record.created }
    }

    proof fn apply_is_stable(record: PageRow, input: &MutPage) {
    }
}

impl PartialEq for Page {
    fn eq(&self, other: &Page) -> (equal: bool) {
        self.page_id == other.page_id && self.title == other.title && same_instant(
            &self.time_created,
            &other.time_created,
        )
    }
}

impl PartialEqSpecImpl for Page {
    open spec fn obeys_eq_spec() -> bool {
        true
    }

    open spec fn eq_spec(&self, other: &Page) -> bool {
        self@ == other@
    }
}

impl Clone for Page {
    fn clone(&self) -> (copy: Page)
        ensures
            copy@ == self@,
    {
        Page {
            page_id: self.page_id,
            title: self.title.clone(),
            time_created: self.time_created,
        }
    }
}

/// The settable part of a page, used both to create and to update one.
#[derive(Debug)]
pub struct MutPage {
    title: String,
}

impl View for MutPage {
    type V = Seq<char>;

    closed spec fn view(&self) -> Seq<char> {
        self.title@
    }
}

impl MutPage {
    /// An input that carries `title`.
    pub fn new(title: String) -> (input: MutPage)
        ensures
            input@ == title@,
    {
        MutPage { title }
    }

    /// The title that the input carries.
    pub fn title(&self) -> (title: &str)
        ensures
            title@ == self@,
    {
        self.title.as_str()
    }
}

} // verus!
