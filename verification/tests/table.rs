use chrono::{NaiveDate, NaiveDateTime};
use pages::models::contract::{Model, StoreError};
use pages::models::page::{MutPage, Page};
use pages::models::table::PageTable;

fn instant(day: u32, hour: u32) -> NaiveDateTime {
    NaiveDate::from_ymd_opt(2024, 3, day)
        .unwrap()
        .and_hms_opt(hour, 30, 15)
        .unwrap()
}

fn input(title: &str) -> MutPage {
    MutPage::new(title.to_string())
}

fn three_pages() -> PageTable {
    let mut table = PageTable::new(instant(1, 8));
    assert_eq!(Page::create(&mut table, &input("Home")), Ok(()));
    table.set_clock(instant(2, 9));
    assert_eq!(Page::create(&mut table, &input("About")), Ok(()));
    table.set_clock(instant(3, 10));
    assert_eq!(Page::create(&mut table, &input("Contact")), Ok(()));
    table
}

#[test]
fn page_that_was_created_is_read_back() {
    let mut table = PageTable::new(instant(1, 8));
    assert!(table.is_empty());
    assert_eq!(Page::create(&mut table, &input("Home")), Ok(()));
    assert_eq!(table.len(), 1);
    let page = Page::read_one(&table, 1).unwrap();
    assert_eq!(page.page_id(), 1);
    assert_eq!(page.title(), "Home");
    assert_eq!(page.time_created(), instant(1, 8));
    assert_eq!(page, Page::new(1, "Home".to_string(), instant(1, 8)));
}

#[test]
fn each_created_page_is_found_under_its_own_key() {
    let table = three_pages();
    assert_eq!(
        Page::read_one(&table, 1).unwrap(),
        Page::new(1, "Home".to_string(), instant(1, 8))
    );
    assert_eq!(
        Page::read_one(&table, 2).unwrap(),
        Page::new(2, "About".to_string(), instant(2, 9))
    );
    assert_eq!(
        Page::read_one(&table, 3).unwrap(),
        Page::new(3, "Contact".to_string(), instant(3, 10))
    );
}

#[test]
fn key_that_no_page_has_is_not_found() {
    let empty = PageTable::new(instant(1, 8));
    assert_eq!(Page::read_one(&empty, 1), Err(StoreError::NotFound));
    let table = three_pages();
    assert_eq!(Page::read_one(&table, 0), Err(StoreError::NotFound));
    assert_eq!(Page::read_one(&table, 4), Err(StoreError::NotFound));
    assert_eq!(Page::read_one(&table, -1), Err(StoreError::NotFound));
    assert_eq!(Page::read_one(&table, i32::MAX), Err(StoreError::NotFound));
    assert_eq!(Page::read_one(&table, i32::MIN), Err(StoreError::NotFound));
}

#[test]
fn update_changes_the_title_and_keeps_the_instant() {
    let mut table = three_pages();
    table.set_clock(instant(9, 23));
    assert_eq!(Page::update(&mut table, 2, &input("About us")), Ok(()));
    assert_eq!(
        Page::read_one(&table, 2).unwrap(),
        Page::new(2, "About us".to_string(), instant(2, 9))
    );
    assert_eq!(
        Page::read_one(&table, 1).unwrap(),
        Page::new(1, "Home".to_string(), instant(1, 8))
    );
    assert_eq!(
        Page::read_one(&table, 3).unwrap(),
        Page::new(3, "Contact".to_string(), instant(3, 10))
    );
    assert_eq!(table.len(), 3);
}

#[test]
fn update_twice_is_update_once() {
    let mut once = three_pages();
    let mut twice = three_pages();
    assert_eq!(Page::update(&mut once, 3, &input("Reach us")), Ok(()));
    assert_eq!(Page::update(&mut twice, 3, &input("Reach us")), Ok(()));
    assert_eq!(Page::update(&mut twice, 3, &input("Reach us")), Ok(()));
    assert_eq!(Page::read_all(&once), Page::read_all(&twice));
}

#[test]
fn update_under_a_free_key_changes_nothing() {
    let mut table = three_pages();
    let before = Page::read_all(&table).unwrap();
    assert_eq!(Page::update(&mut table, 7, &input("Ghost")), Ok(()));
    assert_eq!(Page::read_all(&table).unwrap(), before);
    assert_eq!(Page::read_one(&table, 7), Err(StoreError::NotFound));
}

#[test]
fn page_that_was_deleted_is_not_found() {
    let mut table = three_pages();
    assert_eq!(Page::delete(&mut table, 2), Ok(()));
    assert_eq!(Page::read_one(&table, 2), Err(StoreError::NotFound));
    assert_eq!(table.len(), 2);
    assert_eq!(
        Page::read_all(&table).unwrap(),
        vec![
            Page::new(1, "Home".to_string(), instant(1, 8)),
            Page::new(3, "Contact".to_string(), instant(3, 10)),
        ]
    );
}

#[test]
fn delete_under_a_free_key_changes_nothing() {
    let mut table = three_pages();
    let before = Page::read_all(&table).unwrap();
    assert_eq!(Page::delete(&mut table, 9), Ok(()));
    assert_eq!(Page::read_all(&table).unwrap(), before);
    assert_eq!(Page::read_one(&table, 9), Err(StoreError::NotFound));
    let mut empty = PageTable::new(instant(1, 8));
    assert_eq!(Page::delete(&mut empty, 1), Ok(()));
    assert!(empty.is_empty());
}

#[test]
fn delete_of_first_and_last_row() {
    let mut table = three_pages();
    assert_eq!(Page::delete(&mut table, 1), Ok(()));
    assert_eq!(Page::delete(&mut table, 3), Ok(()));
    assert_eq!(
        Page::read_all(&table).unwrap(),
        vec![Page::new(2, "About".to_string(), instant(2, 9))]
    );
    assert_eq!(Page::delete(&mut table, 2), Ok(()));
    assert!(table.is_empty());
    assert_eq!(Page::read_all(&table).unwrap(), Vec::<Page>::new());
}

#[test]
fn reading_all_lists_every_page_in_storage_order() {
    let table = three_pages();
    assert_eq!(
        Page::read_all(&table).unwrap(),
        vec![
            Page::new(1, "Home".to_string(), instant(1, 8)),
            Page::new(2, "About".to_string(), instant(2, 9)),
            Page::new(3, "Contact".to_string(), instant(3, 10)),
        ]
    );
    let empty = PageTable::new(instant(1, 8));
    assert_eq!(Page::read_all(&empty).unwrap(), Vec::<Page>::new());
}

#[test]
fn reading_all_twice_gives_the_same_list() {
    let table = three_pages();
    let first = Page::read_all(&table).unwrap();
    let one = Page::read_one(&table, 2);
    let second = Page::read_all(&table).unwrap();
    let third = Page::read_all(&table).unwrap();
    assert_eq!(first, second);
    assert_eq!(second, third);
    assert_eq!(first.len(), 3);
    assert!(one.is_ok());
}

#[test]
fn keys_rise_and_are_not_given_twice() {
    let mut table = three_pages();
    assert_eq!(Page::delete(&mut table, 3), Ok(()));
    assert_eq!(Page::create(&mut table, &input("News")), Ok(()));
    assert_eq!(Page::read_one(&table, 3), Err(StoreError::NotFound));
    assert_eq!(
        Page::read_one(&table, 4).unwrap(),
        Page::new(4, "News".to_string(), instant(3, 10))
    );
}

#[test]
fn titles_need_not_differ() {
    let mut table = PageTable::new(instant(1, 8));
    assert_eq!(Page::create(&mut table, &input("Same")), Ok(()));
    assert_eq!(Page::create(&mut table, &input("Same")), Ok(()));
    assert_eq!(Page::create(&mut table, &input("")), Ok(()));
    assert_eq!(Page::read_one(&table, 1).unwrap().title(), "Same");
    assert_eq!(Page::read_one(&table, 2).unwrap().title(), "Same");
    assert_eq!(Page::read_one(&table, 3).unwrap().title(), "");
}

#[test]
fn table_can_start_at_any_key() {
    let mut low = PageTable::starting_at(-2, instant(5, 5));
    assert_eq!(low.next_key(), Some(-2));
    for title in ["a", "b", "c", "d"] {
        assert_eq!(Page::create(&mut low, &input(title)), Ok(()));
    }
    assert_eq!(Page::read_one(&low, -2).unwrap().title(), "a");
    assert_eq!(Page::read_one(&low, 0).unwrap().title(), "c");
    assert_eq!(Page::read_one(&low, 1).unwrap().title(), "d");
    assert_eq!(Page::read_one(&low, 2), Err(StoreError::NotFound));
    let mut lowest = PageTable::starting_at(i32::MIN, instant(5, 5));
    assert_eq!(Page::create(&mut lowest, &input("first")), Ok(()));
    assert_eq!(Page::read_one(&lowest, i32::MIN).unwrap().title(), "first");
    assert_eq!(lowest.next_key(), Some(i32::MIN + 1));
}

#[test]
fn table_can_start_at_a_later_key() {
    let mut table = PageTable::starting_at(40, instant(5, 5));
    assert!(table.is_empty());
    assert_eq!(Page::create(&mut table, &input("Late")), Ok(()));
    assert_eq!(
        Page::read_one(&table, 40).unwrap(),
        Page::new(40, "Late".to_string(), instant(5, 5))
    );
    assert_eq!(Page::read_one(&table, 1), Err(StoreError::NotFound));
}

#[test]
fn create_fails_where_the_keys_are_used_up() {
    let mut table = PageTable::starting_at(i32::MAX, instant(1, 8));
    assert_eq!(Page::create(&mut table, &input("Last")), Ok(()));
    assert_eq!(
        Page::create(&mut table, &input("One too many")),
        Err(StoreError::ConstraintViolation)
    );
    assert_eq!(table.len(), 1);
    assert_eq!(
        Page::read_all(&table).unwrap(),
        vec![Page::new(i32::MAX, "Last".to_string(), instant(1, 8))]
    );
    assert_eq!(Page::update(&mut table, i32::MAX, &input("Still last")), Ok(()));
    assert_eq!(
        Page::read_one(&table, i32::MAX).unwrap().title(),
        "Still last"
    );
}

#[test]
fn clock_is_what_was_set() {
    let mut table = PageTable::new(instant(1, 8));
    assert_eq!(table.clock(), instant(1, 8));
    table.set_clock(instant(2, 9));
    assert_eq!(table.clock(), instant(2, 9));
    assert!(table.is_empty());
}

#[test]
fn pages_are_equal_where_key_title_and_instant_are() {
    let page = Page::new(7, "Home".to_string(), instant(1, 8));
    assert_eq!(page, Page::new(7, "Home".to_string(), instant(1, 8)));
    assert_ne!(page, Page::new(8, "Home".to_string(), instant(1, 8)));
    assert_ne!(page, Page::new(7, "home".to_string(), instant(1, 8)));
    assert_ne!(page, Page::new(7, "Home".to_string(), instant(1, 9)));
    assert_ne!(page, Page::new(7, "Home".to_string(), instant(2, 8)));
    assert_eq!(page.clone(), page);
}

#[test]
fn input_carries_its_title() {
    assert_eq!(input("Home").title(), "Home");
    assert_eq!(input("").title(), "");
}

#[test]
fn store_errors_differ() {
    assert_ne!(StoreError::NotFound, StoreError::Unavailable);
    assert_ne!(StoreError::NotFound, StoreError::ConstraintViolation);
    assert_ne!(StoreError::Unavailable, StoreError::ConstraintViolation);
}

fn retitle_and_read<M: Model>(storage: &mut M::Storage, id: i32, input: &M::Mutable) -> Result<M, StoreError> {
    M::update(storage, id, input)?;
    M::read_one(storage, id)
}

#[test]
fn contract_can_be_used_without_naming_the_record() {
    let mut table = three_pages();
    let page: Page = retitle_and_read(&mut table, 1, &input("Start")).unwrap();
    assert_eq!(page, Page::new(1, "Start".to_string(), instant(1, 8)));
    let missing: Result<Page, StoreError> = retitle_and_read(&mut table, 12, &input("Start"));
    assert_eq!(missing, Err(StoreError::NotFound));
}

#[test]
fn next_key_is_the_key_that_create_gives() {
    let mut table = three_pages();
    assert_eq!(table.next_key(), Some(4));
    let key = table.next_key().unwrap();
    assert_eq!(Page::create(&mut table, &input("News")), Ok(()));
    assert_eq!(Page::read_one(&table, key).unwrap().title(), "News");
    assert_eq!(table.next_key(), Some(5));
    assert_eq!(Page::delete(&mut table, key), Ok(()));
    assert_eq!(table.next_key(), Some(5));
    let mut last = PageTable::starting_at(i32::MAX, instant(1, 8));
    assert_eq!(last.next_key(), Some(i32::MAX));
    assert_eq!(Page::create(&mut last, &input("Last")), Ok(()));
    assert_eq!(last.next_key(), None);
}
