use base64::engine::general_purpose::STANDARD;
use base64::Engine;
use product_api::guard::{authorize_header, Authorization};
use product_api::models::{NewProduct, Product};
use product_api::repositories::{
    Answer, Pending, ProductRepository, Reply, Statement, Step, INTERNAL_SERVER_ERROR, OK,
    PAGE_LIMIT,
};

fn product(id: i32, name: &str, description: &str, create_at: &str) -> Product {
    Product {
        id,
        name: name.to_string(),
        description: description.to_string(),
        create_at: create_at.to_string(),
    }
}

fn new_product(name: &str, description: &str) -> NewProduct {
    NewProduct { name: name.to_string(), description: description.to_string() }
}

/// A product table in memory that answers statements as storage would.
struct Table {
    rows: Vec<Product>,
    next_id: i32,
    clock: u32,
    statements: Vec<Statement>,
}

fn empty_table() -> Table {
    Table { rows: Vec::new(), next_id: 1, clock: 0, statements: Vec::new() }
}

fn execute(table: &mut Table, statement: Statement) -> Reply {
    table.statements.push(statement.clone());
    match statement {
        Statement::SelectPage { limit } => {
            Reply::Products(table.rows.iter().take(limit as usize).cloned().collect())
        }
        Statement::SelectById { id } => match table.rows.iter().find(|row| row.id == id) {
            Some(row) => Reply::Product(row.clone()),
            None => Reply::Failed,
        },
        Statement::Insert { name, description } => {
            table.clock += 1;
            let create_at = format!("2024-01-01 00:00:{:02}", table.clock);
            table.rows.push(Product { id: table.next_id, name, description, create_at });
            table.next_id += 1;
            Reply::Count(1)
        }
        Statement::SelectLastId => match table.rows.iter().map(|row| row.id).max() {
            Some(id) => Reply::Id(id),
            None => Reply::Failed,
        },
        Statement::Update { id, name, description } => {
            table.clock += 1;
            let mut count = 0;
            for row in table.rows.iter_mut() {
                if row.id == id {
                    row.name = name.clone();
                    row.description = description.clone();
                    count += 1;
                }
            }
            Reply::Count(count)
        }
        Statement::Delete { id } => {
            let before = table.rows.len();
            table.rows.retain(|row| row.id != id);
            Reply::Count(before - table.rows.len())
        }
    }
}

fn run(table: &mut Table, start: (Statement, Pending)) -> Option<Answer> {
    let (mut statement, mut pending) = start;
    loop {
        let reply = execute(table, statement);
        match ProductRepository::advance(pending, reply) {
            Step::Run(next, state) => {
                statement = next;
                pending = state;
            }
            Step::Done(answer) => return Some(answer),
            Step::Failed => return None,
        }
    }
}

#[test]
fn listing_asks_for_one_page() {
    assert_eq!(PAGE_LIMIT, 100);
    assert_eq!(
        ProductRepository::get_products(),
        (Statement::SelectPage { limit: 100 }, Pending::Listing)
    );
}

#[test]
fn lookup_asks_for_the_identifier() {
    assert_eq!(
        ProductRepository::get_product(7),
        (Statement::SelectById { id: 7 }, Pending::Fetching)
    );
    assert_eq!(
        ProductRepository::get_product(-1),
        (Statement::SelectById { id: -1 }, Pending::Fetching)
    );
}

#[test]
fn creation_starts_with_the_insertion() {
    assert_eq!(
        ProductRepository::create_product(new_product("A", "B")),
        (
            Statement::Insert { name: "A".to_string(), description: "B".to_string() },
            Pending::Inserting
        )
    );
}

#[test]
fn update_starts_with_name_and_description() {
    assert_eq!(
        ProductRepository::update_product(product(3, "N", "D", "2020-02-02")),
        (
            Statement::Update { id: 3, name: "N".to_string(), description: "D".to_string() },
            Pending::Updating { id: 3 }
        )
    );
}

#[test]
fn update_sends_no_creation_time() {
    let early = ProductRepository::update_product(product(3, "N", "D", "1999-01-01"));
    let late = ProductRepository::update_product(product(3, "N", "D", "2999-12-31"));
    assert_eq!(early, late);
}

#[test]
fn removal_asks_for_the_identifier() {
    assert_eq!(
        ProductRepository::delete_product(9),
        (Statement::Delete { id: 9 }, Pending::Deleting)
    );
}

#[test]
fn listing_ends_with_its_rows() {
    let rows = vec![product(1, "a", "b", "t1"), product(2, "c", "d", "t2")];
    assert_eq!(
        ProductRepository::advance(Pending::Listing, Reply::Products(rows.clone())),
        Step::Done(Answer::Products(rows))
    );
    assert_eq!(
        ProductRepository::advance(Pending::Listing, Reply::Products(Vec::new())),
        Step::Done(Answer::Products(Vec::new()))
    );
}

#[test]
fn listing_hands_back_one_page_of_a_longer_reply() {
    let rows: Vec<Product> =
        (1..=105).map(|id| product(id, &format!("p{}", id), "d", "t")).collect();
    match ProductRepository::advance(Pending::Listing, Reply::Products(rows.clone())) {
        Step::Done(Answer::Products(page)) => {
            assert_eq!(page.len(), 100);
            assert_eq!(page[..], rows[..100]);
        }
        other => panic!("unexpected step: {:?}", other),
    }
    let full: Vec<Product> = rows[..100].to_vec();
    assert_eq!(
        ProductRepository::advance(Pending::Listing, Reply::Products(full.clone())),
        Step::Done(Answer::Products(full))
    );
}

#[test]
fn lookup_ends_with_its_row() {
    let row = product(5, "n", "d", "t");
    assert_eq!(
        ProductRepository::advance(Pending::Fetching, Reply::Product(row.clone())),
        Step::Done(Answer::Product(row))
    );
}

#[test]
fn insertion_is_followed_by_the_last_identifier() {
    for count in [0usize, 1, 2] {
        assert_eq!(
            ProductRepository::advance(Pending::Inserting, Reply::Count(count)),
            Step::Run(Statement::SelectLastId, Pending::FindingLast)
        );
    }
}

#[test]
fn last_identifier_is_followed_by_its_lookup() {
    assert_eq!(
        ProductRepository::advance(Pending::FindingLast, Reply::Id(42)),
        Step::Run(Statement::SelectById { id: 42 }, Pending::Fetching)
    );
}

#[test]
fn update_is_followed_by_the_lookup_of_the_same_identifier() {
    for count in [0usize, 1] {
        assert_eq!(
            ProductRepository::advance(Pending::Updating { id: 8 }, Reply::Count(count)),
            Step::Run(Statement::SelectById { id: 8 }, Pending::Fetching)
        );
    }
}

#[test]
fn removal_ends_with_its_count() {
    assert_eq!(
        ProductRepository::advance(Pending::Deleting, Reply::Count(0)),
        Step::Done(Answer::Count(0))
    );
    assert_eq!(
        ProductRepository::advance(Pending::Deleting, Reply::Count(1)),
        Step::Done(Answer::Count(1))
    );
}

#[test]
fn failure_ends_every_operation() {
    let states = [
        Pending::Listing,
        Pending::Fetching,
        Pending::Inserting,
        Pending::FindingLast,
        Pending::Updating { id: 1 },
        Pending::Deleting,
    ];
    for pending in states {
        assert_eq!(ProductRepository::advance(pending, Reply::Failed), Step::Failed);
    }
}

#[test]
fn reply_of_another_kind_ends_in_failure() {
    let row = product(1, "n", "d", "t");
    assert_eq!(ProductRepository::advance(Pending::Listing, Reply::Count(1)), Step::Failed);
    assert_eq!(
        ProductRepository::advance(Pending::Listing, Reply::Product(row.clone())),
        Step::Failed
    );
    assert_eq!(ProductRepository::advance(Pending::Fetching, Reply::Id(1)), Step::Failed);
    assert_eq!(
        ProductRepository::advance(Pending::Fetching, Reply::Products(vec![row.clone()])),
        Step::Failed
    );
    assert_eq!(ProductRepository::advance(Pending::Inserting, Reply::Id(1)), Step::Failed);
    assert_eq!(ProductRepository::advance(Pending::FindingLast, Reply::Count(1)), Step::Failed);
    assert_eq!(
        ProductRepository::advance(Pending::Updating { id: 1 }, Reply::Product(row)),
        Step::Failed
    );
    assert_eq!(ProductRepository::advance(Pending::Deleting, Reply::Id(1)), Step::Failed);
}

#[test]
fn status_follows_the_step() {
    assert_eq!(OK, 200);
    assert_eq!(INTERNAL_SERVER_ERROR, 500);
    assert_eq!(Step::Done(Answer::Count(0)).status(), Some(200));
    assert_eq!(Step::Done(Answer::Products(Vec::new())).status(), Some(200));
    assert_eq!(Step::Failed.status(), Some(500));
    assert_eq!(Step::Run(Statement::SelectLastId, Pending::FindingLast).status(), None);
}

#[test]
fn creation_sends_three_statements() {
    let mut table = empty_table();
    let answer = run(&mut table, ProductRepository::create_product(new_product("A", "B")));
    assert_eq!(answer, Some(Answer::Product(product(1, "A", "B", "2024-01-01 00:00:01"))));
    assert_eq!(
        table.statements,
        vec![
            Statement::Insert { name: "A".to_string(), description: "B".to_string() },
            Statement::SelectLastId,
            Statement::SelectById { id: 1 },
        ]
    );
}

#[test]
fn update_sends_two_statements() {
    let mut table = empty_table();
    run(&mut table, ProductRepository::create_product(new_product("A", "B")));
    table.statements.clear();
    let answer =
        run(&mut table, ProductRepository::update_product(product(1, "C", "D", "ignored")));
    assert_eq!(answer, Some(Answer::Product(product(1, "C", "D", "2024-01-01 00:00:01"))));
    assert_eq!(
        table.statements,
        vec![
            Statement::Update { id: 1, name: "C".to_string(), description: "D".to_string() },
            Statement::SelectById { id: 1 },
        ]
    );
}

#[test]
fn update_of_a_missing_product_fails() {
    let mut table = empty_table();
    assert_eq!(run(&mut table, ProductRepository::update_product(product(4, "C", "D", ""))), None);
    assert_eq!(table.statements.len(), 2);
}

#[test]
fn lookup_of_a_missing_product_fails_with_the_common_status() {
    let mut table = empty_table();
    let (statement, pending) = ProductRepository::get_product(77);
    let reply = execute(&mut table, statement);
    let step = ProductRepository::advance(pending, reply);
    assert_eq!(step, Step::Failed);
    assert_eq!(step.status(), Some(500));
}

#[test]
fn removal_counts_the_rows_it_removed() {
    let mut table = empty_table();
    run(&mut table, ProductRepository::create_product(new_product("A", "B")));
    assert_eq!(run(&mut table, ProductRepository::delete_product(1)), Some(Answer::Count(1)));
    assert_eq!(run(&mut table, ProductRepository::delete_product(1)), Some(Answer::Count(0)));
}

#[test]
fn listing_is_capped() {
    let mut table = empty_table();
    for i in 0..105 {
        run(&mut table, ProductRepository::create_product(new_product(&format!("p{}", i), "d")));
    }
    match run(&mut table, ProductRepository::get_products()) {
        Some(Answer::Products(rows)) => {
            assert_eq!(rows.len(), 100);
            assert_eq!(rows[0].id, 1);
            assert_eq!(rows[99].id, 100);
        }
        other => panic!("unexpected answer: {:?}", other),
    }
}

#[test]
fn created_product_is_read_back_and_keeps_its_creation_time() {
    let header = format!("Basic {}", STANDARD.encode("admin:admin"));
    assert!(matches!(authorize_header(Some(&header)), Authorization::Authorized(_)));

    let mut table = empty_table();
    let created = match run(&mut table, ProductRepository::create_product(new_product("A", "B")))
    {
        Some(Answer::Product(row)) => row,
        other => panic!("unexpected answer: {:?}", other),
    };
    assert!(created.id > 0);
    assert_eq!(created.name, "A");
    assert_eq!(created.description, "B");

    let fetched = match run(&mut table, ProductRepository::get_product(created.id)) {
        Some(Answer::Product(row)) => row,
        other => panic!("unexpected answer: {:?}", other),
    };
    assert_eq!(fetched, created);
    assert!(!fetched.create_at.is_empty());

    let change = product(created.id, "A2", "B2", "1970-01-01 00:00:00");
    let updated = match run(&mut table, ProductRepository::update_product(change)) {
        Some(Answer::Product(row)) => row,
        other => panic!("unexpected answer: {:?}", other),
    };
    assert_eq!(updated.id, created.id);
    assert_eq!(updated.name, "A2");
    assert_eq!(updated.description, "B2");
    assert_eq!(updated.create_at, created.create_at);
}
