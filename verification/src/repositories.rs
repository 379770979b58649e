//! The product repository without its storage: which statements each
//! operation sends, in which order, and what it makes of the replies. The
//! caller owns the connection; it runs every statement it is handed and
//! hands the reply back until the operation is over.

use crate::models::{views_of, NewProduct, Product, ProductView};
use vstd::prelude::*;

verus! {

/// The most products that one listing asks for.
pub const PAGE_LIMIT: i64 = 100;

/// The status of the response to an operation that succeeded.
pub const OK: u16 = 200;

/// The status of the response to an operation that failed, whatever made it
/// fail: a product that is not there is no case of its own.
pub const INTERNAL_SERVER_ERROR: u16 = 500;

/// One statement for the product table.
#[derive(Debug, Clone, PartialEq, Eq)]
pub enum Statement {
    /// Read the first `limit` products.
    SelectPage { limit: i64 },
    /// Read the product with this identifier.
    SelectById { id: i32 },
    /// Store a product with this name and description.
    Insert { name: String, description: String },
    /// Read the greatest identifier in the table.
    SelectLastId,
    /// Set the name and the description of the product with this identifier.
    Update { id: i32, name: String, description: String },
    /// Remove the product with this identifier.
    Delete { id: i32 },
}

/// What a statement is in contracts.
pub enum StatementView {
    SelectPage { limit: int },
    SelectById { id: int },
    Insert { name: Seq<char>, description: Seq<char> },
    SelectLastId,
    Update { id: int, name: Seq<char>, description: Seq<char> },
    Delete { id: int },
}

impl View for Statement {
    type V = StatementView;

    open spec fn view(&self) -> StatementView {
        match self {
            Statement::SelectPage { limit } => StatementView::SelectPage { limit: *limit as int },
            Statement::SelectById { id } => StatementView::SelectById { id: *id as int },
            Statement::Insert { name, description } => StatementView::Insert {
                name: name@,
                description: description@,
            },
            Statement::SelectLastId => StatementView::SelectLastId,
            Statement::Update { id, name, description } => StatementView::Update {
                id: *id as int,
                name: name@,
                description: description@,
            },
            Statement::Delete { id } => StatementView::Delete { id: *id as int },
        }
    }
}

/// What storage answered to one statement.
#[derive(Debug, Clone, PartialEq, Eq)]
pub enum Reply {
    /// The rows that were read.
    Products(Vec<Product>),
    /// The one row that was read.
    Product(Product),
    /// The identifier that was read.
    Id(i32),
    /// The number of rows that were written or removed.
    Count(usize),
    /// The statement failed, or found no row where it had to find one.
    Failed,
}

/// What a reply is in contracts.
pub enum ReplyView {
    Products(Seq<ProductView>),
    Product(ProductView),
    Id(int),
    Count(nat),
    Failed,
}

impl View for Reply {
    type V = ReplyView;

    open spec fn view(&self) -> ReplyView {
        match self {
            Reply::Products(rows) => ReplyView::Products(views_of(rows@)),
            Reply::Product(row) => ReplyView::Product(row@),
            Reply::Id(id) => ReplyView::Id(*id as int),
            Reply::Count(count) => ReplyView::Count(*count as nat),
            Reply::Failed => ReplyView::Failed,
        }
    }
}

/// What an operation in progress waits for: the reply to the statement it
/// sent last.
#[derive(Debug, Clone, Copy, PartialEq, Eq, Structural)]
pub enum Pending {
    /// The rows of a listing.
    Listing,
    /// The row that ends a lookup, a creation or an update.
    Fetching,
    /// The count of an insertion.
    Inserting,
    /// The identifier of the product that was inserted.
    FindingLast,
    /// The count of an update of the product with this identifier.
    Updating { id: i32 },
    /// The count of a removal.
    Deleting,
}

/// What an operation hands to its caller when it is over.
#[derive(Debug, Clone, PartialEq, Eq)]
pub enum Answer {
    Products(Vec<Product>),
    Product(Product),
    Count(usize),
}

/// What an answer is in contracts.
pub enum AnswerView {
    Products(Seq<ProductView>),
    Product(ProductView),
    Count(nat),
}

impl View for Answer {
    type V = AnswerView;

    open spec fn view(&self) -> AnswerView {
        match self {
            Answer::Products(rows) => AnswerView::Products(views_of(rows@)),
            Answer::Product(row) => AnswerView::Product(row@),
            Answer::Count(count) => AnswerView::Count(*count as nat),
        }
    }
}

/// What the caller does next.
#[derive(Debug, Clone, PartialEq, Eq)]
pub enum Step {
    /// Run the statement and come back with its reply and this state.
    Run(Statement, Pending),
    /// The operation is over and succeeded.
    Done(Answer),
    /// The operation is over and failed.
    Failed,
}

/// What a step is in contracts.
pub enum StepView {
    Run(StatementView, Pending),
    Done(AnswerView),
    Failed,
}

impl View for Step {
    type V = StepView;

    open spec fn view(&self) -> StepView {
        match self {
            Step::Run(statement, pending) => StepView::Run(statement@, *pending),
            Step::Done(answer) => StepView::Done(answer@),
            Step::Failed => StepView::Failed,
        }
    }
}

/// The rows of one page: the first [`PAGE_LIMIT`] of `rows`, in their order,
/// or all of them where they are fewer.
pub open spec fn first_page<T>(rows: Seq<T>) -> Seq<T> {
    if rows.len() <= PAGE_LIMIT {
        rows
    } else {
        rows.take(PAGE_LIMIT as int)
    }
}

/// The step that follows `reply` in state `pending`. A reply of the kind
/// that the state waits for moves the operation on; any other reply, a
/// failure among them, ends it in failure. A listing hands back one page,
/// however many rows the reply holds.
pub open spec fn step_after(pending: Pending, reply: ReplyView) -> StepView {
    match (pending, reply) {
        (Pending::Listing, ReplyView::Products(rows)) => StepView::Done(
            AnswerView::Products(first_page(rows)),
        ),
        (Pending::Fetching, ReplyView::Product(row)) => StepView::Done(AnswerView::Product(row)),
        (Pending::Inserting, ReplyView::Count(_)) => StepView::Run(
            StatementView::SelectLastId,
            Pending::FindingLast,
        ),
        (Pending::FindingLast, ReplyView::Id(id)) => StepView::Run(
            StatementView::SelectById { id },
            Pending::Fetching,
        ),
        (Pending::Updating { id }, ReplyView::Count(_)) => StepView::Run(
            StatementView::SelectById { id: id as int },
            Pending::Fetching,
        ),
        (Pending::Deleting, ReplyView::Count(count)) => StepView::Done(AnswerView::Count(count)),
        _ => StepView::Failed,
    }
}

/// The statement that opens an update with `product`: it names the product
/// by its identifier and carries the name and the description, nothing else.
pub open spec fn update_statement(product: ProductView) -> StatementView {
    StatementView::Update {
        id: product.id,
        name: product.name,
        description: product.description,
    }
}

/// How many more statements an operation in state `pending` sends at most,
/// once the reply that it waits for is there.
pub open spec fn statements_left(pending: Pending) -> nat {
    match pending {
        Pending::Inserting => 2,
        Pending::FindingLast => 1,
        Pending::Updating { id } => 1,
        _ => 0,
    }
}

/// The status that answers the request once `step` is reached: none while
/// a statement is still to be run.
pub open spec fn status_of(step: StepView) -> Option<u16> {
    match step {
        StepView::Run(_, _) => None,
        StepView::Done(_) => Some(OK),
        StepView::Failed => Some(INTERNAL_SERVER_ERROR),
    }
}

/// Every operation ends: each further statement lowers the count of those
/// that may still follow, and an operation that may send no more ends with
/// the reply it waits for.
pub proof fn lemma_operations_end(pending: Pending, reply: ReplyView)
    ensures
        step_after(pending, reply) matches StepView::Run(_, next) ==> statements_left(next)
            < statements_left(pending),
        statements_left(pending) == 0 ==> !(step_after(pending, reply) is Run),
{
}

/// A listing is capped: whatever storage replies, the products handed back
/// are at most [`PAGE_LIMIT`], and they are the first of the reply, in its
/// order.
pub proof fn lemma_listing_is_capped(rows: Seq<ProductView>)
    ensures
        step_after(Pending::Listing, ReplyView::Products(rows)) == StepView::Done(
            AnswerView::Products(first_page(rows)),
        ),
        first_page(rows).len() <= PAGE_LIMIT,
        first_page(rows).is_prefix_of(rows),
        rows.len() <= PAGE_LIMIT ==> first_page(rows) == rows,
{
}

/// No operation outlives a failure: a failed statement ends it at once, and
/// nothing more is sent.
pub proof fn lemma_failure_ends(pending: Pending)
    ensures
        step_after(pending, ReplyView::Failed) == StepView::Failed,
{
}

/// A creation that meets no failure sends three statements: the insertion,
/// the question for the greatest identifier, and the lookup of the product
/// with the identifier that storage then named. What it hands back is the
/// row that this lookup found.
pub proof fn lemma_creation_reads_back(count: nat, id: int, row: ProductView)
    ensures
        step_after(Pending::Inserting, ReplyView::Count(count)) == StepView::Run(
            StatementView::SelectLastId,
            Pending::FindingLast,
        ),
        step_after(Pending::FindingLast, ReplyView::Id(id)) == StepView::Run(
            StatementView::SelectById { id },
            Pending::Fetching,
        ),
        step_after(Pending::Fetching, ReplyView::Product(row)) == StepView::Done(
            AnswerView::Product(row),
        ),
{
}

/// An update that meets no failure sends two statements: the update, and
/// the lookup of the product under the identifier that it had before. What
/// it hands back is the row that this lookup found.
pub proof fn lemma_update_reads_back(id: i32, count: nat, row: ProductView)
    ensures
        step_after(Pending::Updating { id }, ReplyView::Count(count)) == StepView::Run(
            StatementView::SelectById { id: id as int },
            Pending::Fetching,
        ),
        step_after(Pending::Fetching, ReplyView::Product(row)) == StepView::Done(
            AnswerView::Product(row),
        ),
{
}

/// An update takes no creation time from its caller: two products that
/// differ in nothing but their creation time open the same update.
pub proof fn lemma_update_sends_no_creation_time(a: ProductView, b: ProductView)
    requires
        a.id == b.id,
        a.name == b.name,
        a.description == b.description,
    ensures
        update_statement(a) == update_statement(b),
{
}

/// The product repository. It holds nothing: storage is the caller's.
#[derive(Debug, Clone, Copy)]
pub struct ProductRepository;

impl ProductRepository {
    /// Starts a listing: at most [`PAGE_LIMIT`] products are asked for.
    pub fn get_products() -> (start: (Statement, Pending))
        ensures
            start.0@ == (StatementView::SelectPage { limit: PAGE_LIMIT as int }),
            start.1 == Pending::Listing,
    {
        (Statement::SelectPage { limit: PAGE_LIMIT }, Pending::Listing)
    }

    /// Starts the lookup of the product with this identifier.
    pub fn get_product(id: i32) -> (start: (Statement, Pending))
        ensures
            start.0@ == (StatementView::SelectById { id: id as int }),
            start.1 == Pending::Fetching,
    {
        (Statement::SelectById { id }, Pending::Fetching)
    }

    /// Starts a creation. The product is inserted, then the greatest
    /// identifier is read, then the product with that identifier.
    pub fn create_product(new_product: NewProduct) -> (start: (Statement, Pending))
        ensures
            start.0@ == (StatementView::Insert {
                name: new_product.name@,
                description: new_product.description@,
            }),
            start.1 == Pending::Inserting,
    {
        (
            Statement::Insert { name: new_product.name, description: new_product.description },
            Pending::Inserting,
        )
    }

    /// Starts an update of the product that `product.id` names. Its name and
    /// description are set, then the product is read again. The creation
    /// time in `product` goes nowhere.
    pub fn update_product(product: Product) -> (start: (Statement, Pending))
        ensures
            start.0@ == update_statement(product@),
            start.1 == (Pending::Updating { id: product.id }),
    {
        let id: i32 = product.id;
        (
            Statement::Update { id, name: product.name, description: product.description },
            Pending::Updating { id },
        )
    }

    /// Starts the removal of the product with this identifier.
    pub fn delete_product(id: i32) -> (start: (Statement, Pending))
        ensures
            start.0@ == (StatementView::Delete { id: id as int }),
            start.1 == Pending::Deleting,
    {
        (Statement::Delete { id }, Pending::Deleting)
    }

    /// Takes the reply to the statement that was sent last and says what
    /// comes next.
    pub fn advance(pending: Pending, reply: Reply) -> (step: Step)
        ensures
            step@ == step_after(pending, reply@),
    {
        match (pending, reply) {
            (Pending::Listing, Reply::Products(rows)) => {
                let mut page = rows;
                page.truncate(PAGE_LIMIT as usize);
                assert(views_of(page@) =~= first_page(views_of(rows@)));
                Step::Done(Answer::Products(page))
            },
            (Pending::Fetching, Reply::Product(row)) => Step::Done(Answer::Product(row)),
            (Pending::Inserting, Reply::Count(_)) => Step::Run(
                Statement::SelectLastId,
                Pending::FindingLast,
            ),
            (Pending::FindingLast, Reply::Id(id)) => Step::Run(
                Statement::SelectById { id },
                Pending::Fetching,
            ),
            (Pending::Updating { id }, Reply::Count(_)) => Step::Run(
                Statement::SelectById { id },
                Pending::Fetching,
            ),
            (Pending::Deleting, Reply::Count(count)) => Step::Done(Answer::Count(count)),
            _ => Step::Failed,
        }
    }
}

impl Step {
    /// The status that answers the request at this step, if the operation is
    /// over: [`OK`] after success, [`INTERNAL_SERVER_ERROR`] after failure.
    pub fn status(&self) -> (code: Option<u16>)
        ensures
            code == status_of(self@),
    {
        match self {
            Step::Run(_, _) => None,
            Step::Done(_) => Some(OK),
            Step::Failed => Some(INTERNAL_SERVER_ERROR),
        }
    }
}

} // verus!
