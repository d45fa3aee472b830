//! The durable backend: a repository on a relational table `todo` with the
//! columns `id` (primary key, generated by the table), `text` and
//! `completed`.
//!
//! Each repository operation is one statement. For each operation there are
//! two functions: one gives the statement to run, the other turns what the
//! database replied into the operation's answer. [`TodoRepositoryForDb`]
//! puts the two together around a [`Pool`], which runs the statement.
//!
//! `update` is a single statement that fills each absent field from the
//! stored row with `coalesce`, so that the merge is atomic: no other update
//! of the row can come between a read and a write.

use vstd::prelude::*;
use crate::error::RepositoryError;
use crate::model::CreateTodo;
use crate::model::Todo;
use crate::model::UpdateTodo;
use crate::repository::TodoRepository;

verus! {

/// Inserts a row that is not completed and gives it back with its id.
pub const INSERT: &'static str =
    "insert into todo (text, completed) values ($1, false) returning *";

/// Selects the row with an id.
pub const SELECT_ONE: &'static str = "select * from todo where id=$1";

/// Selects every row, the highest id first.
pub const SELECT_ALL: &'static str = "select * from todo order by id desc";

/// Sets each column for which a value is bound, keeps the others, and gives
/// the row back as it then stands.
pub const UPDATE: &'static str =
    "update todo set text=coalesce($1, text), completed=coalesce($2, completed) where id=$3 returning *";

/// Deletes the row with an id.
pub const DELETE: &'static str = "delete from todo where id=$1";

/// A value for one placeholder of a statement. `None` stands for SQL `NULL`.
#[derive(Debug)]
pub enum Bind {
    Text(Option<String>),
    Flag(Option<bool>),
    Id(i32),
}

/// What a [`Bind`] is, as a mathematical value.
pub enum BindView {
    Text(Option<Seq<char>>),
    Flag(Option<bool>),
    Id(i32),
}

/// How the reply to a statement is to be read.
#[derive(Debug, Clone, Copy, PartialEq, Eq, Structural)]
pub enum Fetch {
    /// Exactly one row is expected.
    One,
    /// All rows that the statement gives.
    All,
    /// No rows, only how many the statement has affected.
    Count,
}

/// A statement, the values for its placeholders `$1`, `$2`, ... in their
/// order, and how to read the reply.
#[derive(Debug)]
pub struct Statement {
    pub sql: &'static str,
    pub binds: Vec<Bind>,
    pub fetch: Fetch,
}

/// What a [`Statement`] is, as a mathematical value.
pub struct StatementView {
    pub sql: Seq<char>,
    pub binds: Seq<BindView>,
    pub fetch: Fetch,
}

/// A failure that the database reported in place of a reply.
#[derive(Debug)]
pub struct Fault {
    /// The statement was to give a row and gave none.
    pub no_row: bool,
    /// The database's own words.
    pub description: String,
}

impl View for Bind {
    type V = BindView;

    open spec fn view(&self) -> BindView {
        match self {
            Bind::Text(Some(text)) => BindView::Text(Some(text@)),
            Bind::Text(None) => BindView::Text(None),
            Bind::Flag(flag) => BindView::Flag(*flag),
            Bind::Id(id) => BindView::Id(*id),
        }
    }
}

impl View for Statement {
    type V = StatementView;

    open spec fn view(&self) -> StatementView {
        StatementView {
            sql: self.sql@,
            binds: self.binds@.map_values(|bind: Bind| bind@),
            fetch: self.fetch,
        }
    }
}

/// A statement of the repository: one of the five, read in its own way,
/// with a value of the right kind for each of its placeholders.
pub open spec fn well_formed(statement: StatementView) -> bool {
    ||| {
        &&& statement.sql == INSERT@
        &&& statement.fetch == Fetch::One
        &&& statement.binds.len() == 1
        &&& statement.binds[0] matches BindView::Text(Some(_))
    }
    ||| {
        &&& statement.sql == SELECT_ONE@
        &&& statement.fetch == Fetch::One
        &&& statement.binds.len() == 1
        &&& statement.binds[0] is Id
    }
    ||| {
        &&& statement.sql == SELECT_ALL@
        &&& statement.fetch == Fetch::All
        &&& statement.binds.len() == 0
    }
    ||| {
        &&& statement.sql == UPDATE@
        &&& statement.fetch == Fetch::One
        &&& statement.binds.len() == 3
        &&& statement.binds[0] is Text
        &&& statement.binds[1] is Flag
        &&& statement.binds[2] is Id
    }
    ||| {
        &&& statement.sql == DELETE@
        &&& statement.fetch == Fetch::Count
        &&& statement.binds.len() == 1
        &&& statement.binds[0] is Id
    }
}

/// The failure that a fault becomes where the operation asked for a record
/// by id: `NotFound(id)` where the database gave no row, `Unexpected` with
/// the database's words otherwise.
pub open spec fn classified(id: i32, fault: Fault) -> RepositoryError {
    if fault.no_row {
        RepositoryError::NotFound(id)
    } else {
        RepositoryError::Unexpected(fault.description)
    }
}

/// What [`create_outcome`] and [`all_outcome`] make of a reply: the rows as
/// they came, and every fault `Unexpected` with the database's words.
pub open spec fn unclassified<T>(reply: Result<T, Fault>) -> Result<T, RepositoryError> {
    match reply {
        Ok(rows) => Ok(rows),
        Err(fault) => Err(RepositoryError::Unexpected(fault.description)),
    }
}

/// What [`find_outcome`] and [`update_outcome`] make of a reply: the row as
/// it came, and a fault as [`classified`] says.
pub open spec fn row_or_classified(id: i32, reply: Result<Todo, Fault>) -> Result<
    Todo,
    RepositoryError,
> {
    match reply {
        Ok(row) => Ok(row),
        Err(fault) => Err(classified(id, fault)),
    }
}

/// What [`delete_outcome`] makes of a reply: success where a row was
/// affected, `NotFound(id)` where none was, and a fault as [`classified`]
/// says.
pub open spec fn deleted_or_classified(id: i32, reply: Result<u64, Fault>) -> Result<
    (),
    RepositoryError,
> {
    match reply {
        Ok(affected) => if affected == 0 {
            Err(RepositoryError::NotFound(id))
        } else {
            Ok(())
        },
        Err(fault) => Err(classified(id, fault)),
    }
}

/// The statement of `create`: inserts a row with the payload's text, not
/// completed, and gives the row back with the id that the table generated.
pub fn create_statement(payload: CreateTodo) -> (statement: Statement)
    ensures
        statement@ == (StatementView {
            sql: INSERT@,
            binds: seq![BindView::Text(Some(payload.text@))],
            fetch: Fetch::One,
        }),
{
    let mut binds: Vec<Bind> = Vec::new();
    binds.push(Bind::Text(Some(payload.text)));
    let statement = Statement { sql: INSERT, binds, fetch: Fetch::One };
    assert(statement@.binds =~= seq![BindView::Text(Some(payload.text@))]);
    statement
}

/// The answer of `create`: the row that the insert gave back. Every fault is
/// `Unexpected`, with the database's words.
pub fn create_outcome(reply: Result<Todo, Fault>) -> (answer: Result<Todo, RepositoryError>)
    ensures
        answer == unclassified(reply),
{
    match reply {
        Ok(row) => Ok(row),
        Err(fault) => Err(RepositoryError::Unexpected(fault.description)),
    }
}

/// The statement of `find`: selects the row with the id.
pub fn find_statement(id: i32) -> (statement: Statement)
    ensures
        statement@ == (StatementView {
            sql: SELECT_ONE@,
            binds: seq![BindView::Id(id)],
            fetch: Fetch::One,
        }),
{
    let mut binds: Vec<Bind> = Vec::new();
    binds.push(Bind::Id(id));
    let statement = Statement { sql: SELECT_ONE, binds, fetch: Fetch::One };
    assert(statement@.binds =~= seq![BindView::Id(id)]);
    statement
}

/// The answer of `find`: the row that was selected; `NotFound(id)` where
/// there was no row; `Unexpected` for any other fault.
pub fn find_outcome(id: i32, reply: Result<Todo, Fault>) -> (answer: Result<Todo, RepositoryError>)
    ensures
        answer == row_or_classified(id, reply),
{
    match reply {
        Ok(row) => Ok(row),
        Err(fault) => Err(classify(id, fault)),
    }
}

/// The statement of `all`: selects every row, the highest id first.
pub fn all_statement() -> (statement: Statement)
    ensures
        statement@ == (StatementView {
            sql: SELECT_ALL@,
            binds: Seq::<BindView>::empty(),
            fetch: Fetch::All,
        }),
{
    let statement = Statement { sql: SELECT_ALL, binds: Vec::new(), fetch: Fetch::All };
    assert(statement@.binds =~= Seq::<BindView>::empty());
    statement
}

/// The answer of `all`: the rows in the order in which the database gave
/// them. Every fault is `Unexpected`, with the database's words.
pub fn all_outcome(reply: Result<Vec<Todo>, Fault>) -> (answer: Result<Vec<Todo>, RepositoryError>)
    ensures
        answer == unclassified(reply),
{
    match reply {
        Ok(rows) => Ok(rows),
        Err(fault) => Err(RepositoryError::Unexpected(fault.description)),
    }
}

/// The statement of `update`: sets each column for which the payload has a
/// value, keeps the stored value of the others, and gives the row back as it
/// then stands.
pub fn update_statement(id: i32, payload: UpdateTodo) -> (statement: Statement)
    ensures
        statement@ == (StatementView {
            sql: UPDATE@,
            binds: seq![
                BindView::Text(payload@.text),
                BindView::Flag(payload@.completed),
                BindView::Id(id),
            ],
            fetch: Fetch::One,
        }),
{
    let mut binds: Vec<Bind> = Vec::new();
    binds.push(Bind::Text(payload.text));
    binds.push(Bind::Flag(payload.completed));
    binds.push(Bind::Id(id));
    let statement = Statement { sql: UPDATE, binds, fetch: Fetch::One };
    assert(statement@.binds =~= seq![
        BindView::Text(payload@.text),
        BindView::Flag(payload@.completed),
        BindView::Id(id),
    ]);
    statement
}

/// The answer of `update`: the row as it stands after the update;
/// `NotFound(id)` where there was no row to update; `Unexpected` for any
/// other fault.
pub fn update_outcome(id: i32, reply: Result<Todo, Fault>) -> (answer: Result<
    Todo,
    RepositoryError,
>)
    ensures
        answer == row_or_classified(id, reply),
{
    match reply {
        Ok(row) => Ok(row),
        Err(fault) => Err(classify(id, fault)),
    }
}

/// The statement of `delete`: deletes the row with the id.
pub fn delete_statement(id: i32) -> (statement: Statement)
    ensures
        statement@ == (StatementView {
            sql: DELETE@,
            binds: seq![BindView::Id(id)],
            fetch: Fetch::Count,
        }),
{
    let mut binds: Vec<Bind> = Vec::new();
    binds.push(Bind::Id(id));
    let statement = Statement { sql: DELETE, binds, fetch: Fetch::Count };
    assert(statement@.binds =~= seq![BindView::Id(id)]);
    statement
}

/// The answer of `delete`, from the number of rows that the statement
/// affected: success where a row was deleted; `NotFound(id)` where none was;
/// for a fault, what [`classified`] says.
pub fn delete_outcome(id: i32, reply: Result<u64, Fault>) -> (answer: Result<(), RepositoryError>)
    ensures
        answer == deleted_or_classified(id, reply),
{
    match reply {
        Ok(affected) => if affected == 0 {
            Err(RepositoryError::NotFound(id))
        } else {
            Ok(())
        },
        Err(fault) => Err(classify(id, fault)),
    }
}

/// What runs statements on the database: a pool of connections, or what
/// stands for one.
///
/// The backend is proved for every reply. A pool promises nothing of what
/// it gives back, and each method says only which statements it takes: the
/// backend is proved to hand it no others.
pub trait Pool {
    /// Runs a statement that gives one row, and reads the row as a record.
    fn fetch_one(&self, statement: Statement) -> (reply: Result<Todo, Fault>)
        requires
            well_formed(statement@),
            statement.fetch == Fetch::One,
    ;

    /// Runs a statement that gives any number of rows, and reads each as a
    /// record, in the order in which they come.
    fn fetch_all(&self, statement: Statement) -> (reply: Result<Vec<Todo>, Fault>)
        requires
            well_formed(statement@),
            statement.fetch == Fetch::All,
    ;

    /// Runs a statement that gives no rows, and tells how many rows it has
    /// affected.
    fn execute(&self, statement: Statement) -> (reply: Result<u64, Fault>)
        requires
            well_formed(statement@),
            statement.fetch == Fetch::Count,
    ;
}

/// A handle on the durable repository. A clone is another handle on the
/// same table, where a clone of the pool is another handle on the same
/// database.
#[derive(Debug)]
pub struct TodoRepositoryForDb<P: Pool> {
    pool: P,
}

impl<P: Pool> TodoRepositoryForDb<P> {
    /// A repository on the table that `pool` reaches.
    pub fn new(pool: P) -> (repository: Self)
        ensures
            repository.pool() == pool,
    {
        TodoRepositoryForDb { pool }
    }

    /// The pool that the repository runs its statements on.
    pub closed spec fn pool(&self) -> P {
        self.pool
    }
}

impl<P: Pool + Clone> Clone for TodoRepositoryForDb<P> {
    /// A handle on a clone of the pool.
    fn clone(&self) -> (handle: Self)
        ensures
            cloned(self.pool(), handle.pool()),
    {
        TodoRepositoryForDb { pool: self.pool.clone() }
    }
}

/// Each operation runs its one statement and reads the answer from the
/// reply. What the answer is depends on the database alone, so an operation
/// promises that its answer is what the outcome function of the operation
/// makes of some reply: the one that the pool gave.
impl<P: Pool + Clone + Send + Sync + 'static> TodoRepository for TodoRepositoryForDb<P> {
    fn create(&self, payload: CreateTodo) -> (answer: Result<Todo, RepositoryError>)
        ensures
            exists|reply: Result<Todo, Fault>| answer == #[trigger] unclassified(reply),
    {
        let reply = self.pool.fetch_one(create_statement(payload));
        create_outcome(reply)
    }

    fn find(&self, id: i32) -> (answer: Result<Todo, RepositoryError>)
        ensures
            exists|reply: Result<Todo, Fault>| answer == #[trigger] row_or_classified(id, reply),
    {
        let reply = self.pool.fetch_one(find_statement(id));
        find_outcome(id, reply)
    }

    fn all(&self) -> (answer: Result<Vec<Todo>, RepositoryError>)
        ensures
            exists|reply: Result<Vec<Todo>, Fault>| answer == #[trigger] unclassified(reply),
    {
        let reply = self.pool.fetch_all(all_statement());
        all_outcome(reply)
    }

    fn update(&self, id: i32, payload: UpdateTodo) -> (answer: Result<Todo, RepositoryError>)
        ensures
            exists|reply: Result<Todo, Fault>| answer == #[trigger] row_or_classified(id, reply),
    {
        let reply = self.pool.fetch_one(update_statement(id, payload));
        update_outcome(id, reply)
    }

    fn delete(&self, id: i32) -> (answer: Result<(), RepositoryError>)
        ensures
            exists|reply: Result<u64, Fault>| answer == #[trigger] deleted_or_classified(id, reply),
    {
        let reply = self.pool.execute(delete_statement(id));
        delete_outcome(id, reply)
    }
}

/// Computes [`classified`].
fn classify(id: i32, fault: Fault) -> (error: RepositoryError)
    ensures
        error == classified(id, fault),
{
    if fault.no_row {
        RepositoryError::NotFound(id)
    } else {
        RepositoryError::Unexpected(fault.description)
    }
}

} // verus!
