//! The users table: the commands that the handlers send to it, what it
//! replies, and the table itself as rows held in memory.

use crate::user::{user_views, User, UserView};
use vstd::prelude::*;

verus! {

/// A statement for the users table.
#[derive(Debug, PartialEq, Eq)]
pub enum StoreCommand {
    /// Add a row with these fields and a new id.
    Insert { name: String, email: String },
    /// The row with this id.
    SelectById(i32),
    /// All rows.
    SelectAll,
    /// Give the row with this id these fields.
    Update { id: i32, name: String, email: String },
    /// Remove the row with this id.
    Delete(i32),
}

/// A command as a mathematical value.
pub enum StoreCommandView {
    Insert { name: Seq<char>, email: Seq<char> },
    SelectById(i32),
    SelectAll,
    Update { id: i32, name: Seq<char>, email: Seq<char> },
    Delete(i32),
}

impl View for StoreCommand {
    type V = StoreCommandView;

    open spec fn view(&self) -> StoreCommandView {
        match self {
            StoreCommand::Insert { name, email } => StoreCommandView::Insert {
                name: name@,
                email: email@,
            },
            StoreCommand::SelectById(id) => StoreCommandView::SelectById(*id),
            StoreCommand::SelectAll => StoreCommandView::SelectAll,
            StoreCommand::Update { id, name, email } => StoreCommandView::Update {
                id: *id,
                name: name@,
                email: email@,
            },
            StoreCommand::Delete(id) => StoreCommandView::Delete(*id),
        }
    }
}

/// The SQL text of the command `command`, with `$1`, `$2`, `$3` for its
/// values in the order in which the command holds them; the id of an update
/// comes last.
pub open spec fn statement_of(command: StoreCommandView) -> Seq<char> {
    match command {
        StoreCommandView::Insert { .. } => "INSERT INTO users (name, email) VALUES ($1, $2)"@,
        StoreCommandView::SelectById(_) => "SELECT id, name, email FROM users WHERE id = $1"@,
        StoreCommandView::SelectAll => "SELECT id, name, email FROM users"@,
        StoreCommandView::Update { .. } => "UPDATE users SET name = $1, email = $2 WHERE id = $3"@,
        StoreCommandView::Delete(_) => "DELETE FROM users WHERE id = $1"@,
    }
}

/// The SQL text that makes the users table where there is none yet.
pub open spec fn schema_text() -> Seq<char> {
    "CREATE TABLE IF NOT EXISTS users (id SERIAL PRIMARY KEY, name TEXT NOT NULL, email TEXT NOT NULL)"@
}

impl StoreCommand {
    /// The SQL text of this command.
    pub fn statement(&self) -> (sql: &'static str)
        ensures
            sql@ == statement_of(self@),
    {
        match self {
            StoreCommand::Insert { .. } => "INSERT INTO users (name, email) VALUES ($1, $2)",
            StoreCommand::SelectById(_) => "SELECT id, name, email FROM users WHERE id = $1",
            StoreCommand::SelectAll => "SELECT id, name, email FROM users",
            StoreCommand::Update { .. } => "UPDATE users SET name = $1, email = $2 WHERE id = $3",
            StoreCommand::Delete(_) => "DELETE FROM users WHERE id = $1",
        }
    }
}

/// The SQL text that makes the users table where there is none yet.
pub fn schema_statement() -> (sql: &'static str)
    ensures
        sql@ == schema_text(),
{
    "CREATE TABLE IF NOT EXISTS users (id SERIAL PRIMARY KEY, name TEXT NOT NULL, email TEXT NOT NULL)"
}

/// What came of a command.
#[derive(Debug, PartialEq, Eq)]
pub enum StoreReply {
    /// No connection to the table could be made.
    Unreachable,
    /// The table refused the statement.
    Failed,
    /// The statement ran and changed this many rows.
    Affected(u64),
    /// The statement ran and gave these rows.
    Rows(Vec<User>),
}

/// A reply as a mathematical value.
pub enum StoreReplyView {
    Unreachable,
    Failed,
    Affected(u64),
    Rows(Seq<UserView>),
}

impl View for StoreReply {
    type V = StoreReplyView;

    open spec fn view(&self) -> StoreReplyView {
        match self {
            StoreReply::Unreachable => StoreReplyView::Unreachable,
            StoreReply::Failed => StoreReplyView::Failed,
            StoreReply::Affected(n) => StoreReplyView::Affected(*n),
            StoreReply::Rows(rows) => StoreReplyView::Rows(user_views(rows@)),
        }
    }
}

/// Index of the first row of `rows` at or after `from` whose id is `id`;
/// `rows.len()` where there is none.
pub open spec fn row_index(rows: Seq<UserView>, id: i32, from: int) -> int
    decreases rows.len() - from,
{
    if from < 0 || from >= rows.len() {
        rows.len() as int
    } else if rows[from].id == Some(id) {
        from
    } else {
        row_index(rows, id, from + 1)
    }
}

/// The users table as a mathematical value: its rows in the order in which
/// they were added, and the id that the next new row gets.
pub struct TableView {
    pub rows: Seq<UserView>,
    pub next_id: int,
}

impl TableView {
    /// Every row has an id, positive and below `next_id`, and the ids grow
    /// along the rows, so that no two rows share one.
    pub open spec fn wf(self) -> bool {
        &&& 1 <= self.next_id <= i32::MAX + 1
        &&& forall|i: int|
            0 <= i < self.rows.len() ==> (#[trigger] self.rows[i]).id is Some && 1
                <= self.rows[i].id->0 < self.next_id
        &&& forall|i: int, j: int|
            0 <= i < j < self.rows.len() ==> (#[trigger] self.rows[i]).id->0 < (
            #[trigger] self.rows[j]).id->0
    }

    /// Whether a row has the id `id`.
    pub open spec fn has(self, id: i32) -> bool {
        row_index(self.rows, id, 0) < self.rows.len()
    }

    /// Whether the table has an id left for a new row.
    pub open spec fn has_room(self) -> bool {
        self.next_id <= i32::MAX
    }

    /// The table after the command `command`, and the reply to it.
    pub open spec fn execute(self, command: StoreCommandView) -> (TableView, StoreReplyView) {
        let k = match command {
            StoreCommandView::SelectById(id) => row_index(self.rows, id, 0),
            StoreCommandView::Update { id, .. } => row_index(self.rows, id, 0),
            StoreCommandView::Delete(id) => row_index(self.rows, id, 0),
            _ => 0,
        };
        match command {
            StoreCommandView::Insert { name, email } => if self.has_room() {
                (
                    TableView {
                        rows: self.rows.push(
                            UserView { id: Some(self.next_id as i32), name, email },
                        ),
                        next_id: self.next_id + 1,
                    },
                    StoreReplyView::Affected(1),
                )
            } else {
                (self, StoreReplyView::Failed)
            },
            StoreCommandView::SelectById(id) => if k < self.rows.len() {
                (self, StoreReplyView::Rows(seq![self.rows[k]]))
            } else {
                (self, StoreReplyView::Rows(Seq::empty()))
            },
            StoreCommandView::SelectAll => (self, StoreReplyView::Rows(self.rows)),
            StoreCommandView::Update { id, name, email } => if k < self.rows.len() {
                (
                    TableView {
                        rows: self.rows.update(k, UserView { id: Some(id), name, email }),
                        next_id: self.next_id,
                    },
                    StoreReplyView::Affected(1),
                )
            } else {
                (self, StoreReplyView::Affected(0))
            },
            StoreCommandView::Delete(id) => if k < self.rows.len() {
                (
                    TableView { rows: self.rows.remove(k), next_id: self.next_id },
                    StoreReplyView::Affected(1),
                )
            } else {
                (self, StoreReplyView::Affected(0))
            },
        }
    }
}

/// `row_index` finds the first row at or after `from` with the id `id`: no
/// row before the one it names has that id, and it names the end of the rows
/// where none has.
pub proof fn row_index_is_first(rows: Seq<UserView>, id: i32, from: int)
    requires
        0 <= from <= rows.len(),
    ensures
        from <= row_index(rows, id, from) <= rows.len(),
        row_index(rows, id, from) < rows.len() ==> rows[row_index(rows, id, from)].id == Some(id),
        forall|j: int| from <= j < row_index(rows, id, from) ==> (#[trigger] rows[j]).id != Some(id),
    decreases rows.len() - from,
{
    if from < rows.len() && rows[from].id != Some(id) {
        row_index_is_first(rows, id, from + 1);
    }
}

/// In a well-formed table at most one row has a given id.
pub proof fn id_names_one_row(t: TableView, i: int, j: int)
    requires
        t.wf(),
        0 <= i < t.rows.len(),
        0 <= j < t.rows.len(),
        t.rows[i].id == t.rows[j].id,
    ensures
        i == j,
{
    if i < j {
        assert(t.rows[i].id->0 < t.rows[j].id->0);
    } else if j < i {
        assert(t.rows[j].id->0 < t.rows[i].id->0);
    }
}

/// Every command leaves a well-formed table well formed: each row keeps an
/// id of its own, and the ids that were given out are never given again.
pub proof fn execute_keeps_wf(t: TableView, command: StoreCommandView)
    requires
        t.wf(),
    ensures
        t.execute(command).0.wf(),
        t.execute(command).0.next_id >= t.next_id,
{
    let after = t.execute(command).0;
    match command {
        StoreCommandView::Insert { name, email } => {
            if t.has_room() {
                assert forall|i: int, j: int| 0 <= i < j < after.rows.len() implies (
                #[trigger] after.rows[i]).id->0 < (#[trigger] after.rows[j]).id->0 by {
                    if j < t.rows.len() {
                        assert(t.rows[i].id->0 < t.rows[j].id->0);
                    } else {
                        assert(t.rows[i].id->0 < t.next_id);
                    }
                }
                assert forall|i: int| 0 <= i < after.rows.len() implies (
                #[trigger] after.rows[i]).id is Some && 1 <= after.rows[i].id->0
                    < after.next_id by {
                    if i < t.rows.len() {
                        assert(t.rows[i].id is Some);
                    }
                }
            }
        },
        StoreCommandView::Update { id, name, email } => {
            row_index_is_first(t.rows, id, 0);
            let k = row_index(t.rows, id, 0);
            if k < t.rows.len() {
                assert forall|i: int, j: int| 0 <= i < j < after.rows.len() implies (
                #[trigger] after.rows[i]).id->0 < (#[trigger] after.rows[j]).id->0 by {
                    assert(t.rows[i].id->0 < t.rows[j].id->0);
                }
                assert forall|i: int| 0 <= i < after.rows.len() implies (
                #[trigger] after.rows[i]).id is Some && 1 <= after.rows[i].id->0
                    < after.next_id by {
                    assert(t.rows[i].id is Some);
                }
            }
        },
        StoreCommandView::Delete(id) => {
            row_index_is_first(t.rows, id, 0);
            let k = row_index(t.rows, id, 0);
            if k < t.rows.len() {
                assert forall|i: int, j: int| 0 <= i < j < after.rows.len() implies (
                #[trigger] after.rows[i]).id->0 < (#[trigger] after.rows[j]).id->0 by {
                    let a = if i < k { i } else { i + 1 };
                    let b = if j < k { j } else { j + 1 };
                    assert(t.rows[a].id->0 < t.rows[b].id->0);
                }
                assert forall|i: int| 0 <= i < after.rows.len() implies (
                #[trigger] after.rows[i]).id is Some && 1 <= after.rows[i].id->0
                    < after.next_id by {
                    let a = if i < k { i } else { i + 1 };
                    assert(t.rows[a].id is Some);
                }
            }
        },
        _ => {},
    }
}

/// The users table, held in memory.
#[derive(Debug)]
pub struct UserTable {
    rows: Vec<User>,
    next_id: i64,
}

impl View for UserTable {
    type V = TableView;

    closed spec fn view(&self) -> TableView {
        TableView { rows: user_views(self.rows@), next_id: self.next_id as int }
    }
}

impl UserTable {
    /// Whether the table is well formed.
    pub open spec fn wf(&self) -> bool {
        self@.wf()
    }

    /// An empty table, whose first row will get the id 1.
    pub fn new() -> (table: UserTable)
        ensures
            table.wf(),
            table@.rows == Seq::<UserView>::empty(),
            table@.next_id == 1,
    {
        let table = UserTable { rows: Vec::new(), next_id: 1 };
        assert(table@.rows =~= Seq::<UserView>::empty());
        table
    }

    /// The number of rows.
    pub fn len(&self) -> (n: usize)
        ensures
            n == self@.rows.len(),
    {
        self.rows.len()
    }

    /// Index of the row with the id `id`; the number of rows where there is
    /// none.
    fn find(&self, id: i32) -> (k: usize)
        ensures
            k == row_index(self@.rows, id, 0),
            k <= self.rows.len(),
            k < self.rows.len() ==> self.rows[k as int].id == Some(id),
    {
        let ghost rows = self@.rows;
        let mut i: usize = 0;
        while i < self.rows.len()
            invariant
                i <= self.rows.len(),
                rows == self@.rows,
                rows.len() == self.rows.len(),
                row_index(rows, id, 0) == row_index(rows, id, i as int),
            decreases self.rows.len() - i,
        {
            let found = match self.rows[i].id {
                Some(k) => k == id,
                None => false,
            };
            assert(rows[i as int] == self.rows[i as int]@);
            if found {
                return i;
            }
            i += 1;
        }
        i
    }

    /// Runs the command `command` on the table and gives the reply to it.
    pub fn execute(&mut self, command: &StoreCommand) -> (reply: StoreReply)
        requires
            old(self).wf(),
        ensures
            final(self).wf(),
            (final(self)@, reply@) == old(self)@.execute(command@),
    {
        let ghost before = self@;
        proof {
            execute_keeps_wf(before, command@);
        }
        match command {
            StoreCommand::Insert { name, email } => {
                if self.next_id > 2147483647 {
                    return StoreReply::Failed;
                }
                let id = self.next_id as i32;
                self.rows.push(User { id: Some(id), name: name.clone(), email: email.clone() });
                self.next_id = self.next_id + 1;
                assert(self@.rows =~= before.rows.push(
                    UserView { id: Some(id), name: name@, email: email@ },
                ));
                StoreReply::Affected(1)
            },
            StoreCommand::SelectById(id) => {
                let k = self.find(*id);
                let mut rows: Vec<User> = Vec::new();
                if k < self.rows.len() {
                    rows.push(self.rows[k].clone());
                    assert(user_views(rows@) =~= seq![before.rows[k as int]]);
                } else {
                    assert(user_views(rows@) =~= Seq::<UserView>::empty());
                }
                StoreReply::Rows(rows)
            },
            StoreCommand::SelectAll => {
                let mut rows: Vec<User> = Vec::new();
                let mut i: usize = 0;
                while i < self.rows.len()
                    invariant
                        i <= self.rows.len(),
                        self@ == before,
                        user_views(rows@) == before.rows.take(i as int),
                    decreases self.rows.len() - i,
                {
                    let ghost got = user_views(rows@);
                    rows.push(self.rows[i].clone());
                    proof {
                        assert(before.rows[i as int] == self.rows[i as int]@);
                        assert(user_views(rows@) =~= got.push(before.rows[i as int]));
                        assert(before.rows.take(i + 1) =~= before.rows.take(i as int).push(
                            before.rows[i as int],
                        ));
                    }
                    i += 1;
                }
                assert(before.rows.take(i as int) =~= before.rows);
                StoreReply::Rows(rows)
            },
            StoreCommand::Update { id, name, email } => {
                let k = self.find(*id);
                if k < self.rows.len() {
                    self.rows.set(
                        k,
                        User { id: Some(*id), name: name.clone(), email: email.clone() },
                    );
                    assert(self@.rows =~= before.rows.update(
                        k as int,
                        UserView { id: Some(*id), name: name@, email: email@ },
                    ));
                    StoreReply::Affected(1)
                } else {
                    StoreReply::Affected(0)
                }
            },
            StoreCommand::Delete(id) => {
                let k = self.find(*id);
                if k < self.rows.len() {
                    self.rows.remove(k);
                    assert(self@.rows =~= before.rows.remove(k as int));
                    StoreReply::Affected(1)
                } else {
                    StoreReply::Affected(0)
                }
            },
        }
    }
}

} // verus!
