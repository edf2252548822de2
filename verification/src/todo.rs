//! The to-do store: items in the order in which they were added.

use vstd::prelude::*;
use vstd::string::*;
use crate::clock::{fresh_uuid, now_rfc3339, today_utc};
use crate::config::Config;
use crate::paths::{join_path, joined, path_lt};
use crate::strmap::DeepClone;
use crate::text::{decimal, format_i32_padded, format_padded, signed_padded, str_eq, zero_padded};

verus! {

#[derive(Clone, Copy, Debug, PartialEq, Eq, Structural)]
pub enum TodoStatus {
    Open,
    InProgress,
    Done,
}

/// One to-do record. Only its status and the time of its last update change
/// after it was added.
#[derive(Debug, PartialEq, Eq)]
pub struct TodoItem {
    pub id: String,
    pub session_id: String,
    /// The day on which the item was added, as `YYYY-MM-DD`.
    pub date: String,
    pub task_number: u32,
    pub title: String,
    pub description: Option<String>,
    pub files: Vec<String>,
    pub tags: Vec<String>,
    pub status: TodoStatus,
    pub created_at: Option<String>,
    pub updated_at: Option<String>,
}

pub ghost struct TodoItemView {
    pub id: Seq<char>,
    pub session_id: Seq<char>,
    pub date: Seq<char>,
    pub task_number: u32,
    pub title: Seq<char>,
    pub description: Option<Seq<char>>,
    pub files: Seq<Seq<char>>,
    pub tags: Seq<Seq<char>>,
    pub status: TodoStatus,
    pub created_at: Option<Seq<char>>,
    pub updated_at: Option<Seq<char>>,
}

impl DeepView for TodoItem {
    type V = TodoItemView;

    open spec fn deep_view(&self) -> TodoItemView {
        TodoItemView {
            id: self.id@,
            session_id: self.session_id@,
            date: self.date@,
            task_number: self.task_number,
            title: self.title@,
            description: self.description.deep_view(),
            files: self.files.deep_view(),
            tags: self.tags.deep_view(),
            status: self.status,
            created_at: self.created_at.deep_view(),
            updated_at: self.updated_at.deep_view(),
        }
    }
}

impl View for TodoItem {
    type V = TodoItemView;

    open spec fn view(&self) -> TodoItemView {
        self.deep_view()
    }
}

impl DeepClone for TodoItem {
    fn deep_clone(&self) -> (r: TodoItem) {
        TodoItem {
            id: self.id.clone(),
            session_id: self.session_id.clone(),
            date: self.date.clone(),
            task_number: self.task_number,
            title: self.title.clone(),
            description: self.description.deep_clone(),
            files: self.files.deep_clone(),
            tags: self.tags.deep_clone(),
            status: self.status,
            created_at: self.created_at.deep_clone(),
            updated_at: self.updated_at.deep_clone(),
        }
    }
}

impl Clone for TodoItem {
    fn clone(&self) -> (r: TodoItem)
        ensures
            r@ == self@,
    {
        self.deep_clone()
    }
}

/// Why an operation on the store failed.
#[derive(Clone, Copy, Debug, PartialEq, Eq, Structural)]
pub enum TodoError {
    /// The store holds no item with the given id.
    NotFound,
}

impl TodoError {
    pub fn message(&self) -> (r: String)
        ensures
            r@ == "todo not found"@,
    {
        "todo not found".to_owned()
    }
}

/// A day as `YYYY-MM-DD`, each part zero-padded.
pub open spec fn date_text(year: int, month: nat, day: nat) -> Seq<char> {
    signed_padded(year, 4) + "-"@ + zero_padded(decimal(month), 2) + "-"@ + zero_padded(
        decimal(day),
        2,
    )
}

/// Whether a text is a day of the calendar as `YYYY-MM-DD`: the month from
/// 1 to 12, the day of the month from 1 to 31.
pub open spec fn is_date_text(s: Seq<char>) -> bool {
    exists|year: int, month: nat, day: nat|
        1 <= month <= 12 && 1 <= day <= 31 && s == #[trigger] date_text(year, month, day)
}

/// Renders a day as `YYYY-MM-DD`.
pub fn format_date(year: i32, month: u32, day: u32) -> (r: String)
    ensures
        r@ == date_text(year as int, month as nat, day as nat),
{
    let mut r = format_i32_padded(year, 4);
    r.append("-");
    r.append(format_padded(month as u64, 2).as_str());
    r.append("-");
    r.append(format_padded(day as u64, 2).as_str());
    r
}

/// An item as it is when it was just added: open, created and updated `now`.
pub open spec fn new_item(
    id: Seq<char>,
    now: Seq<char>,
    date: Seq<char>,
    session_id: Seq<char>,
    task_number: u32,
    title: Seq<char>,
    description: Option<Seq<char>>,
    files: Seq<Seq<char>>,
    tags: Seq<Seq<char>>,
) -> TodoItemView {
    TodoItemView {
        id,
        session_id,
        date,
        task_number,
        title,
        description,
        files,
        tags,
        status: TodoStatus::Open,
        created_at: Some(now),
        updated_at: Some(now),
    }
}

/// An item after its status was set at the time `now`.
pub open spec fn with_status(item: TodoItemView, status: TodoStatus, now: Seq<char>) -> TodoItemView {
    TodoItemView { status, updated_at: Some(now), ..item }
}

/// Whether the timestamp `a` is not after `b`. Timestamps are compared as
/// text, which for RFC 3339 timestamps of one offset and one precision is the
/// order of time.
pub open spec fn stamp_le(a: Seq<char>, b: Seq<char>) -> bool {
    a == b || path_lt(a, b)
}

/// Setting the status of an item changes its status and the time of its last
/// update and nothing else; and where the clock has not gone back behind the
/// item's last update, that time does not go back either.
pub proof fn lemma_set_status_touches_status_only(
    item: TodoItemView,
    status: TodoStatus,
    now: Seq<char>,
)
    ensures
        ({
            let after = with_status(item, status, now);
            &&& after.status == status
            &&& after.updated_at == Some(now)
            &&& after.id == item.id
            &&& after.session_id == item.session_id
            &&& after.date == item.date
            &&& after.task_number == item.task_number
            &&& after.title == item.title
            &&& after.description == item.description
            &&& after.files == item.files
            &&& after.tags == item.tags
            &&& after.created_at == item.created_at
            &&& (item.updated_at matches Some(prior) && stamp_le(prior, now)) ==> stamp_le(
                item.updated_at->0,
                after.updated_at->0,
            )
        }),
{
}

/// Setting the status of the item at index `i` of a store leaves every other
/// item as it is, and every field of that item but its status and the time
/// of its last update; that time does not go back unless the clock has.
pub proof fn lemma_set_status_in_store(
    items: Seq<TodoItemView>,
    i: int,
    status: TodoStatus,
    now: Seq<char>,
)
    requires
        0 <= i < items.len(),
    ensures
        ({
            let after = items.update(i, with_status(items[i], status, now));
            &&& after.len() == items.len()
            &&& forall|j: int| 0 <= j < items.len() && j != i ==> after[j] == items[j]
            &&& after[i] == (TodoItemView { status, updated_at: Some(now), ..items[i] })
            &&& (items[i].updated_at matches Some(prior) && stamp_le(prior, now)) ==> stamp_le(
                items[i].updated_at->0,
                after[i].updated_at->0,
            )
        }),
{
}

/// The file of one item below the workspace `root`:
/// `.codex/todos/<date>/<session>/<NNN>-<id>.<ext>`, with the task number
/// zero-padded to three digits.
pub open spec fn item_file(root: Seq<char>, item: TodoItemView, ext: Seq<char>) -> Seq<char> {
    joined(
        joined(joined(joined(joined(root, ".codex"@), "todos"@), item.date), item.session_id),
        zero_padded(decimal(item.task_number as nat), 3) + "-"@ + item.id + "."@ + ext,
    )
}

/// The path of the store where the configuration names none.
pub open spec fn default_store_path(root: Seq<char>) -> Seq<char> {
    joined(joined(root, ".codex"@), "todo.json"@)
}

/// The path of the store: the configured one, or `.codex/todo.json` below the
/// workspace.
pub fn store_path(cfg: &Config, root: &str) -> (r: String)
    ensures
        r@ == match cfg@.todo_path {
            Some(p) => p,
            None => default_store_path(root@),
        },
{
    match &cfg.todo.path {
        Some(p) => p.clone(),
        None => {
            let dir = join_path(root, ".codex");
            join_path(dir.as_str(), "todo.json")
        },
    }
}

/// The to-do items, in the order in which they were added.
#[derive(Debug, PartialEq, Eq)]
pub struct TodoStore {
    pub items: Vec<TodoItem>,
}

impl DeepView for TodoStore {
    type V = Seq<TodoItemView>;

    open spec fn deep_view(&self) -> Seq<TodoItemView> {
        self.items.deep_view()
    }
}

impl View for TodoStore {
    type V = Seq<TodoItemView>;

    open spec fn view(&self) -> Seq<TodoItemView> {
        self.deep_view()
    }
}

impl Default for TodoStore {
    fn default() -> (r: TodoStore)
        ensures
            r@ == Seq::<TodoItemView>::empty(),
    {
        let r = TodoStore { items: Vec::new() };
        assert(r@ =~= Seq::<TodoItemView>::empty());
        r
    }
}

/// The items of `items` whose id is not `id`, in order.
pub open spec fn without_id(items: Seq<TodoItemView>, id: Seq<char>) -> Seq<TodoItemView> {
    items.filter(|it: TodoItemView| it.id != id)
}

/// Whether no item before index `i` has the id `id`.
pub open spec fn none_before(items: Seq<TodoItemView>, id: Seq<char>, i: int) -> bool {
    forall|j: int| 0 <= j < i ==> (#[trigger] items[j]).id != id
}

impl TodoStore {
    /// Adds an item with the given id, timestamps and place in its session.
    /// Returns a copy of the item.
    pub fn add_with(
        &mut self,
        id: String,
        now: String,
        date: String,
        session_id: String,
        task_number: u32,
        title: String,
        description: Option<String>,
        files: Vec<String>,
        tags: Vec<String>,
    ) -> (item: TodoItem)
        ensures
            item@ == new_item(
                id@,
                now@,
                date@,
                session_id@,
                task_number,
                title@,
                description.deep_view(),
                files.deep_view(),
                tags.deep_view(),
            ),
            final(self)@ == old(self)@.push(item@),
    {
        let item = TodoItem {
            id,
            session_id,
            date,
            task_number,
            title,
            description,
            files,
            tags,
            status: TodoStatus::Open,
            created_at: Some(now.clone()),
            updated_at: Some(now),
        };
        let copy = item.deep_clone();
        let ghost before = self@;
        self.items.push(item);
        assert(self@ =~= before.push(copy@));
        copy
    }

    /// Adds an open item with a fresh id, created and updated now, outside
    /// any session. Returns a copy of the item.
    pub fn add(
        &mut self,
        title: String,
        description: Option<String>,
        files: Vec<String>,
        tags: Vec<String>,
    ) -> (item: TodoItem)
        ensures
            final(self)@ == old(self)@.push(item@),
            item@.status == TodoStatus::Open,
            item@.title == title@,
            item@.description == description.deep_view(),
            item@.files == files.deep_view(),
            item@.tags == tags.deep_view(),
            item@.session_id == Seq::<char>::empty(),
            item@.task_number == 0,
            item@.created_at is Some,
            item@.updated_at == item@.created_at,
            is_date_text(item@.date),
    {
        let id = fresh_uuid();
        let now = now_rfc3339();
        let (y, m, d) = today_utc();
        let date = format_date(y, m, d);
        assert(date@ == date_text(y as int, m as nat, d as nat));
        self.add_with(id, now, date, String::new(), 0, title, description, files, tags)
    }

    /// Adds an open item of a session with a fresh id, and says where below
    /// the workspace `root` the item's own file goes. Returns a copy of the
    /// item and the path of that file.
    pub fn add_and_persist(
        &mut self,
        root: &str,
        ext: &str,
        session_id: &str,
        task_number: u32,
        title: String,
        description: Option<String>,
        files: Vec<String>,
        tags: Vec<String>,
    ) -> (r: (TodoItem, String))
        ensures
            final(self)@ == old(self)@.push(r.0@),
            r.0@.status == TodoStatus::Open,
            r.0@.title == title@,
            r.0@.description == description.deep_view(),
            r.0@.files == files.deep_view(),
            r.0@.tags == tags.deep_view(),
            r.0@.session_id == session_id@,
            r.0@.task_number == task_number,
            r.0@.created_at is Some,
            r.0@.updated_at == r.0@.created_at,
            is_date_text(r.0@.date),
            r.1@ == item_file(root@, r.0@, ext@),
    {
        let id = fresh_uuid();
        let now = now_rfc3339();
        let (y, m, d) = today_utc();
        let date = format_date(y, m, d);
        assert(date@ == date_text(y as int, m as nat, d as nat));
        let item = self.add_with(
            id,
            now,
            date,
            session_id.to_owned(),
            task_number,
            title,
            description,
            files,
            tags,
        );
        let path = item_path(root, &item, ext);
        (item, path)
    }

    /// The index of the first item with the id `id`.
    pub fn position(&self, id: &str) -> (r: Option<usize>)
        ensures
            match r {
                Some(i) => i < self@.len() && self@[i as int].id == id@ && none_before(
                    self@,
                    id@,
                    i as int,
                ),
                None => none_before(self@, id@, self@.len() as int),
            },
    {
        let mut i: usize = 0;
        while i < self.items.len()
            invariant
                i <= self.items.len(),
                none_before(self@, id@, i as int),
            decreases self.items.len() - i,
        {
            if str_eq(self.items[i].id.as_str(), id) {
                return Some(i);
            }
            i += 1;
        }
        None
    }

    /// Sets the status of the first item with the id `id` and stamps it with
    /// `now`. Fails, and changes nothing, where no item has that id.
    pub fn set_status_at(&mut self, id: &str, status: TodoStatus, now: String) -> (r: Result<
        (),
        TodoError,
    >)
        ensures
            match r {
                Ok(()) => exists|i: int|
                    {
                        &&& 0 <= i < old(self)@.len()
                        &&& (#[trigger] old(self)@[i]).id == id@
                        &&& none_before(old(self)@, id@, i)
                        &&& final(self)@ == old(self)@.update(
                            i,
                            with_status(old(self)@[i], status, now@),
                        )
                    },
                Err(e) => e == TodoError::NotFound && none_before(
                    old(self)@,
                    id@,
                    old(self)@.len() as int,
                ) && final(self)@ == old(self)@,
            },
    {
        match self.position(id) {
            None => Err(TodoError::NotFound),
            Some(i) => {
                let ghost before = self@;
                let mut item = self.items[i].deep_clone();
                item.status = status;
                item.updated_at = Some(now);
                self.items.set(i, item);
                assert(self@ =~= before.update(i as int, with_status(before[i as int], status, now@)));
                Ok(())
            },
        }
    }

    /// Sets the status of the first item with the id `id` and stamps it with
    /// the current time. Fails, and changes nothing, where no item has that
    /// id.
    pub fn set_status(&mut self, id: &str, status: TodoStatus) -> (r: Result<(), TodoError>)
        ensures
            match r {
                Ok(()) => exists|i: int|
                    {
                        &&& 0 <= i < old(self)@.len()
                        &&& (#[trigger] old(self)@[i]).id == id@
                        &&& none_before(old(self)@, id@, i)
                        &&& final(self)@.len() == old(self)@.len()
                        &&& final(self)@[i].updated_at is Some
                        &&& final(self)@ == old(self)@.update(
                            i,
                            with_status(old(self)@[i], status, final(self)@[i].updated_at->0),
                        )
                    },
                Err(e) => e == TodoError::NotFound && none_before(
                    old(self)@,
                    id@,
                    old(self)@.len() as int,
                ) && final(self)@ == old(self)@,
            },
    {
        let now = now_rfc3339();
        self.set_status_at(id, status, now)
    }

    /// Takes out every item with the id `id`. Fails, and changes nothing,
    /// where no item has that id.
    pub fn remove(&mut self, id: &str) -> (r: Result<(), TodoError>)
        ensures
            final(self)@ == without_id(old(self)@, id@),
            match r {
                Ok(()) => exists|i: int| 0 <= i < old(self)@.len() && (#[trigger] old(self)@[i]).id == id@,
                Err(e) => e == TodoError::NotFound && none_before(
                    old(self)@,
                    id@,
                    old(self)@.len() as int,
                ) && final(self)@ == old(self)@,
            },
    {
        let ghost before = self@;
        let mut kept: Vec<TodoItem> = Vec::new();
        let mut found = false;
        let mut i: usize = 0;
        proof {
            reveal(Seq::filter);
            assert(before.take(0) =~= Seq::<TodoItemView>::empty());
            assert(kept.deep_view() =~= Seq::<TodoItemView>::empty());
        }
        while i < self.items.len()
            invariant
                i <= self.items.len(),
                self@ == before,
                kept.deep_view() == without_id(before.take(i as int), id@),
                found <==> exists|j: int| 0 <= j < i && (#[trigger] before[j]).id == id@,
                !found ==> kept.deep_view() == before.take(i as int),
            decreases self.items.len() - i,
        {
            let ghost prev = kept.deep_view();
            proof {
                reveal(Seq::filter);
                assert(before.take(i + 1).drop_last() =~= before.take(i as int));
                assert(before.take(i + 1).last() == before[i as int]);
            }
            if str_eq(self.items[i].id.as_str(), id) {
                found = true;
                assert(before[i as int].id == id@);
            } else {
                kept.push(self.items[i].deep_clone());
                assert(kept.deep_view() =~= prev.push(before[i as int]));
                proof {
                    if !found {
                        assert(before.take(i + 1) =~= before.take(i as int).push(before[i as int]));
                    }
                }
            }
            i += 1;
        }
        assert(before.take(before.len() as int) =~= before);
        if found {
            self.items = kept;
            Ok(())
        } else {
            assert(without_id(before, id@) == before);
            Err(TodoError::NotFound)
        }
    }
}

/// The file of `item` below the workspace `root`.
pub fn item_path(root: &str, item: &TodoItem, ext: &str) -> (r: String)
    ensures
        r@ == item_file(root@, item@, ext@),
{
    let a = join_path(root, ".codex");
    let b = join_path(a.as_str(), "todos");
    let c = join_path(b.as_str(), item.date.as_str());
    let d = join_path(c.as_str(), item.session_id.as_str());
    let mut name = format_padded(item.task_number as u64, 3);
    name.append("-");
    name.append(item.id.as_str());
    name.append(".");
    name.append(ext);
    join_path(d.as_str(), name.as_str())
}

} // verus!
