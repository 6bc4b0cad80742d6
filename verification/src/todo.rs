use vstd::prelude::*;
use vstd::string::*;
use vstd::seq_lib::*;
use vstd::set_lib::*;

verus! {

/// How far a task has progressed.
#[derive(Debug, Clone, Copy, PartialEq, Eq, Structural)]
pub enum Status {
    ToDo,
    InProgress,
    Done,
}

/// The printable name of a status.
pub open spec fn status_chars(s: Status) -> Seq<char> {
    match s {
        Status::ToDo => "ToDo"@,
        Status::InProgress => "InProgress"@,
        Status::Done => "Done"@,
    }
}

impl Status {
    /// The printable name of the status.
    pub fn name(&self) -> (s: String)
        ensures
            s@ == status_chars(*self),
    {
        match self {
            Status::ToDo => String::from_str("ToDo"),
            Status::InProgress => String::from_str("InProgress"),
            Status::Done => String::from_str("Done"),
        }
    }
}

/// A task as a user states it, before the list assigns it an id and a status.
#[derive(Debug, PartialEq, Eq)]
pub struct PartialTodo {
    pub title: String,
    pub description: String,
    pub label: String,
}

/// A task on the list.
#[derive(Debug, PartialEq, Eq)]
pub struct Todo {
    pub id: usize,
    pub title: String,
    pub description: String,
    pub status: Status,
    pub label: String,
}

/// The task list; ids are assigned by the list itself.
#[derive(Debug, PartialEq, Eq)]
pub struct TodoList {
    list: Vec<Todo>,
}

/// Some task in `s` carries the id `id`.
pub open spec fn id_present(s: Seq<Todo>, id: int) -> bool {
    exists|i: int| 0 <= i < s.len() && (#[trigger] s[i]).id == id
}

/// `id` is the smallest id no task in `s` carries. Among `s.len() + 1`
/// candidates at most `s.len()` can be taken, so such an id always exists
/// in [0, s.len()].
pub open spec fn is_next_id(s: Seq<Todo>, id: int) -> bool {
    &&& 0 <= id <= s.len()
    &&& !id_present(s, id)
    &&& forall|k: int| 0 <= k < id ==> id_present(s, k)
}

/// The ids the tasks of `s` carry, in order.
pub open spec fn ids_of(s: Seq<Todo>) -> Seq<int> {
    Seq::new(s.len(), |i: int| s[i].id as int)
}

/// Some id in [0, n] is free: were every one of those n + 1 candidates
/// taken, the n tasks could not carry them all.
proof fn lemma_free_id_exists(s: Seq<Todo>)
    ensures
        exists|k: int| 0 <= k <= s.len() && !(#[trigger] id_present(s, k)),
{
    broadcast use vstd::set::group_set_axioms;

    if forall|k: int| 0 <= k <= s.len() ==> #[trigger] id_present(s, k) {
        let ids = ids_of(s);
        let n = s.len() as int;
        let range = set_int_range(0, n + 1);
        lemma_int_range(0, n + 1);
        assert forall|k: int| range.contains(k) implies ids.to_set().contains(k) by {
            assert(id_present(s, k));
            let i = choose|i: int| 0 <= i < s.len() && (#[trigger] s[i]).id == k;
            assert(ids[i] == k);
            assert(ids.contains(k));
        }
        lemma_len_subset(range, ids.to_set());
        ids.lemma_cardinality_of_set();
        assert(n + 1 <= n);
    }
}

impl TodoList {
    /// The tasks the list holds, in list order.
    pub closed spec fn todos(&self) -> Seq<Todo> {
        self.list@
    }

    /// A list over the given tasks, exactly in the given order.
    pub fn new(list: Vec<Todo>) -> (r: Self)
        ensures
            r.todos() == list@,
    {
        TodoList { list }
    }

    /// Whether some held task carries the id `id`.
    fn contains_id(&self, id: usize) -> (r: bool)
        ensures
            r == id_present(self.todos(), id as int),
    {
        let n = self.list.len();
        let mut i: usize = 0;
        while i < n
            invariant
                i <= n,
                n == self.list@.len(),
                forall|j: int| 0 <= j < i ==> (#[trigger] self.list@[j]).id != id,
            decreases n - i,
        {
            if self.list[i].id == id {
                return true;
            }
            i = i + 1;
        }
        false
    }

    /// The id the next added task gets: the smallest id no held task carries.
    pub fn get_next_id(&self) -> (id: usize)
        requires
            self.todos().len() < usize::MAX,
        ensures
            is_next_id(self.todos(), id as int),
    {
        let n = self.list.len();
        let mut cand: usize = 0;
        while cand <= n
            invariant
                cand <= n + 1,
                n == self.todos().len(),
                n < usize::MAX,
                forall|k: int| 0 <= k < cand ==> id_present(self.todos(), k),
            decreases n + 1 - cand,
        {
            if !self.contains_id(cand) {
                return cand;
            }
            cand = cand + 1;
        }
        proof {
            lemma_free_id_exists(self.todos());
        }
        n
    }

    /// Append the stated task with the smallest free id and status ToDo,
    /// leaving the tasks already held unchanged.
    pub fn add(&mut self, todo: &PartialTodo)
        requires
            old(self).todos().len() < usize::MAX,
        ensures
            final(self).todos().len() == old(self).todos().len() + 1,
            final(self).todos().drop_last() == old(self).todos(),
            is_next_id(old(self).todos(), final(self).todos().last().id as int),
            final(self).todos().last().title == todo.title,
            final(self).todos().last().description == todo.description,
            final(self).todos().last().status == Status::ToDo,
            final(self).todos().last().label == todo.label,
    {
        let id = self.get_next_id();
        self.list.push(
            Todo {
                id,
                title: todo.title.clone(),
                description: todo.description.clone(),
                status: Status::ToDo,
                label: todo.label.clone(),
            },
        );
        assert(self.todos().drop_last() =~= old(self).todos());
    }

    /// The held tasks, in list order.
    pub fn list(&self) -> (r: &Vec<Todo>)
        ensures
            r@ == self.todos(),
    {
        &self.list
    }
}

} // verus!
