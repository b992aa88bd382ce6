//! The TODO list the service also exposes: a plain in-memory vector of
//! items, keyed by caller-chosen ids.
//!
//! These are the decision cores of the `/todos` routes; the async wiring
//! (the lock around the shared vector, JSON, status serialization) lives
//! outside the library.

use vstd::prelude::*;
use vstd::pervasive::VecAdditionalExecFns;

verus! {

/// One TODO item.
#[derive(Debug)]
pub struct Todo {
    pub id: u64,
    pub text: String,
    pub completed: bool,
}

impl Todo {
    /// A field-for-field copy.
    pub fn duplicate(&self) -> (t: Todo)
        ensures
            t == *self,
    {
        Todo { id: self.id, text: self.text.clone(), completed: self.completed }
    }
}

/// The query parameters of the list route.
#[derive(Debug)]
pub struct ListOptions {
    pub offset: Option<usize>,
    pub limit: Option<usize>,
}

/// Whether some item carries the given id.
pub open spec fn contains_todo_id(s: Seq<Todo>, id: u64) -> bool {
    exists|i: int| 0 <= i < s.len() && (#[trigger] s[i]).id == id
}

/// The list after removing every item with the given id, order kept.
pub open spec fn without_todo_id(s: Seq<Todo>, id: u64) -> Seq<Todo>
    decreases s.len(),
{
    if s.len() == 0 {
        Seq::empty()
    } else if s[0].id == id {
        without_todo_id(s.drop_first(), id)
    } else {
        seq![s[0]] + without_todo_id(s.drop_first(), id)
    }
}

/// The window of the list that the list route shows: skip `offset` items
/// (all of them, if fewer), then take `limit`.
pub open spec fn list_window(len: int, opts: ListOptions) -> (int, int) {
    let off = if opts.offset is Some {
        opts.offset->Some_0 as int
    } else {
        0
    };
    let start = if off <= len {
        off
    } else {
        len
    };
    let lim = if opts.limit is Some {
        opts.limit->Some_0 as int
    } else {
        len
    };
    let end = if start + lim <= len {
        start + lim
    } else {
        len
    };
    (start, end)
}

/// `GET /todos`: the items of the requested window, in order.
pub fn list_todos(opts: ListOptions, todos: &Vec<Todo>) -> (r: Vec<Todo>)
    ensures
        r@ == todos@.subrange(
            list_window(todos@.len() as int, opts).0,
            list_window(todos@.len() as int, opts).1,
        ),
{
    let len = todos.len();
    let offset = match opts.offset {
        Some(o) => o,
        None => 0,
    };
    let start = if offset <= len {
        offset
    } else {
        len
    };
    let end = match opts.limit {
        Some(l) => {
            if l <= len - start {
                start + l
            } else {
                len
            }
        },
        None => len,
    };
    let mut out: Vec<Todo> = Vec::new();
    let mut i: usize = start;
    while i < end
        invariant
            start <= i <= end <= todos@.len(),
            out@ == todos@.subrange(start as int, i as int),
        decreases end - i,
    {
        out.push(todos[i].duplicate());
        proof {
            assert(todos@.subrange(start as int, i + 1) =~= todos@.subrange(
                start as int,
                i as int,
            ).push(todos@[i as int]));
        }
        i = i + 1;
    }
    proof {
        assert(out@ =~= todos@.subrange(
            list_window(todos@.len() as int, opts).0,
            list_window(todos@.len() as int, opts).1,
        ));
    }
    out
}

/// `POST /todos`: refuses an id already in use with 400 (changing
/// nothing), otherwise appends the item and answers 201.
pub fn create_todo(todos: &mut Vec<Todo>, create: Todo) -> (status: u16)
    ensures
        status == 201 || status == 400,
        status == 400 ==> contains_todo_id(old(todos)@, create.id) && final(todos)@ == old(todos)@,
        status == 201 ==> !contains_todo_id(old(todos)@, create.id) && final(todos)@ == old(
            todos,
        )@.push(create),
{
    let mut i: usize = 0;
    while i < todos.len()
        invariant
            i <= todos@.len(),
            todos@ == old(todos)@,
            forall|j: int| 0 <= j < i ==> (#[trigger] todos@[j]).id != create.id,
        decreases todos@.len() - i,
    {
        if todos[i].id == create.id {
            return 400;
        }
        i = i + 1;
    }
    todos.push(create);
    201
}

/// `PUT /todos/{id}`: replaces the first item with the id and answers 200,
/// or 404 (changing nothing) when no item carries it.
pub fn update_todo(todos: &mut Vec<Todo>, id: u64, update: Todo) -> (status: u16)
    ensures
        status == 200 || status == 404,
        status == 404 ==> !contains_todo_id(old(todos)@, id) && final(todos)@ == old(todos)@,
        status == 200 ==> exists|i: int|
            {
                &&& 0 <= i < old(todos)@.len()
                &&& (#[trigger] old(todos)@[i]).id == id
                &&& (forall|j: int| 0 <= j < i ==> old(todos)@[j].id != id)
                &&& final(todos)@ == old(todos)@.update(i, update)
            },
{
    let mut i: usize = 0;
    while i < todos.len()
        invariant
            i <= todos@.len(),
            todos@ == old(todos)@,
            forall|j: int| 0 <= j < i ==> (#[trigger] todos@[j]).id != id,
        decreases todos@.len() - i,
    {
        if todos[i].id == id {
            todos.set(i, update);
            return 200;
        }
        i = i + 1;
    }
    404
}

/// `DELETE /todos/{id}`: removes every item with the id, keeping the order
/// of the rest; answers 204 when something was there to remove, 404 when
/// nothing was.
pub fn delete_todo(todos: &mut Vec<Todo>, id: u64) -> (status: u16)
    ensures
        status == 204 || status == 404,
        final(todos)@ == without_todo_id(old(todos)@, id),
        (status == 204) == contains_todo_id(old(todos)@, id),
{
    let ghost s = old(todos)@;
    let mut out: Vec<Todo> = Vec::new();
    let mut found = false;
    let mut i: usize = 0;
    proof {
        assert(s.skip(0) =~= s);
    }
    while i < todos.len()
        invariant
            i <= todos@.len(),
            todos@ == s,
            without_todo_id(s, id) == out@ + without_todo_id(s.skip(i as int), id),
            found <==> exists|j: int| 0 <= j < i && (#[trigger] s[j]).id == id,
        decreases todos@.len() - i,
    {
        let ghost out0 = out@;
        let tail_first_kept = todos[i].id != id;
        if tail_first_kept {
            out.push(todos[i].duplicate());
        } else {
            found = true;
        }
        proof {
            let tail = s.skip(i as int);
            assert(tail[0] == s[i as int]);
            assert(tail.drop_first() =~= s.skip(i + 1));
            if tail_first_kept {
                assert(without_todo_id(tail, id) == seq![s[i as int]] + without_todo_id(
                    s.skip(i + 1),
                    id,
                ));
                assert(out@ =~= out0 + seq![s[i as int]]);
                assert((out0 + seq![s[i as int]]) + without_todo_id(s.skip(i + 1), id) =~= out0 + (
                seq![s[i as int]] + without_todo_id(s.skip(i + 1), id)));
            } else {
                assert(without_todo_id(tail, id) == without_todo_id(s.skip(i + 1), id));
            }
        }
        i = i + 1;
    }
    proof {
        assert(s.skip(s.len() as int) =~= Seq::<Todo>::empty());
        assert(out@ =~= without_todo_id(s, id));
    }
    *todos = out;
    if found {
        204
    } else {
        404
    }
}

} // verus!
