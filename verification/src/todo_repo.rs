//! The todo store: a repository that loads the todo list from its
//! data-access capability as JSON text, works on it in memory, and saves it
//! back as JSON text it frames itself.  The in-memory operations — lookup by
//! id, search by name, adding, deleting, completing — carry exact contracts;
//! what comes back from the capability and the parser is checked at run
//! time.

use vstd::prelude::*;

use crate::json::{get_bool_field, get_string_field, parse_json_document};
use crate::text::{lowercase, lower_of, spec_contains, str_contains};
use vstd::string::{StrSliceExecFns, StringExecFns};

verus! {

/// The number of characters in a generated todo id.
pub const ID_LENGTH: usize = 7;

/// One todo entry.
#[derive(Debug, Clone, PartialEq)]
pub struct Todo {
    pub id: String,
    pub name: String,
    pub description: String,
    pub completed: bool,
}

/// What can go wrong: the list could not be read, or could not be saved.
#[derive(Debug, PartialEq)]
pub enum TodoErrors {
    TodoGetError(String),
    TodoSaveError(String),
}

impl TodoErrors {
    /// The message carried by either variant.
    pub fn error_message(&self) -> (r: &str)
        ensures
            self matches TodoErrors::TodoGetError(m) ==> r@ == m@,
            self matches TodoErrors::TodoSaveError(m) ==> r@ == m@,
    {
        match self {
            TodoErrors::TodoGetError(msg) => msg.as_str(),
            TodoErrors::TodoSaveError(msg) => msg.as_str(),
        }
    }
}

/// How the repository reaches its stored list.  Implementations decide what
/// reading and writing mean; the in-memory ones below serve the tests, a
/// file-backed one lives with the program around the library.
pub trait TodoDataAccess {
    fn read_all(&mut self) -> Result<String, TodoErrors>;

    fn write_all(&mut self, data: String) -> Result<(), TodoErrors>;
}

/// An in-memory data access: reading yields the held text, writing appends
/// the text's bytes to the held output.
pub struct CursorDataAccess {
    pub reader: String,
    pub writer: Vec<u8>,
}

impl CursorDataAccess {
    pub fn new(reader: String, writer: Vec<u8>) -> (r: Self)
        ensures
            r.reader == reader,
            r.writer == writer,
    {
        CursorDataAccess { reader, writer }
    }
}

impl TodoDataAccess for CursorDataAccess {
    fn read_all(&mut self) -> Result<String, TodoErrors> {
        Ok(self.reader.clone())
    }

    fn write_all(&mut self, data: String) -> Result<(), TodoErrors> {
        let bytes = data.as_str().as_bytes_vec();
        let mut i: usize = 0;
        while i < bytes.len()
            decreases bytes@.len() - i,
        {
            self.writer.push(bytes[i]);
            i += 1;
        }
        Ok(())
    }
}

/// An in-memory data access whose writes always fail.
pub struct FailingDataAccess {
    pub reader: String,
}

impl FailingDataAccess {
    pub fn new(reader: String) -> (r: Self)
        ensures
            r.reader == reader,
    {
        FailingDataAccess { reader }
    }
}

impl TodoDataAccess for FailingDataAccess {
    fn read_all(&mut self) -> Result<String, TodoErrors> {
        Ok(self.reader.clone())
    }

    fn write_all(&mut self, data: String) -> Result<(), TodoErrors> {
        Err(TodoErrors::TodoSaveError("Simulated write error for data: ".to_owned().concat(
            data.as_str(),
        )))
    }
}

/// Relies on nanoid::format with its URL-safe alphabet and default random
/// source: an id of exactly `size` characters.
#[verifier::external_body]
fn random_id(size: usize) -> (r: String)
    ensures
        r@.len() == size as nat,
{
    nanoid::format(nanoid::rngs::default, &nanoid::alphabet::SAFE, size)
}

/// A copy of the todo, equal to it field by field.
pub fn clone_todo(t: &Todo) -> (r: Todo)
    ensures
        r == *t,
{
    Todo {
        id: t.id.clone(),
        name: t.name.clone(),
        description: t.description.clone(),
        completed: t.completed,
    }
}

/// Whether some todo of the list carries this id.
pub open spec fn has_todo_with_id(todos: Seq<Todo>, id: Seq<char>) -> bool {
    exists|i: int| 0 <= i < todos.len() && #[trigger] todos[i].id@ == id
}

/// Whether a todo's name, lowercased, holds the lowercased query.
pub open spec fn name_matches(t: Todo, query: Seq<char>) -> bool {
    spec_contains(lower_of(t.name@), lower_of(query))
}

/// The todos whose names match the query, in their stored order.
pub open spec fn matching_todos(todos: Seq<Todo>, query: Seq<char>) -> Seq<Todo>
    decreases todos.len(),
{
    if todos.len() == 0 {
        Seq::empty()
    } else if name_matches(todos.first(), query) {
        seq![todos.first()] + matching_todos(todos.drop_first(), query)
    } else {
        matching_todos(todos.drop_first(), query)
    }
}

/// The todos that do not carry the given id, in their stored order.
pub open spec fn remaining_todos(todos: Seq<Todo>, id: Seq<char>) -> Seq<Todo>
    decreases todos.len(),
{
    if todos.len() == 0 {
        Seq::empty()
    } else if todos.first().id@ == id {
        remaining_todos(todos.drop_first(), id)
    } else {
        seq![todos.first()] + remaining_todos(todos.drop_first(), id)
    }
}

proof fn lemma_matching_todos_push(todos: Seq<Todo>, t: Todo, query: Seq<char>)
    ensures
        matching_todos(todos.push(t), query) == if name_matches(t, query) {
            matching_todos(todos, query).push(t)
        } else {
            matching_todos(todos, query)
        },
    decreases todos.len(),
{
    let p = todos.push(t);
    let tail = if name_matches(t, query) {
        matching_todos(todos, query).push(t)
    } else {
        matching_todos(todos, query)
    };
    if todos.len() == 0 {
        assert(p.first() == t);
        assert(p.drop_first() =~= Seq::<Todo>::empty());
        assert(matching_todos(Seq::<Todo>::empty(), query) == Seq::<Todo>::empty());
        assert(matching_todos(p, query) =~= tail);
    } else {
        assert(p.first() == todos.first());
        assert(p.drop_first() =~= todos.drop_first().push(t));
        lemma_matching_todos_push(todos.drop_first(), t, query);
        if name_matches(todos.first(), query) {
            assert(matching_todos(p, query) =~= tail);
        } else {
            assert(matching_todos(p, query) =~= tail);
        }
    }
}

proof fn lemma_remaining_todos_push(todos: Seq<Todo>, t: Todo, id: Seq<char>)
    ensures
        remaining_todos(todos.push(t), id) == if t.id@ == id {
            remaining_todos(todos, id)
        } else {
            remaining_todos(todos, id).push(t)
        },
    decreases todos.len(),
{
    let p = todos.push(t);
    let tail = if t.id@ == id {
        remaining_todos(todos, id)
    } else {
        remaining_todos(todos, id).push(t)
    };
    if todos.len() == 0 {
        assert(p.first() == t);
        assert(p.drop_first() =~= Seq::<Todo>::empty());
        assert(remaining_todos(Seq::<Todo>::empty(), id) == Seq::<Todo>::empty());
        assert(remaining_todos(p, id) =~= tail);
    } else {
        assert(p.first() == todos.first());
        assert(p.drop_first() =~= todos.drop_first().push(t));
        lemma_remaining_todos_push(todos.drop_first(), t, id);
        if todos.first().id@ == id {
            assert(remaining_todos(p, id) =~= tail);
        } else {
            assert(remaining_todos(p, id) =~= tail);
        }
    }
}

/// The todos whose names, lowercased, hold the lowercased search string, in
/// their stored order.
pub fn find_todos_by_name(todos: &Vec<Todo>, todo_name: &String) -> (r: Vec<Todo>)
    ensures
        r@ == matching_todos(todos@, todo_name@),
{
    let query = lowercase(todo_name.as_str());
    let mut found: Vec<Todo> = Vec::new();
    let mut i: usize = 0;
    while i < todos.len()
        invariant
            i <= todos@.len(),
            query@ == lower_of(todo_name@),
            found@ == matching_todos(todos@.take(i as int), todo_name@),
        decreases todos@.len() - i,
    {
        let t = &todos[i];
        let name_lower = lowercase(t.name.as_str());
        proof {
            lemma_matching_todos_push(todos@.take(i as int), todos@[i as int], todo_name@);
            assert(todos@.take(i as int).push(todos@[i as int]) =~= todos@.take(i + 1));
        }
        if str_contains(name_lower.as_str(), query.as_str()) {
            found.push(clone_todo(t));
        }
        i += 1;
    }
    proof {
        assert(todos@.take(todos@.len() as int) =~= todos@);
    }
    found
}

/// The list with every todo of the given id taken out.
pub fn remove_todo_by_id(todos: &Vec<Todo>, todo_id: &String) -> (r: Vec<Todo>)
    ensures
        r@ == remaining_todos(todos@, todo_id@),
{
    let mut kept: Vec<Todo> = Vec::new();
    let mut i: usize = 0;
    while i < todos.len()
        invariant
            i <= todos@.len(),
            kept@ == remaining_todos(todos@.take(i as int), todo_id@),
        decreases todos@.len() - i,
    {
        let t = &todos[i];
        proof {
            lemma_remaining_todos_push(todos@.take(i as int), todos@[i as int], todo_id@);
            assert(todos@.take(i as int).push(todos@[i as int]) =~= todos@.take(i + 1));
        }
        if !(t.id == *todo_id) {
            kept.push(clone_todo(t));
        }
        i += 1;
    }
    proof {
        assert(todos@.take(todos@.len() as int) =~= todos@);
    }
    kept
}

/// The todo with its completed mark set.
pub open spec fn completed_todo(t: Todo) -> Todo {
    Todo { completed: true, ..t }
}

/// The index of the first todo carrying the id.
fn find_position_by_id(todos: &Vec<Todo>, todo_id: &String) -> (r: Option<usize>)
    ensures
        r matches Some(i) ==> i < todos@.len() && todos@[i as int].id@ == todo_id@ && (forall|
            j: int,
        |
            0 <= j < i ==> todos@[j].id@ != todo_id@),
        r is None ==> !has_todo_with_id(todos@, todo_id@),
{
    let mut i: usize = 0;
    while i < todos.len()
        invariant
            i <= todos@.len(),
            forall|j: int| 0 <= j < i ==> todos@[j].id@ != todo_id@,
        decreases todos@.len() - i,
    {
        if todos[i].id == *todo_id {
            return Some(i);
        }
        i += 1;
    }
    None
}

/// Marks the first todo carrying the id as completed, in place, and hands a
/// copy of it back; a list without the id stays as it is.
pub fn mark_complete_by_id(todos: &mut Vec<Todo>, todo_id: &String) -> (r: Option<Todo>)
    ensures
        (r is Some) <==> has_todo_with_id(old(todos)@, todo_id@),
        r matches Some(t) ==> exists|i: int|
            0 <= i < old(todos)@.len() && #[trigger] old(todos)@[i].id@ == todo_id@ && (forall|
                j: int,
            |
                0 <= j < i ==> old(todos)@[j].id@ != todo_id@) && t == completed_todo(
                old(todos)@[i],
            ) && final(todos)@ == old(todos)@.update(i, completed_todo(old(todos)@[i])),
        r is None ==> final(todos)@ == old(todos)@,
{
    let pos = match find_position_by_id(todos, todo_id) {
        Some(p) => p,
        None => {
            return None;
        },
    };
    let t = todos.remove(pos);
    let updated = Todo {
        id: t.id,
        name: t.name,
        description: t.description,
        completed: true,
    };
    let copy = clone_todo(&updated);
    todos.insert(pos, updated);
    proof {
        assert(final(todos)@ =~= old(todos)@.update(pos as int, completed_todo(
            old(todos)@[pos as int],
        )));
    }
    Some(copy)
}

/// One todo framed as a JSON object, its fields in their declared order.
pub open spec fn spec_json_todo(t: Todo) -> Seq<char> {
    "{\"id\":"@ + crate::json::spec_json_string(t.id@) + ",\"name\":"@
        + crate::json::spec_json_string(t.name@) + ",\"description\":"@
        + crate::json::spec_json_string(t.description@) + ",\"completed\":"@
        + crate::text::spec_bool_text(t.completed) + "}"@
}

/// The framed objects joined by commas.
pub open spec fn spec_json_todo_join(todos: Seq<Todo>) -> Seq<char>
    decreases todos.len(),
{
    if todos.len() == 0 {
        Seq::empty()
    } else if todos.len() == 1 {
        spec_json_todo(todos.first())
    } else {
        spec_json_todo(todos.first()) + seq![','] + spec_json_todo_join(todos.drop_first())
    }
}

/// A whole todo list framed as a JSON array.
pub open spec fn spec_json_todos(todos: Seq<Todo>) -> Seq<char> {
    seq!['['] + spec_json_todo_join(todos) + seq![']']
}

proof fn lemma_json_todo_join_push(todos: Seq<Todo>, t: Todo)
    requires
        todos.len() > 0,
    ensures
        spec_json_todo_join(todos.push(t)) == spec_json_todo_join(todos) + seq![',']
            + spec_json_todo(t),
    decreases todos.len(),
{
    let p = todos.push(t);
    assert(p.first() == todos.first());
    assert(p.drop_first() =~= todos.drop_first().push(t));
    if todos.len() == 1 {
        assert(todos.drop_first() =~= Seq::<Todo>::empty());
        assert(p.drop_first() =~= seq![t]);
        assert(seq![t].len() == 1 && seq![t].first() == t);
        assert(spec_json_todo_join(seq![t]) == spec_json_todo(t));
        assert(spec_json_todo_join(p) =~= spec_json_todo_join(todos) + seq![','] + spec_json_todo(
            t,
        ));
    } else {
        lemma_json_todo_join_push(todos.drop_first(), t);
        assert(spec_json_todo_join(p) == spec_json_todo(p.first()) + seq![',']
            + spec_json_todo_join(p.drop_first()));
        assert(spec_json_todo_join(p) =~= spec_json_todo_join(todos) + seq![','] + spec_json_todo(
            t,
        ));
    }
}

/// Appends one framed todo object to the output.
fn append_json_todo(out: &mut String, t: &Todo)
    ensures
        final(out)@ == old(out)@ + spec_json_todo(*t),
{
    out.append("{\"id\":");
    crate::json::append_json_string(out, t.id.as_str());
    out.append(",\"name\":");
    crate::json::append_json_string(out, t.name.as_str());
    out.append(",\"description\":");
    crate::json::append_json_string(out, t.description.as_str());
    out.append(",\"completed\":");
    out.append(crate::text::bool_text(t.completed));
    out.append("}");
    proof {
        assert(out@ =~= old(out)@ + spec_json_todo(*t));
    }
}

/// The todo list framed as JSON text, which any JSON reader of the same
/// object shape takes back to the same todos.
pub fn todos_to_json(todos: &Vec<Todo>) -> (r: String)
    ensures
        r@ == spec_json_todos(todos@),
{
    let mut out = String::new();
    crate::text::push_char(&mut out, '[');
    let mut i: usize = 0;
    while i < todos.len()
        invariant
            i <= todos@.len(),
            out@ == seq!['['] + spec_json_todo_join(todos@.take(i as int)),
        decreases todos@.len() - i,
    {
        proof {
            assert(todos@.take(i as int).push(todos@[i as int]) =~= todos@.take(i + 1));
        }
        if i > 0 {
            crate::text::push_char(&mut out, ',');
            append_json_todo(&mut out, &todos[i]);
            proof {
                lemma_json_todo_join_push(todos@.take(i as int), todos@[i as int]);
                assert(out@ =~= seq!['['] + spec_json_todo_join(todos@.take(i + 1)));
            }
        } else {
            append_json_todo(&mut out, &todos[i]);
            proof {
                assert(todos@.take(1) =~= seq![todos@[0]]);
                assert(spec_json_todo_join(todos@.take(1)) == spec_json_todo(todos@[0]));
                assert(out@ =~= seq!['['] + spec_json_todo_join(todos@.take(i + 1)));
            }
        }
        i += 1;
    }
    proof {
        assert(todos@.take(todos@.len() as int) =~= todos@);
    }
    crate::text::push_char(&mut out, ']');
    proof {
        assert(out@ =~= spec_json_todos(todos@));
    }
    out
}

/// The repository around a data-access capability.
pub struct TodoRepository<D: TodoDataAccess> {
    data_access: D,
}

impl<D: TodoDataAccess> TodoRepository<D> {
    pub fn new(data_access: D) -> Self {
        TodoRepository { data_access }
    }

    /// Reads the stored text and parses it as a list of todos; any missing
    /// or mistyped field fails the whole load.
    fn load_all(&mut self) -> Result<Vec<Todo>, TodoErrors> {
        let input = match self.data_access.read_all() {
            Ok(input) => input,
            Err(read_error) => {
                return Err(read_error);
            },
        };
        let doc = match parse_json_document(input.as_str()) {
            Ok(d) => d,
            Err(parse_error) => {
                return Err(TodoErrors::TodoGetError(parse_error));
            },
        };
        let elements = match doc.as_array() {
            Some(a) => a,
            None => {
                return Err(TodoErrors::TodoGetError("Expected a list of todos".to_owned()));
            },
        };
        let mut todos: Vec<Todo> = Vec::new();
        let mut i: usize = 0;
        while i < elements.len()
            decreases elements@.len() - i,
        {
            let element = &elements[i];
            let id = match get_string_field(element, "id") {
                Some(s) => s,
                None => {
                    return Err(TodoErrors::TodoGetError("A todo is missing its id".to_owned()));
                },
            };
            let name = match get_string_field(element, "name") {
                Some(s) => s,
                None => {
                    return Err(TodoErrors::TodoGetError("A todo is missing its name".to_owned()));
                },
            };
            let description = match get_string_field(element, "description") {
                Some(s) => s,
                None => {
                    return Err(
                        TodoErrors::TodoGetError("A todo is missing its description".to_owned()),
                    );
                },
            };
            let completed = match get_bool_field(element, "completed") {
                Some(b) => b,
                None => {
                    return Err(
                        TodoErrors::TodoGetError("A todo is missing its completed mark".to_owned()),
                    );
                },
            };
            todos.push(Todo { id, name, description, completed });
            i += 1;
        }
        Ok(todos)
    }

    /// Frames the list as JSON text and hands it to the sink.
    fn save_all(&mut self, all_todos: Vec<Todo>) -> Result<(), TodoErrors> {
        let output = todos_to_json(&all_todos);
        self.data_access.write_all(output)
    }

    /// The first todo of the list carrying the id, or the not-found error
    /// naming the id.
    fn find_in_memory_todo(&mut self, todos: &Vec<Todo>, todo_id: &String) -> (r: Result<
        Todo,
        TodoErrors,
    >)
        ensures
            (r is Ok) <==> has_todo_with_id(todos@, todo_id@),
            r matches Ok(t) ==> exists|i: int|
                0 <= i < todos@.len() && #[trigger] todos@[i].id@ == todo_id@ && (forall|j: int|
                    0 <= j < i ==> todos@[j].id@ != todo_id@) && t == todos@[i],
            r matches Err(e) ==> (e matches TodoErrors::TodoGetError(m) && m@ == "Todo by id:"@
                + todo_id@ + " not found"@),
    {
        let mut i: usize = 0;
        while i < todos.len()
            invariant
                i <= todos@.len(),
                forall|j: int| 0 <= j < i ==> todos@[j].id@ != todo_id@,
            decreases todos@.len() - i,
        {
            if todos[i].id == *todo_id {
                return Ok(clone_todo(&todos[i]));
            }
            i += 1;
        }
        let msg = "Todo by id:".to_owned().concat(todo_id.as_str()).concat(" not found");
        Err(TodoErrors::TodoGetError(msg))
    }

    /// Every stored todo.
    pub fn get_all_todos(&mut self) -> Result<Vec<Todo>, TodoErrors> {
        self.load_all()
    }

    /// The stored todo with the given id, or the not-found error.
    pub fn get_todo_by_id(&mut self, todo_id: String) -> Result<Todo, TodoErrors> {
        let todos = match self.load_all() {
            Ok(todos) => todos,
            Err(todo_error) => {
                return Err(todo_error);
            },
        };
        self.find_in_memory_todo(&todos, &todo_id)
    }

    /// The stored todos whose names hold the search string, matched without
    /// regard to case, or the not-found error when none does.
    pub fn get_todo_by_name(&mut self, todo_name: String) -> (r: Result<Vec<Todo>, TodoErrors>)
        ensures
            r matches Ok(found) ==> found@.len() > 0,
    {
        let todos = match self.load_all() {
            Ok(todos) => todos,
            Err(todo_error) => {
                return Err(todo_error);
            },
        };
        let found_todos = find_todos_by_name(&todos, &todo_name);
        if found_todos.is_empty() {
            let msg = "Todo by name: ".to_owned().concat(todo_name.as_str()).concat(" not found");
            Err(TodoErrors::TodoGetError(msg))
        } else {
            Ok(found_todos)
        }
    }

    /// Adds a fresh todo built from the arguments, with a generated id and
    /// an unset completed mark, and saves the grown list.
    pub fn add_todo(&mut self, add_command_args: &crate::todo_cli::AddCommandArgs) -> (r: Result<
        Todo,
        TodoErrors,
    >)
        ensures
            r matches Ok(t) ==> t.name@ == add_command_args.name@ && t.description@
                == add_command_args.description@ && !t.completed && t.id@.len() == ID_LENGTH,
    {
        let mut todos = match self.load_all() {
            Ok(todos) => todos,
            Err(todo_error) => {
                return Err(todo_error);
            },
        };
        let new_todo = Todo {
            id: random_id(ID_LENGTH),
            name: add_command_args.name.clone(),
            description: add_command_args.description.clone(),
            completed: false,
        };
        let todo_to_return = clone_todo(&new_todo);
        todos.push(new_todo);
        match self.save_all(todos) {
            Ok(_) => Ok(todo_to_return),
            Err(save_error) => Err(save_error),
        }
    }

    /// Deletes the stored todo with the given id and saves the shrunk list;
    /// the deleted todo is handed back.
    pub fn delete_todo(&mut self, todo_id: String) -> Result<Todo, TodoErrors> {
        let all_todo = match self.get_all_todos() {
            Ok(todos) => todos,
            Err(todo_error) => {
                return Err(todo_error);
            },
        };
        let todo_to_delete = match self.find_in_memory_todo(&all_todo, &todo_id) {
            Ok(t) => t,
            Err(todo_error) => {
                return Err(todo_error);
            },
        };
        let kept = remove_todo_by_id(&all_todo, &todo_id);
        match self.save_all(kept) {
            Ok(_) => Ok(todo_to_delete),
            Err(save_error) => Err(save_error),
        }
    }

    /// Marks the stored todo with the given id as completed and saves the
    /// list; the updated todo is handed back.
    pub fn mark_todo_complete(&mut self, todo_id: String) -> Result<Todo, TodoErrors> {
        let mut all_todo = match self.get_all_todos() {
            Ok(todos) => todos,
            Err(todo_error) => {
                return Err(todo_error);
            },
        };
        let updated_todo = match mark_complete_by_id(&mut all_todo, &todo_id) {
            Some(t) => t,
            None => {
                let msg = "Todo by id:".to_owned().concat(todo_id.as_str()).concat(" not found");
                return Err(TodoErrors::TodoGetError(msg));
            },
        };
        match self.save_all(all_todo) {
            Ok(_) => Ok(updated_todo),
            Err(save_error) => Err(save_error),
        }
    }

    /// Hands the data access back, so that a caller can look at what was
    /// written.
    pub fn into_writer(self) -> D {
        self.data_access
    }
}

} // verus!
