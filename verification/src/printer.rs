//! The todo tool's text output shape: one line per todo, holding id,
//! completed mark, the name cut to ten characters, and the description,
//! separated by tabs.

use vstd::prelude::*;

use crate::text::{bool_text, push_char, spec_bool_text};
use crate::todo_repo::Todo;
use vstd::string::{StrSliceExecFns, StringExecFns};

verus! {

/// The first ten characters of the text, or all of it when it is shorter.
pub open spec fn spec_first_10(s: Seq<char>) -> Seq<char> {
    if s.len() <= 10 {
        s
    } else {
        s.take(10)
    }
}

/// A todo's text line: id, completed mark, the name cut to ten characters,
/// then the description, separated by tabs with a double tab before the
/// description.
pub open spec fn spec_todo_text(t: Todo) -> Seq<char> {
    t.id@ + "\t"@ + spec_bool_text(t.completed) + "\t"@ + spec_first_10(t.name@) + "\t\t"@
        + t.description@
}

/// The first ten characters of the string.
pub fn first_10_chars(s: &String) -> (r: String)
    ensures
        r@ == spec_first_10(s@),
{
    let n = s.as_str().unicode_len();
    let count: usize = if n <= 10 {
        n
    } else {
        10
    };
    let mut out = String::new();
    let mut i: usize = 0;
    while i < count
        invariant
            i <= count,
            count <= n,
            n == s@.len(),
            out@ == s@.take(i as int),
        decreases count - i,
    {
        push_char(&mut out, s.as_str().get_char(i));
        proof {
            assert(s@.take(i + 1) =~= s@.take(i as int).push(s@[i as int]));
        }
        i += 1;
    }
    proof {
        if n <= 10 {
            assert(s@.take(n as int) =~= s@);
        }
    }
    out
}

/// The todo formatted as its text line.
pub fn get_todo_text_format(todo: Todo) -> (r: String)
    ensures
        r@ == spec_todo_text(todo),
{
    let mut out = todo.id.clone();
    out.append("\t");
    out.append(bool_text(todo.completed));
    out.append("\t");
    let short_name = first_10_chars(&todo.name);
    out.append(short_name.as_str());
    out.append("\t\t");
    out.append(todo.description.as_str());
    proof {
        assert(out@ =~= spec_todo_text(todo));
    }
    out
}

} // verus!
