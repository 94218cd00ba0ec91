//! Environment variables in a path.

use vstd::prelude::*;

use crate::model;
use crate::text;

verus! {

/// Where the first percent sign stands in `s` at or behind `from`.
pub open spec fn percent_at(s: Seq<char>, from: int) -> Option<int>
    decreases s.len() - from,
{
    if from < 0 || from >= s.len() {
        None
    } else if s[from] == '%' {
        Some(from)
    } else {
        percent_at(s, from + 1)
    }
}

/// Where the variable ends that begins at `at`: at the next percent sign, if
/// something stands between the two.
pub open spec fn variable_end(s: Seq<char>, at: int) -> Option<int> {
    if 0 <= at < s.len() && s[at] == '%' {
        match percent_at(s, at + 1) {
            Some(end) => if end > at + 1 {
                Some(end)
            } else {
                None
            },
            None => None,
        }
    } else {
        None
    }
}

/// Where the first variable of `s` at or behind `from` begins and ends.
pub open spec fn first_variable(s: Seq<char>, from: int) -> Option<(int, int)>
    decreases s.len() - from,
{
    if from < 0 || from >= s.len() {
        None
    } else {
        match variable_end(s, from) {
            Some(end) => Some((from, end)),
            None => first_variable(s, from + 1),
        }
    }
}

/// The names of the variables of `s`, in order.
pub open spec fn names_in(s: Seq<char>) -> Seq<Seq<char>>
    decreases s.len(),
{
    match first_variable(s, 0) {
        Some((at, end)) => if 0 <= at < end < s.len() {
            seq![s.subrange(at + 1, end)] + names_in(s.skip(end + 1))
        } else {
            Seq::empty()
        },
        None => Seq::empty(),
    }
}

/// The environment, as far as it was asked for: names and their values.
#[derive(Debug)]
pub struct Environment {
    pub values: Vec<(String, String)>,
}

impl Environment {
    /// The value of a variable; the variable itself where it has none.
    pub open spec fn value(self, name: Seq<char>) -> Seq<char> {
        value_in(self.values@, name)
    }

    /// `value`, executable.
    pub fn value_of(&self, name: &str) -> (r: String)
        ensures
            r@ == self.value(name@),
    {
        let mut i: usize = 0;
        let total: usize = self.values.len();
        assert(self.values@.skip(0) =~= self.values@);
        while i < total
            invariant
                i <= total,
                total == self.values@.len(),
                value_in(self.values@, name@) == value_in(self.values@.skip(i as int), name@),
            decreases total - i,
        {
            let ghost rest = self.values@.skip(i as int);
            assert(rest[0] == self.values@[i as int]);
            if text::same(self.values[i].0.as_str(), name) {
                return self.values[i].1.clone();
            }
            assert(rest.skip(1) =~= self.values@.skip(i + 1));
            i = i + 1;
        }
        text::join3("%", name, "%")
    }
}

/// The first value listed for `name`; the variable itself where there is none.
pub open spec fn value_in(values: Seq<(String, String)>, name: Seq<char>) -> Seq<char>
    decreases values.len(),
{
    if values.len() == 0 {
        "%"@ + name + "%"@
    } else if values[0].0@ == name {
        values[0].1@
    } else {
        value_in(values.skip(1), name)
    }
}

/// `s` with its variables replaced by their values.
pub open spec fn expanded(s: Seq<char>, env: Environment) -> Seq<char>
    decreases s.len(),
{
    match first_variable(s, 0) {
        Some((at, end)) => if 0 <= at < end < s.len() {
            s.subrange(0, at) + env.value(s.subrange(at + 1, end)) + expanded(s.skip(end + 1), env)
        } else {
            s
        },
        None => s,
    }
}

/// Calls `regex_lite::Regex::captures_iter` with the pattern `%([^%]+)%`. Claims
/// that its matches are the variables of the path, from left to right, each
/// behind the end of the one before it.
#[verifier::external_body]
fn variable_names(path: &str) -> (r: Vec<String>)
    ensures
        model::views(r@) == names_in(path@),
{
    let re = regex_lite::Regex::new(r"%([^%]+)%").unwrap();
    re.captures_iter(path).map(|caps| caps.get(1).unwrap().as_str().to_string()).collect()
}

/// Calls `regex_lite::Regex::replace_all` with the pattern `%([^%]+)%`. Claims
/// that it replaces the same matches, each by what `value_of` gives for its name,
/// and leaves the rest as it is.
#[verifier::external_body]
fn replace_variables(path: &str, env: &Environment) -> (r: String)
    ensures
        r@ == expanded(path@, *env),
{
    let re = regex_lite::Regex::new(r"%([^%]+)%").unwrap();
    re.replace_all(path, |caps: &regex_lite::Captures| {
        env.value_of(caps.get(1).unwrap().as_str())
    }).to_string()
}

/// The variables whose values `shellexpand` needs.
pub fn wanted_variables(path: &str) -> (r: Vec<String>)
    ensures
        model::views(r@) == names_in(path@),
{
    variable_names(path)
}

/// `path` with its variables replaced by their values. One without a value stays
/// as it is.
pub fn shellexpand(path: &str, env: &Environment) -> (r: String)
    ensures
        r@ == expanded(path@, *env),
{
    replace_variables(path, env)
}

/// A path without percent signs stays as it is.
pub proof fn plain_paths_are_kept(s: Seq<char>, env: Environment)
    requires
        !s.contains('%'),
    ensures
        expanded(s, env) == s,
        names_in(s).len() == 0,
{
    assert forall|i: int| 0 <= i < s.len() implies s[i] != '%' by {
        assert(s.contains(s[i]));
    }
    no_variables(s, 0);
}

/// Without percent signs there are no variables.
proof fn no_variables(s: Seq<char>, from: int)
    requires
        0 <= from,
        forall|i: int| 0 <= i < s.len() ==> s[i] != '%',
    ensures
        first_variable(s, from) is None,
    decreases s.len() - from,
{
    if from < s.len() {
        no_variables(s, from + 1);
    }
}

/// A path stays as it is where no variable has a value.
pub proof fn unknown_variables_are_kept(s: Seq<char>, env: Environment)
    requires
        env.values@.len() == 0,
    ensures
        expanded(s, env) == s,
    decreases s.len(),
{
    first_variable_is_one(s, 0);
    if let Some((at, end)) = first_variable(s, 0) {
        unknown_variables_are_kept(s.skip(end + 1), env);
        reveal_strlit("%");
        assert(s.subrange(0, at) + ("%"@ + s.subrange(at + 1, end) + "%"@) + s.skip(end + 1)
            =~= s);
    }
}

/// The next percent sign is one.
proof fn percent_is_one(s: Seq<char>, from: int)
    ensures
        percent_at(s, from) matches Some(at) ==> from <= at < s.len() && s[at] == '%',
    decreases s.len() - from,
{
    if 0 <= from < s.len() && s[from] != '%' {
        percent_is_one(s, from + 1);
    }
}

/// A variable that was found begins and ends with a percent sign.
proof fn first_variable_is_one(s: Seq<char>, from: int)
    ensures
        first_variable(s, from) matches Some((at, end)) ==> 0 <= from <= at && at + 1 < end
            < s.len() && s[at] == '%' && s[end] == '%',
    decreases s.len() - from,
{
    if 0 <= from < s.len() {
        percent_is_one(s, from + 1);
        if variable_end(s, from) is None {
            first_variable_is_one(s, from + 1);
        }
    }
}

/// A name between percent signs gives way to its value, wherever it stands; what is
/// before it stays, and what is behind it is expanded in turn.
pub proof fn named_variables_give_way_to_their_value(
    front: Seq<char>,
    name: Seq<char>,
    rest: Seq<char>,
    env: Environment,
)
    requires
        !front.contains('%'),
        !name.contains('%'),
        name.len() > 0,
    ensures
        expanded(front.push('%') + name.push('%') + rest, env) == front + env.value(name)
            + expanded(rest, env),
{
    let s = front.push('%') + name.push('%') + rest;
    let at = front.len() as int;
    let end = at + 1 + name.len();
    assert(s[at] == '%');
    assert(s[end] == '%');
    assert forall|i: int| 0 <= i < at implies s[i] != '%' by {
        assert(front.contains(front[i]));
    }
    assert forall|i: int| at < i < end implies s[i] != '%' by {
        assert(s[i] == name[i - at - 1]);
        assert(name.contains(name[i - at - 1]));
    }
    percent_is_next(s, at + 1, end);
    variable_is_next(s, 0, at, end);
    assert(s.subrange(0, at) =~= front);
    assert(s.subrange(at + 1, end) =~= name);
    assert(s.skip(end + 1) =~= rest);
}

/// The first percent sign behind other characters is the one found.
proof fn percent_is_next(s: Seq<char>, from: int, end: int)
    requires
        0 <= from <= end < s.len(),
        s[end] == '%',
        forall|i: int| from <= i < end ==> s[i] != '%',
    ensures
        percent_at(s, from) == Some(end),
    decreases end - from,
{
    if from < end {
        percent_is_next(s, from + 1, end);
    }
}

/// The first variable behind other characters is the one found.
proof fn variable_is_next(s: Seq<char>, from: int, at: int, end: int)
    requires
        0 <= from <= at,
        at + 1 < end < s.len(),
        s[at] == '%',
        percent_at(s, at + 1) == Some(end),
        forall|i: int| from <= i < at ==> s[i] != '%',
    ensures
        first_variable(s, from) == Some((at, end)),
    decreases at - from,
{
    if from < at {
        variable_is_next(s, from + 1, at, end);
    }
}

/// The first value that is listed for a name is its value.
pub proof fn first_value_counts(values: Seq<(String, String)>, name: Seq<char>, i: int)
    requires
        0 <= i < values.len(),
        values[i].0@ == name,
        forall|j: int| 0 <= j < i ==> (#[trigger] values[j]).0@ != name,
    ensures
        value_in(values, name) == values[i].1@,
    decreases i,
{
    if i > 0 {
        assert(values[0].0@ != name);
        let rest = values.skip(1);
        assert(rest[i - 1] == values[i]);
        assert forall|j: int| 0 <= j < i - 1 implies (#[trigger] rest[j]).0@ != name by {
            assert(values[j + 1].0@ != name);
        }
        first_value_counts(rest, name, i - 1);
    }
}

} // verus!
