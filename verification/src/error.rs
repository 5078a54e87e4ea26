//! Errors, and the context in which they came up.
//!
//! An error is handed up with the reason for each step on its way: whoever
//! hands it on puts a line of context in front of those that are there.

use crate::group::GroupError;
use crate::permission::PermissionError;
use crate::user::UserError;
use std::collections::VecDeque;
use vstd::prelude::*;
use vstd::std_specs::convert::FromSpecImpl;
use vstd::string::StringExecFns;

verus! {

/// All the possible types of errors that can occur within Velocity.
#[derive(Debug)]
pub enum VErrorType {
    /// What an error of the database layer said.
    SQLX(String),
    /// An error that has to do with users.
    User(UserError),
    /// An error that has to do with groups.
    Group(GroupError),
    /// An error that has to do with permissions.
    Permission(PermissionError),
    /// What an error of the operating system said.
    IO(String),
}

impl VErrorType {
    /// What the error says.
    pub open spec fn text(&self) -> Seq<char> {
        match self {
            VErrorType::SQLX(e) => e@,
            VErrorType::User(e) => e.text(),
            VErrorType::Group(e) => e.text(),
            VErrorType::Permission(e) => e.text(),
            VErrorType::IO(e) => e@,
        }
    }

    /// Writes out what the error says.
    pub fn to_string(&self) -> (s: String)
        ensures
            s@ == self.text(),
    {
        match self {
            VErrorType::SQLX(e) => e.clone(),
            VErrorType::User(e) => e.to_string(),
            VErrorType::Group(e) => e.to_string(),
            VErrorType::Permission(e) => e.to_string(),
            VErrorType::IO(e) => e.clone(),
        }
    }
}

impl From<UserError> for VErrorType {
    fn from(value: UserError) -> (res: Self) {
        VErrorType::User(value)
    }
}

impl FromSpecImpl<UserError> for VErrorType {
    open spec fn obeys_from_spec() -> bool {
        true
    }

    open spec fn from_spec(value: UserError) -> Self {
        VErrorType::User(value)
    }
}

impl From<GroupError> for VErrorType {
    fn from(value: GroupError) -> (res: Self) {
        VErrorType::Group(value)
    }
}

impl FromSpecImpl<GroupError> for VErrorType {
    open spec fn obeys_from_spec() -> bool {
        true
    }

    open spec fn from_spec(value: GroupError) -> Self {
        VErrorType::Group(value)
    }
}

impl From<PermissionError> for VErrorType {
    fn from(value: PermissionError) -> (res: Self) {
        VErrorType::Permission(value)
    }
}

impl FromSpecImpl<PermissionError> for VErrorType {
    open spec fn obeys_from_spec() -> bool {
        true
    }

    open spec fn from_spec(value: PermissionError) -> Self {
        VErrorType::Permission(value)
    }
}

/// Trait for marking incoming errors.
pub trait VErrorIn: Into<VErrorType> {
}

impl VErrorIn for UserError {
}

impl VErrorIn for GroupError {
}

impl VErrorIn for PermissionError {
}

/// An error to be passed around the Velocity program.
#[derive(Debug)]
pub struct VError {
    /// The context of the error, the latest line first.
    pub context: VecDeque<String>,
    /// The enclosed error.
    pub error: VErrorType,
}

/// A result that returns a [`VError`].
pub type VResult<T> = Result<T, VError>;

/// `depth` times two blanks.
pub open spec fn indent(depth: nat) -> Seq<char>
    decreases depth,
{
    if depth == 0 {
        Seq::empty()
    } else {
        indent((depth - 1) as nat) + "  "@
    }
}

/// The lines of context of an error report: each on a line of its own,
/// indented one step more than the line before it, after two hyphens and
/// before a colon.
pub open spec fn context_lines(contexts: Seq<Seq<char>>) -> Seq<char>
    decreases contexts.len(),
{
    if contexts.len() == 0 {
        Seq::empty()
    } else {
        context_lines(contexts.drop_last()) + "\n"@ + indent(contexts.len()) + "-- "@
            + contexts.last() + ":"@
    }
}

/// The report of an error that says `error` and came up under `contexts`:
/// a heading with what the error says, the lines of context, and below
/// them, one step further in, what the error says once more.
pub open spec fn report(error: Seq<char>, contexts: Seq<Seq<char>>) -> Seq<char> {
    "Error: "@ + error + " while"@ + context_lines(contexts) + "\n"@ + indent(contexts.len() + 1)
        + "-- "@ + error
}

impl VError {
    /// The lines of context, the latest first.
    pub open spec fn context_texts(&self) -> Seq<Seq<char>> {
        self.context@.map_values(|line: String| line@)
    }

    /// The report of the error.
    pub open spec fn text(&self) -> Seq<char> {
        report(self.error.text(), self.context_texts())
    }

    /// Creates a new error with no context.
    pub fn new(error: VErrorType) -> (res: Self)
        ensures
            res.error == error,
            res.context_texts() == Seq::<Seq<char>>::empty(),
    {
        let res = VError { context: VecDeque::new(), error };
        assert(res.context_texts() =~= Seq::<Seq<char>>::empty());
        res
    }

    /// Creates a new error with a context attached to it.
    pub fn new_ctx(error: VErrorType, context: String) -> (res: Self)
        ensures
            res.error == error,
            res.context_texts() == seq![context@],
    {
        let mut lines = VecDeque::new();
        lines.push_back(context);
        let res = VError { context: lines, error };
        assert(res.context_texts() =~= seq![context@]);
        res
    }

    /// Adds a line of context in front of the lines that are there.
    pub fn ctx(self, context: String) -> (res: Self)
        ensures
            res.error == self.error,
            res.context_texts() == seq![context@] + self.context_texts(),
    {
        let VError { context: mut lines, error } = self;
        lines.push_front(context);
        let res = VError { context: lines, error };
        assert(res.context_texts() =~= seq![context@] + self.context_texts());
        res
    }

    /// Adds a line of context to the error of a result, and leaves a
    /// success as it is.
    pub fn ctx_result<T>(result: Result<T, VError>, context: String) -> (res: Result<T, VError>)
        ensures
            match result {
                Ok(v) => res == Ok::<T, VError>(v),
                Err(e) => {
                    &&& res matches Err(r)
                    &&& r.error == e.error
                    &&& r.context_texts() == seq![context@] + e.context_texts()
                },
            },
    {
        match result {
            Ok(v) => Ok(v),
            Err(e) => Err(e.ctx(context)),
        }
    }

    /// Writes out the report of the error.
    pub fn to_string(&self) -> (s: String)
        ensures
            s@ == self.text(),
    {
        let error = self.error.to_string();
        let mut s = "Error: ".to_owned();
        s.append(error.as_str());
        s.append(" while");
        let ghost head = s@;
        let n = self.context.len();
        let mut i: usize = 0;
        while i < n
            invariant
                i <= n,
                n == self.context@.len(),
                head == "Error: "@ + error@ + " while"@,
                s@ == head + context_lines(self.context_texts().take(i as int)),
            decreases n - i,
        {
            let ghost before = s@;
            s.append("\n");
            push_indent(&mut s, i + 1);
            s.append("-- ");
            s.append(self.context[i].as_str());
            s.append(":");
            proof {
                let taken = self.context_texts().take(i + 1);
                assert(taken.drop_last() =~= self.context_texts().take(i as int));
                assert(taken.last() == self.context@[i as int]@);
                assert(s@ =~= head + context_lines(taken));
            }
            i += 1;
        }
        assert(self.context_texts().take(n as int) =~= self.context_texts());
        s.append("\n");
        push_indent(&mut s, n);
        s.append("  ");
        s.append("-- ");
        s.append(error.as_str());
        assert(s@ =~= self.text());
        s
    }
}

/// Appends `depth` times two blanks to `out`.
fn push_indent(out: &mut String, depth: usize)
    ensures
        final(out)@ == old(out)@ + indent(depth as nat),
{
    let mut i: usize = 0;
    while i < depth
        invariant
            i <= depth,
            out@ == old(out)@ + indent(i as nat),
        decreases depth - i,
    {
        out.append("  ");
        i += 1;
        assert(out@ =~= old(out)@ + indent(i as nat));
    }
    assert(out@ =~= old(out)@ + indent(depth as nat));
}

} // verus!
