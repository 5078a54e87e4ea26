//! Permissions that entitle users to privileged actions.

use crate::error::VError;
use crate::error::VErrorType;
use vstd::prelude::*;
use vstd::string::StringExecFns;

verus! {

/// A permission that can be given to users to entitle them to privileged
/// actions.
#[derive(Debug)]
pub struct Permission {
    id: u32,
    /// The unique identifier of the permission.
    pub name: String,
}

/// Errors that can occur when working with permissions.
#[derive(Debug)]
pub enum PermissionError {
    /// A permission has not been found.
    PermissionNotFound(String),
}

/// What a [`Permission`] stands for.
pub struct PermissionView {
    pub id: u32,
    pub name: Seq<char>,
}

impl View for Permission {
    type V = PermissionView;

    closed spec fn view(&self) -> PermissionView {
        PermissionView { id: self.id, name: self.name@ }
    }
}

impl Permission {
    /// The context under which a failed lookup of `name` is reported.
    pub open spec fn name_context(name: Seq<char>) -> Seq<char> {
        "Selecting permission by name: '"@ + name + "'"@
    }

    /// Creates a new permission without creating it in the database.
    pub fn new(id: u32, name: String) -> (res: Self)
        ensures
            res@ == (PermissionView { id, name: name@ }),
    {
        Permission { id, name }
    }

    /// Returns the id of the permission.
    pub fn id(&self) -> (id: u32)
        ensures
            id == self@.id,
    {
        self.id
    }

    /// The permission that a row of the permissions table stands for. The
    /// table holds the id as a 64-bit integer, of which the low 32 bits
    /// count.
    pub fn from_row(id: i64, name: String) -> (res: Self)
        ensures
            res@ == (PermissionView { id: id as u32, name: name@ }),
    {
        Permission { id: #[verifier::truncate] (id as u32), name }
    }

    /// Turns the outcome of a lookup by name into a result: the permission
    /// that was found, or the error that `name` has not been found.
    pub fn found_by_name(found: Option<Permission>, name: &str) -> (res: Result<Permission, VError>)
        ensures
            match found {
                Some(permission) => res == Ok::<Permission, VError>(permission),
                None => {
                    &&& res matches Err(e)
                    &&& e.error matches VErrorType::Permission(
                        PermissionError::PermissionNotFound(missing),
                    )
                    &&& missing@ == name@
                    &&& e.context_texts() == seq![Permission::name_context(name@)]
                },
            },
    {
        match found {
            Some(permission) => Ok(permission),
            None => {
                let mut context = "Selecting permission by name: '".to_owned();
                context.append(name);
                context.append("'");
                Err(
                    VError::new_ctx(
                        VErrorType::Permission(
                            PermissionError::PermissionNotFound(name.to_owned()),
                        ),
                        context,
                    ),
                )
            },
        }
    }
}

impl PermissionError {
    /// What the error says.
    pub open spec fn text(&self) -> Seq<char> {
        match self {
            PermissionError::PermissionNotFound(name) => "Permission '"@ + name@ + "' not found"@,
        }
    }

    /// Writes out what the error says.
    pub fn to_string(&self) -> (s: String)
        ensures
            s@ == self.text(),
    {
        match self {
            PermissionError::PermissionNotFound(name) => {
                let mut s = "Permission '".to_owned();
                s.append(name.as_str());
                s.append("' not found");
                s
            },
        }
    }
}

} // verus!
