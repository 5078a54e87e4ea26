//! Groups of users.

use crate::error::VError;
use crate::error::VErrorType;
use crate::text::decimal;
use crate::text::push_decimal;
use vstd::prelude::*;
use vstd::string::StringExecFns;

verus! {

/// A group in the Velocity system.
#[derive(Debug)]
pub struct Group {
    /// The group id is the primary key, so it is guarded.
    gid: u32,
    /// The group id of the parent group.
    parent_gid: Option<u32>,
    /// The groupname of the group.
    pub groupname: String,
}

/// Errors that can occur when working with groups.
#[derive(Debug)]
pub enum GroupError {
    /// A group id (gid) has not been found.
    GroupIDNotFound(u32),
    /// A groupname has not been found.
    GroupnameNotFound(String),
}

impl Clone for Group {
    fn clone(&self) -> (res: Self)
        ensures
            res == *self,
    {
        Group { gid: self.gid, parent_gid: self.parent_gid, groupname: self.groupname.clone() }
    }
}

/// What a [`Group`] stands for.
pub struct GroupView {
    pub gid: u32,
    pub parent_gid: Option<u32>,
    pub groupname: Seq<char>,
}

impl View for Group {
    type V = GroupView;

    closed spec fn view(&self) -> GroupView {
        GroupView { gid: self.gid, parent_gid: self.parent_gid, groupname: self.groupname@ }
    }
}

impl Group {
    /// How the group is written out: the groupname, then the group id in
    /// round brackets.
    pub open spec fn text(&self) -> Seq<char> {
        self@.groupname + " ("@ + decimal(self@.gid as nat) + ")"@
    }

    /// The context under which a failed lookup of `groupname` is reported.
    pub open spec fn groupname_context(groupname: Seq<char>) -> Seq<char> {
        "Selecting group by groupname: '"@ + groupname + "'"@
    }

    /// The context under which a failed lookup of `gid` is reported.
    pub open spec fn gid_context(gid: u32) -> Seq<char> {
        "Selecting group by gid: "@ + decimal(gid as nat)
    }

    /// Creates a new in-memory group without a backing database entry.
    pub fn new(gid: u32, parent_gid: Option<u32>, groupname: String) -> (res: Self)
        ensures
            res@ == (GroupView { gid, parent_gid, groupname: groupname@ }),
    {
        Group { gid, parent_gid, groupname }
    }

    /// Returns the group id of the group.
    pub fn gid(&self) -> (gid: u32)
        ensures
            gid == self@.gid,
    {
        self.gid
    }

    /// Returns the group id of the parent group.
    pub fn parent_gid(&self) -> (parent_gid: Option<u32>)
        ensures
            parent_gid == self@.parent_gid,
    {
        self.parent_gid
    }

    /// Returns the group id of the parent group or `0` for the `root` group.
    pub fn lossy_parent_gid(&self) -> (parent_gid: u32)
        ensures
            parent_gid == match self@.parent_gid {
                Some(gid) => gid,
                None => 0,
            },
    {
        match self.parent_gid {
            Some(gid) => gid,
            None => 0,
        }
    }

    /// The parent group id under which a new group is entered in the groups
    /// table: that of `parent`, or `0` for a group without a parent.
    pub fn parent_gid_of(parent: Option<&Group>) -> (parent_gid: u32)
        ensures
            parent_gid == match parent {
                Some(p) => p@.gid,
                None => 0,
            },
    {
        match parent {
            None => 0,
            Some(p) => p.gid(),
        }
    }

    /// The group that a row of the groups table stands for. The table holds
    /// the ids as 64-bit integers, of which the low 32 bits count.
    pub fn from_row(gid: i64, parent_gid: Option<i64>, groupname: String) -> (res: Self)
        ensures
            res@ == (GroupView {
                gid: gid as u32,
                parent_gid: match parent_gid {
                    Some(p) => Some(p as u32),
                    None => None,
                },
                groupname: groupname@,
            }),
    {
        let parent_gid = match parent_gid {
            Some(p) => Some(#[verifier::truncate] (p as u32)),
            None => None,
        };
        Group { gid: #[verifier::truncate] (gid as u32), parent_gid, groupname }
    }

    /// Turns the outcome of a lookup by groupname into a result: the group
    /// that was found, or the error that `groupname` has not been found.
    pub fn found_by_groupname(found: Option<Group>, groupname: &str) -> (res: Result<Group, VError>)
        ensures
            match found {
                Some(group) => res == Ok::<Group, VError>(group),
                None => {
                    &&& res matches Err(e)
                    &&& e.error matches VErrorType::Group(GroupError::GroupnameNotFound(name))
                    &&& name@ == groupname@
                    &&& e.context_texts() == seq![Group::groupname_context(groupname@)]
                },
            },
    {
        match found {
            Some(group) => Ok(group),
            None => {
                let mut context = "Selecting group by groupname: '".to_owned();
                context.append(groupname);
                context.append("'");
                Err(
                    VError::new_ctx(
                        VErrorType::Group(GroupError::GroupnameNotFound(groupname.to_owned())),
                        context,
                    ),
                )
            },
        }
    }

    /// Turns the outcome of a lookup by group id into a result: the group
    /// that was found, or the error that `gid` has not been found.
    pub fn found_by_gid(found: Option<Group>, gid: u32) -> (res: Result<Group, VError>)
        ensures
            match found {
                Some(group) => res == Ok::<Group, VError>(group),
                None => {
                    &&& res matches Err(e)
                    &&& e.error matches VErrorType::Group(GroupError::GroupIDNotFound(id))
                    &&& id == gid
                    &&& e.context_texts() == seq![Group::gid_context(gid)]
                },
            },
    {
        match found {
            Some(group) => Ok(group),
            None => {
                let mut context = "Selecting group by gid: ".to_owned();
                push_decimal(&mut context, gid);
                Err(VError::new_ctx(VErrorType::Group(GroupError::GroupIDNotFound(gid)), context))
            },
        }
    }

    /// Writes the group out: the groupname, then the group id in round
    /// brackets.
    pub fn to_string(&self) -> (s: String)
        ensures
            s@ == self.text(),
    {
        let mut s = self.groupname.clone();
        s.append(" (");
        push_decimal(&mut s, self.gid);
        s.append(")");
        s
    }
}

impl GroupError {
    /// What the error says.
    pub open spec fn text(&self) -> Seq<char> {
        match self {
            GroupError::GroupIDNotFound(gid) => "Group ID "@ + decimal(*gid as nat)
                + " not found"@,
            GroupError::GroupnameNotFound(groupname) => "Groupname '"@ + groupname@
                + "' not found"@,
        }
    }

    /// Writes out what the error says.
    pub fn to_string(&self) -> (s: String)
        ensures
            s@ == self.text(),
    {
        match self {
            GroupError::GroupIDNotFound(gid) => {
                let mut s = "Group ID ".to_owned();
                push_decimal(&mut s, *gid);
                s.append(" not found");
                s
            },
            GroupError::GroupnameNotFound(groupname) => {
                let mut s = "Groupname '".to_owned();
                s.append(groupname.as_str());
                s.append("' not found");
                s
            },
        }
    }
}

} // verus!
