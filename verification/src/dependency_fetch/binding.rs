//! Binding the socket that the fetcher listens on: in a directory of its own, in place of a socket
//! that no one listens on any more, and never in place of anything else.

use vstd::prelude::*;
use super::DependencyFetchSocketError;
use crate::paths::{
    absolute_without_parents,
    is_absolute_without_parents,
    path_names,
    split_path,
    NodeFacts,
    SocketCleanupGuard,
};
use crate::text::texts;

verus! {

pub const SOCKET_DIRECTORY_MODE: u32 = 0o750;

pub const SOCKET_MODE: u32 = 0o660;

/// What came of connecting to a socket that is in the way.
#[derive(Debug)]
pub enum ConnectOutcome {
    Connected,
    Refused,
    Failed(String),
}

/// A socket that is to be bound, and whose it must be.
#[derive(Debug)]
pub struct SocketBinding {
    path: String,
    owner: u32,
    group: u32,
}

impl NodeFacts {
    /// The node is a socket of an owner and a group.
    pub open spec fn is_socket_of(self, owner: u32, group: u32) -> bool {
        self.is_socket && self.uid == owner && self.gid == group
    }

    /// The node is a socket that only an owner and a group can use.
    pub open spec fn is_own_socket(self, owner: u32, group: u32) -> bool {
        self.is_socket_of(owner, group) && self.mode & 0o777 == SOCKET_MODE
    }
}

impl SocketBinding {
    pub closed spec fn place(self) -> Seq<char> {
        self.path@
    }

    pub closed spec fn of_owner(self) -> u32 {
        self.owner
    }

    pub closed spec fn of_group(self) -> u32 {
        self.group
    }

    /// A socket can be bound at a path that leads downwards from the root.
    pub fn begin(path: String, owner: u32, group: u32) -> (r: Result<
        SocketBinding,
        DependencyFetchSocketError,
    >)
        ensures
            r is Ok == (absolute_without_parents(path@) && path_names(path@).len() > 0),
            r matches Ok(binding) ==> binding.place() == path@ && binding.of_owner() == owner
                && binding.of_group() == group,
            r matches Err(error) ==> error is InvalidBindPath,
    {
        if !is_absolute_without_parents(path.as_str()) {
            return Err(DependencyFetchSocketError::InvalidBindPath);
        }
        let names = split_path(path.as_str());
        assert(texts(names@).len() == names@.len());
        if names.len() == 0 {
            return Err(DependencyFetchSocketError::InvalidBindPath);
        }
        Ok(SocketBinding { path, owner, group })
    }

    /// Whether the directory can hold the socket: it is one, of the owner and the group, who are
    /// not the root, and no one else can use it.
    pub fn check_parent(&self, parent: &NodeFacts) -> (r: Result<(), DependencyFetchSocketError>)
        ensures
            r is Ok == (parent.is_directory && !parent.is_symlink && parent.uid == self.of_owner()
                && parent.gid == self.of_group() && parent.mode & 0o7777 == SOCKET_DIRECTORY_MODE
                && self.of_owner() != 0 && self.of_group() != 0),
            r matches Err(error) ==> error is UnsafeBindParent,
    {
        if !parent.is_directory || parent.is_symlink || parent.uid != self.owner || parent.gid
            != self.group || parent.mode & 0o7777 != SOCKET_DIRECTORY_MODE || self.owner == 0
            || self.group == 0 {
            Err(DependencyFetchSocketError::UnsafeBindParent)
        } else {
            Ok(())
        }
    }

    /// Whether what is at the path may be in the way: nothing, or a socket of the same kind.
    pub fn check_existing(&self, existing: &Option<NodeFacts>) -> (r: Result<
        (),
        DependencyFetchSocketError,
    >)
        ensures
            r is Ok == (existing matches Some(facts) ==> facts.is_own_socket(
                self.of_owner(),
                self.of_group(),
            )),
            r matches Err(error) ==> error is SocketPathExists,
    {
        match existing {
            None => Ok(()),
            Some(facts) => if !facts.is_socket || facts.uid != self.owner || facts.gid != self.group
                || facts.mode & 0o777 != SOCKET_MODE {
                Err(DependencyFetchSocketError::SocketPathExists)
            } else {
                Ok(())
            },
        }
    }

    /// Whether no one listens on a socket that is in the way.
    pub fn check_abandoned(outcome: ConnectOutcome) -> (r: Result<(), DependencyFetchSocketError>)
        ensures
            match outcome {
                ConnectOutcome::Refused => r is Ok,
                ConnectOutcome::Connected => r matches Err(
                    DependencyFetchSocketError::SocketPathExists,
                ),
                ConnectOutcome::Failed(reason) => r == Err::<(), DependencyFetchSocketError>(
                    DependencyFetchSocketError::InspectStaleSocket(reason),
                ),
            },
    {
        match outcome {
            ConnectOutcome::Refused => Ok(()),
            ConnectOutcome::Connected => Err(DependencyFetchSocketError::SocketPathExists),
            ConnectOutcome::Failed(reason) => Err(
                DependencyFetchSocketError::InspectStaleSocket(reason),
            ),
        }
    }

    /// Whether a socket that is in the way is still the one that no one listened on.
    pub fn check_unchanged(existing: &NodeFacts, found: &NodeFacts) -> (r: Result<
        (),
        DependencyFetchSocketError,
    >)
        ensures
            r is Ok == (found.is_socket && found.is_node(existing.device, existing.inode)),
            r matches Err(error) ==> error is SocketPathChanged,
    {
        if !found.is_socket || found.device != existing.device || found.inode != existing.inode {
            Err(DependencyFetchSocketError::SocketPathChanged)
        } else {
            Ok(())
        }
    }

    /// Whether what was bound is a socket of the owner and the group.
    pub fn check_bound(&self, bound: &NodeFacts) -> (r: Result<(), DependencyFetchSocketError>)
        ensures
            r is Ok == bound.is_socket_of(self.of_owner(), self.of_group()),
            r matches Err(error) ==> error is BoundPathNotSocket,
    {
        if !bound.is_socket || bound.uid != self.owner || bound.gid != self.group {
            Err(DependencyFetchSocketError::BoundPathNotSocket)
        } else {
            Ok(())
        }
    }

    /// Ends the binding, once only the owner and the group can use the socket that was bound.
    pub fn finish(self, bound: &NodeFacts, protected: &NodeFacts) -> (r: Result<
        SocketCleanupGuard,
        DependencyFetchSocketError,
    >)
        ensures
            r is Ok == (protected.is_own_socket(self.of_owner(), self.of_group())
                && protected.is_node(bound.device, bound.inode)),
            r matches Ok(guard) ==> guard.path@ == self.place() && guard.device == bound.device
                && guard.inode == bound.inode,
            r matches Err(error) ==> error is BoundPathNotSocket,
    {
        if !protected.is_socket || protected.uid != self.owner || protected.gid != self.group
            || protected.mode & 0o777 != SOCKET_MODE || protected.device != bound.device
            || protected.inode != bound.inode {
            Err(DependencyFetchSocketError::BoundPathNotSocket)
        } else {
            Ok(
                SocketCleanupGuard {
                    path: self.path,
                    device: protected.device,
                    inode: protected.inode,
                },
            )
        }
    }
}

} // verus!
