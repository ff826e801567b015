//! What can go wrong when a resource table is used.

use vstd::prelude::*;

verus! {

/// Errors returned by operations on a resource table.
#[derive(Debug, Clone, Copy, PartialEq, Eq, Structural)]
pub enum ResourceTableError {
    /// The table has no free keys.
    Full,
    /// The resource is not present in the table.
    NotPresent,
    /// The resource is present in the table, but with a different type.
    WrongType,
    /// The resource cannot be deleted because child resources exist in the table.
    HasChildren,
    /// The host heap memory limit of the table has been exceeded.
    HostMemoryLimitExceeded,
}

impl ResourceTableError {
    /// The text that describes the error.
    pub open spec fn text(self) -> Seq<char> {
        match self {
            ResourceTableError::Full => "resource table has no free keys"@,
            ResourceTableError::NotPresent => "resource not present"@,
            ResourceTableError::WrongType => "resource is of another type"@,
            ResourceTableError::HasChildren => "resource has children"@,
            ResourceTableError::HostMemoryLimitExceeded =>
                "host heap memory limit exceeded for resource table"@,
        }
    }

    /// A message for the user.
    pub fn message(&self) -> (s: &'static str)
        ensures
            s@ == self.text(),
    {
        match self {
            ResourceTableError::Full => "resource table has no free keys",
            ResourceTableError::NotPresent => "resource not present",
            ResourceTableError::WrongType => "resource is of another type",
            ResourceTableError::HasChildren => "resource has children",
            ResourceTableError::HostMemoryLimitExceeded =>
                "host heap memory limit exceeded for resource table",
        }
    }
}

/// Errors are told apart by their messages, and none of these is empty.
pub proof fn law_messages_are_told_apart(a: ResourceTableError, b: ResourceTableError)
    ensures
        a.text() == b.text() ==> a == b,
        a.text().len() > 0,
{
    reveal_strlit("resource table has no free keys");
    reveal_strlit("resource not present");
    reveal_strlit("resource is of another type");
    reveal_strlit("resource has children");
    reveal_strlit("host heap memory limit exceeded for resource table");
}

} // verus!
