//! The persisted result of one finished chain.
use vstd::prelude::*;

use crate::project::BaseProject;

verus! {

/// The output and exit status of one step, with the log of the step that
/// ran before it (if any) as its child.
pub struct IoLog {
    pub status: usize,
    pub project: BaseProject,
    pub tag: Option<String>,
    pub stdout: String,
    pub stderr: String,
    pub child: Option<Box<IoLog>>,
}

impl IoLog {
    /// A log with no child.
    pub fn new(status: usize, project: BaseProject, tag: Option<String>, stdout: String, stderr: String) -> (r: Self)
        ensures
            r == (IoLog { status, project, tag, stdout, stderr, child: None }),
    {
        IoLog { status, project, tag, stdout, stderr, child: None }
    }

    /// The same log with `child` as the log of the step before it.
    pub fn set_child(self, child: Box<IoLog>) -> (r: Self)
        ensures
            r == (IoLog { child: Some(child), ..self }),
    {
        let mut r = self;
        r.child = Some(child);
        r
    }
}

/// The nested log of steps that ran in the order of `logs`: the last is the
/// root, each earlier one the child of the next.
pub open spec fn nest(logs: Seq<IoLog>) -> IoLog
    decreases logs.len(),
{
    if logs.len() <= 1 {
        logs[0]
    } else {
        IoLog { child: Some(Box::new(nest(logs.drop_last()))), ..logs.last() }
    }
}

} // verus!
