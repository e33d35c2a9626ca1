use vstd::prelude::*;

use crate::types::CapabilityError;

verus! {

/// One git operation requested of the repository.
pub enum GitOp {
    /// Check out the branch with this name.
    Checkout(Seq<char>),
    /// Stage all working-tree changes.
    Add,
    /// Commit the staged changes with this message.
    Commit(Seq<char>),
    /// Push the branch with this name to its remote.
    Push(Seq<char>),
}

/// The git synchronization session: an ephemeral handle bound to one
/// repository path, which delegates each operation to the underlying git
/// machinery.
///
/// The ghost views are `repo_path`, the path the session was created for,
/// and `log`, every operation requested so far, in order, whether or not it
/// then succeeded; success is the repository's and the network's to decide.
pub trait GitCapability: Sized {
    open spec fn repo_path(&self) -> Seq<char> {
        Seq::empty()
    }

    open spec fn log(&self) -> Seq<GitOp> {
        Seq::empty()
    }

    fn new(repo_path: String) -> (g: Self)
        ensures
            g.repo_path() == repo_path@,
            g.log() == Seq::<GitOp>::empty(),
    ;

    fn checkout_branch(&mut self, branch_name: &str) -> (r: Result<(), CapabilityError>)
        ensures
            final(self).repo_path() == old(self).repo_path(),
            final(self).log() == old(self).log().push(GitOp::Checkout(branch_name@)),
    ;

    fn add(&mut self) -> (r: Result<(), CapabilityError>)
        ensures
            final(self).repo_path() == old(self).repo_path(),
            final(self).log() == old(self).log().push(GitOp::Add),
    ;

    fn commit(&mut self, commit_subject: String) -> (r: Result<(), CapabilityError>)
        ensures
            final(self).repo_path() == old(self).repo_path(),
            final(self).log() == old(self).log().push(GitOp::Commit(commit_subject@)),
    ;

    fn push(&mut self, branch_name: &str) -> (r: Result<(), CapabilityError>)
        ensures
            final(self).repo_path() == old(self).repo_path(),
            final(self).log() == old(self).log().push(GitOp::Push(branch_name@)),
    ;
}

} // verus!
