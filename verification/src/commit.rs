//! The generic commit-embed-verify contract.
//!
//! A scheme embeds a message into a container so that anyone holding
//! the message and the resulting commitment can check the binding,
//! while the commitment alone reveals nothing about the message.

use vstd::prelude::*;

verus! {

/// Commitment schemes that embed a message into a container.
///
/// Implementors fix a container type and an error type, and say through
/// the four spec functions what a well-formed outcome is; the three
/// operations are then bound to those descriptions: `commit_embed`
/// succeeds exactly when the scheme's derivation is non-degenerate, a
/// successful commitment verifies against the committed message
/// (round trip) and projects back onto the container it was built over.
pub trait CommitEmbedVerify where Self: Sized {
    /// What a commitment is made over.
    type Container: View;

    /// How a failed construction is reported.
    type Error;

    /// Whether this commitment binds the given message.
    spec fn commits_to(&self, msg: Seq<u8>) -> bool;

    /// The container the commitment was built over.
    spec fn container_of(&self) -> Self::Container;

    /// Whether construction over these inputs succeeds.
    spec fn commit_ok(container: &Self::Container, msg: Seq<u8>) -> bool;

    /// The one error a failed construction reports.
    spec fn commit_err() -> Self::Error;

    /// Embeds `msg` into `container`, yielding a commitment bound to
    /// both, or the scheme's error when the derivation is degenerate.
    fn commit_embed(container: Self::Container, msg: &Vec<u8>) -> (r: Result<Self, Self::Error>)
        ensures
            r is Ok <==> Self::commit_ok(&container, msg@),
            r matches Ok(c) ==> c.commits_to(msg@) && c.container_of() == container,
            r matches Err(e) ==> e == Self::commit_err(),
    ;

    /// Checks whether this commitment binds `msg`. A mismatch — or a
    /// degenerate derivation for `msg` — is a negative answer, never an
    /// error.
    fn verify(&self, msg: &Vec<u8>) -> (r: bool)
        ensures
            r == self.commits_to(msg@),
    ;

    /// Projects out the container the commitment was built over.
    fn container(&self) -> (r: Self::Container)
        ensures
            r@ == self.container_of()@,
    ;
}

} // verus!
