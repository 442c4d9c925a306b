//! Key material: how it is asked of the key tool, read from its answer and
//! laid down in files.
//!
//! A key is text that the key tool produced. The library never looks inside
//! it; it hands it on and stores it.

use vstd::prelude::*;
use crate::command::{
    CommandOutput, CommandOutputView, FileWrite, FileWriteView, Invocation, InvocationView,
    Pipeline, PipelineView, OWNER_ONLY_MODE, single,
};
use crate::error::{Failure, FailureView, WgInitErrors};

verus! {

/// A private key and the public key that belongs to it.
#[derive(Debug, Clone, PartialEq, Eq)]
pub struct Keypair {
    pub private: String,
    pub public: String,
}

/// A [`Keypair`] as plain text.
pub struct KeypairView {
    pub private: Seq<char>,
    pub public: Seq<char>,
}

impl View for Keypair {
    type V = KeypairView;

    open spec fn view(&self) -> KeypairView {
        KeypairView { private: self.private@, public: self.public@ }
    }
}

/// `wg genkey`: writes a fresh private key to its output.
pub open spec fn generate_key_command() -> PipelineView {
    single("wg"@, seq!["genkey"@])
}

/// `wg pubkey` reading `private_key`: writes the matching public key.
pub open spec fn derive_public_command(private_key: Seq<char>) -> PipelineView {
    PipelineView {
        stages: seq![InvocationView { program: "wg"@, args: seq!["pubkey"@] }],
        input: Some(private_key),
    }
}

/// The command that generates a private key.
pub fn generate_key() -> (p: Pipeline)
    ensures
        p@ == generate_key_command(),
{
    let p = Pipeline::of(Invocation::program("wg").arg("genkey"));
    assert(p@.stages[0].args =~= generate_key_command().stages[0].args);
    p
}

/// The command that derives the public key of `private_key`. The private
/// key reaches the tool on its input, never as an argument.
pub fn derive_public(private_key: &str) -> (p: Pipeline)
    ensures
        p@ == derive_public_command(private_key@),
{
    let p = Pipeline::of(Invocation::program("wg").arg("pubkey")).fed(private_key.to_owned());
    assert(p@.stages[0].args =~= derive_public_command(private_key@).stages[0].args);
    assert(p@.stages =~= derive_public_command(private_key@).stages);
    p
}

/// The key in the key tool's answer: all it wrote, after exit status zero.
/// Any other ending is a key-generation failure that carries the tool's
/// error stream; generating and deriving report the same kind.
pub open spec fn key_of(output: CommandOutputView) -> Result<Seq<char>, FailureView> {
    if output.succeeded() {
        Ok(output.stdout)
    } else {
        Err(
            FailureView {
                error: WgInitErrors::FailedToGenPrivateKey,
                message: Seq::empty(),
                diagnostic: output.stderr,
            },
        )
    }
}

/// Reads a key from the answer of [`generate_key`] or [`derive_public`].
pub fn key_from_output(output: &CommandOutput) -> (r: Result<String, Failure>)
    ensures
        match r {
            Ok(key) => key_of(output@) == Ok::<Seq<char>, FailureView>(key@),
            Err(f) => key_of(output@) == Err::<Seq<char>, FailureView>(f@),
        },
{
    if output.succeeded() {
        Ok(output.stdout.clone())
    } else {
        proof {
            reveal_strlit("");
        }
        assert(""@ =~= Seq::<char>::empty());
        Err(Failure::new(WgInitErrors::FailedToGenPrivateKey, "", output.stderr.as_str()))
    }
}

/// The file that keeps the server's private key.
pub open spec fn private_key_file(key: Seq<char>) -> FileWriteView {
    FileWriteView { path: "server_private_key"@, contents: key, mode: OWNER_ONLY_MODE }
}

/// The file that keeps the server's public key.
pub open spec fn public_key_file(key: Seq<char>) -> FileWriteView {
    FileWriteView { path: "server_public_key"@, contents: key, mode: OWNER_ONLY_MODE }
}

/// The request to store the server's private key, for its owner's eyes only.
pub fn persist_private_key(key: &str) -> (w: FileWrite)
    ensures
        w@ == private_key_file(key@),
{
    FileWrite::owner_only("server_private_key".to_owned(), key.to_owned())
}

/// The request to store the server's public key.
pub fn persist_public_key(key: &str) -> (w: FileWrite)
    ensures
        w@ == public_key_file(key@),
{
    FileWrite::owner_only("server_public_key".to_owned(), key.to_owned())
}

} // verus!
