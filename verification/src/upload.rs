//! Which uploads the `/replay` command accepts.

use vstd::prelude::*;
use crate::text::{ends_with, str_ends_with};

verus! {

/// Largest upload the `/replay` command accepts: 50 MiB.
pub const MAX_REPLAY_BYTES: u64 = 50 * 1024 * 1024;

/// The file name ending of a replay file.
pub open spec fn replay_extension() -> Seq<char> {
    ".wowsreplay"@
}

/// Why an upload is refused.
#[derive(Clone, Copy, Debug, PartialEq, Eq, Structural)]
pub enum UploadRefusal {
    /// The file name does not end with `.wowsreplay`.
    NotAReplay,
    /// The file is larger than `MAX_REPLAY_BYTES`.
    TooLarge,
}

/// The verdict on an upload named `file_name` of `size` bytes: the name is
/// checked first, then the size.
pub open spec fn upload_verdict(file_name: Seq<char>, size: u64) -> Result<(), UploadRefusal> {
    if !ends_with(file_name, replay_extension()) {
        Err(UploadRefusal::NotAReplay)
    } else if size > MAX_REPLAY_BYTES {
        Err(UploadRefusal::TooLarge)
    } else {
        Ok(())
    }
}

/// The reply that tells the user why an upload was refused.
pub open spec fn refusal_text(r: UploadRefusal) -> Seq<char> {
    match r {
        UploadRefusal::NotAReplay => "Please upload a `.wowsreplay` file."@,
        UploadRefusal::TooLarge => "Replay file too large (max 50 MB)."@,
    }
}

/// Checks an upload against the command's rules.
pub fn check_upload(file_name: &str, size: u64) -> (r: Result<(), UploadRefusal>)
    ensures
        r == upload_verdict(file_name@, size),
{
    if !str_ends_with(file_name, ".wowsreplay") {
        Err(UploadRefusal::NotAReplay)
    } else if size > MAX_REPLAY_BYTES {
        Err(UploadRefusal::TooLarge)
    } else {
        Ok(())
    }
}

proof fn lemma_ends_with_stem(name: Seq<char>, suffix: Seq<char>)
    ensures
        ends_with(name, suffix) <==> exists|stem: Seq<char>| #[trigger] (stem + suffix) == name,
{
    if ends_with(name, suffix) {
        let stem = name.subrange(0, name.len() - suffix.len());
        assert(stem + suffix =~= name);
    }
    if exists|stem: Seq<char>| #[trigger] (stem + suffix) == name {
        let stem = choose|stem: Seq<char>| #[trigger] (stem + suffix) == name;
        assert(name.subrange(name.len() - suffix.len(), name.len() as int) =~= suffix);
    }
}

/// Law: an upload is accepted exactly when its name is some stem followed by
/// `.wowsreplay` and it holds at most 50 MiB (52 428 800 bytes). It is refused
/// as not a replay exactly when the name has no such ending, whatever the
/// size, and as too large exactly when the name is right and the size is over.
pub proof fn law_upload_verdict(name: Seq<char>, size: u64)
    ensures
        upload_verdict(name, size) is Ok <==> (exists|stem: Seq<char>| #[trigger] (stem
            + ".wowsreplay"@) == name) && size <= 52_428_800,
        upload_verdict(name, size) == Err::<(), UploadRefusal>(UploadRefusal::NotAReplay) <==> !(exists|
            stem: Seq<char>,
        | #[trigger] (stem + ".wowsreplay"@) == name),
        upload_verdict(name, size) == Err::<(), UploadRefusal>(UploadRefusal::TooLarge) <==> (exists|
            stem: Seq<char>,
        | #[trigger] (stem + ".wowsreplay"@) == name) && size > 52_428_800,
{
    lemma_ends_with_stem(name, ".wowsreplay"@);
}

impl UploadRefusal {
    /// The reply sent for this refusal.
    pub fn message(&self) -> (s: String)
        ensures
            s@ == refusal_text(*self),
    {
        match self {
            UploadRefusal::NotAReplay => String::from_str("Please upload a `.wowsreplay` file."),
            UploadRefusal::TooLarge => String::from_str("Replay file too large (max 50 MB)."),
        }
    }
}

} // verus!
