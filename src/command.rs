//! Command lines and how a finished command is judged.
use crate::outside::{decode_lossy, lossy_text};
use crate::text::{copy_texts, join_texts, joined_with, texts};
use vstd::prelude::*;

verus! {

/// `template` with `arg` appended.
pub fn with_argument(template: &Vec<String>, arg: &str) -> (r: Vec<String>)
    ensures
        texts(r@) == texts(template@).push(arg@),
{
    let mut argv = copy_texts(template);
    let a = String::from_str(arg);
    proof {
        assert(texts(argv@.push(a)) =~= texts(argv@).push(a@));
    }
    argv.push(a);
    argv
}

/// The diagnostic of a command that exited unsuccessfully.
pub open spec fn failure_text(argv: Seq<Seq<char>>, stdout: Seq<char>, stderr: Seq<char>) -> Seq<char> {
    "failed: "@ + joined_with(argv, " "@) + "\nstdout:\n"@ + stdout + "\nstderr:\n"@ + stderr
}

/// Judges a finished command: its standard output, decoded leniently, when it
/// succeeded; otherwise a diagnostic naming the command line, with both of its
/// outputs.
pub fn command_outcome(argv: &Vec<String>, success: bool, stdout: &[u8], stderr: &[u8]) -> (r:
    Result<String, String>)
    ensures
        success ==> (r matches Ok(o) && o@ == lossy_text(stdout@)),
        !success ==> (r matches Err(e) && e@ == failure_text(
            texts(argv@),
            lossy_text(stdout@),
            lossy_text(stderr@),
        )),
{
    let out = decode_lossy(stdout);
    if success {
        return Ok(out);
    }
    let err = decode_lossy(stderr);
    let mut text = String::from_str("failed: ");
    let line = join_texts(argv, " ");
    text.append(line.as_str());
    text.append("\nstdout:\n");
    text.append(out.as_str());
    text.append("\nstderr:\n");
    text.append(err.as_str());
    Err(text)
}

} // verus!
