//! The shell commands that the operations send, and what their output means.

use crate::text::{
    decimal, decimal_string, has_substring, is_whitespace, lemma_trimmed_is_slice, occurs_at,
    same_text, trim, trimmed,
};
use vstd::prelude::*;
use vstd::string::*;

verus! {

/// The suffix of the report files that a finished job leaves.
pub const ARTIFACT_SUFFIX: &'static str = ".docx";

/// The command that prints `exists` if `path` is a remote directory.
pub open spec fn existence_command(path: Seq<char>) -> Seq<char> {
    "test -d "@ + path + " && echo 'exists'"@
}

/// The command that lists the remote directory `path`, one name per line.
pub open spec fn listing_command(path: Seq<char>) -> Seq<char> {
    "ls "@ + path
}

/// The command that hands the scheduler an array job of `count` tasks,
/// numbered from 0, each running `script` on the quoted sample list.
pub open spec fn submission_command(
    count: nat,
    script: Seq<char>,
    samples: Seq<char>,
    raw_dir: Seq<char>,
    out_dir: Seq<char>,
    template: Seq<char>,
) -> Seq<char>
    recommends
        count >= 1,
{
    "sbatch --array 0-"@ + decimal((count - 1) as nat) + " "@ + script + " \""@ + samples + "\" "@
        + raw_dir + " "@ + out_dir + " "@ + template
}

/// The command that lists the jobs of `username` in the scheduler's queue.
pub open spec fn queue_command(username: Seq<char>) -> Seq<char> {
    "squeue -u "@ + username
}

/// The command that removes the remote directory `path` and all in it.
pub open spec fn removal_command(path: Seq<char>) -> Seq<char> {
    "rm -rf "@ + path
}

/// The directory under the output directory where a job leaves its reports.
pub open spec fn results_dir(out_dir: Seq<char>) -> Seq<char> {
    out_dir + "/results"@
}

/// The path of the entry `file_name` of the remote directory `dir`.
pub open spec fn remote_path(dir: Seq<char>, file_name: Seq<char>) -> Seq<char> {
    dir + "/"@ + file_name
}

/// Whether the output of the existence check says that the directory is
/// there: it is the word `exists`, with nothing but white space around it.
pub open spec fn reports_existing(stdout: Seq<char>) -> bool {
    trimmed(stdout) == "exists"@
}

/// The command that prints `exists` if `path` is a remote directory.
pub fn existence_check(path: &str) -> (command: String)
    ensures
        command@ == existence_command(path@),
{
    String::from_str("test -d ").concat(path).concat(" && echo 'exists'")
}

/// The command that lists the remote directory `path`.
pub fn listing(path: &str) -> (command: String)
    ensures
        command@ == listing_command(path@),
{
    String::from_str("ls ").concat(path)
}

/// The command that submits the array job.
pub fn submission(
    count: usize,
    script: &str,
    samples: &str,
    raw_dir: &str,
    out_dir: &str,
    template: &str,
) -> (command: String)
    requires
        count >= 1,
    ensures
        command@ == submission_command(
            count as nat,
            script@,
            samples@,
            raw_dir@,
            out_dir@,
            template@,
        ),
{
    let last = decimal_string(count - 1);
    String::from_str("sbatch --array 0-").concat(last.as_str()).concat(" ").concat(script).concat(
        " \"",
    ).concat(samples).concat("\" ").concat(raw_dir).concat(" ").concat(out_dir).concat(" ").concat(
        template,
    )
}

/// The command that lists the jobs of `username`.
pub fn queue_query(username: &str) -> (command: String)
    ensures
        command@ == queue_command(username@),
{
    String::from_str("squeue -u ").concat(username)
}

/// The command that removes the remote directory `path`.
pub fn removal(path: &str) -> (command: String)
    ensures
        command@ == removal_command(path@),
{
    String::from_str("rm -rf ").concat(path)
}

/// The directory of the reports under `out_dir`.
pub fn results_directory(out_dir: &str) -> (path: String)
    ensures
        path@ == results_dir(out_dir@),
{
    String::from_str(out_dir).concat("/results")
}

/// The path of the entry `file_name` of the remote directory `dir`.
pub fn remote_file(dir: &str, file_name: &str) -> (path: String)
    ensures
        path@ == remote_path(dir@, file_name@),
{
    String::from_str(dir).concat("/").concat(file_name)
}

/// Whether `text` is the word that the existence check prints for a directory
/// that is there.
pub fn is_exists_word(text: &str) -> (yes: bool)
    ensures
        yes == (text@ == "exists"@),
{
    same_text(text, "exists")
}

/// Reads the output of the existence check.
pub fn output_reports_existing(stdout: &str) -> (exists: bool)
    ensures
        exists == reports_existing(stdout@),
{
    let word = trim(stdout);
    is_exists_word(word.as_str())
}

/// An output that says that the directory is there holds the word `exists`,
/// and nothing but white space before and after it. So an empty output, and
/// an output without that word, say that the directory is not there.
pub proof fn lemma_existing_holds_the_word(stdout: Seq<char>)
    requires
        reports_existing(stdout),
    ensures
        stdout.len() >= 6,
        has_substring(stdout, "exists"@),
        exists|at: int|
            {
                &&& #[trigger] occurs_at(stdout, "exists"@, at)
                &&& forall|j: int| 0 <= j < at ==> is_whitespace(#[trigger] stdout[j])
                &&& forall|j: int|
                    at + 6 <= j < stdout.len() ==> is_whitespace(#[trigger] stdout[j])
            },
{
    reveal_strlit("exists");
    let bounds = lemma_trimmed_is_slice(stdout);
    assert("exists"@.len() == 6);
    assert(stdout.subrange(bounds.0, bounds.1).len() == bounds.1 - bounds.0);
    assert(occurs_at(stdout, "exists"@, bounds.0));
}

} // verus!
