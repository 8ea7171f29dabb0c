//! The directory scan, as decisions: what to do with each directory entry,
//! and what becomes of its outcome. Reading files and calling the remote
//! model is left to the caller, who reports back what happened.

use vstd::prelude::*;
use vstd::string::*;
use vstd::utf8::{encode_utf8, valid_utf8};
use crate::api::RemoteError;
use crate::classify::{classify_file, extension, extension_of, lowercase, strategy_for, FileType};

verus! {

/// A processed file: name + extracted content.
#[derive(Clone, Debug)]
pub struct ProcessedFile {
    pub name: String,
    pub content: String,
}

/// Why a scan could not start.
#[derive(Clone, Copy, Debug, PartialEq, Eq, Structural)]
pub enum ScanError {
    /// The directory to scan does not exist.
    DirectoryNotFound,
}

impl ScanError {
    /// Describes this failure for the directory that was to be scanned.
    pub fn message(&self, directory: &str) -> (text: String)
        ensures
            text@ == "Directory '"@ + directory@ + "' does not exist"@,
    {
        let mut text = String::from_str("Directory '");
        text.append(directory);
        text.append("' does not exist");
        text
    }
}

/// Why one file yielded no text. None of these ends the scan.
#[derive(Clone, Copy, Debug, PartialEq, Eq, Structural)]
pub enum ExtractionError {
    /// The file could not be read, or is not valid UTF-8.
    FileUnreadable,
    /// No extraction strategy exists for the file's extension.
    UnsupportedFileType,
    /// The remote model could not be reached, refused, or answered without text.
    RemoteExtractionFailed,
}

/// What the scan does with one directory entry.
#[derive(Clone, Copy, Debug, PartialEq, Eq, Structural)]
pub enum EntryPlan {
    /// Not a regular file, or a name without extension: passed over in silence.
    Ignore,
    /// A file of an unsupported type: reported and passed over.
    SkipUnsupported,
    /// Extract the text of the file with the given strategy.
    Extract(FileType),
}

/// The plan for an entry, from its name and whether it is a regular file.
pub open spec fn entry_plan(name: Seq<char>, is_file: bool) -> EntryPlan {
    if !is_file {
        EntryPlan::Ignore
    } else {
        match extension(name) {
            None => EntryPlan::Ignore,
            Some(ext) => match strategy_for(lowercase(ext)) {
                None => EntryPlan::SkipUnsupported,
                Some(kind) => EntryPlan::Extract(kind),
            },
        }
    }
}

/// Decides what to do with one directory entry.
pub fn plan_entry(name: &str, is_file: bool) -> (plan: EntryPlan)
    ensures
        plan == entry_plan(name@, is_file),
{
    if !is_file {
        return EntryPlan::Ignore;
    }
    match extension_of(name) {
        None => EntryPlan::Ignore,
        Some(ext) => match classify_file(ext) {
            None => EntryPlan::SkipUnsupported,
            Some(kind) => EntryPlan::Extract(kind),
        },
    }
}

/// The results after one more outcome: a success is appended under the
/// file's name, a failure leaves the list as it was.
pub open spec fn after_outcome(
    results: Seq<(Seq<char>, Seq<char>)>,
    name: Seq<char>,
    outcome: Result<String, ExtractionError>,
) -> Seq<(Seq<char>, Seq<char>)> {
    match outcome {
        Ok(content) => results.push((name, content@)),
        Err(_) => results,
    }
}

/// The names and contents of a list of processed files.
pub open spec fn listing(files: Seq<ProcessedFile>) -> Seq<(Seq<char>, Seq<char>)> {
    files.map_values(|f: ProcessedFile| (f.name@, f.content@))
}

/// A scan in progress: the successes so far, in the order they came.
pub struct Scan {
    results: Vec<ProcessedFile>,
}

impl Scan {
    /// The names and contents gathered so far.
    pub closed spec fn gathered(&self) -> Seq<(Seq<char>, Seq<char>)> {
        listing(self.results@)
    }

    /// Starts a scan, which fails at once where the directory is missing.
    pub fn begin(directory_exists: bool) -> (started: Result<Scan, ScanError>)
        ensures
            directory_exists ==> started is Ok && started.unwrap().gathered() == Seq::<
                (Seq<char>, Seq<char>),
            >::empty(),
            !directory_exists ==> started == Err::<Scan, ScanError>(ScanError::DirectoryNotFound),
    {
        if directory_exists {
            let scan = Scan { results: Vec::new() };
            assert(scan.gathered() =~= Seq::<(Seq<char>, Seq<char>)>::empty());
            Ok(scan)
        } else {
            Err(ScanError::DirectoryNotFound)
        }
    }

    /// Takes note of how the extraction of one file ended.
    pub fn record(&mut self, name: String, outcome: Result<String, ExtractionError>)
        ensures
            final(self).gathered() == after_outcome(old(self).gathered(), name@, outcome),
    {
        match outcome {
            Ok(content) => {
                let ghost entry = (name@, content@);
                self.results.push(ProcessedFile { name, content });
                assert(self.gathered() =~= old(self).gathered().push(entry));
            },
            Err(_) => {},
        }
    }

    /// How many files have yielded text so far.
    pub fn len(&self) -> (n: usize)
        ensures
            n == self.gathered().len(),
    {
        self.results.len()
    }

    /// Ends the scan and hands out the successes, in order.
    pub fn finish(self) -> (files: Vec<ProcessedFile>)
        ensures
            listing(files@) == self.gathered(),
            files@.len() == self.gathered().len(),
            forall|i: int|
                0 <= i < files@.len() ==> (#[trigger] files@[i]).name@ == self.gathered()[i].0
                    && files@[i].content@ == self.gathered()[i].1,
    {
        self.results
    }
}

/// A failed extraction removes only its own file: whatever was gathered
/// before stays, in place and in order, and later outcomes are recorded
/// as if the failure had not happened.
pub proof fn lemma_failure_is_isolated(
    results: Seq<(Seq<char>, Seq<char>)>,
    failed: Seq<char>,
    error: ExtractionError,
    next: Seq<char>,
    outcome: Result<String, ExtractionError>,
)
    ensures
        after_outcome(results, failed, Err(error)) == results,
        after_outcome(after_outcome(results, failed, Err(error)), next, outcome) == after_outcome(
            results,
            next,
            outcome,
        ),
{
}

/// Results keep the order of the outcomes: what was gathered earlier is a
/// prefix of what is gathered later.
pub proof fn lemma_results_keep_order(
    results: Seq<(Seq<char>, Seq<char>)>,
    name: Seq<char>,
    outcome: Result<String, ExtractionError>,
)
    ensures
        results.len() <= after_outcome(results, name, outcome).len() <= results.len() + 1,
        after_outcome(results, name, outcome).subrange(0, results.len() as int) == results,
{
    assert(after_outcome(results, name, outcome).subrange(0, results.len() as int) =~= results);
}

/// Calls `String::from_utf8` and drops the error's detail. As std documents
/// it, the conversion succeeds exactly on valid UTF-8, and the string then
/// consists of the very bytes that were given.
#[verifier::external_body]
fn string_from_utf8(bytes: Vec<u8>) -> (text: Option<String>)
    ensures
        text is Some <==> valid_utf8(bytes@),
        text is Some ==> encode_utf8(text.unwrap()@) == bytes@,
{
    String::from_utf8(bytes).ok()
}

/// The text of a text file, from its bytes: the file is skipped as
/// unreadable unless it is valid UTF-8 as a whole.
pub fn text_from_bytes(bytes: Vec<u8>) -> (outcome: Result<String, ExtractionError>)
    ensures
        valid_utf8(bytes@) ==> outcome is Ok && encode_utf8(outcome.unwrap()@) == bytes@,
        !valid_utf8(bytes@) ==> outcome == Err::<String, ExtractionError>(
            ExtractionError::FileUnreadable,
        ),
{
    match string_from_utf8(bytes) {
        Some(text) => Ok(text),
        None => Err(ExtractionError::FileUnreadable),
    }
}

/// The outcome of a remote extraction: the model's text, or one kind of
/// failure whatever its cause.
pub fn extraction_outcome(reply: Result<String, RemoteError>) -> (outcome: Result<
    String,
    ExtractionError,
>)
    ensures
        match reply {
            Ok(text) => outcome == Ok::<String, ExtractionError>(text),
            Err(_) => outcome == Err::<String, ExtractionError>(
                ExtractionError::RemoteExtractionFailed,
            ),
        },
{
    match reply {
        Ok(text) => Ok(text),
        Err(_) => Err(ExtractionError::RemoteExtractionFailed),
    }
}

} // verus!
