//! The writer facade: what installing, staging and removing a bundle ask of
//! the file system, and what the answer of the decompression worker amounts
//! to.
//!
//! A bundle is unpacked by a worker of the caller's, apart from whatever
//! reads resolver output at the time. The library says what the worker is to
//! do, as a [`DecompressionJob`], and the caller reports how the worker ended,
//! as a [`WorkerSignal`]: once for each job, and also when the worker ended
//! without a word.

use crate::error::{CliError, Failure};
use crate::location::Location;
use vstd::prelude::*;

verus! {

/// The number of leading path components that are cut off every entry of a
/// bundle when it is installed: the one directory that wraps a bundle.
pub const STRIP_DEPTH: usize = 1;

/// The content of a [`DecompressionJob`].
pub struct JobModel {
    pub id: Seq<char>,
    pub archive: Seq<char>,
    pub destination: Seq<Seq<char>>,
    pub strip_depth: nat,
}

/// One archive to unpack: where it lies, the directory to unpack it into, how
/// many leading path components to cut off each of its entries, and the
/// package that it is unpacked for, which serves to report a failure.
#[derive(Debug, PartialEq, Eq)]
pub struct DecompressionJob {
    pub id: String,
    pub archive: String,
    pub destination: Location,
    pub strip_depth: usize,
}

impl View for DecompressionJob {
    type V = JobModel;

    open spec fn view(&self) -> JobModel {
        JobModel {
            id: self.id@,
            archive: self.archive@,
            destination: self.destination@,
            strip_depth: self.strip_depth as nat,
        }
    }
}

/// How the worker on a job ended.
#[derive(Debug, PartialEq, Eq)]
pub enum WorkerSignal {
    /// The archive was unpacked.
    Extracted,
    /// The archive could not be unpacked, for this reason.
    Failed(String),
    /// The worker ended before it reported anything.
    Aborted,
}

/// The content of a [`WorkerSignal`].
pub enum SignalModel {
    Extracted,
    Failed(Seq<char>),
    Aborted,
}

impl View for WorkerSignal {
    type V = SignalModel;

    open spec fn view(&self) -> SignalModel {
        match self {
            WorkerSignal::Extracted => SignalModel::Extracted,
            WorkerSignal::Failed(cause) => SignalModel::Failed(cause@),
            WorkerSignal::Aborted => SignalModel::Aborted,
        }
    }
}

impl JobModel {
    /// What this job amounts to, given how its worker ended: success when the
    /// archive was unpacked; a decompression error with the package and the
    /// reason when it could not be; and an error of another kind when the
    /// worker ended without reporting.
    pub open spec fn outcome(self, signal: SignalModel) -> Result<(), Failure> {
        match signal {
            SignalModel::Extracted => Ok(()),
            SignalModel::Failed(cause) => Err(
                Failure::DecompressError { id: self.id, message: cause },
            ),
            SignalModel::Aborted => Err(Failure::WorkerAborted { id: self.id }),
        }
    }
}

impl DecompressionJob {
    /// Ends the job with the one signal of its worker.
    pub fn finish(self, signal: WorkerSignal) -> (result: Result<(), CliError>)
        ensures
            match result {
                Ok(_) => self@.outcome(signal@) == Ok::<(), Failure>(()),
                Err(error) => self@.outcome(signal@) == Err::<(), Failure>(error@),
            },
    {
        match signal {
            WorkerSignal::Extracted => Ok(()),
            WorkerSignal::Failed(cause) => Err(
                CliError::DecompressError { id: self.id, message: cause },
            ),
            WorkerSignal::Aborted => Err(CliError::WorkerAborted { id: self.id }),
        }
    }
}

/// A worker that ended without reporting never passes for one that failed to
/// unpack, nor for one that succeeded: each job, whatever its package, gives
/// an error then, and one that no failed unpacking gives.
pub proof fn abort_is_told_from_failure(job: JobModel, other: JobModel, cause: Seq<char>)
    ensures
        job.outcome(SignalModel::Aborted) is Err,
        job.outcome(SignalModel::Aborted) != other.outcome(SignalModel::Failed(cause)),
        job.outcome(SignalModel::Aborted) != other.outcome(SignalModel::Extracted),
{
}

/// The content of a [`Staging`].
pub struct StagingModel {
    pub key: Seq<char>,
    pub archive: Seq<char>,
}

/// One bundle to put into the holding area, and the key to keep it under.
#[derive(Debug, PartialEq, Eq)]
pub struct Staging {
    pub key: String,
    pub archive: String,
}

impl View for Staging {
    type V = StagingModel;

    open spec fn view(&self) -> StagingModel {
        StagingModel { key: self.key@, archive: self.archive@ }
    }
}

impl StagingModel {
    /// The holding area after this staging: under the key lies this bundle,
    /// and whatever lay there before is replaced.
    pub open spec fn staged(self, held: Map<Seq<char>, Seq<char>>) -> Map<Seq<char>, Seq<char>> {
        held.insert(self.key, self.archive)
    }
}

/// Staging a bundle again, under the same key, leaves the holding area as the
/// first staging left it.
pub proof fn staging_twice_is_staging_once(staging: StagingModel, held: Map<Seq<char>, Seq<char>>)
    ensures
        staging.staged(staging.staged(held)) == staging.staged(held),
        staging.staged(held).dom().contains(staging.key),
        staging.staged(held)[staging.key] == staging.archive,
{
}

/// What removing a package asks of the file system.
#[derive(Debug, PartialEq, Eq)]
pub enum Removal {
    /// Delete this directory and all that is in it.
    Delete(Location),
    /// Nothing: the package is not installed.
    Nothing,
}

/// The content of a [`Removal`].
pub enum RemovalModel {
    Delete(Seq<Seq<char>>),
    Nothing,
}

impl View for Removal {
    type V = RemovalModel;

    open spec fn view(&self) -> RemovalModel {
        match self {
            Removal::Delete(directory) => RemovalModel::Delete(directory@),
            Removal::Nothing => RemovalModel::Nothing,
        }
    }
}

impl RemovalModel {
    /// What removing the package `id` below `root` asks for: to delete its
    /// directory if it is installed, and nothing if it is not.
    pub open spec fn of(root: Seq<Seq<char>>, id: Seq<char>, installed: bool) -> RemovalModel {
        if installed {
            RemovalModel::Delete(package_dir(root, id))
        } else {
            RemovalModel::Nothing
        }
    }

    /// The directories that exist after this removal, of those that existed
    /// before.
    pub open spec fn remaining(self, directories: Set<Seq<Seq<char>>>) -> Set<Seq<Seq<char>>> {
        match self {
            RemovalModel::Delete(directory) => directories.remove(directory),
            RemovalModel::Nothing => directories,
        }
    }
}

/// The directory of the package `id` below the install root `root`.
pub open spec fn package_dir(root: Seq<Seq<char>>, id: Seq<char>) -> Seq<Seq<char>> {
    root.push(id)
}

/// Removing a package leaves it not installed, whether it was installed or
/// not; removing one that is not installed asks for nothing and changes
/// nothing; so removing twice in a row ends where removing once ends.
pub proof fn removing_twice_is_removing_once(
    root: Seq<Seq<char>>,
    id: Seq<char>,
    directories: Set<Seq<Seq<char>>>,
)
    ensures
        ({
            let directory = package_dir(root, id);
            let first = RemovalModel::of(root, id, directories.contains(directory));
            let after_first = first.remaining(directories);
            let second = RemovalModel::of(root, id, after_first.contains(directory));
            &&& !after_first.contains(directory)
            &&& second == RemovalModel::Nothing
            &&& second.remaining(after_first) == after_first
            &&& !directories.contains(directory) ==> first == RemovalModel::Nothing && after_first
                == directories
        }),
{
}

/// The part of the front end that changes what is installed, by the install
/// root it works below.
pub struct Writer {
    dir: Location,
}

impl Writer {
    /// The install root of this writer.
    pub closed spec fn root(&self) -> Seq<Seq<char>> {
        self.dir@
    }

    /// A writer that installs below `dir`.
    pub fn new(dir: Location) -> (writer: Writer)
        ensures
            writer.root() == dir@,
    {
        Writer { dir }
    }

    /// The directory of the package `id`, installed or not: the one named
    /// `id` in the install root.
    pub fn package_dir(&self, id: String) -> (directory: Location)
        ensures
            directory@ == package_dir(self.root(), id@),
    {
        self.dir.child(id)
    }

    /// The job of unpacking the archive at `from` into the directory `to`,
    /// for the package `id`, with the wrapping directory of the bundle cut
    /// off.
    pub fn decompress(&self, id: String, from: String, to: Location) -> (job: DecompressionJob)
        ensures
            job@ == (JobModel {
                id: id@,
                archive: from@,
                destination: to@,
                strip_depth: STRIP_DEPTH as nat,
            }),
    {
        DecompressionJob { id, archive: from, destination: to, strip_depth: STRIP_DEPTH }
    }

    /// The job that installs the bundle at `bundle_path` as the package `id`:
    /// the bundle is unpacked into the directory of the package below the
    /// install root, without its wrapping directory.
    pub fn add_bundle(&self, id: String, bundle_path: String) -> (job: DecompressionJob)
        ensures
            job@ == (JobModel {
                id: id@,
                archive: bundle_path@,
                destination: package_dir(self.root(), id@),
                strip_depth: STRIP_DEPTH as nat,
            }),
    {
        let destination = self.package_dir(id.clone());
        self.decompress(id, bundle_path, destination)
    }

    /// The staging of the bundle at `bundle_path` for the package `id`: the
    /// bundle goes into the holding area under the key `id`.
    pub fn stash_bundle(&self, id: String, bundle_path: String) -> (staging: Staging)
        ensures
            staging@ == (StagingModel { key: id@, archive: bundle_path@ }),
    {
        Staging { key: id, archive: bundle_path }
    }

    /// What removing the package `id` asks for, given whether its directory
    /// exists: to delete that directory, or nothing. Either way the removal
    /// succeeds.
    pub fn remove(&self, id: String, installed: bool) -> (removal: Removal)
        ensures
            removal@ == RemovalModel::of(self.root(), id@, installed),
    {
        if installed {
            Removal::Delete(self.package_dir(id))
        } else {
            Removal::Nothing
        }
    }
}

} // verus!
