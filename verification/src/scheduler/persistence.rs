//! Job persistence: where the file of a job lies, which files of a
//! directory are job files, what a file that was read means, and the cache
//! of loaded jobs.
//!
//! The files themselves are read and written outside this module, which
//! takes what was found as plain values.

use vstd::prelude::*;
use vstd::string::*;
use crate::scheduler::job::{Job, JobId, JobView};
use crate::scheduler::search::{first_index, lemma_first_index, lemma_first_index_is};
use crate::scheduler::text::{same_text, texts};

verus! {

/// Errors that can occur in the persistence layer, each with its message.
#[derive(Debug, PartialEq, Eq)]
pub enum PersistenceError {
    IoError(String),
    SerializationError(String),
    JobNotFound(String),
    InvalidJobData(String),
    StorageDirectoryError(String),
}

/// A persistence error over sequences of characters.
pub enum PersistenceErrorView {
    IoError(Seq<char>),
    SerializationError(Seq<char>),
    JobNotFound(Seq<char>),
    InvalidJobData(Seq<char>),
    StorageDirectoryError(Seq<char>),
}

impl PersistenceErrorView {
    /// The error as one line of text.
    pub open spec fn text(self) -> Seq<char> {
        match self {
            PersistenceErrorView::IoError(m) => "IO error: "@ + m,
            PersistenceErrorView::SerializationError(m) => "Serialization error: "@ + m,
            PersistenceErrorView::JobNotFound(m) => "Job not found: "@ + m,
            PersistenceErrorView::InvalidJobData(m) => "Invalid job data: "@ + m,
            PersistenceErrorView::StorageDirectoryError(m) => "Storage directory error: "@ + m,
        }
    }
}

impl View for PersistenceError {
    type V = PersistenceErrorView;

    open spec fn view(&self) -> PersistenceErrorView {
        match *self {
            PersistenceError::IoError(m) => PersistenceErrorView::IoError(m@),
            PersistenceError::SerializationError(m) => PersistenceErrorView::SerializationError(m@),
            PersistenceError::JobNotFound(m) => PersistenceErrorView::JobNotFound(m@),
            PersistenceError::InvalidJobData(m) => PersistenceErrorView::InvalidJobData(m@),
            PersistenceError::StorageDirectoryError(m) => PersistenceErrorView::StorageDirectoryError(
                m@,
            ),
        }
    }
}

impl PersistenceError {
    /// The error as one line of text.
    pub fn describe(&self) -> (line: String)
        ensures
            line@ == self@.text(),
    {
        match self {
            PersistenceError::IoError(m) => String::from_str("IO error: ").concat(m.as_str()),
            PersistenceError::SerializationError(m) => String::from_str(
                "Serialization error: ",
            ).concat(m.as_str()),
            PersistenceError::JobNotFound(m) => String::from_str("Job not found: ").concat(
                m.as_str(),
            ),
            PersistenceError::InvalidJobData(m) => String::from_str("Invalid job data: ").concat(
                m.as_str(),
            ),
            PersistenceError::StorageDirectoryError(m) => String::from_str(
                "Storage directory error: ",
            ).concat(m.as_str()),
        }
    }
}

/// Statistics about job storage.
#[derive(Debug, Clone, Copy, PartialEq, Eq, Structural)]
pub struct StorageStats {
    pub total_files: usize,
    pub total_size: u64,
}

impl Default for StorageStats {
    fn default() -> (r: Self)
        ensures
            r == (StorageStats { total_files: 0, total_size: 0 }),
    {
        StorageStats { total_files: 0, total_size: 0 }
    }
}

/// What was found when the file of a job was read.
#[derive(Debug, PartialEq, Eq)]
pub enum FileRead {
    /// There is no such file.
    Missing,
    /// The file could not be read; the message is that of the system.
    Unreadable(String),
    /// The file does not hold a job; the message is that of the decoder.
    Undecodable(String),
    /// The job that the file holds.
    Decoded(Job),
}

/// A file that was read, over sequences of characters.
pub enum FileReadView {
    Missing,
    Unreadable(Seq<char>),
    Undecodable(Seq<char>),
    Decoded(JobView),
}

impl View for FileRead {
    type V = FileReadView;

    open spec fn view(&self) -> FileReadView {
        match *self {
            FileRead::Missing => FileReadView::Missing,
            FileRead::Unreadable(m) => FileReadView::Unreadable(m@),
            FileRead::Undecodable(m) => FileReadView::Undecodable(m@),
            FileRead::Decoded(job) => FileReadView::Decoded(job@),
        }
    }
}

/// The views of a list of files that were read.
pub open spec fn read_views(reads: Seq<FileRead>) -> Seq<FileReadView> {
    reads.map_values(|r: FileRead| r@)
}

/// The views of a list of jobs.
pub open spec fn job_views(jobs: Seq<Job>) -> Seq<JobView> {
    jobs.map_values(|j: Job| j@)
}

/// Where the file of a job lies, and how it is written: the content goes to
/// the temporary file first, which then takes the place of the file.
#[derive(Debug, PartialEq, Eq)]
pub struct JobFilePath {
    pub directory: String,
    pub file_name: String,
    pub temporary_name: String,
}

/// The name of the file of the job `id`.
pub open spec fn file_name_of(id: Seq<char>) -> Seq<char> {
    id + ".json"@
}

/// The name of the file to which the job `id` is written before the file
/// takes the place of the old one.
pub open spec fn temporary_name_of(id: Seq<char>) -> Seq<char> {
    id + ".json.tmp"@
}

/// Whether a file of the name `name` is a job file: it has the extension
/// `json` behind a name that is not empty.
pub open spec fn is_job_file_name(name: Seq<char>) -> bool {
    name.len() >= 6 && name.subrange(name.len() - 5, name.len() as int) == ".json"@
}

/// The data of a job is valid where the file holds a job whose identifier,
/// name and command are not empty.
pub open spec fn is_valid_record(read: FileReadView) -> bool {
    read matches FileReadView::Decoded(job) && job.id.len() > 0 && job.name.len() > 0
        && job.command.len() > 0
}

/// The jobs that a list of files holds: those of the files that hold a job,
/// in the order of the list.
pub open spec fn decoded_jobs(reads: Seq<FileReadView>) -> Seq<JobView>
    decreases reads.len(),
{
    if reads.len() == 0 {
        Seq::empty()
    } else {
        match reads.last() {
            FileReadView::Decoded(job) => decoded_jobs(reads.drop_last()).push(job),
            _ => decoded_jobs(reads.drop_last()),
        }
    }
}

/// The names of `names` that are names of job files, in their order.
pub open spec fn job_file_names(names: Seq<Seq<char>>) -> Seq<Seq<char>> {
    names.filter(|n: Seq<char>| is_job_file_name(n))
}

/// The statistics over the files of a directory, each given by its name and
/// by its size where the size could be read: the number of job files, and
/// the sum of their sizes, which does not pass the largest size.
pub open spec fn storage_stats_of(files: Seq<(Seq<char>, Option<u64>)>) -> StorageStats
    decreases files.len(),
{
    if files.len() == 0 {
        StorageStats { total_files: 0, total_size: 0 }
    } else {
        let rest = storage_stats_of(files.drop_last());
        let file = files.last();
        if is_job_file_name(file.0) {
            StorageStats {
                total_files: if rest.total_files < usize::MAX {
                    (rest.total_files + 1) as usize
                } else {
                    rest.total_files
                },
                total_size: match file.1 {
                    Some(size) => if rest.total_size + size <= u64::MAX {
                        (rest.total_size + size) as u64
                    } else {
                        u64::MAX
                    },
                    None => rest.total_size,
                },
            }
        } else {
            rest
        }
    }
}

/// The views of a list of files with their sizes.
pub open spec fn file_views(files: Seq<(String, Option<u64>)>) -> Seq<(Seq<char>, Option<u64>)> {
    files.map_values(|f: (String, Option<u64>)| (f.0@, f.1))
}

/// The property of being the job `id`.
pub open spec fn is_job(id: Seq<char>) -> spec_fn(JobView) -> bool {
    |j: JobView| j.id == id
}

/// The place of the job `id` in `cache`, or the length of `cache` where it
/// holds no such job.
pub open spec fn cached_at(cache: Seq<JobView>, id: Seq<char>) -> int {
    first_index(cache, is_job(id))
}

/// Whether `cache` holds the job `id`.
pub open spec fn is_cached(cache: Seq<JobView>, id: Seq<char>) -> bool {
    cached_at(cache, id) < cache.len()
}

/// No two jobs of `cache` have the same identifier.
pub open spec fn one_job_each(cache: Seq<JobView>) -> bool {
    forall|i: int, j: int|
        0 <= i < cache.len() && 0 <= j < cache.len() && i != j ==> (#[trigger] cache[i]).id != (
        #[trigger] cache[j]).id
}

/// `cache` with `job` in it: in the place of the job of the same identifier
/// where there is one, else last.
pub open spec fn with_cached(cache: Seq<JobView>, job: JobView) -> Seq<JobView> {
    if is_cached(cache, job.id) {
        cache.update(cached_at(cache, job.id), job)
    } else {
        cache.push(job)
    }
}

/// `cache` without the job `id`; `cache` itself where it holds no such job.
pub open spec fn without_cached(cache: Seq<JobView>, id: Seq<char>) -> Seq<JobView> {
    if is_cached(cache, id) {
        cache.remove(cached_at(cache, id))
    } else {
        cache
    }
}

/// The cache that holds the jobs of `jobs`, each put in after the other.
pub open spec fn cache_of(jobs: Seq<JobView>) -> Seq<JobView>
    decreases jobs.len(),
{
    if jobs.len() == 0 {
        Seq::empty()
    } else {
        with_cached(cache_of(jobs.drop_last()), jobs.last())
    }
}

/// A job that was put into the cache is found there as it was put in, and
/// the cache keeps one job for each identifier.
pub proof fn lemma_with_cached(cache: Seq<JobView>, job: JobView)
    requires
        one_job_each(cache),
    ensures
        one_job_each(with_cached(cache, job)),
        is_cached(with_cached(cache, job), job.id),
        with_cached(cache, job)[cached_at(with_cached(cache, job), job.id)] == job,
{
    let id = job.id;
    lemma_first_index(cache, is_job(id));
    let r = with_cached(cache, job);
    let k = cached_at(cache, id);
    if is_cached(cache, id) {
        lemma_first_index_is(r, is_job(id), k);
    } else {
        lemma_first_index_is(r, is_job(id), cache.len() as int);
    }
}

/// A list of jobs with one job for each identifier is its own cache: what
/// was stored is what a load into the cache finds, job for job.
pub proof fn lemma_cache_of_distinct(jobs: Seq<JobView>)
    requires
        one_job_each(jobs),
    ensures
        cache_of(jobs) == jobs,
    decreases jobs.len(),
{
    if jobs.len() == 0 {
    } else {
        let front = jobs.drop_last();
        let last = jobs.last();
        lemma_cache_of_distinct(front);
        lemma_first_index_is(front, is_job(last.id), front.len() as int);
    }
}

/// Whether a file of the name `name` is a job file.
pub fn is_job_file(name: &str) -> (r: bool)
    ensures
        r == is_job_file_name(name@),
{
    let n = name.unicode_len();
    if n < 6 {
        return false;
    }
    same_text(name.substring_char(n - 5, n), ".json")
}

/// The names of job files among the names of the files of a directory, in
/// their order.
pub fn job_files(names: &Vec<String>) -> (out: Vec<String>)
    ensures
        texts(out@) == job_file_names(texts(names@)),
{
    let mut out: Vec<String> = Vec::new();
    let mut i: usize = 0;
    let ghost all = texts(names@);
    let ghost wanted = |n: Seq<char>| is_job_file_name(n);
    while i < names.len()
        invariant
            i <= names.len(),
            all == texts(names@),
            wanted == (|n: Seq<char>| is_job_file_name(n)),
            texts(out@) == all.subrange(0, i as int).filter(wanted),
        decreases names.len() - i,
    {
        proof {
            let longer = all.subrange(0, i + 1);
            assert(longer.drop_last() =~= all.subrange(0, i as int));
            reveal(Seq::filter);
        }
        if is_job_file(names[i].as_str()) {
            let name = names[i].clone();
            out.push(name);
        }
        i = i + 1;
    }
    assert(all.subrange(0, i as int) =~= all);
    out
}

/// Job persistence manager: the directory of the job files, and a cache of
/// loaded jobs with one job for each identifier.
pub struct JobPersistence {
    storage_dir: String,
    job_cache: Vec<Job>,
}

impl View for JobPersistence {
    type V = Seq<JobView>;

    /// The cache.
    closed spec fn view(&self) -> Seq<JobView> {
        self.job_cache@.map_values(|j: Job| j@)
    }
}

impl JobPersistence {
    #[verifier::type_invariant]
    spec fn inv(self) -> bool {
        one_job_each(self@)
    }

    /// The directory of the job files.
    pub closed spec fn directory(&self) -> Seq<char> {
        self.storage_dir@
    }

    /// Creates a persistence manager over the directory `storage_dir`, with
    /// an empty cache.
    pub fn new(storage_dir: String) -> (persistence: JobPersistence)
        ensures
            persistence@ == Seq::<JobView>::empty(),
            persistence.directory() == storage_dir@,
    {
        JobPersistence { storage_dir, job_cache: Vec::new() }
    }

    /// The cache holds one job for each identifier at all times.
    pub fn check(&self)
        ensures
            one_job_each(self@),
    {
        proof {
            use_type_invariant(self);
        }
    }

    /// The directories that lead to the job files, from the local data
    /// directory of the user down. Without a local data directory there is
    /// no storage directory.
    pub fn get_storage_dir(data_local_dir: Option<String>) -> (r: Result<Vec<String>, PersistenceError>)
        ensures
            match data_local_dir {
                Some(base) => r matches Ok(parts) && texts(parts@) == seq![
                    base@,
                    "rae"@,
                    "scheduler"@,
                    "jobs"@,
                ],
                None => r matches Err(e) && e@ == PersistenceErrorView::StorageDirectoryError(
                    "Could not determine local data directory"@,
                ),
            },
    {
        match data_local_dir {
            Some(base) => {
                let mut parts: Vec<String> = Vec::new();
                parts.push(base);
                parts.push(String::from_str("rae"));
                parts.push(String::from_str("scheduler"));
                parts.push(String::from_str("jobs"));
                Ok(parts)
            },
            None => Err(
                PersistenceError::StorageDirectoryError(
                    String::from_str("Could not determine local data directory"),
                ),
            ),
        }
    }

    /// Where the file of a job lies: in the storage directory, under the
    /// identifier of the job with the extension `json`.
    pub fn get_job_file_path(&self, job_id: &JobId) -> (path: JobFilePath)
        ensures
            path.directory@ == self.directory(),
            path.file_name@ == file_name_of(job_id@),
            path.temporary_name@ == temporary_name_of(job_id@),
            is_job_file_name(path.file_name@) <==> job_id@.len() > 0,
    {
        let file_name = job_id.clone().concat(".json");
        proof {
            reveal_strlit(".json");
            if job_id@.len() > 0 {
                assert(file_name@.subrange(file_name@.len() - 5, file_name@.len() as int) =~= ".json"@);
            }
        }
        JobFilePath {
            directory: self.storage_dir.clone(),
            file_name,
            temporary_name: job_id.clone().concat(".json.tmp"),
        }
    }

    /// Where a job is saved: the file of its identifier.
    pub fn save_job(&self, job: &Job) -> (path: JobFilePath)
        ensures
            path.directory@ == self.directory(),
            path.file_name@ == file_name_of(job@.id),
            path.temporary_name@ == temporary_name_of(job@.id),
    {
        self.get_job_file_path(&job.id)
    }

    /// What loading a job comes to, given what was found of its file: the
    /// job that the file holds, or the error that says why there is none.
    pub fn load_job(&self, job_id: &JobId, found: FileRead) -> (r: Result<Job, PersistenceError>)
        ensures
            match found@ {
                FileReadView::Decoded(job) => r matches Ok(loaded) && loaded@ == job,
                FileReadView::Missing => r matches Err(e) && e@ == PersistenceErrorView::JobNotFound(
                    job_id@,
                ),
                FileReadView::Unreadable(m) => r matches Err(e) && e@
                    == PersistenceErrorView::IoError(m),
                FileReadView::Undecodable(m) => r matches Err(e) && e@
                    == PersistenceErrorView::SerializationError(m),
            },
    {
        match found {
            FileRead::Decoded(job) => Ok(job),
            FileRead::Missing => Err(PersistenceError::JobNotFound(job_id.clone())),
            FileRead::Unreadable(m) => Err(PersistenceError::IoError(m)),
            FileRead::Undecodable(m) => Err(PersistenceError::SerializationError(m)),
        }
    }

    /// The file to remove when a job is deleted. That the file is missing is
    /// no error.
    pub fn delete_job(&self, job_id: &JobId) -> (path: JobFilePath)
        ensures
            path.directory@ == self.directory(),
            path.file_name@ == file_name_of(job_id@),
            path.temporary_name@ == temporary_name_of(job_id@),
    {
        self.get_job_file_path(job_id)
    }

    /// The jobs of the storage directory, given what was found of its job
    /// files: the jobs of the files that hold one. Files that could not be
    /// read or decoded are passed over. The cache is not looked at.
    pub fn list_jobs(&self, reads: Vec<FileRead>) -> (jobs: Vec<Job>)
        ensures
            job_views(jobs@) == decoded_jobs(read_views(reads@)),
    {
        let ghost all = read_views(reads@);
        let mut reads = reads;
        let mut jobs: Vec<Job> = Vec::new();
        let ghost total = reads@.len();
        let mut taken: Vec<FileRead> = Vec::new();
        // The files are taken from the end, so the jobs come out in reverse.
        while reads.len() > 0
            invariant
                reads@.len() + taken@.len() == total,
                total == all.len(),
                forall|j: int| 0 <= j < reads@.len() ==> (#[trigger] reads@[j])@ == all[j],
                forall|j: int|
                    0 <= j < taken@.len() ==> (#[trigger] taken@[j])@ == all[total - 1 - j],
            decreases reads.len(),
        {
            let read = reads.pop().unwrap();
            taken.push(read);
        }
        let mut i: usize = taken.len();
        while i > 0
            invariant
                i <= taken@.len(),
                i == taken@.len(),
                taken@.len() <= total,
                total == all.len(),
                forall|j: int|
                    0 <= j < taken@.len() ==> (#[trigger] taken@[j])@ == all[total - 1 - j],
                job_views(jobs@) == decoded_jobs(all.subrange(0, total - i)),
            decreases i,
        {
            let read = taken.pop().unwrap();
            proof {
                let longer = all.subrange(0, total - i + 1);
                assert(longer.drop_last() =~= all.subrange(0, total - i));
            }
            match read {
                FileRead::Decoded(job) => {
                    jobs.push(job);
                },
                _ => {},
            }
            i = i - 1;
        }
        assert(all.subrange(0, total as int) =~= all);
        jobs
    }

    /// Loads the jobs of the storage directory into the cache, in place of
    /// what the cache held. Of two jobs with one identifier the later one
    /// stays.
    pub fn load_all_jobs(&mut self, jobs: Vec<Job>)
        ensures
            final(self)@ == cache_of(job_views(jobs@)),
            final(self).directory() == old(self).directory(),
    {
        self.clear_cache();
        let ghost all = job_views(jobs@);
        let mut jobs = jobs;
        let ghost total = jobs@.len();
        let mut taken: Vec<Job> = Vec::new();
        while jobs.len() > 0
            invariant
                jobs@.len() + taken@.len() == total,
                total == all.len(),
                forall|j: int| 0 <= j < jobs@.len() ==> (#[trigger] jobs@[j])@ == all[j],
                forall|j: int|
                    0 <= j < taken@.len() ==> (#[trigger] taken@[j])@ == all[total - 1 - j],
                self@ == Seq::<JobView>::empty(),
                self.directory() == old(self).directory(),
            decreases jobs.len(),
        {
            let job = jobs.pop().unwrap();
            taken.push(job);
        }
        let mut i: usize = taken.len();
        while i > 0
            invariant
                i == taken@.len(),
                taken@.len() <= total,
                total == all.len(),
                forall|j: int|
                    0 <= j < taken@.len() ==> (#[trigger] taken@[j])@ == all[total - 1 - j],
                self@ == cache_of(all.subrange(0, total - i)),
                self.directory() == old(self).directory(),
            decreases i,
        {
            let job = taken.pop().unwrap();
            proof {
                let longer = all.subrange(0, total - i + 1);
                assert(longer.drop_last() =~= all.subrange(0, total - i));
            }
            self.update_cached_job(job);
            i = i - 1;
        }
        assert(all.subrange(0, total as int) =~= all);
    }

    /// The place of the job `job_id` in the cache, or the number of cached
    /// jobs where the cache holds no such job.
    fn find(&self, job_id: &JobId) -> (i: usize)
        ensures
            i == cached_at(self@, job_id@),
            i <= self@.len(),
            self@.len() == self.job_cache@.len(),
    {
        let mut i: usize = 0;
        while i < self.job_cache.len() && !(self.job_cache[i].id == *job_id)
            invariant
                i <= self.job_cache.len(),
                self@.len() == self.job_cache@.len(),
                forall|j: int| 0 <= j < i ==> !is_job(job_id@)(#[trigger] self@[j]),
            decreases self.job_cache.len() - i,
        {
            i = i + 1;
        }
        proof {
            lemma_first_index_is(self@, is_job(job_id@), i as int);
        }
        i
    }

    /// The job `job_id` of the cache, where the cache holds it.
    pub fn get_cached_job(&self, job_id: &JobId) -> (r: Option<&Job>)
        ensures
            r is Some <==> is_cached(self@, job_id@),
            r matches Some(job) ==> job@ == self@[cached_at(self@, job_id@)],
    {
        let at = self.find(job_id);
        if at < self.job_cache.len() {
            Some(&self.job_cache[at])
        } else {
            None
        }
    }

    /// Puts a job into the cache, in the place of the job of the same
    /// identifier where the cache holds one.
    pub fn update_cached_job(&mut self, job: Job)
        ensures
            final(self)@ == with_cached(old(self)@, job@),
            final(self).directory() == old(self).directory(),
    {
        proof {
            use_type_invariant(&*self);
            lemma_with_cached(self@, job@);
        }
        let at = self.find(&job.id);
        let ghost before = self@;
        let mut cache: Vec<Job> = Vec::new();
        std::mem::swap(&mut cache, &mut self.job_cache);
        if at < cache.len() {
            proof {
                assert(cache@.update(at as int, job).map_values(|j: Job| j@) =~= before.update(
                    at as int,
                    job@,
                ));
            }
            cache.set(at, job);
        } else {
            proof {
                assert(cache@.push(job).map_values(|j: Job| j@) =~= before.push(job@));
            }
            cache.push(job);
        }
        self.job_cache = cache;
    }

    /// Takes a job out of the cache. A job that the cache does not hold is
    /// no error.
    pub fn remove_cached_job(&mut self, job_id: &JobId)
        ensures
            final(self)@ == without_cached(old(self)@, job_id@),
            final(self).directory() == old(self).directory(),
    {
        proof {
            use_type_invariant(&*self);
        }
        let at = self.find(job_id);
        if at >= self.job_cache.len() {
            return ;
        }
        let ghost before = self@;
        let mut cache: Vec<Job> = Vec::new();
        std::mem::swap(&mut cache, &mut self.job_cache);
        proof {
            assert(cache@.remove(at as int).map_values(|j: Job| j@) =~= before.remove(at as int));
        }
        cache.remove(at);
        self.job_cache = cache;
    }

    /// The jobs of the cache, in the order in which they came in.
    pub fn get_all_cached_jobs(&self) -> (r: Vec<&Job>)
        ensures
            r@.map_values(|j: &Job| j@) == self@,
    {
        let mut out: Vec<&Job> = Vec::new();
        let mut i: usize = 0;
        while i < self.job_cache.len()
            invariant
                i <= self.job_cache.len(),
                self@.len() == self.job_cache@.len(),
                out@.len() == i,
                forall|j: int| 0 <= j < i ==> (#[trigger] out@[j])@ == self@[j],
            decreases self.job_cache.len() - i,
        {
            out.push(&self.job_cache[i]);
            i = i + 1;
        }
        out
    }

    /// Empties the cache.
    pub fn clear_cache(&mut self)
        ensures
            final(self)@ == Seq::<JobView>::empty(),
            final(self).directory() == old(self).directory(),
    {
        let cache: Vec<Job> = Vec::new();
        self.job_cache = cache;
    }

    /// The statistics over the files of the storage directory, each given by
    /// its name and by its size where the size could be read.
    pub fn get_storage_stats(&self, files: &Vec<(String, Option<u64>)>) -> (stats: StorageStats)
        ensures
            stats == storage_stats_of(file_views(files@)),
    {
        let ghost all = file_views(files@);
        let mut stats = StorageStats { total_files: 0, total_size: 0 };
        let mut i: usize = 0;
        while i < files.len()
            invariant
                i <= files.len(),
                all == file_views(files@),
                stats == storage_stats_of(all.subrange(0, i as int)),
            decreases files.len() - i,
        {
            proof {
                let longer = all.subrange(0, i + 1);
                assert(longer.drop_last() =~= all.subrange(0, i as int));
            }
            if is_job_file(files[i].0.as_str()) {
                let total_files = if stats.total_files < usize::MAX {
                    stats.total_files + 1
                } else {
                    stats.total_files
                };
                let total_size = match files[i].1 {
                    Some(size) => if size <= u64::MAX - stats.total_size {
                        stats.total_size + size
                    } else {
                        u64::MAX
                    },
                    None => stats.total_size,
                };
                stats = StorageStats { total_files, total_size };
            }
            i = i + 1;
        }
        assert(all.subrange(0, i as int) =~= all);
        stats
    }

    /// Whether the data of a job is valid, given what was found of its file:
    /// the file holds a job whose identifier, name and command are not
    /// empty.
    pub fn validate_job_data(&self, found: &FileRead) -> (r: Result<bool, PersistenceError>)
        ensures
            r matches Ok(valid) && valid == is_valid_record(found@),
    {
        match found {
            FileRead::Decoded(job) => Ok(
                job.id.as_str().unicode_len() > 0 && job.name.as_str().unicode_len() > 0
                    && job.command.as_str().unicode_len() > 0,
            ),
            _ => Ok(false),
        }
    }

    /// The jobs to write into a backup directory, given what was found of
    /// the job files of the storage directory.
    pub fn backup_jobs(&self, reads: Vec<FileRead>) -> (jobs: Vec<Job>)
        ensures
            job_views(jobs@) == decoded_jobs(read_views(reads@)),
    {
        self.list_jobs(reads)
    }

    /// The jobs to save when a backup is restored, given what was found of
    /// the job files of the backup directory, or `None` where there is no
    /// such directory, which is an error.
    pub fn restore_jobs(&self, backup: Option<Vec<FileRead>>) -> (r: Result<Vec<Job>, PersistenceError>)
        ensures
            match backup {
                Some(reads) => r matches Ok(jobs) && job_views(jobs@) == decoded_jobs(
                    read_views(reads@),
                ),
                None => r matches Err(e) && e@ == PersistenceErrorView::StorageDirectoryError(
                    "Backup directory does not exist"@,
                ),
            },
    {
        match backup {
            Some(reads) => Ok(self.list_jobs(reads)),
            None => Err(
                PersistenceError::StorageDirectoryError(
                    String::from_str("Backup directory does not exist"),
                ),
            ),
        }
    }
}

} // verus!
