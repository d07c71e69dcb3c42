//! The arguments of the command line, once they are parsed.

use crate::paths::{join, joined};
use crate::text::{
    chars_of, concat2, has_char, split, split_on, string_of, texts, trim, trimmed,
};
use vstd::prelude::*;

verus! {

/// How the results are written.
#[derive(Clone, Copy, Debug, PartialEq, Eq, Structural)]
pub enum OutputFormat {
    /// For a reader.
    Human,
    /// For a program.
    Json,
    /// One line.
    Summary,
}

/// The arguments of the command line.
#[derive(Clone, Debug, PartialEq, Eq)]
pub struct Cli {
    /// The directory to scan.
    pub directory: String,
    /// The extensions to look for, separated by commas.
    pub extensions: String,
    /// How many validations run at the same time.
    pub threads: Option<usize>,
    pub verbose: bool,
    pub quiet: bool,
    /// The configuration file.
    pub config: Option<String>,
    /// The directory of the schema cache.
    pub cache_dir: Option<String>,
    /// How long a cached schema is good for, in hours.
    pub cache_ttl: u64,
    /// How long a request may take, in seconds.
    pub timeout: u64,
    /// How often a failed download is tried again.
    pub retry_attempts: u32,
    pub include_patterns: Vec<String>,
    pub exclude_patterns: Vec<String>,
    pub output_format: OutputFormat,
    pub progress: bool,
    pub fail_fast: bool,
    /// How large the cache may grow, in megabytes.
    pub max_cache_size: u64,
}

/// What the file system says of the paths that the arguments name.
#[derive(Clone, Copy, Debug, PartialEq, Eq, Structural)]
pub struct PathFacts {
    /// Whether the directory to scan exists.
    pub directory_exists: bool,
    /// Whether it is a directory.
    pub directory_is_dir: bool,
    /// Whether the configuration file exists, if one is named.
    pub config_exists: bool,
    /// Whether the cache directory exists, if one is named.
    pub cache_dir_exists: bool,
    /// Whether it is a directory.
    pub cache_dir_is_dir: bool,
}

/// `dirs::cache_dir`: the directory the user's caches lie in, as the
/// environment names it, if it names one. The path is read as text, with
/// `Path::to_string_lossy`.
#[verifier::external_body]
pub(crate) fn user_cache_dir() -> (dir: Option<String>) {
    dirs::cache_dir().map(|p| p.to_string_lossy().into_owned())
}

/// The pieces of `pieces`, each without the white space at its ends, those
/// that are then empty left out.
pub open spec fn trimmed_pieces(pieces: Seq<Seq<char>>) -> Seq<Seq<char>>
    decreases pieces.len(),
{
    if pieces.len() == 0 {
        Seq::<Seq<char>>::empty()
    } else {
        let before = trimmed_pieces(pieces.drop_last());
        if trim(pieces.last()).len() == 0 {
            before
        } else {
            before.push(trim(pieces.last()))
        }
    }
}

/// The entries of a list written with commas: the texts between the
/// commas, trimmed, the empty ones left out.
pub open spec fn comma_list(s: Seq<char>) -> Seq<Seq<char>> {
    trimmed_pieces(split(s, ','))
}

/// The entries of a list written with commas.
pub fn parse_comma_list(s: &str) -> (list: Vec<String>)
    ensures
        list.deep_view() == comma_list(s@),
{
    let pieces = split_on(&chars_of(s), ',');
    let mut list: Vec<String> = Vec::new();
    let mut i: usize = 0;
    assert(list.deep_view() =~= trimmed_pieces(texts(pieces@).take(0)));
    while i < pieces.len()
        invariant
            i <= pieces.len(),
            list.deep_view() == trimmed_pieces(texts(pieces@).take(i as int)),
        decreases pieces.len() - i,
    {
        assert(texts(pieces@).take(i + 1).drop_last() =~= texts(pieces@).take(i as int));
        assert(texts(pieces@).take(i + 1).last() == pieces@[i as int]@);
        let entry = trimmed(&pieces[i]);
        if entry.len() > 0 {
            let ghost before = list.deep_view();
            list.push(string_of(&entry));
            assert(list.deep_view() =~= before.push(entry@));
        }
        i = i + 1;
    }
    assert(texts(pieces@).take(pieces.len() as int) =~= texts(pieces@));
    list
}

/// Whether an extension holds a character that no extension may hold: a
/// slash, a backslash or a dot.
pub open spec fn bad_extension(e: Seq<char>) -> bool {
    e.contains('/') || e.contains('\\') || e.contains('.')
}

/// The first of the extensions that is no extension, if there is one.
pub open spec fn first_bad_extension(list: Seq<Seq<char>>) -> Option<Seq<char>>
    decreases list.len(),
{
    if list.len() == 0 {
        None
    } else if bad_extension(list[0]) {
        Some(list[0])
    } else {
        first_bad_extension(list.skip(1))
    }
}

/// The first of the extensions that is no extension, if there is one.
pub fn find_bad_extension(list: &Vec<String>) -> (r: Option<&String>)
    ensures
        match r {
            Some(e) => first_bad_extension(list.deep_view()) == Some(e@),
            None => first_bad_extension(list.deep_view()) is None,
        },
{
    let ghost all = list.deep_view();
    let mut i: usize = 0;
    assert(all.skip(0) =~= all);
    while i < list.len()
        invariant
            i <= list.len(),
            all == list.deep_view(),
            first_bad_extension(all) == first_bad_extension(all.skip(i as int)),
        decreases list.len() - i,
    {
        let e = chars_of(list[i].as_str());
        assert(all.skip(i as int)[0] == e@);
        if has_char(&e, '/') || has_char(&e, '\\') || has_char(&e, '.') {
            return Some(&list[i]);
        }
        assert(all.skip(i as int).skip(1) =~= all.skip(i + 1));
        i = i + 1;
    }
    None
}

/// What is wrong with a number of threads, if anything: it is zero, or more
/// than a thousand.
pub open spec fn threads_defect(threads: Option<usize>) -> Option<Seq<char>> {
    match threads {
        Some(n) => if n == 0 {
            Some("Number of threads must be greater than 0"@)
        } else if n > 1000 {
            Some("Number of threads cannot exceed 1000"@)
        } else {
            None
        },
        None => None,
    }
}

/// What is wrong with a number of threads, if anything.
pub fn check_threads(threads: Option<usize>) -> (r: Option<String>)
    ensures
        r.deep_view() == threads_defect(threads),
{
    match threads {
        Some(n) => {
            if n == 0 {
                Some("Number of threads must be greater than 0".to_owned())
            } else if n > 1000 {
                Some("Number of threads cannot exceed 1000".to_owned())
            } else {
                None
            }
        },
        None => None,
    }
}

impl Cli {
    /// The arguments that name the directory `directory` and leave
    /// everything else as it is when nothing is said.
    pub fn new(directory: String) -> (cli: Cli)
        ensures
            cli.directory == directory,
            cli.extensions@ == "xml"@,
            cli.threads is None,
            !cli.verbose,
            !cli.quiet,
            cli.config is None,
            cli.cache_dir is None,
            cli.cache_ttl == 24,
            cli.timeout == 30,
            cli.retry_attempts == 3,
            cli.include_patterns@.len() == 0,
            cli.exclude_patterns@.len() == 0,
            cli.output_format == OutputFormat::Human,
            !cli.progress,
            !cli.fail_fast,
            cli.max_cache_size == 100,
    {
        Cli {
            directory,
            extensions: "xml".to_owned(),
            threads: None,
            verbose: false,
            quiet: false,
            config: None,
            cache_dir: None,
            cache_ttl: 24,
            timeout: 30,
            retry_attempts: 3,
            include_patterns: Vec::new(),
            exclude_patterns: Vec::new(),
            output_format: OutputFormat::Human,
            progress: false,
            fail_fast: false,
            max_cache_size: 100,
        }
    }

    /// The extensions to look for.
    pub fn get_extensions(&self) -> (list: Vec<String>)
        ensures
            list.deep_view() == comma_list(self.extensions@),
    {
        parse_comma_list(self.extensions.as_str())
    }

    /// What is wrong with the arguments, if anything, given what the file
    /// system says of the paths they name. The first defect in this order
    /// counts: the directory, the threads, the cache's time to live, the
    /// timeout, the extensions, the configuration file, the cache directory.
    pub open spec fn defect(&self, facts: PathFacts) -> Option<Seq<char>> {
        if !facts.directory_exists {
            Some("Directory does not exist: "@ + self.directory@)
        } else if !facts.directory_is_dir {
            Some("Path is not a directory: "@ + self.directory@)
        } else if threads_defect(self.threads) is Some {
            threads_defect(self.threads)
        } else if self.cache_ttl == 0 {
            Some("Cache TTL must be greater than 0"@)
        } else if self.timeout == 0 {
            Some("Timeout must be greater than 0"@)
        } else if comma_list(self.extensions@).len() == 0 {
            Some("At least one file extension must be specified"@)
        } else if first_bad_extension(comma_list(self.extensions@)) is Some {
            Some(
                "Invalid file extension: "@ + first_bad_extension(
                    comma_list(self.extensions@),
                )->0,
            )
        } else if self.config is Some && !facts.config_exists {
            Some("Configuration file does not exist: "@ + self.config->0@)
        } else if self.cache_dir is Some && facts.cache_dir_exists && !facts.cache_dir_is_dir {
            Some("Cache path is not a directory: "@ + self.cache_dir->0@)
        } else {
            None
        }
    }

    /// Checks the arguments, given what the file system says of the paths
    /// they name.
    pub fn validate(&self, facts: &PathFacts) -> (r: Result<(), String>)
        ensures
            match r {
                Ok(_) => self.defect(*facts) is None,
                Err(m) => self.defect(*facts) == Some(m@),
            },
    {
        if !facts.directory_exists {
            return Err(concat2("Directory does not exist: ", self.directory.as_str()));
        }
        if !facts.directory_is_dir {
            return Err(concat2("Path is not a directory: ", self.directory.as_str()));
        }
        match check_threads(self.threads) {
            Some(m) => {
                return Err(m);
            },
            None => {},
        }
        if self.cache_ttl == 0 {
            return Err("Cache TTL must be greater than 0".to_owned());
        }
        if self.timeout == 0 {
            return Err("Timeout must be greater than 0".to_owned());
        }
        let extensions = self.get_extensions();
        if extensions.len() == 0 {
            return Err("At least one file extension must be specified".to_owned());
        }
        match find_bad_extension(&extensions) {
            Some(e) => {
                return Err(concat2("Invalid file extension: ", e.as_str()));
            },
            None => {},
        }
        match &self.config {
            Some(path) => {
                if !facts.config_exists {
                    return Err(concat2("Configuration file does not exist: ", path.as_str()));
                }
            },
            None => {},
        }
        match &self.cache_dir {
            Some(dir) => {
                if facts.cache_dir_exists && !facts.cache_dir_is_dir {
                    return Err(concat2("Cache path is not a directory: ", dir.as_str()));
                }
            },
            None => {},
        }
        Ok(())
    }

    /// How many validations run at the same time: as many as the arguments
    /// say, else as many as the machine runs in parallel, else four.
    pub fn get_thread_count(&self, available_parallelism: Option<usize>) -> (n: usize)
        ensures
            n == match (self.threads, available_parallelism) {
                (Some(t), _) => t,
                (None, Some(a)) => a,
                (None, None) => 4,
            },
    {
        match self.threads {
            Some(t) => t,
            None => match available_parallelism {
                Some(a) => a,
                None => 4,
            },
        }
    }

    /// Whether much is to be said.
    pub fn is_verbose(&self) -> (b: bool)
        ensures
            b == (self.verbose && !self.quiet),
    {
        self.verbose && !self.quiet
    }

    /// Whether little is to be said.
    pub fn is_quiet(&self) -> (b: bool)
        ensures
            b == self.quiet,
    {
        self.quiet
    }

    /// The directory of the schema cache: the one the arguments name, else
    /// `validate-xml` below the user's cache directory, or below the
    /// directory `temp_dir` for temporary files where the environment names
    /// no cache directory.
    pub fn get_cache_dir(&self, temp_dir: &str) -> (dir: String)
        ensures
            match self.cache_dir {
                Some(d) => dir@ == d@,
                None => exists|user: Option<Seq<char>>|
                    dir@ == #[trigger] cache_dir_below(user, temp_dir@),
            },
    {
        match &self.cache_dir {
            Some(d) => d.clone(),
            None => default_cache_dir(temp_dir),
        }
    }
}

/// `validate-xml` below the user's cache directory `user`, or below
/// `temp_dir` where there is none.
pub open spec fn cache_dir_below(user: Option<Seq<char>>, temp_dir: Seq<char>) -> Seq<char> {
    join(
        match user {
            Some(d) => d,
            None => temp_dir,
        },
        "validate-xml"@,
    )
}

/// The directory of the cache where the user's cache directory is `user`
/// and the directory for temporary files is `temp_dir`.
pub fn cache_dir_in(user: Option<String>, temp_dir: &str) -> (dir: String)
    ensures
        dir@ == cache_dir_below(user.deep_view(), temp_dir@),
{
    let base = match user {
        Some(d) => d,
        None => temp_dir.to_owned(),
    };
    string_of(&joined(&chars_of(base.as_str()), &chars_of("validate-xml")))
}

/// The directory of the cache where nothing names one: `validate-xml` below
/// the user's cache directory as the environment names it, or below
/// `temp_dir` where it names none.
pub fn default_cache_dir(temp_dir: &str) -> (dir: String)
    ensures
        exists|user: Option<Seq<char>>| dir@ == #[trigger] cache_dir_below(user, temp_dir@),
{
    let user = user_cache_dir();
    let ghost given = user.deep_view();
    let dir = cache_dir_in(user, temp_dir);
    assert(dir@ == cache_dir_below(given, temp_dir@));
    dir
}

} // verus!
