//! Which files a walk below a root emits: the filters on extension and on
//! glob patterns, and the bound on depth.

use crate::error::ValidationError;
use crate::paths::{extension, extension_of, lemma_extension_is_suffix};
use crate::pattern::{
    regex_accepts, regex_error_text, regex_is_match, regex_matches, regex_new, regex_source,
};
use crate::text::{
    chars_of, concat4, lowercase, push_str, starts_with, string_of, to_lowercase,
};
use regex::Regex;
use vstd::prelude::*;

verus! {

// ---------------------------------------------------------------------------
// Glob patterns
// ---------------------------------------------------------------------------

/// Whether `c` has a meaning of its own in a regular expression and none in
/// a glob pattern, so that it is escaped.
pub open spec fn is_regex_meta(c: char) -> bool {
    c == '.' || c == '^' || c == '$' || c == '(' || c == ')' || c == '{' || c == '}' || c == '+'
        || c == '|'
}

/// The regular expression for the glob pattern `p` from index `i` on,
/// within a character class or outside of one.
///
/// Outside a class, `**/` stands for any number of directories, `**` for
/// any text, `*` for any text without `/`, `?` for one character other than
/// `/`, and `[` opens a class; a backslash keeps the character behind it as
/// it is. Within a class every character stands for itself up to the `]`
/// that closes the class.
pub open spec fn glob_tail(p: Seq<char>, i: int, in_class: bool) -> Seq<char>
    decreases p.len() - i,
{
    if i < 0 || i >= p.len() {
        Seq::<char>::empty()
    } else if p[i] == '\\' {
        if i + 1 < p.len() {
            seq!['\\', p[i + 1]] + glob_tail(p, i + 2, in_class)
        } else {
            seq!['\\']
        }
    } else if in_class {
        if p[i] == ']' {
            seq![']'] + glob_tail(p, i + 1, false)
        } else {
            seq![p[i]] + glob_tail(p, i + 1, true)
        }
    } else if p[i] == '*' {
        if i + 1 < p.len() && p[i + 1] == '*' {
            if i + 2 < p.len() && p[i + 2] == '/' {
                "(?:.*/)?"@ + glob_tail(p, i + 3, false)
            } else {
                ".*"@ + glob_tail(p, i + 2, false)
            }
        } else {
            "[^/]*"@ + glob_tail(p, i + 1, false)
        }
    } else if p[i] == '?' {
        "[^/]"@ + glob_tail(p, i + 1, false)
    } else if p[i] == '[' {
        seq!['['] + glob_tail(p, i + 1, true)
    } else if is_regex_meta(p[i]) {
        seq!['\\', p[i]] + glob_tail(p, i + 1, false)
    } else {
        seq![p[i]] + glob_tail(p, i + 1, false)
    }
}

/// The regular expression that matches exactly the texts that the glob
/// pattern `p` stands for: it is anchored at both ends.
pub open spec fn glob_regex(p: Seq<char>) -> Seq<char> {
    seq!['^'] + glob_tail(p, 0, false) + seq!['$']
}

/// The regular expression for the glob pattern `pattern`, as text.
pub fn glob_to_regex_source(pattern: &str) -> (r: String)
    ensures
        r@ == glob_regex(pattern@),
{
    let p = chars_of(pattern);
    let mut out: Vec<char> = Vec::new();
    out.push('^');
    let mut i: usize = 0;
    let mut in_class = false;
    assert(out@ =~= seq!['^']);
    while i < p.len()
        invariant
            i <= p.len(),
            p@ == pattern@,
            glob_regex(p@) == out@ + glob_tail(p@, i as int, in_class) + seq!['$'],
        decreases p.len() - i,
    {
        let ghost before = out@;
        let ghost tail = glob_tail(p@, i as int, in_class);
        let c = p[i];
        if c == '\\' {
            out.push('\\');
            if i + 1 < p.len() {
                out.push(p[i + 1]);
                assert(before + tail =~= out@ + glob_tail(p@, i + 2, in_class));
                i = i + 2;
            } else {
                assert(before + tail =~= out@ + glob_tail(p@, i + 1, in_class));
                i = i + 1;
            }
        } else if in_class {
            out.push(c);
            if c == ']' {
                in_class = false;
            }
            assert(before + tail =~= out@ + glob_tail(p@, i + 1, in_class));
            i = i + 1;
        } else if c == '*' {
            if i + 1 < p.len() && p[i + 1] == '*' {
                if i + 2 < p.len() && p[i + 2] == '/' {
                    push_str(&mut out, "(?:.*/)?");
                    assert(before + tail =~= out@ + glob_tail(p@, i + 3, false));
                    i = i + 3;
                } else {
                    push_str(&mut out, ".*");
                    assert(before + tail =~= out@ + glob_tail(p@, i + 2, false));
                    i = i + 2;
                }
            } else {
                push_str(&mut out, "[^/]*");
                assert(before + tail =~= out@ + glob_tail(p@, i + 1, false));
                i = i + 1;
            }
        } else if c == '?' {
            push_str(&mut out, "[^/]");
            assert(before + tail =~= out@ + glob_tail(p@, i + 1, false));
            i = i + 1;
        } else if c == '[' {
            out.push('[');
            in_class = true;
            assert(before + tail =~= out@ + glob_tail(p@, i + 1, true));
            i = i + 1;
        } else if c == '.' || c == '^' || c == '$' || c == '(' || c == ')' || c == '{' || c == '}'
            || c == '+' || c == '|' {
            out.push('\\');
            out.push(c);
            assert(before + tail =~= out@ + glob_tail(p@, i + 1, false));
            i = i + 1;
        } else {
            out.push(c);
            assert(before + tail =~= out@ + glob_tail(p@, i + 1, false));
            i = i + 1;
        }
        assert(glob_regex(p@) == before + tail + seq!['$']);
    }
    assert(out@ + glob_tail(p@, i as int, in_class) =~= out@);
    out.push('$');
    string_of(&out)
}

/// What the error for a refused glob pattern begins with.
pub open spec fn glob_error_prefix(pattern: Seq<char>) -> Seq<char> {
    "Invalid glob pattern '"@ + pattern + "': "@
}

/// Compiles the glob pattern `pattern`. It is compiled exactly when the
/// `regex` crate accepts its regular expression; a refusal is the failure
/// `Config`, which names the pattern and goes on with the crate's reason.
pub fn glob_to_regex(pattern: &str) -> (r: Result<Regex, ValidationError>)
    ensures
        r is Ok <==> regex_accepts(glob_regex(pattern@)),
        r matches Ok(re) ==> regex_source(re) == glob_regex(pattern@),
        r matches Err(e) ==> (e matches ValidationError::Config(m) && starts_with(
            m@,
            glob_error_prefix(pattern@),
        )),
{
    let source = glob_to_regex_source(pattern);
    match regex_new(source.as_str()) {
        Ok(re) => Ok(re),
        Err(e) => {
            let why = regex_error_text(&e);
            let m = concat4("Invalid glob pattern '", pattern, "': ", why.as_str());
            assert(m@.subrange(0, glob_error_prefix(pattern@).len() as int) =~= glob_error_prefix(
                pattern@,
            ));
            Err(ValidationError::Config(m))
        },
    }
}

// ---------------------------------------------------------------------------
// The filters
// ---------------------------------------------------------------------------

/// The patterns that the expressions `list` were compiled from.
pub open spec fn sources(list: Seq<Regex>) -> Seq<Seq<char>> {
    list.map_values(|re: Regex| regex_source(re))
}

/// The regular expressions of the glob patterns `globs`.
pub open spec fn glob_regexes(globs: Seq<String>) -> Seq<Seq<char>> {
    globs.map_values(|g: String| glob_regex(g@))
}

/// Whether one of the patterns `patterns` matches `path`.
pub open spec fn any_matches(patterns: Seq<Seq<char>>, path: Seq<char>) -> bool {
    exists|i: int| 0 <= i < patterns.len() && regex_matches(#[trigger] patterns[i], path)
}

/// Whether `path` has an extension whose lowercase form is one of
/// `extensions`.
pub open spec fn has_allowed_extension(extensions: Seq<Seq<char>>, path: Seq<char>) -> bool {
    extension(path) matches Some(e) && extensions.contains(lowercase(e))
}

/// What a walk looks for.
#[derive(Clone, Debug)]
pub struct FileDiscovery {
    extensions: Vec<String>,
    include_patterns: Vec<Regex>,
    exclude_patterns: Vec<Regex>,
    max_depth: Option<usize>,
    follow_symlinks: bool,
}

/// What a walk found.
#[derive(Clone, Copy, Debug, PartialEq, Eq, Structural)]
pub struct DiscoveryStats {
    pub files_found: usize,
    pub errors: usize,
}

impl Default for DiscoveryStats {
    fn default() -> (s: DiscoveryStats)
        ensures
            s == (DiscoveryStats { files_found: 0, errors: 0 }),
    {
        DiscoveryStats { files_found: 0, errors: 0 }
    }
}

/// Whether every one of the glob patterns is accepted.
pub open spec fn all_accepted(patterns: Seq<String>) -> bool {
    forall|i: int| 0 <= i < patterns.len() ==> regex_accepts(glob_regex(#[trigger] patterns[i]@))
}

/// Whether `e` is the refusal of the first of the glob patterns that is
/// not accepted: the failure `Config`, which names that pattern.
pub open spec fn refuses_first(patterns: Seq<String>, e: ValidationError) -> bool {
    exists|i: int|
        #![trigger patterns[i]]
        {
            &&& 0 <= i < patterns.len()
            &&& !regex_accepts(glob_regex(patterns[i]@))
            &&& all_accepted(patterns.take(i))
            &&& e matches ValidationError::Config(m) && starts_with(
                m@,
                glob_error_prefix(patterns[i]@),
            )
        }
}

/// Compiles the glob patterns `patterns`, in order.
fn compile_all(patterns: &Vec<String>) -> (r: Result<Vec<Regex>, ValidationError>)
    ensures
        r is Ok <==> all_accepted(patterns@),
        r matches Ok(list) ==> sources(list@) == glob_regexes(patterns@),
        r matches Err(e) ==> refuses_first(patterns@, e),
{
    let mut list: Vec<Regex> = Vec::new();
    let mut i: usize = 0;
    while i < patterns.len()
        invariant
            i <= patterns.len(),
            forall|k: int| 0 <= k < i ==> regex_accepts(glob_regex(#[trigger] patterns@[k]@)),
            sources(list@) == glob_regexes(patterns@.take(i as int)),
        decreases patterns.len() - i,
    {
        match glob_to_regex(patterns[i].as_str()) {
            Ok(re) => {
                let ghost before = list@;
                list.push(re);
                assert(sources(list@) =~= sources(before).push(regex_source(re)));
                assert(glob_regexes(patterns@.take(i + 1)) =~= glob_regexes(
                    patterns@.take(i as int),
                ).push(glob_regex(patterns@[i as int]@)));
            },
            Err(e) => {
                assert(all_accepted(patterns@.take(i as int))) by {
                    assert forall|k: int| 0 <= k < i implies regex_accepts(
                        glob_regex(#[trigger] patterns@.take(i as int)[k]@),
                    ) by {
                        assert(patterns@.take(i as int)[k] == patterns@[k]);
                    }
                }
                assert(patterns@[i as int] == patterns@[i as int]);
                return Err(e);
            },
        }
        i = i + 1;
    }
    assert(patterns@.take(patterns.len() as int) =~= patterns@);
    Ok(list)
}

/// Whether one of the expressions `list` matches `path`.
fn matches_any(list: &Vec<Regex>, path: &str) -> (b: bool)
    ensures
        b == any_matches(sources(list@), path@),
{
    let mut i: usize = 0;
    while i < list.len()
        invariant
            i <= list.len(),
            forall|k: int| 0 <= k < i ==> !regex_matches(#[trigger] sources(list@)[k], path@),
        decreases list.len() - i,
    {
        assert(sources(list@)[i as int] == regex_source(list@[i as int]));
        if regex_is_match(&list[i], path) {
            return true;
        }
        i = i + 1;
    }
    false
}

impl FileDiscovery {
    /// The extensions that are looked for, in lowercase.
    pub closed spec fn extensions(&self) -> Seq<Seq<char>> {
        self.extensions@.map_values(|e: String| e@)
    }

    /// The regular expressions of which a path must match one, if there are
    /// any.
    pub closed spec fn includes(&self) -> Seq<Seq<char>> {
        sources(self.include_patterns@)
    }

    /// The regular expressions of which a path may match none.
    pub closed spec fn excludes(&self) -> Seq<Seq<char>> {
        sources(self.exclude_patterns@)
    }

    /// How deep the walk goes: files directly below the root have depth 0.
    pub closed spec fn depth_limit(&self) -> Option<usize> {
        self.max_depth
    }

    /// Whether symbolic links are followed.
    pub closed spec fn follows_symlinks(&self) -> bool {
        self.follow_symlinks
    }

    /// Whether the filters let `path` pass: it has an extension that is
    /// looked for, no exclude pattern matches it, and one of the include
    /// patterns does if there are any.
    pub open spec fn accepts(&self, path: Seq<char>) -> bool {
        &&& has_allowed_extension(self.extensions(), path)
        &&& !any_matches(self.excludes(), path)
        &&& self.includes().len() == 0 || any_matches(self.includes(), path)
    }

    /// A walk for files with the extension `xml`, with no patterns, of any
    /// depth, that does not follow symbolic links.
    pub fn new() -> (d: FileDiscovery)
        ensures
            d.extensions() == seq!["xml"@],
            d.includes().len() == 0,
            d.excludes().len() == 0,
            d.depth_limit() is None,
            !d.follows_symlinks(),
    {
        let mut extensions: Vec<String> = Vec::new();
        extensions.push("xml".to_owned());
        let d = FileDiscovery {
            extensions,
            include_patterns: Vec::new(),
            exclude_patterns: Vec::new(),
            max_depth: None,
            follow_symlinks: false,
        };
        assert(d.extensions() =~= seq!["xml"@]);
        d
    }

    /// The walk, looking for the extensions `extensions`.
    pub fn with_extensions(self, extensions: Vec<String>) -> (d: FileDiscovery)
        ensures
            d.extensions() == extensions@.map_values(|e: String| e@),
            d.includes() == self.includes(),
            d.excludes() == self.excludes(),
            d.depth_limit() == self.depth_limit(),
            d.follows_symlinks() == self.follows_symlinks(),
    {
        let mut d = self;
        d.extensions = extensions;
        d
    }

    /// The walk, with the glob patterns `patterns` as its include patterns.
    /// It fails with `Config` exactly when the `regex` crate refuses the
    /// regular expression of one of them.
    pub fn with_include_patterns(self, patterns: Vec<String>) -> (r: Result<
        FileDiscovery,
        ValidationError,
    >)
        ensures
            r is Ok <==> all_accepted(patterns@),
            r matches Err(e) ==> refuses_first(patterns@, e),
            r matches Ok(d) ==> {
                &&& d.includes() == glob_regexes(patterns@)
                &&& d.extensions() == self.extensions()
                &&& d.excludes() == self.excludes()
                &&& d.depth_limit() == self.depth_limit()
                &&& d.follows_symlinks() == self.follows_symlinks()
            },
    {
        match compile_all(&patterns) {
            Ok(list) => {
                let mut d = self;
                d.include_patterns = list;
                Ok(d)
            },
            Err(e) => Err(e),
        }
    }

    /// The walk, with the glob patterns `patterns` as its exclude patterns.
    /// It fails with `Config` exactly when the `regex` crate refuses the
    /// regular expression of one of them.
    pub fn with_exclude_patterns(self, patterns: Vec<String>) -> (r: Result<
        FileDiscovery,
        ValidationError,
    >)
        ensures
            r is Ok <==> all_accepted(patterns@),
            r matches Err(e) ==> refuses_first(patterns@, e),
            r matches Ok(d) ==> {
                &&& d.excludes() == glob_regexes(patterns@)
                &&& d.extensions() == self.extensions()
                &&& d.includes() == self.includes()
                &&& d.depth_limit() == self.depth_limit()
                &&& d.follows_symlinks() == self.follows_symlinks()
            },
    {
        match compile_all(&patterns) {
            Ok(list) => {
                let mut d = self;
                d.exclude_patterns = list;
                Ok(d)
            },
            Err(e) => Err(e),
        }
    }

    /// The walk, going no deeper than `depth`.
    pub fn with_max_depth(self, depth: Option<usize>) -> (d: FileDiscovery)
        ensures
            d.depth_limit() == depth,
            d.extensions() == self.extensions(),
            d.includes() == self.includes(),
            d.excludes() == self.excludes(),
            d.follows_symlinks() == self.follows_symlinks(),
    {
        let mut d = self;
        d.max_depth = depth;
        d
    }

    /// The walk, following symbolic links or not.
    pub fn with_follow_symlinks(self, follow: bool) -> (d: FileDiscovery)
        ensures
            d.follows_symlinks() == follow,
            d.extensions() == self.extensions(),
            d.includes() == self.includes(),
            d.excludes() == self.excludes(),
            d.depth_limit() == self.depth_limit(),
    {
        let mut d = self;
        d.follow_symlinks = follow;
        d
    }

    /// How deep the walk goes.
    pub fn max_depth(&self) -> (m: Option<usize>)
        ensures
            m == self.depth_limit(),
    {
        self.max_depth
    }

    /// Whether symbolic links are followed.
    pub fn follow_symlinks(&self) -> (f: bool)
        ensures
            f == self.follows_symlinks(),
    {
        self.follow_symlinks
    }

    /// Whether the filters let `path` pass.
    pub fn should_process(&self, path: &str) -> (b: bool)
        ensures
            b == self.accepts(path@),
    {
        let chars = chars_of(path);
        match extension_of(&chars) {
            Some(e) => {
                let lower = to_lowercase(string_of(&e).as_str());
                let mut known = false;
                let mut i: usize = 0;
                while i < self.extensions.len()
                    invariant
                        i <= self.extensions.len(),
                        known == exists|k: int|
                            0 <= k < i && #[trigger] self.extensions()[k] == lower@,
                    decreases self.extensions.len() - i,
                {
                    assert(self.extensions()[i as int] == self.extensions@[i as int]@);
                    if self.extensions[i] == lower {
                        known = true;
                    }
                    i = i + 1;
                }
                assert(known == self.extensions().contains(lower@));
                if !known {
                    return false;
                }
            },
            None => {
                return false;
            },
        }
        if matches_any(&self.exclude_patterns, path) {
            return false;
        }
        if self.include_patterns.len() > 0 {
            return matches_any(&self.include_patterns, path);
        }
        true
    }
}

impl Default for FileDiscovery {
    fn default() -> (d: FileDiscovery)
        ensures
            d.extensions() == seq!["xml"@],
            d.includes().len() == 0,
            d.excludes().len() == 0,
            d.depth_limit() is None,
            !d.follows_symlinks(),
    {
        FileDiscovery::new()
    }
}

/// A path that passes the filters ends in a dot and an extension whose
/// lowercase form is looked for; no exclude pattern matches it; and one of
/// the include patterns does, if there are any.
pub proof fn lemma_accepted_path(d: FileDiscovery, path: Seq<char>)
    requires
        d.accepts(path),
    ensures
        exists|e: Seq<char>|
            #![trigger lowercase(e)]
            d.extensions().contains(lowercase(e)) && path.len() > e.len() && path.skip(
                path.len() - e.len(),
            ) == e && path[path.len() - e.len() - 1] == '.',
        forall|i: int| 0 <= i < d.excludes().len() ==> !regex_matches(#[trigger] d.excludes()[i], path),
        d.includes().len() > 0 ==> exists|i: int|
            0 <= i < d.includes().len() && regex_matches(#[trigger] d.includes()[i], path),
{
    lemma_extension_is_suffix(path);
    let e = extension(path).unwrap();
    assert(d.extensions().contains(lowercase(e)));
}

} // verus!
