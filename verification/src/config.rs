//! The project configuration document: repository paths, registries,
//! repository entries, and the in-memory form of the configuration file.

use vstd::prelude::*;
use crate::entries;
use crate::name::{Name, NameError, name_char_ok, spec_name_error, valid_name};
use crate::text;

pub mod global;
pub mod registry;
pub mod repository;

verus! {

/// A repository path joined from two [`Name`]s: the owner of the
/// repository and the repository's own name, written `owner/repository`.
#[derive(Clone, Debug, PartialEq, Eq, PartialOrd, Ord, Hash)]
pub struct Path {
    pub owner: Name,
    pub repository: Name,
}

/// The mathematical shape of a [`Path`].
pub struct PathView {
    pub owner: Seq<char>,
    pub repository: Seq<char>,
}

impl View for Path {
    type V = PathView;

    open spec fn view(&self) -> PathView {
        PathView { owner: self.owner@, repository: self.repository@ }
    }
}

/// Error variant for parsing a [`Path`] from a string.
#[derive(Clone, Copy, Debug, PartialEq, Eq)]
pub enum PathFromStrError {
    /// More than one `/` is present.
    ExcessiveDelimiter { delim: char },

    /// No `/` at all: the input is not in `owner/repo` form.
    InvalidSyntax,

    /// The input was empty.
    Empty,

    /// One half is not a valid name.
    Name(NameError),
}

/// The repository path grammar: `owner/repository`, both halves valid
/// names, exactly one separator.  The owner half is validated first.
pub open spec fn spec_parse_path(s: Seq<char>) -> Result<PathView, PathFromStrError> {
    if s.len() == 0 {
        Err(PathFromStrError::Empty)
    } else {
        match s.index_of_first('/') {
            Some(i) => {
                if s.skip(i + 1).contains('/') {
                    Err(PathFromStrError::ExcessiveDelimiter { delim: '/' })
                } else if !valid_name(s.take(i)) {
                    Err(PathFromStrError::Name(spec_name_error(s.take(i))))
                } else if !valid_name(s.skip(i + 1)) {
                    Err(PathFromStrError::Name(spec_name_error(s.skip(i + 1))))
                } else {
                    Ok(PathView { owner: s.take(i), repository: s.skip(i + 1) })
                }
            },
            None => Err(PathFromStrError::InvalidSyntax),
        }
    }
}

impl Path {
    /// Parses the `owner/repository` grammar.
    pub fn parse(s: &str) -> (r: Result<Path, PathFromStrError>)
        ensures
            match r {
                Ok(path) => spec_parse_path(s@) == Ok::<PathView, PathFromStrError>(path@),
                Err(e) => spec_parse_path(s@) == Err::<PathView, PathFromStrError>(e),
            },
    {
        let n = s.unicode_len();
        if n == 0 {
            return Err(PathFromStrError::Empty);
        }
        match text::find_char(s, '/') {
            Some(i) => {
                let owner_part = s.substring_char(0, i);
                let repo_part = s.substring_char(i + 1, n);
                proof {
                    s@.index_of_first_ensures('/');
                    assert(owner_part@ =~= s@.take(i as int));
                    assert(repo_part@ =~= s@.skip(i + 1));
                }
                match text::find_char(repo_part, '/') {
                    Some(_) => {
                        proof {
                            repo_part@.index_of_first_ensures('/');
                        }
                        Err(PathFromStrError::ExcessiveDelimiter { delim: '/' })
                    },
                    None => {
                        proof {
                            repo_part@.index_of_first_ensures('/');
                        }
                        match Name::parse(owner_part) {
                            Ok(owner) => match Name::parse(repo_part) {
                                Ok(repository) => Ok(Path { owner, repository }),
                                Err(e) => Err(PathFromStrError::Name(e)),
                            },
                            Err(e) => Err(PathFromStrError::Name(e)),
                        }
                    },
                }
            },
            None => Err(PathFromStrError::InvalidSyntax),
        }
    }

    /// The string form `owner/repository`.
    pub fn to_string(&self) -> (r: String)
        ensures
            r@ == self@.owner + seq!['/'] + self@.repository,
    {
        let mut s = self.owner.as_str().to_owned();
        s.append("/");
        s.append(self.repository.as_str());
        proof {
            reveal_strlit("/");
            assert(s@ =~= self@.owner + seq!['/'] + self@.repository);
        }
        s
    }
}

/// Rendering a path and parsing it back returns the same path: a string
/// built from two valid names around one `/` parses successfully to
/// exactly those names.
pub proof fn lemma_path_round_trip(owner: Seq<char>, repository: Seq<char>)
    requires
        valid_name(owner),
        valid_name(repository),
    ensures
        spec_parse_path(owner + seq!['/'] + repository) == Ok::<PathView, PathFromStrError>(
            PathView { owner, repository },
        ),
{
    let s = owner + seq!['/'] + repository;
    let k = owner.len() as int;
    assert(s[k] == '/');
    assert(forall|j: int| 0 <= j < k ==> s[j] == owner[j]);
    assert(forall|j: int| 0 <= j < k ==> name_char_ok(#[trigger] owner[j]));
    s.index_of_first_ensures('/');
    let i = s.index_of_first('/').unwrap();
    assert(i == k) by {
        if i < k {
            assert(s[i] == owner[i]);
            assert(name_char_ok(owner[i]));
        }
    }
    assert(s.take(k) =~= owner);
    assert(s.skip(k + 1) =~= repository);
    assert(!s.skip(k + 1).contains('/')) by {
        if s.skip(k + 1).contains('/') {
            let j = choose|j: int| 0 <= j < repository.len() && repository[j] == '/';
            assert(name_char_ok(repository[j]));
        }
    }
}

/// The in-memory form of the configuration document: global settings, the
/// declared registries, the managed repositories, and the path the
/// document was opened from.
#[derive(Clone, PartialEq, Eq)]
pub struct Config {
    /// Global configuration that affects the lifecycle of the plugin.
    pub global: global::Global,

    /// The registries available to each repository, by name; keys stay
    /// distinct.
    pub registries: Vec<(String, registry::Registry)>,

    /// The managed repositories, by `owner/repo` path; keys stay distinct.
    pub repositories: Vec<(Path, repository::Repository)>,

    /// The filesystem path the document was opened from, so that saving
    /// always targets the right file.
    pub opened_from: String,
}

impl Config {
    /// Keys of both mappings are distinct.
    pub open spec fn wf(&self) -> bool {
        entries::distinct_keys(self.registries@) && entries::distinct_keys(self.repositories@)
    }

    /// The mapping the registry entries denote.
    pub open spec fn registries_map(&self) -> Map<Seq<char>, registry::RegistryView> {
        entries::entry_map(self.registries@)
    }

    /// The mapping the repository entries denote.
    pub open spec fn repositories_map(&self) -> Map<PathView, repository::RepositoryView> {
        entries::entry_map(self.repositories@)
    }

    /// A document with no registries or repositories yet.
    pub fn empty(global: global::Global, opened_from: String) -> (r: Config)
        ensures
            r.wf(),
            r.global == global,
            r.registries_map() == Map::<Seq<char>, registry::RegistryView>::empty(),
            r.repositories_map() == Map::<PathView, repository::RepositoryView>::empty(),
            r.registries@.len() == 0,
            r.repositories@.len() == 0,
            r.opened_from@ == opened_from@,
    {
        Config { global, registries: Vec::new(), repositories: Vec::new(), opened_from }
    }

    /// Whether a registry of this name is declared.
    pub fn contains_registry(&self, name: &str) -> (r: bool)
        ensures
            r == self.registries_map().dom().contains(name@),
    {
        let n = self.registries.len();
        let mut i: usize = 0;
        while i < n
            invariant
                i <= n,
                n == self.registries@.len(),
                forall|j: int| 0 <= j < i ==> self.registries@[j].0@ != name@,
            decreases n - i,
        {
            if text::str_eq(self.registries[i].0.as_str(), name) {
                proof {
                    entries::lemma_entry_map_domain(self.registries@, name@);
                }
                return true;
            }
            i += 1;
        }
        proof {
            entries::lemma_entry_map_domain(self.registries@, name@);
        }
        false
    }

    /// The declared registry of this name, if any.
    pub fn registry_of(&self, name: &str) -> (r: Option<&registry::Registry>)
        requires
            self.wf(),
        ensures
            match r {
                Some(reg) => self.registries_map().dom().contains(name@)
                    && self.registries_map()[name@] == reg@,
                None => !self.registries_map().dom().contains(name@),
            },
    {
        let n = self.registries.len();
        let mut i: usize = 0;
        while i < n
            invariant
                self.wf(),
                i <= n,
                n == self.registries@.len(),
                forall|j: int| 0 <= j < i ==> self.registries@[j].0@ != name@,
            decreases n - i,
        {
            if text::str_eq(self.registries[i].0.as_str(), name) {
                proof {
                    entries::lemma_entry_map_at(self.registries@, i as int);
                }
                return Some(&self.registries[i].1);
            }
            i += 1;
        }
        proof {
            entries::lemma_entry_map_domain(self.registries@, name@);
        }
        None
    }

    /// Adds or replaces a registry.
    pub fn insert_registry(&mut self, name: String, reg: registry::Registry)
        requires
            old(self).wf(),
        ensures
            final(self).wf(),
            final(self).registries_map() == old(self).registries_map().insert(name@, reg@),
            final(self).repositories@ == old(self).repositories@,
            final(self).global == old(self).global,
            final(self).opened_from@ == old(self).opened_from@,
    {
        let n = self.registries.len();
        let mut i: usize = 0;
        while i < n
            invariant
                *self == *old(self),
                old(self).wf(),
                i <= n,
                n == self.registries@.len(),
                forall|j: int| 0 <= j < i ==> self.registries@[j].0@ != name@,
            decreases n - i,
        {
            if text::str_eq(self.registries[i].0.as_str(), name.as_str()) {
                proof {
                    entries::lemma_entry_map_update(self.registries@, i as int, name, reg);
                }
                self.registries.set(i, (name, reg));
                return ;
            }
            i += 1;
        }
        proof {
            entries::lemma_entry_map_push(self.registries@, name, reg);
        }
        self.registries.push((name, reg));
    }

    /// Whether a repository at this path is declared.
    pub fn contains_repository(&self, path: &Path) -> (r: bool)
        ensures
            r == self.repositories_map().dom().contains(path@),
    {
        let n = self.repositories.len();
        let mut i: usize = 0;
        while i < n
            invariant
                i <= n,
                n == self.repositories@.len(),
                forall|j: int| 0 <= j < i ==> self.repositories@[j].0@ != path@,
            decreases n - i,
        {
            if path_eq(&self.repositories[i].0, path) {
                proof {
                    entries::lemma_entry_map_domain(self.repositories@, path@);
                }
                return true;
            }
            i += 1;
        }
        proof {
            entries::lemma_entry_map_domain(self.repositories@, path@);
        }
        false
    }

    /// The repository entry at this path, if any.
    pub fn repository_of(&self, path: &Path) -> (r: Option<&repository::Repository>)
        requires
            self.wf(),
        ensures
            match r {
                Some(entry) => self.repositories_map().dom().contains(path@)
                    && self.repositories_map()[path@] == entry@,
                None => !self.repositories_map().dom().contains(path@),
            },
    {
        let n = self.repositories.len();
        let mut i: usize = 0;
        while i < n
            invariant
                self.wf(),
                i <= n,
                n == self.repositories@.len(),
                forall|j: int| 0 <= j < i ==> self.repositories@[j].0@ != path@,
            decreases n - i,
        {
            if path_eq(&self.repositories[i].0, path) {
                proof {
                    entries::lemma_entry_map_at(self.repositories@, i as int);
                }
                return Some(&self.repositories[i].1);
            }
            i += 1;
        }
        proof {
            entries::lemma_entry_map_domain(self.repositories@, path@);
        }
        None
    }

    /// Adds or replaces a repository entry.
    pub fn insert_repository(&mut self, path: Path, entry: repository::Repository)
        requires
            old(self).wf(),
        ensures
            final(self).wf(),
            final(self).repositories_map() == old(self).repositories_map().insert(
                path@,
                entry@,
            ),
            final(self).registries@ == old(self).registries@,
            final(self).global == old(self).global,
            final(self).opened_from@ == old(self).opened_from@,
    {
        let n = self.repositories.len();
        let mut i: usize = 0;
        while i < n
            invariant
                *self == *old(self),
                old(self).wf(),
                i <= n,
                n == self.repositories@.len(),
                forall|j: int| 0 <= j < i ==> self.repositories@[j].0@ != path@,
            decreases n - i,
        {
            if path_eq(&self.repositories[i].0, &path) {
                proof {
                    entries::lemma_entry_map_update(self.repositories@, i as int, path, entry);
                }
                self.repositories.set(i, (path, entry));
                return ;
            }
            i += 1;
        }
        proof {
            entries::lemma_entry_map_push(self.repositories@, path, entry);
        }
        self.repositories.push((path, entry));
    }

    /// After loading, a registry literally named `default` always exists:
    /// if the document did not declare one, this injects one pointing at
    /// the public registry's v1 endpoint; a declared one is left alone.
    pub fn ensure_default_registry(&mut self)
        requires
            old(self).wf(),
        ensures
            final(self).wf(),
            final(self).registries_map().dom().contains("default"@),
            old(self).registries_map().dom().contains("default"@) ==> *final(self) == *old(self),
            !old(self).registries_map().dom().contains("default"@)
                ==> final(self).registries_map() == old(self).registries_map().insert(
                "default"@,
                registry::RegistryView {
                    version: registry::ApiVersion::V1,
                    url: "https://charts.noelware.org/api"@,
                },
            ),
            final(self).repositories@ == old(self).repositories@,
            final(self).global == old(self).global,
            final(self).opened_from@ == old(self).opened_from@,
    {
        if !self.contains_registry("default") {
            self.insert_registry(
                "default".to_owned(),
                registry::Registry {
                    version: registry::ApiVersion::V1,
                    url: "https://charts.noelware.org/api".to_owned(),
                },
            );
        }
    }
}

fn path_eq(a: &Path, b: &Path) -> (r: bool)
    ensures
        r == (a@ == b@),
{
    let r = text::str_eq(a.owner.as_str(), b.owner.as_str()) && text::str_eq(
        a.repository.as_str(),
        b.repository.as_str(),
    );
    proof {
        if a@.owner == b@.owner && a@.repository == b@.repository {
            assert(a@ == b@);
        }
    }
    r
}

/// Error thrown when no configuration file can be located.
#[derive(Clone, Copy, Debug, PartialEq, Eq)]
pub enum ConfigPathError {
    /// No candidate file exists; the document is never auto-created, so
    /// the caller must initialize one explicitly.
    NotFound,
}

/// Decides which configuration file a load should read: an explicit path
/// wins; otherwise the first existing candidate in the working directory,
/// `./.charted.toml` before `./charted.toml`; otherwise the search fails,
/// and no file is ever created here.
pub fn resolve_config_path(explicit: Option<String>, dot_exists: bool, plain_exists: bool) -> (r:
    Result<String, ConfigPathError>)
    ensures
        match explicit {
            Some(p) => r matches Ok(q) && q@ == p@,
            None => {
                if dot_exists {
                    r matches Ok(q) && q@ == "./.charted.toml"@
                } else if plain_exists {
                    r matches Ok(q) && q@ == "./charted.toml"@
                } else {
                    r == Err::<String, ConfigPathError>(ConfigPathError::NotFound)
                }
            },
        },
{
    match explicit {
        Some(p) => Ok(p),
        None => {
            if dot_exists {
                Ok("./.charted.toml".to_owned())
            } else if plain_exists {
                Ok("./charted.toml".to_owned())
            } else {
                Err(ConfigPathError::NotFound)
            }
        },
    }
}

} // verus!
