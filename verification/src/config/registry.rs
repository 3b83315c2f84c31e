//! Registries: a remote endpoint plus the API version segment used when
//! building request URLs.

use vstd::prelude::*;

verus! {

/// API version of a registry; it becomes the first path segment of every
/// request URL.
#[derive(Clone, Copy, Debug, PartialEq, Eq)]
pub enum ApiVersion {
    V1,
}

/// The path segment a version denotes.
pub open spec fn spec_version_str(v: ApiVersion) -> Seq<char> {
    match v {
        ApiVersion::V1 => "v1"@,
    }
}

impl Default for ApiVersion {
    fn default() -> (r: ApiVersion)
        ensures
            r == ApiVersion::V1,
    {
        ApiVersion::V1
    }
}

impl ApiVersion {
    pub fn as_str(&self) -> (r: &str)
        ensures
            r@ == spec_version_str(*self),
    {
        match self {
            ApiVersion::V1 => "v1",
        }
    }
}

/// What `url`'s WHATWG resolution produces for a reference against a base
/// URL string: `None` when the base does not parse or the reference cannot
/// be resolved against it, otherwise the normalized absolute URL.
pub uninterp spec fn url_resolve(base: Seq<char>, reference: Seq<char>) -> Option<Seq<char>>;

/// Relies on `url`'s `Url::parse` and `Url::join`, and on its `Display`
/// impl for the string form: resolves `reference` against `base` and
/// returns the normalized absolute URL.
#[verifier::external_body]
fn resolve_url(base: &str, reference: &str) -> (r: Option<String>)
    ensures
        match r {
            Some(s) => url_resolve(base@, reference@) == Some(s@),
            None => url_resolve(base@, reference@) is None,
        },
{
    match url::Url::parse(base) {
        Ok(u) => match u.join(reference) {
            Ok(joined) => Some(joined.to_string()),
            Err(_) => None,
        },
        Err(_) => None,
    }
}

/// Error thrown when a registry URL and a relative path cannot be joined.
#[derive(Clone, Copy, Debug, PartialEq, Eq)]
pub enum JoinUrlError {
    /// The base URL does not parse, or the reference cannot be resolved
    /// against it.
    Parse,
}

/// A `registry.<name>` table entry: where a registry lives and which API
/// version to speak.
#[derive(Clone, Debug, PartialEq, Eq)]
pub struct Registry {
    /// API version of the registry.
    pub version: ApiVersion,

    /// URL of the registry, without the API version segment.
    pub url: String,
}

/// The mathematical shape of a [`Registry`].
pub struct RegistryView {
    pub version: ApiVersion,
    pub url: Seq<char>,
}

impl View for Registry {
    type V = RegistryView;

    open spec fn view(&self) -> RegistryView {
        RegistryView { version: self.version, url: self.url@ }
    }
}

impl Registry {
    /// Joins the registry URL, the version segment and a relative path into
    /// one normalized absolute URL string.  The version and the path are
    /// combined into a single reference first: resolving them one after the
    /// other would discard the version segment, because a relative join
    /// replaces the last path segment of its base.
    pub fn join_url(&self, input: &str) -> (r: Result<String, JoinUrlError>)
        ensures
            match r {
                Ok(s) => url_resolve(
                    self.url@,
                    spec_version_str(self.version) + seq!['/'] + input@,
                ) == Some(s@),
                Err(e) => url_resolve(
                    self.url@,
                    spec_version_str(self.version) + seq!['/'] + input@,
                ) is None && e == JoinUrlError::Parse,
            },
    {
        let mut reference = self.version.as_str().to_owned();
        reference.append("/");
        reference.append(input);
        proof {
            reveal_strlit("/");
            assert(reference@ =~= spec_version_str(self.version) + seq!['/'] + input@);
        }
        match resolve_url(self.url.as_str(), reference.as_str()) {
            Some(s) => Ok(s),
            None => Err(JoinUrlError::Parse),
        }
    }

    /// The registry as users see it: the base URL with the version
    /// segment resolved onto it.
    pub fn display_url(&self) -> (r: Result<String, JoinUrlError>)
        ensures
            match r {
                Ok(s) => url_resolve(self.url@, spec_version_str(self.version)) == Some(s@),
                Err(e) => url_resolve(self.url@, spec_version_str(self.version)) is None && e
                    == JoinUrlError::Parse,
            },
    {
        match resolve_url(self.url.as_str(), self.version.as_str()) {
            Some(s) => Ok(s),
            None => Err(JoinUrlError::Parse),
        }
    }
}

} // verus!
