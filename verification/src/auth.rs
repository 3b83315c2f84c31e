//! The authentication document: contexts, credential representations, and
//! the in-memory form of the on-disk `auth.yaml` file.

use vstd::prelude::*;
use base64::Engine;
use crate::entries;
use crate::text;

verus! {

/// A string naming one authentication profile (for example `"default"`
/// or `"work"`); the key of the credential mapping.
#[derive(Clone, Debug, PartialEq, Eq, PartialOrd, Ord, Hash)]
pub struct Context {
    name: String,
}

impl View for Context {
    type V = Seq<char>;

    closed spec fn view(&self) -> Seq<char> {
        self.name@
    }
}

impl Context {
    /// Creates a new [`Context`] with a given string (`s`).
    pub fn new(s: &str) -> (r: Self)
        ensures
            r@ == s@,
    {
        Context { name: s.to_owned() }
    }

    pub fn as_str(&self) -> (r: &str)
        ensures
            r@ == self@,
    {
        self.name.as_str()
    }
}

/// A secret string.  The type deliberately has no `Debug` impl, so a
/// document holding one cannot be formatted into logs by accident; the
/// value is read only through the explicit [`Secret::expose_secret`]
/// accessor, at the point of serialization or header construction.
#[derive(Clone, PartialEq, Eq)]
pub struct Secret {
    value: String,
}

impl View for Secret {
    type V = Seq<char>;

    closed spec fn view(&self) -> Seq<char> {
        self.value@
    }
}

impl Secret {
    pub fn new(value: String) -> (r: Self)
        ensures
            r@ == value@,
    {
        Secret { value }
    }

    pub fn expose_secret(&self) -> (r: &str)
        ensures
            r@ == self@,
    {
        self.value.as_str()
    }
}

/// Representation of the authentication scheme a credential uses.
///
/// Absence of authentication is `Credential::repr == None`, one level up;
/// there is no "none" variant here.
#[derive(Clone, PartialEq, Eq)]
pub enum Repr {
    /// The API key is read at use time from this system environment
    /// variable; the name is upper-cased at parse time.
    EnvironmentVariable(String),

    /// Basic credentials; the password is a secret value.
    Basic { username: String, password: Secret },

    /// A pre-issued API key.
    ApiKey(Secret),
}

/// The mathematical shape of a [`Repr`]: each payload as a character
/// sequence.
pub enum ReprView {
    EnvironmentVariable(Seq<char>),
    Basic { username: Seq<char>, password: Seq<char> },
    ApiKey(Seq<char>),
}

impl View for Repr {
    type V = ReprView;

    open spec fn view(&self) -> ReprView {
        match self {
            Repr::EnvironmentVariable(name) => ReprView::EnvironmentVariable(name@),
            Repr::Basic { username, password } => ReprView::Basic {
                username: username@,
                password: password@,
            },
            Repr::ApiKey(key) => ReprView::ApiKey(key@),
        }
    }
}

/// Error thrown when parsing a [`Repr`] from a string.
#[derive(Clone, Copy, Debug, PartialEq, Eq)]
pub enum ReprStrError {
    /// More delimiters than the grammar allows.
    ExcessiveDelimiter { delim: char },

    /// The `basic:` payload is not of the form `username:password`.
    InvalidSyntax,

    /// The string starts with none of the known prefixes.
    UnknownPrefix,

    /// The input was empty.
    Empty,
}

/// The credential representation grammar:
/// `env:<VAR>` | `apikey:<token>` | `basic:<username>:<password>`.
///
/// `env:` payloads are upper-cased; a `basic:` payload must contain exactly
/// one further `:`, which separates the username from the password.
pub open spec fn spec_parse_repr(s: Seq<char>) -> Result<ReprView, ReprStrError> {
    if s.len() == 0 {
        Err(ReprStrError::Empty)
    } else if text::starts_with(s, "env:"@) {
        Ok(ReprView::EnvironmentVariable(text::upper(s.skip(4))))
    } else if text::starts_with(s, "apikey:"@) {
        Ok(ReprView::ApiKey(s.skip(7)))
    } else if text::starts_with(s, "basic:"@) {
        match s.skip(6).index_of_first(':') {
            Some(i) => {
                if s.skip(6).skip(i + 1).contains(':') {
                    Err(ReprStrError::ExcessiveDelimiter { delim: ':' })
                } else {
                    Ok(ReprView::Basic {
                        username: s.skip(6).take(i),
                        password: s.skip(6).skip(i + 1),
                    })
                }
            },
            None => Err(ReprStrError::InvalidSyntax),
        }
    } else {
        Err(ReprStrError::UnknownPrefix)
    }
}

/// The inverse of the grammar: the string that denotes a given
/// representation.
pub open spec fn spec_render_repr(v: ReprView) -> Seq<char> {
    match v {
        ReprView::EnvironmentVariable(name) => "env:"@ + name,
        ReprView::Basic { username, password } => "basic:"@ + username + seq![':'] + password,
        ReprView::ApiKey(key) => "apikey:"@ + key,
    }
}

impl Repr {
    /// Parses the credential representation grammar.
    pub fn from_str(s: &str) -> (r: Result<Repr, ReprStrError>)
        ensures
            match r {
                Ok(rep) => spec_parse_repr(s@) == Ok::<ReprView, ReprStrError>(rep@),
                Err(e) => spec_parse_repr(s@) == Err::<ReprView, ReprStrError>(e),
            },
    {
        let n = s.unicode_len();
        if n == 0 {
            return Err(ReprStrError::Empty);
        }
        if text::has_prefix(s, "env:") {
            proof {
                reveal_strlit("env:");
            }
            let rest = s.substring_char(4, n);
            let up = text::to_upper(rest);
            proof {
                assert(rest@ =~= s@.skip(4));
            }
            return Ok(Repr::EnvironmentVariable(up));
        }
        if text::has_prefix(s, "apikey:") {
            proof {
                reveal_strlit("apikey:");
            }
            let rest = s.substring_char(7, n);
            proof {
                assert(rest@ =~= s@.skip(7));
            }
            return Ok(Repr::ApiKey(Secret::new(rest.to_owned())));
        }
        if text::has_prefix(s, "basic:") {
            proof {
                reveal_strlit("basic:");
            }
            let rest = s.substring_char(6, n);
            proof {
                assert(rest@ =~= s@.skip(6));
            }
            let rest_n = rest.unicode_len();
            match text::find_char(rest, ':') {
                Some(i) => {
                    let username = rest.substring_char(0, i);
                    let password = rest.substring_char(i + 1, rest_n);
                    proof {
                        rest@.index_of_first_ensures(':');
                        assert(username@ =~= rest@.take(i as int));
                        assert(password@ =~= rest@.skip(i + 1));
                    }
                    match text::find_char(password, ':') {
                        Some(_) => {
                            proof {
                                password@.index_of_first_ensures(':');
                            }
                            Err(ReprStrError::ExcessiveDelimiter { delim: ':' })
                        },
                        None => {
                            proof {
                                password@.index_of_first_ensures(':');
                            }
                            Ok(Repr::Basic {
                                username: username.to_owned(),
                                password: Secret::new(password.to_owned()),
                            })
                        },
                    }
                },
                None => Err(ReprStrError::InvalidSyntax),
            }
        } else {
            Err(ReprStrError::UnknownPrefix)
        }
    }
}

/// Parsing is a left inverse of rendering: a rendered representation parses
/// back to itself.  The environment-variable form survives only when its
/// name is already upper-case (parsing upper-cases it: `env:path` parses to
/// `PATH`), and basic credentials survive only when neither half contains a
/// `:` (the grammar reserves it as the delimiter).
pub proof fn lemma_repr_round_trip(v: ReprView)
    requires
        match v {
            ReprView::EnvironmentVariable(name) => forall|i: int|
                0 <= i < name.len() ==> text::upper_char(#[trigger] name[i]) == name[i],
            ReprView::Basic { username, password } => !username.contains(':')
                && !password.contains(':'),
            ReprView::ApiKey(_) => true,
        },
    ensures
        spec_parse_repr(spec_render_repr(v)) == Ok::<ReprView, ReprStrError>(v),
{
    reveal_strlit("env:");
    reveal_strlit("apikey:");
    reveal_strlit("basic:");
    let s = spec_render_repr(v);
    match v {
        ReprView::EnvironmentVariable(name) => {
            assert(s.subrange(0, 4) =~= "env:"@);
            assert(s.skip(4) =~= name);
            assert(text::upper(name) =~= name);
        },
        ReprView::ApiKey(key) => {
            assert(s[0] == 'a');
            assert(!text::starts_with(s, "env:"@)) by {
                if text::starts_with(s, "env:"@) {
                    assert(s.subrange(0, 4)[0] == s[0]);
                }
            }
            assert(s.subrange(0, 7) =~= "apikey:"@);
            assert(s.skip(7) =~= key);
        },
        ReprView::Basic { username, password } => {
            assert(s[0] == 'b');
            assert(!text::starts_with(s, "env:"@)) by {
                if text::starts_with(s, "env:"@) {
                    assert(s.subrange(0, 4)[0] == s[0]);
                }
            }
            assert(!text::starts_with(s, "apikey:"@)) by {
                if text::starts_with(s, "apikey:"@) {
                    assert(s.subrange(0, 7)[0] == s[0]);
                }
            }
            assert(s.subrange(0, 6) =~= "basic:"@);
            let rest = s.skip(6);
            assert(rest =~= username + seq![':'] + password);
            let k = username.len() as int;
            assert(rest[k] == ':');
            assert(forall|j: int| 0 <= j < k ==> rest[j] == username[j]);
            rest.index_of_first_ensures(':');
            let i = rest.index_of_first(':').unwrap();
            assert(i == k) by {
                if i < k {
                    assert(rest[i] == username[i]);
                }
            }
            assert(rest.take(k) =~= username);
            assert(rest.skip(k + 1) =~= password);
        },
    }
}

/// What an encoded header value may contain: HTTP forbids control
/// characters other than tab, and delete; all other characters survive
/// UTF-8 encoding into acceptable header bytes.
pub open spec fn header_char_ok(c: char) -> bool {
    c == '\t' || ((c as int) >= 32 && (c as int) != 127)
}

pub open spec fn header_value_ok(s: Seq<char>) -> bool {
    forall|i: int| 0 <= i < s.len() ==> header_char_ok(#[trigger] s[i])
}

/// What `base64`'s standard engine produces for the given bytes.
pub uninterp spec fn base64_of(bytes: Seq<u8>) -> Seq<char>;

/// Relies on `base64`'s `Engine::encode` with the `STANDARD` engine: a
/// deterministic encoding of the input bytes, four characters for every
/// three input bytes, rounded up (padding included).
#[verifier::external_body]
fn b64_encode(bytes: &Vec<u8>) -> (r: String)
    requires
        bytes@.len() <= usize::MAX / 2,
    ensures
        r@ == base64_of(bytes@),
        r@.len() == ((bytes@.len() + 2) / 3) * 4,
{
    base64::engine::general_purpose::STANDARD.encode(bytes)
}

fn check_header_chars(s: &str) -> (r: bool)
    ensures
        r == header_value_ok(s@),
{
    let n = s.unicode_len();
    let mut i: usize = 0;
    while i < n
        invariant
            i <= n,
            n == s@.len(),
            forall|j: int| 0 <= j < i ==> header_char_ok(#[trigger] s@[j]),
        decreases n - i,
    {
        let c = s.get_char(i);
        if !(c == '\t' || (c >= ' ' && c != '\u{7f}')) {
            return false;
        }
        i += 1;
    }
    true
}

/// The header value the environment-variable and API-key forms denote:
/// `ApiKey <value>`, where for the `env:` form `value` is what the named
/// variable held when it was read.
pub open spec fn spec_api_key_header(value: Seq<char>) -> Seq<char> {
    "ApiKey "@ + value
}

/// The header value basic credentials denote: the base64 encoding of
/// `username:password`.
pub open spec fn spec_basic_header(username: Seq<char>, password: Seq<char>) -> Seq<char> {
    base64_of(vstd::utf8::encode_utf8(username + seq![':'] + password))
}

impl Repr {
    /// Turns the representation into the value of an HTTP authorization
    /// header.
    ///
    /// The `env:` form stores only the variable's *name*: its API key is
    /// the variable's value, read from the environment at use time.  The
    /// caller reads the variable and hands the result in as `env_value`
    /// (`None` when the variable is not set); the other forms ignore it.
    pub fn to_header_value(&self, env_value: Option<&str>) -> (r: Result<
        String,
        HeaderValueError,
    >)
        ensures
            match self@ {
                ReprView::EnvironmentVariable(_) => match env_value {
                    Some(value) => match r {
                        Ok(s) => s@ == spec_api_key_header(value@) && header_value_ok(s@),
                        Err(e) => e == HeaderValueError::InvalidCharacter && !header_value_ok(
                            spec_api_key_header(value@),
                        ),
                    },
                    None => r == Err::<String, HeaderValueError>(
                        HeaderValueError::MissingEnvironmentValue,
                    ),
                },
                ReprView::Basic { username, password } => {
                    let bytes = vstd::utf8::encode_utf8(username + seq![':'] + password);
                    match r {
                        Ok(s) => s@ == spec_basic_header(username, password) && bytes.len()
                            <= usize::MAX / 2,
                        Err(e) => e == HeaderValueError::TooLarge && bytes.len() > usize::MAX
                            / 2,
                    }
                },
                ReprView::ApiKey(key) => match r {
                    Ok(s) => s@ == spec_api_key_header(key) && header_value_ok(s@),
                    Err(e) => e == HeaderValueError::InvalidCharacter && !header_value_ok(
                        spec_api_key_header(key),
                    ),
                },
            },
    {
        match self {
            Repr::EnvironmentVariable(_) => match env_value {
                Some(value) => api_key_header(value),
                None => Err(HeaderValueError::MissingEnvironmentValue),
            },
            Repr::Basic { username, password } => {
                let mut joined = username.clone();
                joined.append(":");
                joined.append(password.expose_secret());
                proof {
                    reveal_strlit(":");
                    assert(joined@ =~= username@ + seq![':'] + password@);
                }
                let bytes = joined.as_str().as_bytes_vec();
                if bytes.len() <= usize::MAX / 2 {
                    Ok(b64_encode(&bytes))
                } else {
                    Err(HeaderValueError::TooLarge)
                }
            },
            Repr::ApiKey(key) => api_key_header(key.expose_secret()),
        }
    }
}

fn api_key_header(value: &str) -> (r: Result<String, HeaderValueError>)
    ensures
        match r {
            Ok(s) => s@ == spec_api_key_header(value@) && header_value_ok(s@),
            Err(e) => e == HeaderValueError::InvalidCharacter && !header_value_ok(
                spec_api_key_header(value@),
            ),
        },
{
    let mut s = "ApiKey ".to_owned();
    s.append(value);
    if check_header_chars(s.as_str()) {
        Ok(s)
    } else {
        Err(HeaderValueError::InvalidCharacter)
    }
}

/// Error thrown when a representation cannot become a header value.
#[derive(Clone, Copy, Debug, PartialEq, Eq)]
pub enum HeaderValueError {
    /// The rendered value contains a character that cannot appear in an
    /// HTTP header: a control character other than tab, or delete.
    InvalidCharacter,

    /// The credential material is too large to encode on this machine.
    TooLarge,

    /// The `env:` form names a variable that held no value when it was
    /// read.
    MissingEnvironmentValue,
}

/// A credential: a registry and, optionally, how to authenticate against
/// it.  `repr == None` means anonymous access.
#[derive(Clone, PartialEq, Eq)]
pub struct Credential {
    /// A fully qualified HTTP URI that points to the registry to use.
    pub registry: String,

    /// Representation of this credential; `None` if none is required.
    pub repr: Option<Repr>,
}

/// The mathematical shape of a [`Credential`].
pub struct CredentialView {
    pub registry: Seq<char>,
    pub repr: Option<ReprView>,
}

impl View for Credential {
    type V = CredentialView;

    open spec fn view(&self) -> CredentialView {
        CredentialView {
            registry: self.registry@,
            repr: match self.repr {
                Some(rep) => Some(rep@),
                None => None,
            },
        }
    }
}

/// Error thrown when the auth document violates its own invariant.
#[derive(Clone, Copy, Debug, PartialEq, Eq)]
pub enum AuthDocError {
    /// `current` names a context that the credential mapping does not
    /// contain: the document is corrupt.
    MissingDefaultContext,
}

/// The in-memory form of the auth document: the default context and the
/// credential of every known context, together with the path the document
/// was opened from, so that saving always targets the right file.
#[derive(Clone)]
pub struct Auth {
    /// The context that is the **default** one.
    pub current: Context,

    /// Every known context with its credential; keys stay distinct.
    pub credentials: Vec<(Context, Credential)>,

    /// The filesystem path the document was opened from, so that saving
    /// always targets the right file.
    pub opened_file_from: String,
}

impl Auth {
    /// Keys of the credential mapping are distinct.
    pub open spec fn wf(&self) -> bool {
        entries::distinct_keys(self.credentials@)
    }

    /// The document's own invariant: beyond well-formed entries, the
    /// `current` context is one of the mapped ones.
    pub open spec fn valid_document(&self) -> bool {
        self.wf() && self.credentials_map().dom().contains(self.current@)
    }

    /// The mapping the credential entries denote.
    pub open spec fn credentials_map(&self) -> Map<Seq<char>, CredentialView> {
        entries::entry_map(self.credentials@)
    }

    /// A document with no credentials yet.
    pub fn empty(current: Context, opened_file_from: String) -> (r: Auth)
        ensures
            r.wf(),
            r.current@ == current@,
            r.credentials_map() == Map::<Seq<char>, CredentialView>::empty(),
            r.credentials@.len() == 0,
            r.opened_file_from@ == opened_file_from@,
    {
        Auth { current, credentials: Vec::new(), opened_file_from }
    }

    /// The document created when no auth file exists yet: the `default`
    /// context, anonymous against the public registry.
    pub fn default_document(path: String) -> (r: Auth)
        ensures
            r.wf(),
            r.valid_document(),
            r.current@ == "default"@,
            r.credentials@.len() == 1,
            r.credentials_map() == Map::<Seq<char>, CredentialView>::empty().insert(
                "default"@,
                CredentialView { registry: "https://charts.noelware.org/api/v1"@, repr: None },
            ),
            r.opened_file_from@ == path@,
    {
        let mut doc = Auth::empty(Context::new("default"), path);
        doc.insert_credential(
            Context::new("default"),
            Credential { registry: "https://charts.noelware.org/api/v1".to_owned(), repr: None },
        );
        doc
    }

    /// Whether a context is known to the document.
    pub fn contains_context(&self, ctx: &Context) -> (r: bool)
        ensures
            r == self.credentials_map().dom().contains(ctx@),
    {
        let n = self.credentials.len();
        let mut i: usize = 0;
        while i < n
            invariant
                i <= n,
                n == self.credentials@.len(),
                forall|j: int| 0 <= j < i ==> self.credentials@[j].0@ != ctx@,
            decreases n - i,
        {
            if ctx_eq(&self.credentials[i].0, ctx) {
                proof {
                    entries::lemma_entry_map_domain(self.credentials@, ctx@);
                }
                return true;
            }
            i += 1;
        }
        proof {
            entries::lemma_entry_map_domain(self.credentials@, ctx@);
        }
        false
    }

    /// The credential of a context, if the context is known.
    pub fn credential_of(&self, ctx: &Context) -> (r: Option<&Credential>)
        requires
            self.wf(),
        ensures
            match r {
                Some(c) => self.credentials_map().dom().contains(ctx@)
                    && self.credentials_map()[ctx@] == c@,
                None => !self.credentials_map().dom().contains(ctx@),
            },
    {
        let n = self.credentials.len();
        let mut i: usize = 0;
        while i < n
            invariant
                self.wf(),
                i <= n,
                n == self.credentials@.len(),
                forall|j: int| 0 <= j < i ==> self.credentials@[j].0@ != ctx@,
            decreases n - i,
        {
            if ctx_eq(&self.credentials[i].0, ctx) {
                proof {
                    entries::lemma_entry_map_at(self.credentials@, i as int);
                }
                return Some(&self.credentials[i].1);
            }
            i += 1;
        }
        proof {
            entries::lemma_entry_map_domain(self.credentials@, ctx@);
        }
        None
    }

    /// The credential of the `current` context.  A document whose mapping
    /// lacks `current` is corrupt, and reading it reports that rather than
    /// panicking.
    pub fn current_credential(&self) -> (r: Result<&Credential, AuthDocError>)
        requires
            self.wf(),
        ensures
            match r {
                Ok(c) => self.credentials_map().dom().contains(self.current@)
                    && self.credentials_map()[self.current@] == c@,
                Err(e) => e == AuthDocError::MissingDefaultContext
                    && !self.credentials_map().dom().contains(self.current@),
            },
    {
        match self.credential_of(&self.current) {
            Some(c) => Ok(c),
            None => Err(AuthDocError::MissingDefaultContext),
        }
    }

    /// Adds or replaces the credential of a context.
    pub fn insert_credential(&mut self, ctx: Context, credential: Credential)
        requires
            old(self).wf(),
        ensures
            final(self).wf(),
            final(self).credentials_map() == old(self).credentials_map().insert(
                ctx@,
                credential@,
            ),
            final(self).credentials@.len() == if old(self).credentials_map().dom().contains(
                ctx@,
            ) {
                old(self).credentials@.len()
            } else {
                old(self).credentials@.len() + 1
            },
            final(self).current@ == old(self).current@,
            final(self).opened_file_from@ == old(self).opened_file_from@,
    {
        let n = self.credentials.len();
        let mut i: usize = 0;
        while i < n
            invariant
                *self == *old(self),
                old(self).wf(),
                i <= n,
                n == self.credentials@.len(),
                forall|j: int| 0 <= j < i ==> self.credentials@[j].0@ != ctx@,
            decreases n - i,
        {
            if ctx_eq(&self.credentials[i].0, &ctx) {
                proof {
                    entries::lemma_entry_map_update(self.credentials@, i as int, ctx, credential);
                    entries::lemma_entry_map_domain(self.credentials@, ctx@);
                }
                self.credentials.set(i, (ctx, credential));
                return ;
            }
            i += 1;
        }
        proof {
            entries::lemma_entry_map_push(self.credentials@, ctx, credential);
            entries::lemma_entry_map_domain(self.credentials@, ctx@);
        }
        self.credentials.push((ctx, credential));
    }

    /// Makes a context the default one; nothing else changes.
    pub fn set_current(&mut self, ctx: Context)
        ensures
            final(self).current@ == ctx@,
            final(self).credentials@ == old(self).credentials@,
            final(self).opened_file_from@ == old(self).opened_file_from@,
    {
        self.current = ctx;
    }
}

fn ctx_eq(a: &Context, b: &Context) -> (r: bool)
    ensures
        r == (a@ == b@),
{
    text::str_eq(a.as_str(), b.as_str())
}


/// Decides which auth file a load should touch: an explicit path wins;
/// otherwise the fixed relative filename under the per-user configuration
/// directory.
pub fn resolve_auth_path(explicit: Option<String>, config_dir: &str) -> (r: String)
    ensures
        match explicit {
            Some(p) => r@ == p@,
            None => r@ == config_dir@ + "/Noelware/charted-helm-plugin/auth.yaml"@,
        },
{
    match explicit {
        Some(p) => p,
        None => {
            let mut s = config_dir.to_owned();
            s.append("/Noelware/charted-helm-plugin/auth.yaml");
            s
        },
    }
}

} // verus!
