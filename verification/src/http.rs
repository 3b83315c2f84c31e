//! Certificate references for the HTTP client: which file to load and in
//! which format.  The client itself is an external collaborator; this
//! module only parses the reference grammar.

use vstd::prelude::*;
use crate::text;

verus! {

/// Certificate format.
#[derive(Clone, Copy, Debug, PartialEq, Eq)]
pub enum CertKind {
    Pem,
    Der,
}

impl Default for CertKind {
    /// A path without a telling extension is read as PEM.
    fn default() -> (r: CertKind)
        ensures
            r == CertKind::Pem,
    {
        CertKind::Pem
    }
}

/// A certificate that the HTTP client will load: useful when the server
/// uses a custom or self-signed certificate.
#[derive(Clone, Debug, PartialEq, Eq)]
pub struct Certificate {
    path: String,
    kind: CertKind,
}

/// The mathematical shape of a [`Certificate`].
pub struct CertificateView {
    pub path: Seq<char>,
    pub kind: CertKind,
}

impl View for Certificate {
    type V = CertificateView;

    closed spec fn view(&self) -> CertificateView {
        CertificateView { path: self.path@, kind: self.kind }
    }
}

/// Error thrown when parsing a [`Certificate`] from a string.
#[derive(Clone, Debug, PartialEq, Eq)]
pub enum CertificateFromStrError {
    /// The format could not be inferred from the path.
    UnknownExtension { path: String },

    /// The path carries an extension other than `.pem` or `.der`.
    InvalidExtension { path: String, ext: String },

    /// The extension is not valid Unicode.
    NotUnicode,

    /// The input was empty.
    Empty,
}

/// The mathematical shape of a [`CertificateFromStrError`].
pub enum CertificateFromStrErrorView {
    UnknownExtension { path: Seq<char> },
    InvalidExtension { path: Seq<char>, ext: Seq<char> },
    NotUnicode,
    Empty,
}

impl View for CertificateFromStrError {
    type V = CertificateFromStrErrorView;

    open spec fn view(&self) -> CertificateFromStrErrorView {
        match self {
            CertificateFromStrError::UnknownExtension { path } => {
                CertificateFromStrErrorView::UnknownExtension { path: path@ }
            },
            CertificateFromStrError::InvalidExtension { path, ext } => {
                CertificateFromStrErrorView::InvalidExtension { path: path@, ext: ext@ }
            },
            CertificateFromStrError::NotUnicode => CertificateFromStrErrorView::NotUnicode,
            CertificateFromStrError::Empty => CertificateFromStrErrorView::Empty,
        }
    }
}

/// What `std::path::Path::extension` yields for this path string: the part
/// of the final component after its last `.`, when one exists.  The input
/// here is always valid Unicode, so the extension is too.
pub uninterp spec fn extension_of(path: Seq<char>) -> Option<Seq<char>>;

/// Relies on `std::path::Path::extension` (with the `OsStr` to `str`
/// conversion, which cannot fail on input that is already a `str`).
#[verifier::external_body]
fn path_extension(path: &str) -> (r: Option<String>)
    ensures
        match r {
            Some(e) => extension_of(path@) == Some(e@),
            None => extension_of(path@) is None,
        },
{
    std::path::Path::new(path).extension().and_then(|e| e.to_str()).map(|e| e.to_owned())
}

/// The certificate reference grammar: an explicit `pem:<path>` or
/// `der:<path>` prefix wins; otherwise the path's extension decides, with
/// `.pem` assumed when there is no extension at all.
pub open spec fn spec_parse_certificate(s: Seq<char>) -> Result<
    CertificateView,
    CertificateFromStrErrorView,
> {
    if s.len() == 0 {
        Err(CertificateFromStrErrorView::Empty)
    } else if text::starts_with(s, "pem:"@) {
        Ok(CertificateView { path: s.skip(4), kind: CertKind::Pem })
    } else if text::starts_with(s, "der:"@) {
        Ok(CertificateView { path: s.skip(4), kind: CertKind::Der })
    } else {
        match extension_of(s) {
            Some(ext) => {
                if ext == "pem"@ {
                    Ok(CertificateView { path: s, kind: CertKind::Pem })
                } else if ext == "der"@ {
                    Ok(CertificateView { path: s, kind: CertKind::Der })
                } else {
                    Err(CertificateFromStrErrorView::InvalidExtension { path: s, ext })
                }
            },
            None => Ok(CertificateView { path: s, kind: CertKind::Pem }),
        }
    }
}

impl Certificate {
    /// Parses the certificate reference grammar.
    pub fn from_str(s: &str) -> (r: Result<Certificate, CertificateFromStrError>)
        ensures
            match r {
                Ok(c) => spec_parse_certificate(s@) == Ok::<
                    CertificateView,
                    CertificateFromStrErrorView,
                >(c@),
                Err(e) => spec_parse_certificate(s@) == Err::<
                    CertificateView,
                    CertificateFromStrErrorView,
                >(e@),
            },
    {
        let n = s.unicode_len();
        if n == 0 {
            return Err(CertificateFromStrError::Empty);
        }
        if text::has_prefix(s, "pem:") {
            proof {
                reveal_strlit("pem:");
            }
            let path = s.substring_char(4, n);
            proof {
                assert(path@ =~= s@.skip(4));
            }
            return Ok(Certificate { path: path.to_owned(), kind: CertKind::Pem });
        }
        if text::has_prefix(s, "der:") {
            proof {
                reveal_strlit("der:");
            }
            let path = s.substring_char(4, n);
            proof {
                assert(path@ =~= s@.skip(4));
            }
            return Ok(Certificate { path: path.to_owned(), kind: CertKind::Der });
        }
        match path_extension(s) {
            Some(ext) => {
                if text::str_eq(ext.as_str(), "pem") {
                    Ok(Certificate { path: s.to_owned(), kind: CertKind::Pem })
                } else if text::str_eq(ext.as_str(), "der") {
                    Ok(Certificate { path: s.to_owned(), kind: CertKind::Der })
                } else {
                    Err(CertificateFromStrError::InvalidExtension { path: s.to_owned(), ext })
                }
            },
            None => Ok(Certificate { path: s.to_owned(), kind: CertKind::Pem }),
        }
    }

    /// The file the certificate is loaded from.
    pub fn path(&self) -> (r: &str)
        ensures
            r@ == self@.path,
    {
        self.path.as_str()
    }

    /// The format the file is read as.
    pub fn kind(&self) -> (r: CertKind)
        ensures
            r == self@.kind,
    {
        self.kind
    }
}

} // verus!
