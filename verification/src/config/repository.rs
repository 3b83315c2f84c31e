//! Repository entries of the configuration document, and the publish
//! policy that controls which registries may receive a push.

use vstd::prelude::*;
use crate::text;
use super::Config;

verus! {

/// Whether, and where, a repository may be published.
#[derive(Clone, Debug, PartialEq, Eq)]
pub enum Publish {
    /// A simple toggle: `true` allows every registry, `false` none.
    Toggle(bool),

    /// The names of the registries that may receive this repository.
    Registry(Vec<String>),
}

/// The mathematical shape of a [`Publish`] policy.
pub enum PublishView {
    Toggle(bool),
    Registry(Seq<Seq<char>>),
}

impl View for Publish {
    type V = PublishView;

    open spec fn view(&self) -> PublishView {
        match self {
            Publish::Toggle(b) => PublishView::Toggle(*b),
            Publish::Registry(names) => PublishView::Registry(
                names@.map_values(|s: String| s@),
            ),
        }
    }
}

impl Default for Publish {
    /// The default policy allows every registry.
    fn default() -> (r: Publish)
        ensures
            r@ == PublishView::Toggle(true),
    {
        Publish::Toggle(true)
    }
}

impl Publish {
    /// Whether the policy is the default allow-all toggle; such a policy is
    /// omitted when the document is serialized.
    pub fn is_truthy(&self) -> (r: bool)
        ensures
            r == (self@ == PublishView::Toggle(true)),
    {
        match self {
            Publish::Toggle(b) => *b,
            Publish::Registry(_) => false,
        }
    }
}

/// Error thrown when a publish policy is checked against an undeclared
/// registry.
#[derive(Clone, Debug, PartialEq, Eq)]
pub enum PublishError {
    /// The named registry is not declared in the configuration.
    UnknownRegistry { name: String },
}

/// A repository the plugin manages: where it lives and whether it may be
/// published.
#[derive(Clone, Debug, PartialEq, Eq)]
pub struct Repository {
    /// Source location where the repository lives.
    pub source: String,

    /// Whether this repository can be published to registries.
    pub publish: Publish,

    /// Location of a README file, when one is declared.
    pub readme: Option<String>,
}

/// The mathematical shape of a [`Repository`].
pub struct RepositoryView {
    pub source: Seq<char>,
    pub publish: PublishView,
    pub readme: Option<Seq<char>>,
}

impl View for Repository {
    type V = RepositoryView;

    open spec fn view(&self) -> RepositoryView {
        RepositoryView {
            source: self.source@,
            publish: self.publish@,
            readme: match self.readme {
                Some(p) => Some(p@),
                None => None,
            },
        }
    }
}

impl Repository {
    /// Resolves the publish policy against a registry name.  A toggle
    /// decides by itself; an allow-list first demands that the registry be
    /// declared in the configuration, and then answers membership.
    pub fn is_publish_allowed(&self, config: &Config, registry: &str) -> (r: Result<
        bool,
        PublishError,
    >)
        ensures
            match self@.publish {
                PublishView::Toggle(b) => r == Ok::<bool, PublishError>(b),
                PublishView::Registry(allowed) => {
                    if config.registries_map().dom().contains(registry@) {
                        r == Ok::<bool, PublishError>(allowed.contains(registry@))
                    } else {
                        r matches Err(PublishError::UnknownRegistry { name }) && name@
                            == registry@
                    }
                },
            },
    {
        match &self.publish {
            Publish::Toggle(toggle) => Ok(*toggle),
            Publish::Registry(allowed) => {
                if !config.contains_registry(registry) {
                    return Err(PublishError::UnknownRegistry { name: registry.to_owned() });
                }
                let n = allowed.len();
                let mut i: usize = 0;
                while i < n
                    invariant
                        i <= n,
                        n == allowed@.len(),
                        self@.publish == PublishView::Registry(
                            allowed@.map_values(|s: String| s@),
                        ),
                        config.registries_map().dom().contains(registry@),
                        forall|j: int| 0 <= j < i ==> allowed@[j]@ != registry@,
                    decreases n - i,
                {
                    if text::str_eq(allowed[i].as_str(), registry) {
                        proof {
                            assert(allowed@.map_values(|s: String| s@)[i as int] == registry@);
                        }
                        return Ok(true);
                    }
                    i += 1;
                }
                proof {
                    let al = allowed@.map_values(|s: String| s@);
                    if al.contains(registry@) {
                        let j = choose|j: int| 0 <= j < al.len() && al[j] == registry@;
                        assert(allowed@[j]@ == registry@);
                    }
                }
                Ok(false)
            },
        }
    }
}

} // verus!
