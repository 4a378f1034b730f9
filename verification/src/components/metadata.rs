//! Optional filesystem-semantic annotations that a node definition may carry:
//! a volume flag, permissions, an owner and an environment variable name.

use vstd::prelude::*;

verus! {

/// One attribute inside a metadata annotation, as the metadata grammar
/// produces it. `Separator` stands for the comma between attributes and is
/// never kept in a finished [`Metadata`] value.
#[derive(Debug, PartialEq, Eq, Clone)]
pub enum MetadataComponent {
    Volume,
    Permissions(String),
    EnvVarName(String),
    Owner(String),
    Separator,
}

/// The mathematical value of a [`MetadataComponent`].
pub enum MetadataComponentView {
    Volume,
    Permissions(Seq<char>),
    EnvVarName(Seq<char>),
    Owner(Seq<char>),
    Separator,
}

impl View for MetadataComponent {
    type V = MetadataComponentView;

    open spec fn view(&self) -> MetadataComponentView {
        match self {
            MetadataComponent::Volume => MetadataComponentView::Volume,
            MetadataComponent::Permissions(p) => MetadataComponentView::Permissions(p@),
            MetadataComponent::EnvVarName(v) => MetadataComponentView::EnvVarName(v@),
            MetadataComponent::Owner(o) => MetadataComponentView::Owner(o@),
            MetadataComponent::Separator => MetadataComponentView::Separator,
        }
    }
}

/// View of a sequence of metadata components.
pub open spec fn components_view(s: Seq<MetadataComponent>) -> Seq<MetadataComponentView> {
    s.map_values(|c: MetadataComponent| c@)
}

/// The metadata value with every attribute at its default.
pub open spec fn spec_default_metadata() -> MetadataView {
    MetadataView { volume: false, permissions: None, varname: None, owner: None }
}

/// The collected annotations of one node. Absence of an annotation is the
/// default: not a volume, no permissions, no variable name, no owner.
#[derive(Debug, PartialEq, Eq, Clone)]
pub struct Metadata {
    pub volume: bool,
    pub permissions: Option<String>,
    pub varname: Option<String>,
    pub owner: Option<String>,
}

/// The mathematical value of a [`Metadata`]: the same four attributes with
/// every string replaced by its sequence of characters.
pub struct MetadataView {
    pub volume: bool,
    pub permissions: Option<Seq<char>>,
    pub varname: Option<Seq<char>>,
    pub owner: Option<Seq<char>>,
}

impl View for Metadata {
    type V = MetadataView;

    open spec fn view(&self) -> MetadataView {
        MetadataView {
            volume: self.volume,
            permissions: match self.permissions {
                Some(p) => Some(p@),
                None => None,
            },
            varname: match self.varname {
                Some(v) => Some(v@),
                None => None,
            },
            owner: match self.owner {
                Some(o) => Some(o@),
                None => None,
            },
        }
    }
}

impl Metadata {
    /// A metadata value with every attribute at its default.
    pub fn new() -> (r: Self)
        ensures
            r == (Metadata {
                volume: false,
                permissions: None::<String>,
                varname: None::<String>,
                owner: None::<String>,
            }),
    {
        Self { volume: false, permissions: None, varname: None, owner: None }
    }

    /// True when no attribute differs from its default.
    pub fn is_empty(&self) -> (r: bool)
        ensures
            r == (!self.volume && self.permissions is None && self.varname is None
                && self.owner is None),
    {
        self.volume == false && self.permissions.is_none() && self.varname.is_none()
            && self.owner.is_none()
    }

    /// Set the volume flag, returning the moved value for fluent chaining.
    pub fn set_volume(self, val: bool) -> (r: Self)
        ensures
            r == (Metadata { volume: val, ..self }),
    {
        Self { volume: val, ..self }
    }

    pub fn is_volume(&self) -> (r: bool)
        ensures
            r == self.volume,
    {
        self.volume
    }

    /// Retrieve whether the metadata has volume set.
    pub fn volume(&self) -> (r: bool)
        ensures
            r == self.volume,
    {
        self.volume
    }

    pub fn set_permissions(self, perms: Option<String>) -> (r: Self)
        ensures
            r == (Metadata { permissions: perms, ..self }),
    {
        Self { permissions: perms, ..self }
    }

    pub fn permissions(&self) -> (r: Option<&String>)
        ensures
            r is Some <==> self.permissions is Some,
            r is Some ==> *r->0 == self.permissions->0,
    {
        self.permissions.as_ref()
    }

    pub fn set_varname(self, varname: Option<String>) -> (r: Self)
        ensures
            r == (Metadata { varname: varname, ..self }),
    {
        Self { varname: varname, ..self }
    }

    pub fn varname(&self) -> (r: Option<&String>)
        ensures
            r is Some <==> self.varname is Some,
            r is Some ==> *r->0 == self.varname->0,
    {
        self.varname.as_ref()
    }

    pub fn set_owner(self, owner: Option<String>) -> (r: Self)
        ensures
            r == (Metadata { owner: owner, ..self }),
    {
        Self { owner: owner, ..self }
    }

    pub fn owner(&self) -> (r: Option<&String>)
        ensures
            r is Some <==> self.owner is Some,
            r is Some ==> *r->0 == self.owner->0,
    {
        self.owner.as_ref()
    }
}

} // verus!
