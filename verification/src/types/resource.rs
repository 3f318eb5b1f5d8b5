use crate::types::common::Timestamp;
use vstd::prelude::*;

verus! {

/// The namespace a resource lives in.
#[derive(Clone, Debug, PartialEq, Eq)]
pub enum ResourceNamespace {
    /// Resources shipped with the server.
    Aura,
    /// The icons of users, keyed by the user id.
    UserIcon,
    /// The files shared in the channel with the given id.
    Channel(String),
}

/// A namespace as a contract sees it.
pub enum NamespaceView {
    Aura,
    UserIcon,
    Channel(Seq<char>),
}

impl View for ResourceNamespace {
    type V = NamespaceView;

    open spec fn view(&self) -> NamespaceView {
        match self {
            ResourceNamespace::Aura => NamespaceView::Aura,
            ResourceNamespace::UserIcon => NamespaceView::UserIcon,
            ResourceNamespace::Channel(id) => NamespaceView::Channel(id@),
        }
    }
}

/// The kind of a namespace, as it is stored in the database.
#[derive(Clone, Copy, Debug, PartialEq, Eq, Structural)]
pub enum ResourceNamespaceType {
    Aura,
    UserIcon,
    Channel,
}

/// The identifier of a resource: its namespace and its key in that namespace.
#[derive(Clone, Debug, PartialEq, Eq)]
pub struct ResourceId {
    pub namespace: ResourceNamespace,
    pub key: String,
}

/// The kind of a namespace.
pub open spec fn spec_namespace_type(ns: ResourceNamespace) -> ResourceNamespaceType {
    match ns {
        ResourceNamespace::Aura => ResourceNamespaceType::Aura,
        ResourceNamespace::UserIcon => ResourceNamespaceType::UserIcon,
        ResourceNamespace::Channel(_) => ResourceNamespaceType::Channel,
    }
}

/// The namespace id stored beside the kind: the channel id for a channel, else
/// the empty string.
pub open spec fn spec_namespace_id(ns: ResourceNamespace) -> Seq<char> {
    match ns {
        ResourceNamespace::Channel(id) => id@,
        _ => Seq::empty(),
    }
}

impl ResourceNamespaceType {
    /// The kind of the given namespace.
    pub fn from_namespace(namespace: &ResourceNamespace) -> (t: ResourceNamespaceType)
        ensures
            t == spec_namespace_type(*namespace),
    {
        match namespace {
            ResourceNamespace::Aura => ResourceNamespaceType::Aura,
            ResourceNamespace::UserIcon => ResourceNamespaceType::UserIcon,
            ResourceNamespace::Channel(_) => ResourceNamespaceType::Channel,
        }
    }
}

/// How a namespace is displayed: `aura`, `user_icon`, or `channel:` followed
/// by the channel id.
pub open spec fn spec_namespace_text(ns: ResourceNamespace) -> Seq<char> {
    match ns {
        ResourceNamespace::Aura => "aura"@,
        ResourceNamespace::UserIcon => "user_icon"@,
        ResourceNamespace::Channel(id) => "channel:"@ + id@,
    }
}

impl ResourceNamespace {
    /// How the namespace is displayed.
    pub fn to_display_string(&self) -> (s: String)
        ensures
            s@ == spec_namespace_text(*self),
    {
        match self {
            ResourceNamespace::Aura => String::from_str("aura"),
            ResourceNamespace::UserIcon => String::from_str("user_icon"),
            ResourceNamespace::Channel(id) => String::from_str("channel:").concat(id.as_str()),
        }
    }

    /// The namespace id stored in the database beside the namespace kind.
    pub fn namespace_id(&self) -> (id: String)
        ensures
            id@ == spec_namespace_id(*self),
    {
        match self {
            ResourceNamespace::Channel(id) => id.clone(),
            _ => String::new(),
        }
    }

    /// The namespace stored in the database as the given kind and id.
    pub fn from_db(namespace_type: ResourceNamespaceType, namespace_id: String) -> (ns:
        ResourceNamespace)
        ensures
            ns@ == spec_namespace_from_db(namespace_type, namespace_id@),
    {
        match namespace_type {
            ResourceNamespaceType::Aura => ResourceNamespace::Aura,
            ResourceNamespaceType::UserIcon => ResourceNamespace::UserIcon,
            ResourceNamespaceType::Channel => ResourceNamespace::Channel(namespace_id),
        }
    }
}

/// The namespace that the database columns of a namespace give back: the kind
/// decides, and only a channel reads the id.
pub open spec fn spec_namespace_from_db(t: ResourceNamespaceType, id: Seq<char>) -> NamespaceView {
    match t {
        ResourceNamespaceType::Aura => NamespaceView::Aura,
        ResourceNamespaceType::UserIcon => NamespaceView::UserIcon,
        ResourceNamespaceType::Channel => NamespaceView::Channel(id),
    }
}

/// Storing a namespace as its kind and id and reading it back gives the same
/// namespace.
pub proof fn law_namespace_db_round_trip(ns: ResourceNamespace)
    ensures
        spec_namespace_from_db(spec_namespace_type(ns), spec_namespace_id(ns)) == ns@,
{
}

impl ResourceId {
    /// How the id is displayed: its namespace, a colon, and its key.
    pub fn to_display_string(&self) -> (s: String)
        ensures
            s@ == spec_namespace_text(self.namespace) + ":"@ + self.key@,
    {
        let mut s = self.namespace.to_display_string();
        s.append(":");
        s.append(self.key.as_str());
        s
    }

    /// The icon every new user starts with.
    pub fn default_user_icon() -> (id: ResourceId)
        ensures
            id.namespace == ResourceNamespace::Aura,
            id.key@ == "default_icon.png"@,
    {
        ResourceId { namespace: ResourceNamespace::Aura, key: String::from_str("default_icon.png") }
    }
}

/// A string key and value of the free-form metadata of a resource.
#[derive(Clone, Debug, PartialEq, Eq)]
pub struct MetaEntry {
    pub key: String,
    pub value: String,
}

/// What is known of a stored resource besides its bytes.
#[derive(Clone, Debug)]
pub struct ResourceMeta {
    pub size: u32,
    pub timestamp: Timestamp,
    pub name: String,
    pub metadata: Vec<MetaEntry>,
}

/// A resource: its identifier, its metadata and the user who uploaded it.
#[derive(Clone, Debug)]
pub struct ResourceDescriptor {
    pub resource_id: ResourceId,
    pub meta: ResourceMeta,
    pub user_id: String,
}

} // verus!
