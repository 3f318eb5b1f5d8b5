//! The rules for resources: who may download or upload one, and where its
//! bytes are kept.
use crate::error::{failure, outcome, Error, ErrorCode, Failure};
use crate::logic::chat::{channel_wf, members_of, spec_member_perm, Members};
use crate::types::chat::{Channel, ChannelPermission};
use crate::types::common::Timestamp;
use crate::types::resource::{ResourceDescriptor, ResourceId, ResourceMeta, ResourceNamespace};
use crate::utils::generate_unique_id;
use crate::utils::{is_ident_char, spec_is_valid_ident, str_eq};
use vstd::prelude::*;

verus! {

/// Who may download a resource: anyone for the server's own resources and the
/// user icons, the members for the files of a channel.
pub open spec fn spec_download(ns: ResourceNamespace, ch: Option<Members>, user: Seq<char>) -> Result<
    bool,
    Failure,
> {
    match ns {
        ResourceNamespace::Aura => Ok(true),
        ResourceNamespace::UserIcon => Ok(true),
        ResourceNamespace::Channel(_) => match ch {
            None => Err((ErrorCode::NotFound, "Channel not found"@)),
            Some(m) => Ok(m.contains_key(user)),
        },
    }
}

/// Who may upload a resource: no one into the server's own resources, a user
/// only its own icon, and the members with the right to write into a channel.
pub open spec fn spec_upload(
    ns: ResourceNamespace,
    key: Seq<char>,
    ch: Option<Members>,
    user: Seq<char>,
) -> Result<bool, Failure> {
    match ns {
        ResourceNamespace::Aura => Ok(false),
        ResourceNamespace::UserIcon => Ok(key == user),
        ResourceNamespace::Channel(_) => match spec_member_perm(ch, user) {
            Err(f) => Err(f),
            Ok(p) => Ok(p.spec_is_write_authorized()),
        },
    }
}

/// Checks that a resource about to be created does not exist yet.
pub fn create(exists: bool) -> (r: Result<(), Error>)
    ensures
        r is Ok <==> !exists,
        r matches Err(e) ==> failure(e) == (ErrorCode::AlreadyExists, "Resource already exists"@),
{
    if exists {
        return Err(Error::already_exists("Resource already exists"));
    }
    Ok(())
}

/// Whether `user` may download the resource; `channel` is the channel that a
/// channel namespace names, as the store holds it.
pub fn is_download_authorized(desc: &ResourceDescriptor, channel: Option<&Channel>, user: &str) -> (r:
    Result<bool, Error>)
    requires
        channel_wf(channel),
    ensures
        outcome(r) == spec_download(desc.resource_id.namespace, members_of(channel), user@),
{
    match &desc.resource_id.namespace {
        ResourceNamespace::Aura => Ok(true),
        ResourceNamespace::UserIcon => Ok(true),
        ResourceNamespace::Channel(_) => match channel {
            None => Err(Error::not_found("Channel not found")),
            Some(c) => Ok(c.contains_member(user)),
        },
    }
}

/// Whether `user_id` may upload the resource; `channel` is the channel that a
/// channel namespace names, as the store holds it.
pub fn is_upload_authorized(desc: &ResourceDescriptor, channel: Option<&Channel>, user_id: &str) -> (r:
    Result<bool, Error>)
    requires
        channel_wf(channel),
    ensures
        outcome(r) == spec_upload(
            desc.resource_id.namespace,
            desc.resource_id.key@,
            members_of(channel),
            user_id@,
        ),
{
    match &desc.resource_id.namespace {
        ResourceNamespace::Aura => Ok(false),
        ResourceNamespace::UserIcon => Ok(str_eq(desc.resource_id.key.as_str(), user_id)),
        ResourceNamespace::Channel(_) => {
            let p = crate::logic::chat::get_channel_member_perm(channel, user_id)?;
            Ok(p.is_write_authorized())
        },
    }
}

/// The directory, below the resource directory, that holds the files of a
/// namespace.
pub open spec fn spec_namespace_dir(ns: ResourceNamespace) -> Seq<char> {
    match ns {
        ResourceNamespace::Aura => "aura"@,
        ResourceNamespace::UserIcon => "user_icon"@,
        ResourceNamespace::Channel(id) => "channel."@ + id@,
    }
}

/// The directory, below the resource directory, that holds the files of a
/// namespace: `aura`, `user_icon`, or `channel.` followed by the channel id.
pub fn namespace_dir(ns: &ResourceNamespace) -> (d: String)
    ensures
        d@ == spec_namespace_dir(*ns),
{
    match ns {
        ResourceNamespace::Aura => String::from_str("aura"),
        ResourceNamespace::UserIcon => String::from_str("user_icon"),
        ResourceNamespace::Channel(id) => {
            let d = String::from_str("channel.");
            d.concat(id.as_str())
        },
    }
}

/// The path of the file that holds a resource, as its parts: the resource
/// directory, the directory of the namespace, and the key.
pub fn build_path(resource_dir: &str, id: &ResourceId) -> (p: Vec<String>)
    ensures
        p@.len() == 3,
        p@[0]@ == resource_dir@,
        p@[1]@ == spec_namespace_dir(id.namespace),
        p@[2]@ == id.key@,
{
    let mut p: Vec<String> = Vec::new();
    p.push(String::from_str(resource_dir));
    p.push(namespace_dir(&id.namespace));
    p.push(id.key.clone());
    p
}

/// Two different namespaces keep their files in different directories.
pub proof fn law_namespace_dirs_are_distinct(a: ResourceNamespace, b: ResourceNamespace)
    requires
        spec_namespace_dir(a) == spec_namespace_dir(b),
    ensures
        match (a, b) {
            (ResourceNamespace::Channel(x), ResourceNamespace::Channel(y)) => x@ == y@,
            (ResourceNamespace::Aura, ResourceNamespace::Aura) => true,
            (ResourceNamespace::UserIcon, ResourceNamespace::UserIcon) => true,
            _ => false,
        },
{
    reveal_strlit("aura");
    reveal_strlit("user_icon");
    reveal_strlit("channel.");
    match (a, b) {
        (ResourceNamespace::Channel(x), ResourceNamespace::Channel(y)) => {
            assert(x@ =~= spec_namespace_dir(a).subrange(8, spec_namespace_dir(a).len() as int));
            assert(y@ =~= spec_namespace_dir(b).subrange(8, spec_namespace_dir(b).len() as int));
        },
        (ResourceNamespace::Channel(x), _) => {
            assert(spec_namespace_dir(a)[0] == 'c');
        },
        (_, ResourceNamespace::Channel(y)) => {
            assert(spec_namespace_dir(b)[0] == 'c');
        },
        (ResourceNamespace::Aura, ResourceNamespace::UserIcon) => {
            assert("aura"@.len() == 4 && "user_icon"@.len() == 9);
        },
        (ResourceNamespace::UserIcon, ResourceNamespace::Aura) => {
            assert("aura"@.len() == 4 && "user_icon"@.len() == 9);
        },
        _ => {},
    }
}

/// An identifier that may name a file: not empty, and only alphanumeric
/// characters and underscores.
pub open spec fn is_file_ident(s: Seq<char>) -> bool {
    s.len() > 0 && spec_is_valid_ident(s)
}

/// A resource id whose key, and whose channel id where it is in a channel,
/// are file identifiers.
pub open spec fn has_file_idents(id: ResourceId) -> bool {
    &&& is_file_ident(id.key@)
    &&& (id.namespace matches ResourceNamespace::Channel(c) ==> is_file_ident(c@))
}

/// A path component that stays where it is put: not empty, without `/`, and
/// neither `.` nor `..`.
pub open spec fn is_plain_component(s: Seq<char>) -> bool {
    &&& s.len() > 0
    &&& !s.contains('/')
    &&& s != seq!['.']
    &&& s != seq!['.', '.']
}

/// The path of the file of a resource, its parts joined with `/`.
pub open spec fn spec_path_text(resource_dir: Seq<char>, id: ResourceId) -> Seq<char> {
    resource_dir + seq!['/'] + spec_namespace_dir(id.namespace) + seq!['/'] + id.key@
}

proof fn lemma_ident_plain(s: Seq<char>)
    requires
        is_file_ident(s),
    ensures
        is_plain_component(s),
        !s.contains('.'),
{
    assert(!is_ident_char('/'));
    assert(!is_ident_char('.'));
    if s.contains('/') {
        let i = choose|i: int| 0 <= i < s.len() && s[i] == '/';
        assert(is_ident_char(s[i]));
    }
    if s.contains('.') {
        let i = choose|i: int| 0 <= i < s.len() && s[i] == '.';
        assert(is_ident_char(s[i]));
    }
    if s == seq!['.'] {
        assert(s[0] == '.');
        assert(s.contains('.'));
    }
    if s == seq!['.', '.'] {
        assert(s[0] == '.');
        assert(s.contains('.'));
    }
}

/// The file of a resource whose names are file identifiers lies exactly two
/// levels below the resource directory: the namespace directory and the key
/// are plain path components.
pub proof fn law_resource_path_stays_below(id: ResourceId)
    requires
        has_file_idents(id),
    ensures
        is_plain_component(spec_namespace_dir(id.namespace)),
        is_plain_component(id.key@),
{
    reveal_strlit("aura");
    reveal_strlit("user_icon");
    reveal_strlit("channel.");
    lemma_ident_plain(id.key@);
    let d = spec_namespace_dir(id.namespace);
    match id.namespace {
        ResourceNamespace::Aura => {
            assert(d =~= seq!['a', 'u', 'r', 'a']);
        },
        ResourceNamespace::UserIcon => {
            assert(d =~= seq!['u', 's', 'e', 'r', '_', 'i', 'c', 'o', 'n']);
        },
        ResourceNamespace::Channel(c) => {
            lemma_ident_plain(c@);
            assert(d.len() > 8);
            if d.contains('/') {
                let i = choose|i: int| 0 <= i < d.len() && d[i] == '/';
                if i < 8 {
                    assert(d[i] == "channel."@[i]);
                } else {
                    assert(d[i] == c@[i - 8]);
                    assert(c@.contains('/'));
                }
            }
        },
    }
    if d.contains('/') {
        let i = choose|i: int| 0 <= i < d.len() && d[i] == '/';
        assert(d[i] != '/');
    }
}

proof fn lemma_last_part_equal(x1: Seq<char>, k1: Seq<char>, x2: Seq<char>, k2: Seq<char>)
    requires
        x1 + seq!['/'] + k1 == x2 + seq!['/'] + k2,
        !k1.contains('/'),
        !k2.contains('/'),
    ensures
        k1 == k2,
        x1 == x2,
{
    let w1 = x1 + seq!['/'];
    let v1 = x2 + seq!['/'];
    let w = w1 + k1;
    let v = v1 + k2;
    assert(w.len() == v.len());
    if k1.len() < k2.len() {
        let p = x1.len() as int;
        assert(w[p] == w1[p]);
        assert(w1[p] == '/');
        assert(p >= v1.len());
        assert(v[p] == k2[p - v1.len()]);
        assert(k2[p - v1.len()] == '/');
        assert(k2.contains('/'));
    }
    if k2.len() < k1.len() {
        let p = x2.len() as int;
        assert(v[p] == v1[p]);
        assert(v1[p] == '/');
        assert(p >= w1.len());
        assert(w[p] == k1[p - w1.len()]);
        assert(k1[p - w1.len()] == '/');
        assert(k1.contains('/'));
    }
    assert(k1 =~= w.skip(x1.len() + 1int));
    assert(k2 =~= v.skip(x2.len() + 1int));
    assert(x1 =~= w.take(x1.len() as int));
    assert(x2 =~= v.take(x2.len() as int));
}

/// Two resources whose names are file identifiers and whose paths below the
/// same directory are equal are the same resource.
pub proof fn law_resource_paths_are_distinct(resource_dir: Seq<char>, a: ResourceId, b: ResourceId)
    requires
        has_file_idents(a),
        has_file_idents(b),
        spec_path_text(resource_dir, a) == spec_path_text(resource_dir, b),
    ensures
        a.namespace@ == b.namespace@,
        a.key@ == b.key@,
{
    law_resource_path_stays_below(a);
    law_resource_path_stays_below(b);
    let da = spec_namespace_dir(a.namespace);
    let db = spec_namespace_dir(b.namespace);
    assert(spec_path_text(resource_dir, a) =~= (resource_dir + seq!['/'] + da) + seq!['/'] + a.key@);
    assert(spec_path_text(resource_dir, b) =~= (resource_dir + seq!['/'] + db) + seq!['/'] + b.key@);
    lemma_last_part_equal(resource_dir + seq!['/'] + da, a.key@, resource_dir + seq!['/'] + db, b.key@);
    assert(da =~= (resource_dir + seq!['/'] + da).skip(resource_dir.len() + 1int));
    assert(db =~= (resource_dir + seq!['/'] + db).skip(resource_dir.len() + 1int));
    law_namespace_dirs_are_distinct(a.namespace, b.namespace);
    match (a.namespace, b.namespace) {
        (ResourceNamespace::Channel(x), ResourceNamespace::Channel(y)) => {
            assert(x@ == y@);
        },
        _ => {},
    }
}

/// What one request of an upload stream carries.
#[derive(Debug)]
pub enum UploadPayload {
    /// The metadata of the resource; only the first request carries it.
    Meta(ResourceMeta),
    /// The next bytes of the resource.
    Data(Vec<u8>),
}

/// One request of an upload stream.
#[derive(Debug)]
pub struct UploadRequest {
    /// The namespace to upload into; the first request names it.
    pub namespace: Option<ResourceNamespace>,
    pub payload: Option<UploadPayload>,
}

/// The descriptor of a resource that `user_id` starts to upload with the first
/// request of the stream, if there is one: the request names the namespace and
/// carries the metadata; the resource gets a fresh key, and the time of the
/// upload replaces the time in the metadata.
pub fn start_upload(first: Option<UploadRequest>, user_id: &str) -> (r: Result<
    ResourceDescriptor,
    Error,
>)
    ensures
        first is None ==> r is Err && failure(r->Err_0) == (
            ErrorCode::InvalidFormat,
            "First request must be meta request"@,
        ),
        first matches Some(req) ==> match (req.namespace, req.payload) {
            (None, _) => r is Err && failure(r->Err_0) == (ErrorCode::InvalidFormat, "Namespace not provided"@),
            (Some(_), None) => r is Err && failure(r->Err_0) == (
                ErrorCode::InvalidFormat,
                "Payload not provided"@,
            ),
            (Some(_), Some(UploadPayload::Data(_))) => r is Err && failure(r->Err_0) == (
                ErrorCode::InvalidFormat,
                "First payload must be meta"@,
            ),
            (Some(ns), Some(UploadPayload::Meta(m))) => r matches Ok(d) && d.resource_id.namespace
                == ns && d.resource_id.key@.len() == 16 && d.meta.size == m.size && d.meta.name
                == m.name && d.meta.metadata == m.metadata && d.user_id@ == user_id@,
        },
{
    let req = match first {
        Some(req) => req,
        None => return Err(Error::invalid_format("First request must be meta request")),
    };
    let namespace = match req.namespace {
        Some(ns) => ns,
        None => return Err(Error::invalid_format("Namespace not provided")),
    };
    let meta = match req.payload {
        None => return Err(Error::invalid_format("Payload not provided")),
        Some(UploadPayload::Data(_)) => return Err(Error::invalid_format("First payload must be meta")),
        Some(UploadPayload::Meta(meta)) => meta,
    };
    let meta = ResourceMeta {
        size: meta.size,
        timestamp: Timestamp::now(),
        name: meta.name,
        metadata: meta.metadata,
    };
    Ok(
        ResourceDescriptor {
            resource_id: ResourceId { namespace, key: generate_unique_id() },
            meta,
            user_id: String::from_str(user_id),
        },
    )
}

/// The bytes that a later request of an upload stream carries: it must carry
/// data, not metadata.
pub fn upload_chunk(req: UploadRequest) -> (r: Result<Vec<u8>, Error>)
    ensures
        req.payload is None ==> r is Err && failure(r->Err_0) == (
            ErrorCode::InvalidFormat,
            "Payload not provided"@,
        ),
        req.payload matches Some(UploadPayload::Meta(_)) ==> r is Err && failure(r->Err_0) == (
            ErrorCode::InvalidFormat,
            "Meta only allowed in first upload request"@,
        ),
        req.payload matches Some(UploadPayload::Data(d)) ==> r == Ok::<Vec<u8>, Error>(d),
{
    match req.payload {
        None => Err(Error::invalid_format("Payload not provided")),
        Some(UploadPayload::Meta(_)) => Err(
            Error::invalid_format("Meta only allowed in first upload request"),
        ),
        Some(UploadPayload::Data(d)) => Ok(d),
    }
}

/// Checks that a user may upload, from what `is_upload_authorized` gave.
pub fn check_upload(authorized: bool) -> (r: Result<(), Error>)
    ensures
        r is Ok <==> authorized,
        r matches Err(e) ==> failure(e) == (
            ErrorCode::Restricted,
            "User does not have write permissions"@,
        ),
{
    if !authorized {
        return Err(Error::restricted("User does not have write permissions"));
    }
    Ok(())
}

/// Checks that a resource exists and that the user may download it, from what
/// `is_download_authorized` gave.
pub fn check_download<T>(desc: Option<T>, authorized: bool) -> (r: Result<T, Error>)
    ensures
        desc is None ==> r is Err && failure(r->Err_0) == (ErrorCode::NotFound, "Resource not found"@),
        desc matches Some(d) ==> (if authorized {
            r == Ok::<T, Error>(d)
        } else {
            r is Err && failure(r->Err_0) == (ErrorCode::Restricted, "User not permitted"@)
        }),
{
    let d = match desc {
        Some(d) => d,
        None => return Err(Error::not_found("Resource not found")),
    };
    if !authorized {
        return Err(Error::restricted("User not permitted"));
    }
    Ok(d)
}

/// Checks that a resource exists and that the user may read its metadata, from
/// what `is_download_authorized` gave.
pub fn check_meta<T>(desc: Option<T>, authorized: bool) -> (r: Result<T, Error>)
    ensures
        desc is None ==> r is Err && failure(r->Err_0) == (ErrorCode::NotFound, "Resource not found"@),
        desc matches Some(d) ==> (if authorized {
            r == Ok::<T, Error>(d)
        } else {
            r is Err && failure(r->Err_0) == (ErrorCode::Unauthorized, "User not authorized"@)
        }),
{
    let d = match desc {
        Some(d) => d,
        None => return Err(Error::not_found("Resource not found")),
    };
    if !authorized {
        return Err(Error::unauthorized("User not authorized"));
    }
    Ok(d)
}

/// The server's own files and every user icon may be downloaded by anyone,
/// whatever channel is given; no one uploads into the server's own files.
pub proof fn law_icons_are_public(key: Seq<char>, ch: Option<Members>, user: Seq<char>)
    ensures
        spec_download(ResourceNamespace::UserIcon, ch, user) == Ok::<bool, Failure>(true),
        spec_download(ResourceNamespace::Aura, ch, user) == Ok::<bool, Failure>(true),
        spec_upload(ResourceNamespace::Aura, key, ch, user) == Ok::<bool, Failure>(false),
        spec_upload(ResourceNamespace::UserIcon, key, ch, user) == Ok::<bool, Failure>(key == user),
{
}

/// Within a channel, members may download and exactly the writers and
/// managers may upload; a user uploads only its own icon.
pub proof fn law_channel_files_follow_membership(
    ns: ResourceNamespace,
    key: Seq<char>,
    m: Members,
    user: Seq<char>,
)
    requires
        ns is Channel,
    ensures
        spec_download(ns, Some(m), user) == Ok::<bool, Failure>(m.contains_key(user)),
        m.contains_key(user) ==> spec_upload(ns, key, Some(m), user) == Ok::<bool, Failure>(
            m[user] == ChannelPermission::ReadWrite || m[user] == ChannelPermission::Manager,
        ),
{
}

} // verus!
