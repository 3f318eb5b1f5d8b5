//! The rules for posts: who may delete one, when a post is withheld, how
//! reactions and answers move the interest profile of a user, and how the
//! stored rows of posts make up posts.
use crate::database::{counts_view, PostData, PostRow};
use crate::error::{failure, outcome, Error, ErrorCode, Failure};
use crate::types::posting::{Post, PostReaction};
use crate::utils::str_eq;
use vstd::prelude::*;

verus! {

/// How a user interacted with a post, which decides how strongly the post moves
/// the user's interest profile.
#[derive(Clone, Copy, Debug, PartialEq, Eq, Structural)]
pub enum PostInteraction {
    React,
    Comment,
}

/// Whose embedding moves the author's interest profile when a post is
/// published.
#[derive(Clone, Copy, Debug, PartialEq, Eq, Structural)]
pub enum VectorSource {
    /// The embedding of the post that the new post answers.
    Parent,
    /// The embedding of the new post itself.
    Own,
}

/// What the store holds of the post that a new post answers.
#[derive(Clone, Copy, Debug, PartialEq, Eq, Structural)]
pub enum ParentLookup {
    /// The new post answers no post.
    NoParent,
    /// The answered post does not exist.
    NotFound,
    /// The answered post exists; its embedding, if it has one, has this many
    /// dimensions.
    Found(Option<usize>),
}

/// How publishing a post moves the author's interest profile: an answer to a
/// post with a non-empty embedding counts as a comment on it; otherwise a post
/// with a non-empty embedding of its own counts as a reaction to itself.
pub open spec fn spec_create(parent: ParentLookup, own_len: nat) -> Result<
    Option<(PostInteraction, VectorSource)>,
    Failure,
> {
    match parent {
        ParentLookup::NotFound => Err((ErrorCode::NotFound, "Parent post not found"@)),
        ParentLookup::Found(Some(len)) => if len > 0 {
            Ok(Some((PostInteraction::Comment, VectorSource::Parent)))
        } else {
            Ok(None)
        },
        _ => if own_len > 0 {
            Ok(Some((PostInteraction::React, VectorSource::Own)))
        } else {
            Ok(None)
        },
    }
}

/// Decides how publishing a post moves the author's interest profile, given
/// what the store holds of the answered post and the number of dimensions of
/// the new post's own embedding.
pub fn create(parent: ParentLookup, own_vector_len: usize) -> (r: Result<
    Option<(PostInteraction, VectorSource)>,
    Error,
>)
    ensures
        outcome(r) == spec_create(parent, own_vector_len as nat),
{
    match parent {
        ParentLookup::NotFound => Err(Error::not_found("Parent post not found")),
        ParentLookup::Found(Some(len)) => if len > 0 {
            Ok(Some((PostInteraction::Comment, VectorSource::Parent)))
        } else {
            Ok(None)
        },
        _ => if own_vector_len > 0 {
            Ok(Some((PostInteraction::React, VectorSource::Own)))
        } else {
            Ok(None)
        },
    }
}

/// Who may delete a post: its author.
pub open spec fn spec_delete(author: Option<Seq<char>>, user: Seq<char>) -> Result<(), Failure> {
    match author {
        None => Err((ErrorCode::NotFound, "Post not found"@)),
        Some(a) => if a != user {
            Err((ErrorCode::Restricted, "Only the author of the post can delete it"@))
        } else {
            Ok(())
        },
    }
}

/// Checks that `user_id` may delete the post whose author is `author`, if the
/// post exists.
pub fn delete(author: Option<&str>, user_id: &str) -> (r: Result<(), Error>)
    ensures
        outcome(r) == spec_delete(
            match author {
                Some(a) => Some(a@),
                None => None,
            },
            user_id@,
        ),
{
    match author {
        None => Err(Error::not_found("Post not found")),
        Some(a) => if !str_eq(a, user_id) {
            Err(Error::restricted("Only the author of the post can delete it"))
        } else {
            Ok(())
        },
    }
}

/// The post that a lookup found; a missing post is an error.
pub fn found_post<T>(post: Option<T>) -> (r: Result<T, Error>)
    ensures
        post is Some <==> r is Ok,
        r matches Ok(p) ==> post == Some(p),
        r matches Err(e) ==> failure(e) == (ErrorCode::NotFound, "Post not found"@),
{
    match post {
        Some(p) => Ok(p),
        None => Err(Error::not_found("Post not found")),
    }
}

/// Checks that a post may be shown: not to a user who blocked its author.
pub fn check_not_blocked(blocked: bool) -> (r: Result<(), Error>)
    ensures
        r is Ok <==> !blocked,
        r matches Err(e) ==> failure(e) == (ErrorCode::Unwanted, "User blocked this post author"@),
{
    if blocked {
        return Err(Error::unwanted("User blocked this post author"));
    }
    Ok(())
}

/// How a change of a user's reaction moves the user's interest profile, as an
/// interaction and whether it is taken back: withdrawing a like or dislike
/// counts as a reaction, and reacting where there was none counts as a
/// reaction taken back; changing between like and dislike, or between no
/// reaction and none, moves nothing.
pub open spec fn spec_react(reaction: PostReaction, previous: Option<PostReaction>) -> Option<
    (PostInteraction, bool),
> {
    let prev = match previous {
        Some(p) => p,
        None => PostReaction::NoReaction,
    };
    if reaction == PostReaction::NoReaction {
        if prev == PostReaction::NoReaction {
            None
        } else {
            Some((PostInteraction::React, false))
        }
    } else {
        if prev == PostReaction::NoReaction {
            Some((PostInteraction::React, true))
        } else {
            None
        }
    }
}

/// Decides how a new reaction of a user to a post moves the user's interest
/// profile, given the user's previous reaction, if any.
pub fn react(reaction: PostReaction, previous: Option<PostReaction>) -> (r: Option<
    (PostInteraction, bool),
>)
    ensures
        r == spec_react(reaction, previous),
{
    let previous = match previous {
        Some(p) => p,
        None => PostReaction::NoReaction,
    };
    match reaction {
        PostReaction::NoReaction => match previous {
            PostReaction::NoReaction => None,
            PostReaction::Like | PostReaction::Dislike => Some((PostInteraction::React, false)),
        },
        PostReaction::Like | PostReaction::Dislike => match previous {
            PostReaction::NoReaction => Some((PostInteraction::React, true)),
            PostReaction::Like | PostReaction::Dislike => None,
        },
    }
}

/// What the store holds of the post that a user reacts to.
#[derive(Clone, Copy, Debug, PartialEq, Eq, Structural)]
pub enum PostLookup {
    /// There is no such post.
    Missing,
    /// The post exists and has no embedding.
    NoEmbedding,
    /// The post exists and has an embedding.
    Embedding,
}

/// How the reaction row of the user and the post is written.
#[derive(Clone, Copy, Debug, PartialEq, Eq, Structural)]
pub enum ReactionWrite {
    /// The row is removed, if there is one.
    Remove,
    /// The row is inserted, or updated, to hold this reaction.
    Store(PostReaction),
}

/// What reacting to a post does: a missing post is not found; otherwise no
/// reaction removes the user's row and a like or dislike sets it, and where
/// the post has an embedding the change of reaction moves the user's interest
/// profile as `spec_react` says.
pub open spec fn spec_react_to(post: PostLookup, reaction: PostReaction, previous: Option<
    PostReaction,
>) -> Result<(ReactionWrite, Option<(PostInteraction, bool)>), Failure> {
    match post {
        PostLookup::Missing => Err((ErrorCode::NotFound, "Post not found"@)),
        _ => Ok(
            (
                if reaction == PostReaction::NoReaction {
                    ReactionWrite::Remove
                } else {
                    ReactionWrite::Store(reaction)
                },
                if post == PostLookup::Embedding {
                    spec_react(reaction, previous)
                } else {
                    None
                },
            ),
        ),
    }
}

/// Decides what a reaction of a user to a post does, given what the store
/// holds of the post and the user's previous reaction, if any.
pub fn react_to(post: PostLookup, reaction: PostReaction, previous: Option<PostReaction>) -> (r:
    Result<(ReactionWrite, Option<(PostInteraction, bool)>), Error>)
    ensures
        outcome(r) == spec_react_to(post, reaction, previous),
{
    match post {
        PostLookup::Missing => Err(Error::not_found("Post not found")),
        _ => {
            let write = match reaction {
                PostReaction::NoReaction => ReactionWrite::Remove,
                _ => ReactionWrite::Store(reaction),
            };
            let moved = match post {
                PostLookup::Embedding => react(reaction, previous),
                _ => None,
            };
            Ok((write, moved))
        },
    }
}

/// The reaction counts of post `pid` among the loaded counts, in order.
pub open spec fn counts_for(raw: Seq<(String, PostReaction, i64)>, pid: Seq<char>) -> Seq<
    (PostReaction, i64),
>
    decreases raw.len(),
{
    if raw.len() == 0 {
        Seq::empty()
    } else if raw.last().0@ == pid {
        counts_for(raw.drop_last(), pid).push((raw.last().1, raw.last().2))
    } else {
        counts_for(raw.drop_last(), pid)
    }
}

/// The reaction that the last pair for post `pid` gives, or no reaction.
pub open spec fn reaction_for(pairs: Seq<(String, PostReaction)>, pid: Seq<char>) -> PostReaction
    decreases pairs.len(),
{
    if pairs.len() == 0 {
        PostReaction::NoReaction
    } else if pairs.last().0@ == pid {
        pairs.last().1
    } else {
        reaction_for(pairs.drop_last(), pid)
    }
}

/// No post row before row `i` has its id.
pub open spec fn is_first_post(rows: Seq<PostRow>, i: int) -> bool {
    forall|j: int| 0 <= j < i ==> rows[j].post_id@ != rows[i].post_id@
}

/// What post row `i` makes up: the fields of the row, the counts of its
/// reactions (only for the first row of a post id) and the reaction of the
/// user who asks.
pub open spec fn hydrated(
    p: Post,
    rows: Seq<PostRow>,
    i: int,
    raw_reactions: Seq<(String, PostReaction, i64)>,
    user_reactions: Seq<(String, PostReaction)>,
) -> bool {
    let row = rows[i];
    &&& p.post_id == row.post_id
    &&& p.author_id == row.author_id
    &&& p.content == row.content
    &&& p.timestamp == row.timestamp
    &&& p.parent == row.parent_id
    &&& p.reactions@ == counts_view(
        if is_first_post(rows, i) {
            counts_for(raw_reactions, row.post_id@)
        } else {
            Seq::empty()
        },
    )
    &&& p.reaction == reaction_for(user_reactions, row.post_id@)
}

/// The reaction counts of post `pid`, in order.
fn collect_counts_for(raw: &Vec<(String, PostReaction, i64)>, pid: &str) -> (r: Vec<
    (PostReaction, i64),
>)
    ensures
        r@ == counts_for(raw@, pid@),
{
    let mut r: Vec<(PostReaction, i64)> = Vec::new();
    let mut i: usize = 0;
    while i < raw.len()
        invariant
            i <= raw@.len(),
            r@ == counts_for(raw@.take(i as int), pid@),
        decreases raw@.len() - i,
    {
        proof {
            assert(raw@.take(i + 1).drop_last() =~= raw@.take(i as int));
        }
        if str_eq(raw[i].0.as_str(), pid) {
            r.push((raw[i].1, raw[i].2));
        }
        i = i + 1;
    }
    proof {
        assert(raw@.take(raw@.len() as int) =~= raw@);
    }
    r
}

/// The reaction of the last pair for post `pid`, or no reaction.
fn find_reaction_for(pairs: &Vec<(String, PostReaction)>, pid: &str) -> (r: PostReaction)
    ensures
        r == reaction_for(pairs@, pid@),
{
    let mut r = PostReaction::NoReaction;
    let mut i: usize = 0;
    while i < pairs.len()
        invariant
            i <= pairs@.len(),
            r == reaction_for(pairs@.take(i as int), pid@),
        decreases pairs@.len() - i,
    {
        proof {
            assert(pairs@.take(i + 1).drop_last() =~= pairs@.take(i as int));
        }
        if str_eq(pairs[i].0.as_str(), pid) {
            r = pairs[i].1;
        }
        i = i + 1;
    }
    proof {
        assert(pairs@.take(pairs@.len() as int) =~= pairs@);
    }
    r
}

/// The posts that the loaded rows make up, in order: each with the counts of
/// its reactions and the reaction of the user who asks (`user_reactions` is
/// empty where no user asks).
pub fn hydrate(
    raw_posts: Vec<PostRow>,
    raw_reactions: Vec<(String, PostReaction, i64)>,
    user_reactions: Vec<(String, PostReaction)>,
) -> (r: Vec<Post>)
    ensures
        r@.len() == raw_posts@.len(),
        forall|i: int|
            0 <= i < r@.len() ==> hydrated(
                #[trigger] r@[i],
                raw_posts@,
                i,
                raw_reactions@,
                user_reactions@,
            ),
{
    let ghost rows = raw_posts@;
    let mut seen: Vec<String> = Vec::new();
    let mut result: Vec<Post> = Vec::new();
    for row in it: raw_posts.into_iter()
        invariant
            it.seq() == rows,
            0 <= it.index() <= rows.len(),
            result@.len() == it.index(),
            seen@.len() == it.index(),
            forall|j: int| 0 <= j < seen@.len() ==> #[trigger] seen@[j]@ == rows[j].post_id@,
            forall|i: int|
                0 <= i < result@.len() ==> hydrated(
                    #[trigger] result@[i],
                    rows,
                    i,
                    raw_reactions@,
                    user_reactions@,
                ),
    {
        let ghost k = it.index() as int;
        let mut first = true;
        let mut j: usize = 0;
        while j < seen.len()
            invariant
                j <= seen@.len(),
                seen@.len() == k,
                0 <= k < rows.len(),
                row == rows[k],
                forall|m: int| 0 <= m < seen@.len() ==> #[trigger] seen@[m]@ == rows[m].post_id@,
                first == (forall|m: int| 0 <= m < j ==> rows[m].post_id@ != rows[k].post_id@),
            decreases seen@.len() - j,
        {
            if str_eq(seen[j].as_str(), row.post_id.as_str()) {
                first = false;
            }
            j = j + 1;
        }
        let counts = if first {
            collect_counts_for(&raw_reactions, row.post_id.as_str())
        } else {
            Vec::new()
        };
        let user_reaction = find_reaction_for(&user_reactions, row.post_id.as_str());
        seen.push(row.post_id.clone());
        let post = Post::from_db(PostData { post: row, reaction_counts: counts, user_reaction });
        result.push(post);
    }
    result
}

/// Publishing moves the author's profile: a post that answers no post moves it
/// by the post's own embedding, as a reaction, exactly when that embedding is
/// not empty; an answer to a post with a non-empty embedding moves it by that
/// post's embedding, as a comment, whatever the answer's own embedding; and an
/// answer to a missing post is refused.
pub proof fn law_publishing_moves_the_author(own_len: nat, parent_len: usize)
    ensures
        own_len > 0 ==> spec_create(ParentLookup::NoParent, own_len) == Ok::<
            Option<(PostInteraction, VectorSource)>,
            Failure,
        >(Some((PostInteraction::React, VectorSource::Own))),
        own_len == 0 ==> spec_create(ParentLookup::NoParent, own_len) == Ok::<
            Option<(PostInteraction, VectorSource)>,
            Failure,
        >(None),
        parent_len > 0 ==> spec_create(ParentLookup::Found(Some(parent_len)), own_len)
            == Ok::<Option<(PostInteraction, VectorSource)>, Failure>(
            Some((PostInteraction::Comment, VectorSource::Parent)),
        ),
        spec_create(ParentLookup::NotFound, own_len) is Err,
{
}

/// A like and a dislike move the profile alike: with no earlier reaction
/// either one moves it (as a reaction, flagged as taken back), after an
/// earlier like or dislike neither moves it, and taking a like or a dislike
/// back moves it (not flagged).
pub proof fn law_like_and_dislike_move_alike(previous: Option<PostReaction>)
    ensures
        spec_react(PostReaction::Like, previous) == spec_react(PostReaction::Dislike, previous),
        spec_react(PostReaction::Like, None) == Some((PostInteraction::React, true)),
        spec_react(PostReaction::Dislike, None) == Some((PostInteraction::React, true)),
        spec_react(PostReaction::Dislike, Some(PostReaction::NoReaction)) == Some(
            (PostInteraction::React, true),
        ),
        spec_react(PostReaction::Like, Some(PostReaction::Dislike)) == None::<(PostInteraction, bool)>,
        spec_react(PostReaction::NoReaction, Some(PostReaction::Like)) == Some(
            (PostInteraction::React, false),
        ),
        spec_react(PostReaction::NoReaction, Some(PostReaction::Dislike)) == Some(
            (PostInteraction::React, false),
        ),
        spec_react(PostReaction::NoReaction, None) == None::<(PostInteraction, bool)>,
{
}

} // verus!
