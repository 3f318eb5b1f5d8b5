//! The integer part of building a feed and of keeping a user's interest
//! profile: counting how the candidate posts were received, picking the posts
//! of a ranked list, and deciding how a profile vector changes. Scoring the
//! candidates and blending vectors is done in floating point by the
//! application.
use crate::error::{outcome, Error, ErrorCode, Failure};
use crate::types::posting::PostReaction;
use crate::utils::str_eq;
use vstd::prelude::*;

verus! {

/// How many of the reactions to post `pid` are `kind`.
pub open spec fn count_of(reactions: Seq<(String, PostReaction)>, pid: Seq<char>, kind: PostReaction) -> nat
    decreases reactions.len(),
{
    if reactions.len() == 0 {
        0
    } else {
        count_of(reactions.drop_last(), pid, kind) + if reactions.last().0@ == pid
            && reactions.last().1 == kind {
            1nat
        } else {
            0nat
        }
    }
}

proof fn lemma_count_of_bound(reactions: Seq<(String, PostReaction)>, pid: Seq<char>, kind: PostReaction)
    ensures
        count_of(reactions, pid, kind) <= reactions.len(),
    decreases reactions.len(),
{
    if reactions.len() > 0 {
        lemma_count_of_bound(reactions.drop_last(), pid, kind);
    }
}

/// The numbers of likes and of dislikes of post `post_id` among the loaded
/// reactions.
pub fn reaction_tally(reactions: &Vec<(String, PostReaction)>, post_id: &str) -> (r: (i64, i64))
    requires
        reactions@.len() <= i64::MAX,
    ensures
        r.0 == count_of(reactions@, post_id@, PostReaction::Like),
        r.1 == count_of(reactions@, post_id@, PostReaction::Dislike),
{
    let mut likes: i64 = 0;
    let mut dislikes: i64 = 0;
    let mut i: usize = 0;
    while i < reactions.len()
        invariant
            i <= reactions@.len() <= i64::MAX,
            likes == count_of(reactions@.take(i as int), post_id@, PostReaction::Like),
            dislikes == count_of(reactions@.take(i as int), post_id@, PostReaction::Dislike),
        decreases reactions@.len() - i,
    {
        proof {
            assert(reactions@.take(i + 1).drop_last() =~= reactions@.take(i as int));
            lemma_count_of_bound(reactions@.take(i as int), post_id@, PostReaction::Like);
            lemma_count_of_bound(reactions@.take(i as int), post_id@, PostReaction::Dislike);
        }
        if str_eq(reactions[i].0.as_str(), post_id) {
            match reactions[i].1 {
                PostReaction::Like => likes = likes + 1,
                PostReaction::Dislike => dislikes = dislikes + 1,
                PostReaction::NoReaction => {},
            }
        }
        i = i + 1;
    }
    proof {
        assert(reactions@.take(reactions@.len() as int) =~= reactions@);
    }
    (likes, dislikes)
}

/// The feed drawn from candidates ranked best first, each a post id with its
/// author: the posts of other authors, in rank order, at most `limit` of them.
pub open spec fn feed_of(ranked: Seq<(String, String)>, user: Seq<char>, limit: nat) -> Seq<Seq<char>>
    decreases ranked.len(),
{
    if ranked.len() == 0 || limit == 0 {
        Seq::empty()
    } else if ranked[0].1@ == user {
        feed_of(ranked.drop_first(), user, limit)
    } else {
        seq![ranked[0].0@] + feed_of(ranked.drop_first(), user, (limit - 1) as nat)
    }
}

proof fn lemma_feed_of_step(ranked: Seq<(String, String)>, user: Seq<char>, limit: nat, i: int)
    requires
        0 <= i < ranked.len(),
    ensures
        feed_of(ranked.subrange(i, ranked.len() as int), user, limit) == (if limit == 0 {
            Seq::<Seq<char>>::empty()
        } else if ranked[i].1@ == user {
            feed_of(ranked.subrange(i + 1, ranked.len() as int), user, limit)
        } else {
            seq![ranked[i].0@] + feed_of(ranked.subrange(i + 1, ranked.len() as int), user, (limit - 1) as nat)
        }),
{
    let rest = ranked.subrange(i, ranked.len() as int);
    assert(rest.drop_first() =~= ranked.subrange(i + 1, ranked.len() as int));
    assert(rest[0] == ranked[i]);
}

/// A feed holds none of the user's own posts and no more posts than asked
/// for, and each post in it is a candidate of another author.
pub proof fn law_feed_leaves_out_own_posts(ranked: Seq<(String, String)>, user: Seq<char>, limit: nat)
    ensures
        feed_of(ranked, user, limit).len() <= limit,
        forall|i: int|
            0 <= i < feed_of(ranked, user, limit).len() ==> exists|j: int|
                0 <= j < ranked.len() && ranked[j].0@ == #[trigger] feed_of(ranked, user, limit)[i]
                    && ranked[j].1@ != user,
    decreases ranked.len(),
{
    if ranked.len() == 0 || limit == 0 {
    } else {
        let rest = ranked.drop_first();
        if ranked[0].1@ == user {
            law_feed_leaves_out_own_posts(rest, user, limit);
            assert forall|i: int|
                0 <= i < feed_of(ranked, user, limit).len() implies exists|j: int|
                    0 <= j < ranked.len() && ranked[j].0@ == #[trigger] feed_of(ranked, user, limit)[i]
                        && ranked[j].1@ != user by {
                let j = choose|j: int|
                    0 <= j < rest.len() && rest[j].0@ == feed_of(rest, user, limit)[i] && rest[j].1@
                        != user;
                assert(ranked[j + 1] == rest[j]);
            }
        } else {
            let l1 = (limit - 1) as nat;
            law_feed_leaves_out_own_posts(rest, user, l1);
            assert forall|i: int|
                0 <= i < feed_of(ranked, user, limit).len() implies exists|j: int|
                    0 <= j < ranked.len() && ranked[j].0@ == #[trigger] feed_of(ranked, user, limit)[i]
                        && ranked[j].1@ != user by {
                if i == 0 {
                    assert(ranked[0].0@ == feed_of(ranked, user, limit)[0]);
                } else {
                    let j = choose|j: int|
                        0 <= j < rest.len() && rest[j].0@ == feed_of(rest, user, l1)[i - 1]
                            && rest[j].1@ != user;
                    assert(ranked[j + 1] == rest[j]);
                    assert(feed_of(ranked, user, limit)[i] == feed_of(rest, user, l1)[i - 1]);
                }
            }
        }
    }
}

/// Picks the feed from candidates already ranked best first (each a post id
/// and its author): the user's own posts are left out, and at most `limit`
/// posts are kept, in rank order.
pub fn select_feed(ranked: &Vec<(String, String)>, user_id: &str, limit: usize) -> (r: Vec<String>)
    ensures
        r@.map_values(|s: String| s@) == feed_of(ranked@, user_id@, limit as nat),
{
    let mut out: Vec<String> = Vec::new();
    let mut i: usize = 0;
    let n = ranked.len();
    proof {
        assert(ranked@.subrange(0, n as int) =~= ranked@);
        assert(out@.map_values(|s: String| s@) + feed_of(ranked@, user_id@, limit as nat)
            =~= feed_of(ranked@, user_id@, limit as nat));
    }
    while i < n && out.len() < limit
        invariant
            n == ranked@.len(),
            i <= n,
            out@.len() <= limit,
            out@.map_values(|s: String| s@) + feed_of(ranked@.subrange(i as int, n as int), user_id@, (limit - out@.len()) as nat)
                == feed_of(ranked@, user_id@, limit as nat),
        decreases n - i,
    {
        proof {
            lemma_feed_of_step(ranked@, user_id@, (limit - out@.len()) as nat, i as int);
        }
        if !str_eq(ranked[i].1.as_str(), user_id) {
            let ghost before = out@.map_values(|s: String| s@);
            out.push(ranked[i].0.clone());
            proof {
                assert(out@.map_values(|s: String| s@) =~= before.push(ranked@[i as int].0@));
                assert(before.push(ranked@[i as int].0@) + feed_of(ranked@.subrange(i + 1, n as int), user_id@, (limit - out@.len()) as nat)
                    =~= before + (seq![ranked@[i as int].0@] + feed_of(ranked@.subrange(i + 1, n as int), user_id@, (limit - out@.len()) as nat)));
            }
        }
        i = i + 1;
    }
    proof {
        let rest = ranked@.subrange(i as int, n as int);
        assert(rest.len() == 0 || limit - out@.len() == 0);
        assert(feed_of(rest, user_id@, (limit - out@.len()) as nat) =~= Seq::<Seq<char>>::empty());
        assert(out@.map_values(|s: String| s@) + Seq::<Seq<char>>::empty() =~= out@.map_values(|s: String| s@));
    }
    out
}

/// How a reaction or an answer changes the stored interest profile of a user.
#[derive(Clone, Copy, Debug, PartialEq, Eq, Structural)]
pub enum VectorUpdate {
    /// The profile stays as it is.
    Keep,
    /// The user had no profile: the post's embedding becomes it.
    Replace,
    /// The profile is moved toward (or, when withdrawn, away from) the post's
    /// embedding and normalised.
    Blend,
}

/// The decision taken on a profile update. `profile` is `None` when the user
/// does not exist, `Some(None)` when the user has no profile yet, and
/// `Some(Some(n))` when the profile has `n` dimensions. An interaction always
/// weighs positively, so the weight is negative exactly when it is withdrawn.
pub open spec fn spec_vector_update(profile: Option<Option<nat>>, post_len: nat, revert: bool) -> Result<
    VectorUpdate,
    Failure,
> {
    match profile {
        None => Err((ErrorCode::NotFound, "User not found"@)),
        Some(None) => if !revert {
            Ok(VectorUpdate::Replace)
        } else {
            Ok(VectorUpdate::Keep)
        },
        Some(Some(n)) => if n != post_len {
            Err((ErrorCode::InvalidFormat, "Vector dimension mismatch"@))
        } else {
            Ok(VectorUpdate::Blend)
        },
    }
}

/// Decides how the interest profile of a user changes when an interaction with
/// a post whose embedding has `post_len` dimensions is made (`revert` false) or
/// withdrawn (`revert` true).
pub fn vector_update(profile: Option<Option<usize>>, post_len: usize, revert: bool) -> (r: Result<
    VectorUpdate,
    Error,
>)
    ensures
        outcome(r) == spec_vector_update(
            match profile {
                None => None,
                Some(None) => Some(None),
                Some(Some(n)) => Some(Some(n as nat)),
            },
            post_len as nat,
            revert,
        ),
{
    match profile {
        None => Err(Error::not_found("User not found")),
        Some(None) => if !revert {
            Ok(VectorUpdate::Replace)
        } else {
            Ok(VectorUpdate::Keep)
        },
        Some(Some(n)) => if n != post_len {
            Err(Error::invalid_format("Vector dimension mismatch"))
        } else {
            Ok(VectorUpdate::Blend)
        },
    }
}

/// A stored profile of the post's dimension is always blended, whether the
/// interaction is made or taken back; a profile is replaced only where the user
/// has none, and then only by an interaction that is made.
pub proof fn law_existing_profiles_are_blended(
    profile: Option<Option<nat>>,
    n: nat,
    post_len: nat,
    revert: bool,
)
    ensures
        n == post_len ==> spec_vector_update(Some(Some(n)), post_len, revert) == Ok::<
            VectorUpdate,
            Failure,
        >(VectorUpdate::Blend),
        spec_vector_update(profile, post_len, revert) == Ok::<VectorUpdate, Failure>(
            VectorUpdate::Replace,
        ) ==> profile == Some(None::<nat>) && !revert,
        spec_vector_update(profile, post_len, revert) == Ok::<VectorUpdate, Failure>(
            VectorUpdate::Blend,
        ) ==> profile == Some(Some(post_len)),
{
}

} // verus!
