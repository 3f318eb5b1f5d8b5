use crate::types::chat::Content;
use crate::types::common::Timestamp;
use vstd::prelude::*;

verus! {

/// How a user reacted to a post.
#[derive(Clone, Copy, Debug, PartialEq, Eq, Hash, Structural)]
pub enum PostReaction {
    /// No reaction.
    NoReaction,
    Like,
    Dislike,
}

impl PostReaction {
    /// The reaction that an operator names on the console: `like`, `dislike` or
    /// `none`.
    pub fn from_name(name: &str) -> (r: Option<PostReaction>)
        ensures
            name@ == "like"@ <==> r == Some(PostReaction::Like),
            name@ == "dislike"@ <==> r == Some(PostReaction::Dislike),
            name@ == "none"@ <==> r == Some(PostReaction::NoReaction),
    {
        proof {
            reveal_strlit("like");
            reveal_strlit("dislike");
            reveal_strlit("none");
            assert("like"@.len() == 4 && "dislike"@.len() == 7 && "none"@.len() == 4);
            assert("like"@[0] != "none"@[0]);
        }
        if crate::utils::str_eq(name, "like") {
            Some(PostReaction::Like)
        } else if crate::utils::str_eq(name, "dislike") {
            Some(PostReaction::Dislike)
        } else if crate::utils::str_eq(name, "none") {
            Some(PostReaction::NoReaction)
        } else {
            None
        }
    }
}

/// How many users reacted to a post in one way.
#[derive(Clone, Copy, Debug, PartialEq, Eq, Structural)]
pub struct ReactionCount {
    pub reaction: PostReaction,
    pub count: u32,
}

/// The counts of a post as a map from reaction to count; where a reaction
/// occurs twice, the later count wins.
pub open spec fn reaction_map(s: Seq<ReactionCount>) -> Map<PostReaction, u32>
    decreases s.len(),
{
    if s.len() == 0 {
        Map::empty()
    } else {
        reaction_map(s.drop_last()).insert(s.last().reaction, s.last().count)
    }
}

/// A post, as a given user sees it.
#[derive(Debug)]
pub struct Post {
    pub post_id: String,
    pub author_id: String,
    pub content: Content,
    pub timestamp: Timestamp,
    /// The post this one answers, if any.
    pub parent: Option<String>,
    /// How many users reacted in each way.
    pub reactions: Vec<ReactionCount>,
    /// How the user who asked for the post reacted to it.
    pub reaction: PostReaction,
}

impl Post {
    /// The reaction counts as a map.
    pub open spec fn reaction_counts(&self) -> Map<PostReaction, u32> {
        reaction_map(self.reactions@)
    }
}

} // verus!
