use aura::error::ErrorCode;
use aura::logic::feed::{select_feed, vector_update, VectorUpdate};
use aura::logic::posting::{found_post, react_to, PostInteraction, PostLookup, ReactionWrite};
use aura::types::posting::PostReaction;

fn cand(post: &str, author: &str) -> (String, String) {
    (post.to_string(), author.to_string())
}

#[test]
fn feed_leaves_out_own_posts_and_keeps_rank_order() {
    let ranked = vec![
        cand("p1", "bob"),
        cand("p2", "me"),
        cand("p3", "eve"),
        cand("p4", "bob"),
    ];
    assert_eq!(select_feed(&ranked, "me", 10), vec!["p1", "p3", "p4"]);
}

#[test]
fn feed_stops_at_the_limit() {
    let ranked = vec![cand("p1", "me"), cand("p2", "a"), cand("p3", "b"), cand("p4", "c")];
    assert_eq!(select_feed(&ranked, "me", 2), vec!["p2", "p3"]);
    assert!(select_feed(&ranked, "me", 0).is_empty());
    assert!(select_feed(&Vec::new(), "me", 5).is_empty());
}

#[test]
fn profile_update_decisions() {
    let missing = vector_update(None, 384, false).unwrap_err();
    assert_eq!(missing.code, ErrorCode::NotFound);
    assert_eq!(missing.message, "User not found");

    assert_eq!(vector_update(Some(None), 384, false).unwrap(), VectorUpdate::Replace);
    assert_eq!(vector_update(Some(None), 384, true).unwrap(), VectorUpdate::Keep);
    assert_eq!(vector_update(Some(Some(384)), 384, true).unwrap(), VectorUpdate::Blend);

    let mismatch = vector_update(Some(Some(3)), 384, false).unwrap_err();
    assert_eq!(mismatch.code, ErrorCode::InvalidFormat);
    assert_eq!(mismatch.message, "Vector dimension mismatch");
}

#[test]
fn missing_post_is_not_found() {
    assert_eq!(found_post(Some(3)).unwrap(), 3);
    let e = found_post::<u8>(None).unwrap_err();
    assert_eq!(e.code, ErrorCode::NotFound);
    assert_eq!(e.message, "Post not found");
}

#[test]
fn reactions_need_an_existing_post() {
    let e = react_to(PostLookup::Missing, PostReaction::Like, None).unwrap_err();
    assert_eq!((e.code, e.message.as_str()), (ErrorCode::NotFound, "Post not found"));
    assert_eq!(
        react_to(PostLookup::Embedding, PostReaction::Like, None).unwrap(),
        (ReactionWrite::Store(PostReaction::Like), Some((PostInteraction::React, true)))
    );
    assert_eq!(
        react_to(PostLookup::Embedding, PostReaction::NoReaction, Some(PostReaction::Dislike)).unwrap(),
        (ReactionWrite::Remove, Some((PostInteraction::React, false)))
    );
    assert_eq!(
        react_to(PostLookup::NoEmbedding, PostReaction::Dislike, None).unwrap(),
        (ReactionWrite::Store(PostReaction::Dislike), None)
    );
}
