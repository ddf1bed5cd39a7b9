use service_kit::topic::{judge, Verdict};

#[test]
fn a_topic_spelled_like_the_filter_is_accepted() {
    assert_eq!(judge("a/b", "a/b"), Verdict::Accepted);
    assert_eq!(judge("", ""), Verdict::Accepted);
    assert_eq!(judge("a/+/c", "a/+/c"), Verdict::Accepted);
}

#[test]
fn a_plain_filter_accepts_its_own_topic_only() {
    assert_eq!(judge("a/b", "a/c"), Verdict::Rejected);
    assert_eq!(judge("a/b", "a/b/c"), Verdict::Passed);
    assert_eq!(judge("a/b", "a"), Verdict::Overrun);
    assert_eq!(judge("/a", "a"), Verdict::Rejected);
    assert_eq!(judge("a/", "a"), Verdict::Overrun);
}

#[test]
fn a_hash_accepts_everything_below() {
    assert_eq!(judge("#", "a/b/c"), Verdict::Accepted);
    assert_eq!(judge("a/#", "a/b/c"), Verdict::Accepted);
    assert_eq!(judge("a/#", "a"), Verdict::Accepted);
    assert_eq!(judge("a/#", "b/c"), Verdict::Rejected);
    assert_eq!(judge("a/b/#", "a"), Verdict::Overrun);
}

#[test]
fn a_plus_accepts_any_one_level() {
    assert_eq!(judge("a/+/c", "a/b/c"), Verdict::Accepted);
    assert_eq!(judge("a/+/c", "a//c"), Verdict::Accepted);
    assert_eq!(judge("a/+/c", "a/b/d"), Verdict::Rejected);
    assert_eq!(judge("a/+/c", "a/b/c/d"), Verdict::Passed);
    assert_eq!(judge("a/+/c", "a/b"), Verdict::Overrun);
}

#[test]
fn a_final_plus_accepts_any_depth() {
    assert_eq!(judge("a/+", "a/b"), Verdict::Accepted);
    assert_eq!(judge("a/+", "a/b/c"), Verdict::Accepted);
    assert_eq!(judge("a/+/+", "a"), Verdict::Accepted);
    assert_eq!(judge("+", "x/y"), Verdict::Accepted);
}

#[test]
fn levels_are_compared_character_by_character() {
    assert_eq!(judge("caf\u{e9}/+/x", "caf\u{e9}/y/x"), Verdict::Accepted);
    assert_eq!(judge("cafe/+/x", "caf\u{e9}/y/x"), Verdict::Rejected);
    assert_eq!(judge("a#/b", "ax/b"), Verdict::Rejected);
}
