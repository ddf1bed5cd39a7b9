//! Topic filters: which filter takes a message published to a topic.
//!
//! A topic is a path of levels, written with `/` between them. A filter is such
//! a path whose levels may also be `+`, which stands for any one level, or `#`,
//! which stands for everything from there on.

use crate::text::{chars_of, same_chars, same_text, split};
#[allow(unused_imports)]
use crate::text::{
    law_pieces_determine_the_text, law_text_without_separator_is_one_piece,
    lemma_pieces_are_separator_free, lemma_pieces_of_concatenation, pieces, rows,
};
use vstd::prelude::*;

verus! {

/// What a filter has to say of a topic.
#[derive(Clone, Copy, Debug, PartialEq, Eq, Structural)]
pub enum Verdict {
    /// The filter takes the topic.
    Accepted,
    /// A level of the filter contradicts the topic, and the search ends.
    Rejected,
    /// The topic goes deeper than the filter: the next filter is asked.
    Passed,
    /// The filter names a level beyond the end of the topic.
    Overrun,
}

/// The levels of a topic or of a filter.
pub open spec fn levels(path: Seq<char>) -> Seq<Seq<char>> {
    pieces(path, '/')
}

/// What the filter's level `i` settles, if it settles anything: `#` and a final
/// `+` accept, a `+` elsewhere leaves it to the levels that follow, and so does a
/// named level that the topic has in that place.
pub open spec fn level_verdict(
    filter: Seq<Seq<char>>,
    topic: Seq<Seq<char>>,
    i: int,
) -> Option<Verdict> {
    if filter[i] == "#"@ {
        Some(Verdict::Accepted)
    } else if filter[i] == "+"@ {
        if i == filter.len() - 1 {
            Some(Verdict::Accepted)
        } else {
            None
        }
    } else if i >= topic.len() {
        Some(Verdict::Overrun)
    } else if filter[i] != topic[i] {
        Some(Verdict::Rejected)
    } else {
        None
    }
}

/// What the first level, from level `i` on, that settles anything settles. Where
/// none does, the filter takes topics of its own depth and passes deeper ones.
pub open spec fn levels_verdict(
    filter: Seq<Seq<char>>,
    topic: Seq<Seq<char>>,
    i: int,
) -> Verdict
    decreases filter.len() - i,
{
    if i >= filter.len() {
        if filter.len() == topic.len() {
            Verdict::Accepted
        } else {
            Verdict::Passed
        }
    } else {
        match level_verdict(filter, topic, i) {
            Some(verdict) => verdict,
            None => levels_verdict(filter, topic, i + 1),
        }
    }
}

/// What `filter` has to say of `topic`. A topic spelled like the filter is
/// always accepted.
pub open spec fn verdict_of(filter: Seq<char>, topic: Seq<char>) -> Verdict {
    if filter == topic {
        Verdict::Accepted
    } else {
        levels_verdict(levels(filter), levels(topic), 0)
    }
}

/// Judges a topic by a filter: see `verdict_of`.
pub fn judge(filter: &str, topic: &str) -> (verdict: Verdict)
    ensures
        verdict == verdict_of(filter@, topic@),
{
    if same_text(filter, topic) {
        return Verdict::Accepted;
    }
    let saved: Vec<Vec<char>> = split(&chars_of(filter), '/');
    let received: Vec<Vec<char>> = split(&chars_of(topic), '/');
    let multi: Vec<char> = chars_of("#");
    let single: Vec<char> = chars_of("+");
    let ghost f = levels(filter@);
    let ghost t = levels(topic@);
    let n: usize = saved.len();
    let m: usize = received.len();
    for i in 0..n
        invariant
            n == saved@.len(),
            m == received@.len(),
            rows(saved@) == f,
            rows(received@) == t,
            f == levels(filter@),
            t == levels(topic@),
            multi@ == "#"@,
            single@ == "+"@,
            filter@ != topic@,
            levels_verdict(f, t, 0) == levels_verdict(f, t, i as int),
    {
        proof {
            assert(f[i as int] == saved@[i as int]@);
            if i < m {
                assert(t[i as int] == received@[i as int]@);
            }
        }
        if same_chars(&saved[i], &multi) {
            return Verdict::Accepted;
        }
        if same_chars(&saved[i], &single) {
            if i == n - 1 {
                return Verdict::Accepted;
            }
        } else if i >= m {
            return Verdict::Overrun;
        } else if !same_chars(&saved[i], &received[i]) {
            return Verdict::Rejected;
        }
    }
    if n == m {
        Verdict::Accepted
    } else {
        Verdict::Passed
    }
}

/// Whether a level of a filter stands for more than itself.
pub open spec fn is_wildcard(level: Seq<char>) -> bool {
    level == "#"@ || level == "+"@
}

/// Whether the first `k` levels of the filter are levels that the topic has in
/// their places, or `+`.
pub open spec fn agree_before(filter: Seq<Seq<char>>, topic: Seq<Seq<char>>, k: int) -> bool {
    forall|j: int|
        0 <= j < k ==> (#[trigger] filter[j]) != "#"@ && (filter[j] == "+"@ || (j < topic.len()
            && filter[j] == topic[j]))
}

/// Whether level `k` of the filter is where the topic is accepted: a `#`, a final
/// `+`, or, past the last level, the end of the topic.
pub open spec fn accepts_at(filter: Seq<Seq<char>>, topic: Seq<Seq<char>>, k: int) -> bool {
    &&& 0 <= k <= filter.len()
    &&& agree_before(filter, topic, k)
    &&& {
        ||| k < filter.len() && filter[k] == "#"@
        ||| k == filter.len() - 1 && filter[k] == "+"@
        ||| k == filter.len() && k == topic.len()
    }
}

/// Whether level `k` of the filter is a name that the topic does not have in that
/// place, although it has a level there.
pub open spec fn contradicts_at(filter: Seq<Seq<char>>, topic: Seq<Seq<char>>, k: int) -> bool {
    &&& 0 <= k < filter.len()
    &&& k < topic.len()
    &&& agree_before(filter, topic, k)
    &&& !is_wildcard(filter[k])
    &&& filter[k] != topic[k]
}

/// Whether level `k` of the filter is a name beyond the end of the topic.
pub open spec fn overruns_at(filter: Seq<Seq<char>>, topic: Seq<Seq<char>>, k: int) -> bool {
    &&& 0 <= k < filter.len()
    &&& k >= topic.len()
    &&& agree_before(filter, topic, k)
    &&& !is_wildcard(filter[k])
}

/// Levels that agree settle nothing.
proof fn lemma_agreeing_levels_settle_nothing(
    filter: Seq<Seq<char>>,
    topic: Seq<Seq<char>>,
    i: int,
    k: int,
)
    requires
        0 <= i <= k <= filter.len(),
        agree_before(filter, topic, k),
        k < filter.len() || filter.len() == 0 || filter.last() != "+"@,
    ensures
        levels_verdict(filter, topic, i) == levels_verdict(filter, topic, k),
    decreases k - i,
{
    if i < k {
        assert(filter[i] != "#"@);
        lemma_agreeing_levels_settle_nothing(filter, topic, i + 1, k);
    }
}

/// From a level before which everything agrees, the verdict is settled at some
/// level in one of the ways that `accepts_at`, `contradicts_at` and `overruns_at`
/// describe, or nowhere.
proof fn lemma_verdict_is_settled_somewhere(
    filter: Seq<Seq<char>>,
    topic: Seq<Seq<char>>,
    i: int,
)
    requires
        0 <= i <= filter.len(),
        agree_before(filter, topic, i),
    ensures
        match levels_verdict(filter, topic, i) {
            Verdict::Accepted => exists|k: int| accepts_at(filter, topic, k),
            Verdict::Rejected => exists|k: int| contradicts_at(filter, topic, k),
            Verdict::Overrun => exists|k: int| overruns_at(filter, topic, k),
            Verdict::Passed => agree_before(filter, topic, filter.len() as int)
                && filter.len() != topic.len(),
        },
    decreases filter.len() - i,
{
    if i >= filter.len() {
        if filter.len() == topic.len() {
            assert(accepts_at(filter, topic, i));
        }
    } else {
        match level_verdict(filter, topic, i) {
            Some(Verdict::Accepted) => {
                assert(accepts_at(filter, topic, i));
            },
            Some(Verdict::Rejected) => {
                assert(contradicts_at(filter, topic, i));
            },
            Some(_) => {
                assert(overruns_at(filter, topic, i));
            },
            None => {
                lemma_verdict_is_settled_somewhere(filter, topic, i + 1);
            },
        }
    }
}

/// A filter accepts a topic exactly where the two are spelled alike, or their
/// levels agree up to a `#`, up to a final `+`, or throughout.
pub proof fn law_acceptance(filter: Seq<char>, topic: Seq<char>)
    ensures
        verdict_of(filter, topic) == Verdict::Accepted <==> filter == topic || exists|k: int|
            accepts_at(levels(filter), levels(topic), k),
{
    let f = levels(filter);
    let t = levels(topic);
    lemma_verdict_is_settled_somewhere(f, t, 0);
    if exists|k: int| accepts_at(f, t, k) {
        let k = choose|k: int| accepts_at(f, t, k);
        lemma_acceptance_is_final(f, t, k);
    }
}

proof fn lemma_acceptance_is_final(filter: Seq<Seq<char>>, topic: Seq<Seq<char>>, k: int)
    requires
        accepts_at(filter, topic, k),
    ensures
        levels_verdict(filter, topic, 0) == Verdict::Accepted,
{
    if k == filter.len() && filter.len() > 0 && filter.last() == "+"@ {
        let last = filter.len() - 1;
        lemma_agreeing_levels_settle_nothing(filter, topic, 0, last);
        assert(filter[last] != "#"@);
        assert(level_verdict(filter, topic, last) == Some(Verdict::Accepted));
    } else {
        lemma_agreeing_levels_settle_nothing(filter, topic, 0, k);
    }
}

/// A filter rejects a topic exactly where, at some level before which the two
/// agree, the filter has one name and the topic another.
pub proof fn law_rejection(filter: Seq<char>, topic: Seq<char>)
    ensures
        verdict_of(filter, topic) == Verdict::Rejected <==> filter != topic && exists|k: int|
            contradicts_at(levels(filter), levels(topic), k),
{
    let f = levels(filter);
    let t = levels(topic);
    lemma_verdict_is_settled_somewhere(f, t, 0);
    if exists|k: int| contradicts_at(f, t, k) {
        let k = choose|k: int| contradicts_at(f, t, k);
        lemma_agreeing_levels_settle_nothing(f, t, 0, k);
        assert(level_verdict(f, t, k) == Some(Verdict::Rejected));
    }
}

/// A filter overruns a topic exactly where it agrees with all that the topic has
/// and names a level beyond.
pub proof fn law_overrun(filter: Seq<char>, topic: Seq<char>)
    ensures
        verdict_of(filter, topic) == Verdict::Overrun <==> filter != topic && exists|k: int|
            overruns_at(levels(filter), levels(topic), k),
{
    let f = levels(filter);
    let t = levels(topic);
    lemma_verdict_is_settled_somewhere(f, t, 0);
    if exists|k: int| overruns_at(f, t, k) {
        let k = choose|k: int| overruns_at(f, t, k);
        lemma_agreeing_levels_settle_nothing(f, t, 0, k);
        assert(level_verdict(f, t, k) == Some(Verdict::Overrun));
    }
}

/// A filter passes a topic on exactly where all its levels agree with the topic's
/// first ones, the last of them is a name, and the topic goes deeper.
pub proof fn law_passing(filter: Seq<char>, topic: Seq<char>)
    ensures
        verdict_of(filter, topic) == Verdict::Passed <==> agree_before(
            levels(filter),
            levels(topic),
            levels(filter).len() as int,
        ) && levels(filter).last() != "+"@ && levels(filter).len() < levels(topic).len(),
{
    let f = levels(filter);
    let t = levels(topic);
    lemma_pieces_are_separator_free(filter, '/');
    let last = f.len() - 1;
    lemma_verdict_is_settled_somewhere(f, t, 0);
    if verdict_of(filter, topic) == Verdict::Passed {
        if f.last() == "+"@ {
            assert(f[last] != "#"@);
            lemma_agreeing_levels_settle_nothing(f, t, 0, last);
            assert(level_verdict(f, t, last) == Some(Verdict::Accepted));
        }
        assert(f[last] != "#"@);
        assert(f[last] == t[last]);
    }
    if agree_before(f, t, f.len() as int) && f.last() != "+"@ && f.len() < t.len() {
        lemma_agreeing_levels_settle_nothing(f, t, 0, f.len() as int);
        assert(filter != topic);
    }
}

/// A filter without wildcards accepts the topic that is spelled like it, and no
/// other.
pub proof fn law_plain_filter_accepts_its_own_topic_only(filter: Seq<char>, topic: Seq<char>)
    requires
        forall|i: int| 0 <= i < levels(filter).len() ==> !is_wildcard(#[trigger] levels(filter)[i]),
    ensures
        verdict_of(filter, topic) == Verdict::Accepted <==> filter == topic,
{
    let f = levels(filter);
    let t = levels(topic);
    law_acceptance(filter, topic);
    law_pieces_determine_the_text(filter, topic, '/');
    if exists|k: int| accepts_at(f, t, k) {
        let k = choose|k: int| accepts_at(f, t, k);
        if k < f.len() {
            assert(is_wildcard(f[k]));
        }
        assert forall|j: int| 0 <= j < f.len() implies f[j] == t[j] by {
            assert(!is_wildcard(f[j]));
        }
        assert(f =~= t);
    }
}

/// The one level that a wildcard is.
proof fn lemma_wildcard_levels()
    ensures
        levels("#"@) == seq!["#"@],
        levels("+"@) == seq!["+"@],
        "#"@ != "+"@,
{
    reveal_strlit("#");
    reveal_strlit("+");
    reveal_with_fuel(pieces, 3);
    assert("#"@.drop_last() =~= Seq::<char>::empty());
    assert("+"@.drop_last() =~= Seq::<char>::empty());
    assert(levels("#"@)[0] =~= "#"@);
    assert(levels("+"@)[0] =~= "+"@);
    assert(levels("#"@) =~= seq!["#"@]);
    assert(levels("+"@) =~= seq!["+"@]);
    assert("#"@[0] != "+"@[0]);
}

/// A `#` below a path accepts every topic below the path, however deep, and the
/// path itself.
pub proof fn law_multi_level_wildcard(path: Seq<char>, below: Seq<char>)
    ensures
        verdict_of(path.push('/') + "#"@, path.push('/') + below) == Verdict::Accepted,
        verdict_of(path.push('/') + "#"@, path) == Verdict::Accepted,
{
    let filter = path.push('/') + "#"@;
    let p = levels(path);
    let f = levels(filter);
    lemma_wildcard_levels();
    lemma_pieces_of_concatenation(path, "#"@, '/');
    lemma_pieces_of_concatenation(path, below, '/');
    assert(f =~= p.push("#"@));
    lemma_levels_up_to_a_hash(f, p, p + levels(below), 0);
    lemma_levels_up_to_a_hash(f, p, p, 0);
}

proof fn lemma_levels_up_to_a_hash(
    filter: Seq<Seq<char>>,
    path: Seq<Seq<char>>,
    topic: Seq<Seq<char>>,
    i: int,
)
    requires
        0 <= i <= path.len() <= topic.len(),
        filter == path.push("#"@),
        forall|j: int| 0 <= j < path.len() ==> #[trigger] path[j] == topic[j],
    ensures
        levels_verdict(filter, topic, i) == Verdict::Accepted,
    decreases path.len() - i,
{
    if i < path.len() {
        assert(filter[i] == path[i]);
        lemma_levels_up_to_a_hash(filter, path, topic, i + 1);
    }
}

/// A `+` between two paths accepts every topic that has some one level in its
/// place.
pub proof fn law_single_level_wildcard(above: Seq<char>, level: Seq<char>, below: Seq<char>)
    requires
        !level.contains('/'),
    ensures
        verdict_of(
            (above.push('/') + "+"@).push('/') + below,
            (above.push('/') + level).push('/') + below,
        ) == Verdict::Accepted,
{
    let filter = (above.push('/') + "+"@).push('/') + below;
    let topic = (above.push('/') + level).push('/') + below;
    lemma_wildcard_levels();
    lemma_pieces_of_concatenation(above, "+"@, '/');
    lemma_pieces_of_concatenation(above, level, '/');
    lemma_pieces_of_concatenation(above.push('/') + "+"@, below, '/');
    lemma_pieces_of_concatenation(above.push('/') + level, below, '/');
    crate::text::law_splitting_undoes_joining(seq![level], '/');
    assert(levels(level) =~= seq![level]);
    let a = levels(above);
    let b = levels(below);
    let f = levels(filter);
    let t = levels(topic);
    assert(f =~= a + seq!["+"@] + b);
    assert(t =~= a + seq![level] + b);
    lemma_pieces_are_separator_free(below, '/');
    lemma_levels_but_for_a_plus(f, t, a.len() as int, 0);
}

proof fn lemma_levels_but_for_a_plus(
    filter: Seq<Seq<char>>,
    topic: Seq<Seq<char>>,
    place: int,
    i: int,
)
    requires
        0 <= i <= filter.len(),
        filter.len() == topic.len(),
        0 <= place < filter.len(),
        filter[place] == "+"@,
        forall|j: int| 0 <= j < filter.len() && j != place ==> #[trigger] filter[j] == topic[j],
    ensures
        levels_verdict(filter, topic, i) == Verdict::Accepted,
    decreases filter.len() - i,
{
    if i < filter.len() {
        lemma_levels_but_for_a_plus(filter, topic, place, i + 1);
    }
}

/// A final `+` accepts every topic below the path, deeper ones too.
pub proof fn law_final_plus_accepts_any_depth(path: Seq<char>, below: Seq<char>)
    ensures
        verdict_of(path.push('/') + "+"@, path.push('/') + below) == Verdict::Accepted,
{
    let p = levels(path);
    let f = levels(path.push('/') + "+"@);
    let t = levels(path.push('/') + below);
    lemma_wildcard_levels();
    lemma_pieces_of_concatenation(path, "+"@, '/');
    lemma_pieces_of_concatenation(path, below, '/');
    assert(f =~= p.push("+"@));
    lemma_levels_up_to_a_final_plus(f, p, t, 0);
}

proof fn lemma_levels_up_to_a_final_plus(
    filter: Seq<Seq<char>>,
    path: Seq<Seq<char>>,
    topic: Seq<Seq<char>>,
    i: int,
)
    requires
        0 <= i <= path.len() <= topic.len(),
        filter == path.push("+"@),
        "#"@ != "+"@,
        forall|j: int| 0 <= j < path.len() ==> #[trigger] path[j] == topic[j],
    ensures
        levels_verdict(filter, topic, i) == Verdict::Accepted,
    decreases path.len() - i,
{
    if i < path.len() {
        assert(filter[i] == path[i]);
        lemma_levels_up_to_a_final_plus(filter, path, topic, i + 1);
    }
}

/// The levels of a path that begins with one level.
proof fn lemma_levels_of_a_longer_path(level: Seq<char>, below: Seq<char>)
    requires
        !level.contains('/'),
    ensures
        levels(level) == seq![level],
        levels(level.push('/') + below) == seq![level] + levels(below),
        levels(below).len() > 0,
        level.push('/') + below != level,
{
    law_text_without_separator_is_one_piece(level, '/');
    lemma_pieces_of_concatenation(level, below, '/');
    lemma_pieces_are_separator_free(below, '/');
    assert((level.push('/') + below).len() != level.len());
}

/// Levels in front of both do not change what the later levels settle.
proof fn lemma_verdict_below_a_level(
    first: Seq<char>,
    filter: Seq<Seq<char>>,
    other: Seq<char>,
    topic: Seq<Seq<char>>,
    i: int,
)
    requires
        0 <= i,
    ensures
        levels_verdict(seq![first] + filter, seq![other] + topic, i + 1) == levels_verdict(
            filter,
            topic,
            i,
        ),
    decreases filter.len() - i,
{
    let f = seq![first] + filter;
    let t = seq![other] + topic;
    if i < filter.len() {
        assert(f[i + 1] == filter[i]);
        if i < topic.len() {
            assert(t[i + 1] == topic[i]);
        }
        lemma_verdict_below_a_level(first, filter, other, topic, i + 1);
    }
}

/// A path judged by itself is accepted, level by level.
proof fn lemma_levels_accept_themselves(path: Seq<Seq<char>>, i: int)
    requires
        0 <= i,
    ensures
        levels_verdict(path, path, i) == Verdict::Accepted,
    decreases path.len() - i,
{
    if i < path.len() {
        lemma_levels_accept_themselves(path, i + 1);
    }
}

/// A topic is accepted by the filter that is spelled like it.
pub proof fn law_a_topic_accepts_itself(topic: Seq<char>)
    ensures
        verdict_of(topic, topic) == Verdict::Accepted,
{
}

/// `#` accepts every topic, and so does a filter that begins with it, whatever
/// follows. A `+` alone accepts every topic too.
pub proof fn law_leading_wildcards(below: Seq<char>, topic: Seq<char>)
    ensures
        verdict_of(seq!['#'], topic) == Verdict::Accepted,
        verdict_of(seq!['#', '/'] + below, topic) == Verdict::Accepted,
        verdict_of(seq!['+'], topic) == Verdict::Accepted,
{
    reveal_strlit("#");
    reveal_strlit("+");
    assert("#"@ =~= seq!['#']);
    assert("+"@ =~= seq!['+']);
    lemma_wildcard_levels();
    assert(!seq!['#'].contains('/'));
    lemma_levels_of_a_longer_path(seq!['#'], below);
    assert(seq!['#'].push('/') + below =~= seq!['#', '/'] + below);
}

/// A first level that filter and topic share does not matter, unless it is `#`: the
/// rest of the filter judges the rest of the topic. Nor does any first level of the
/// topic matter below a `+`.
pub proof fn law_a_shared_level_does_not_matter(
    level: Seq<char>,
    filter: Seq<char>,
    topic: Seq<char>,
)
    requires
        !level.contains('/'),
    ensures
        level != seq!['#'] ==> verdict_of(level + seq!['/'] + filter, level + seq!['/'] + topic)
            == verdict_of(filter, topic),
        verdict_of(seq!['+', '/'] + filter, level + seq!['/'] + topic) == verdict_of(filter, topic),
{
    reveal_strlit("#");
    reveal_strlit("+");
    assert("#"@ =~= seq!['#']);
    assert("+"@ =~= seq!['+']);
    let f = levels(filter);
    let t = levels(topic);
    let plus = seq!['+'];
    assert(!plus.contains('/'));
    assert(level + seq!['/'] + filter =~= level.push('/') + filter);
    assert(level + seq!['/'] + topic =~= level.push('/') + topic);
    assert(seq!['+', '/'] + filter =~= plus.push('/') + filter);
    lemma_levels_of_a_longer_path(level, filter);
    lemma_levels_of_a_longer_path(level, topic);
    lemma_levels_of_a_longer_path(plus, filter);
    lemma_verdict_below_a_level(level, f, level, t, 0);
    lemma_verdict_below_a_level(plus, f, level, t, 0);
    lemma_levels_accept_themselves(f, 0);
    law_pieces_determine_the_text(filter, topic, '/');
    let longer = level.push('/') + topic;
    if filter != topic {
        assert(!(f =~= t));
        if level.push('/') + filter == longer {
            assert(filter =~= (level.push('/') + filter).skip(level.len() as int + 1));
            assert(topic =~= longer.skip(level.len() as int + 1));
        }
    }
    if plus.push('/') + filter == longer {
        assert((seq![plus] + f).skip(1) =~= f);
        assert((seq![level] + t).skip(1) =~= t);
    }
    assert((seq![level] + f)[0] == level);
    assert((seq![level] + t)[0] == level);
    assert((seq![plus] + f)[0] == plus);
    assert((seq![level] + f).len() > 1);
    assert((seq![plus] + f).len() > 1);
}

/// A filter whose first level is a name rejects every topic with another first
/// level, whatever follows in the one or the other.
pub proof fn law_another_name_is_rejected(
    name: Seq<char>,
    below: Seq<char>,
    other: Seq<char>,
    other_below: Seq<char>,
)
    requires
        !name.contains('/'),
        !other.contains('/'),
        name != other,
        name != seq!['#'],
        name != seq!['+'],
    ensures
        verdict_of(name, other) == Verdict::Rejected,
        verdict_of(name, other + seq!['/'] + other_below) == Verdict::Rejected,
        verdict_of(name + seq!['/'] + below, other) == Verdict::Rejected,
        verdict_of(name + seq!['/'] + below, other + seq!['/'] + other_below) == Verdict::Rejected,
{
    reveal_strlit("#");
    reveal_strlit("+");
    assert("#"@ =~= seq!['#']);
    assert("+"@ =~= seq!['+']);
    assert(name + seq!['/'] + below =~= name.push('/') + below);
    assert(other + seq!['/'] + other_below =~= other.push('/') + other_below);
    lemma_levels_of_a_longer_path(name, below);
    lemma_levels_of_a_longer_path(other, other_below);
    assert((seq![name] + levels(below))[0] == name);
    assert((seq![other] + levels(other_below))[0] == other);
    assert(levels(name)[0] == name);
    assert(levels(other)[0] == other);
}

/// A filter that is one name passes on every topic below that name.
pub proof fn law_topics_below_a_name_are_passed_on(name: Seq<char>, below: Seq<char>)
    requires
        !name.contains('/'),
        name != seq!['#'],
        name != seq!['+'],
    ensures
        verdict_of(name, name + seq!['/'] + below) == Verdict::Passed,
{
    reveal_strlit("#");
    reveal_strlit("+");
    assert("#"@ =~= seq!['#']);
    assert("+"@ =~= seq!['+']);
    assert(name + seq!['/'] + below =~= name.push('/') + below);
    lemma_levels_of_a_longer_path(name, below);
    assert((seq![name] + levels(below))[0] == name);
    reveal_with_fuel(levels_verdict, 3);
}

/// What a filter says of a topic of one level that its own first level takes. A
/// second level that is a name overruns the topic, a `#` accepts it, and so does a
/// final `+`; any other `+` leaves it to the levels that follow.
pub proof fn law_filters_deeper_than_the_topic(
    first: Seq<char>,
    topic: Seq<char>,
    name: Seq<char>,
    below: Seq<char>,
)
    requires
        !topic.contains('/'),
        first == topic || first == seq!['+'],
        first != seq!['#'],
        !name.contains('/'),
        name != seq!['#'],
        name != seq!['+'],
    ensures
        verdict_of(first + seq!['/'] + name, topic) == Verdict::Overrun,
        verdict_of(first + seq!['/'] + (name + seq!['/'] + below), topic) == Verdict::Overrun,
        verdict_of(first + seq!['/', '#'], topic) == Verdict::Accepted,
        verdict_of(first + seq!['/', '#', '/'] + below, topic) == Verdict::Accepted,
        verdict_of(first + seq!['/', '+'], topic) == Verdict::Accepted,
        verdict_of(first + seq!['/', '+', '/'] + below, topic) == verdict_of(
            first + seq!['/'] + below,
            topic,
        ),
{
    reveal_strlit("#");
    reveal_strlit("+");
    assert("#"@ =~= seq!['#']);
    assert("+"@ =~= seq!['+']);
    assert(!seq!['+'].contains('/'));
    assert(!seq!['#'].contains('/'));
    lemma_deeper_filter(first, topic, name);
    lemma_deeper_filter(first, topic, name + seq!['/'] + below);
    lemma_deeper_filter(first, topic, seq!['#']);
    lemma_deeper_filter(first, topic, seq!['#', '/'] + below);
    lemma_deeper_filter(first, topic, seq!['+']);
    lemma_deeper_filter(first, topic, seq!['+', '/'] + below);
    lemma_deeper_filter(first, topic, below);
    assert(first + seq!['/', '#'] =~= first + seq!['/'] + seq!['#']);
    assert(first + seq!['/', '#', '/'] + below =~= first + seq!['/'] + (seq!['#', '/'] + below));
    assert(first + seq!['/', '+'] =~= first + seq!['/'] + seq!['+']);
    assert(first + seq!['/', '+', '/'] + below =~= first + seq!['/'] + (seq!['+', '/'] + below));
    assert(name + seq!['/'] + below =~= name.push('/') + below);
    assert(seq!['#', '/'] + below =~= seq!['#'].push('/') + below);
    assert(seq!['+', '/'] + below =~= seq!['+'].push('/') + below);
    lemma_levels_of_a_longer_path(name, below);
    lemma_levels_of_a_longer_path(seq!['#'], below);
    lemma_levels_of_a_longer_path(seq!['+'], below);
    let b = levels(below);
    assert(levels(name)[0] == name);
    assert((seq![name] + b)[0] == name);
    assert(levels(seq!['#'])[0] == seq!['#']);
    assert((seq![seq!['#']] + b)[0] == seq!['#']);
    assert(levels(seq!['+'])[0] == seq!['+']);
    assert((seq![seq!['+']] + b)[0] == seq!['+']);
    lemma_nothing_left_of_the_topic(seq!['+'], b, 0);
}

/// What a longer filter says of a topic of one level that its first level takes is
/// what its other levels say of nothing.
proof fn lemma_deeper_filter(first: Seq<char>, topic: Seq<char>, below: Seq<char>)
    requires
        !topic.contains('/'),
        first == topic || first == seq!['+'],
        first != seq!['#'],
    ensures
        verdict_of(first + seq!['/'] + below, topic) == levels_verdict(
            levels(below),
            Seq::<Seq<char>>::empty(),
            0,
        ),
{
    reveal_strlit("#");
    reveal_strlit("+");
    assert("#"@ =~= seq!['#']);
    assert("+"@ =~= seq!['+']);
    assert(!seq!['+'].contains('/'));
    assert(first + seq!['/'] + below =~= first.push('/') + below);
    lemma_levels_of_a_longer_path(first, below);
    law_text_without_separator_is_one_piece(topic, '/');
    let none = Seq::<Seq<char>>::empty();
    assert(levels(topic) =~= seq![topic] + none);
    lemma_verdict_below_a_level(first, levels(below), topic, none, 0);
    assert((seq![first] + levels(below))[0] == first);
    assert((seq![topic] + none)[0] == topic);
    assert((seq![first] + levels(below)).len() > 1);
    let filter = first + seq!['/'] + below;
    assert(filter[first.len() as int] == '/');
    if filter == topic {
        assert(topic.contains(filter[first.len() as int]));
    }
}

/// Past the end of the topic, a `+` that other levels follow leaves it to them.
proof fn lemma_nothing_left_of_the_topic(plus: Seq<char>, filter: Seq<Seq<char>>, i: int)
    requires
        0 <= i,
        plus == "+"@,
        plus != "#"@,
        filter.len() > 0,
    ensures
        levels_verdict(seq![plus] + filter, Seq::<Seq<char>>::empty(), i + 1) == levels_verdict(
            filter,
            Seq::<Seq<char>>::empty(),
            i,
        ),
        i == 0 ==> levels_verdict(seq![plus] + filter, Seq::<Seq<char>>::empty(), 0)
            == levels_verdict(filter, Seq::<Seq<char>>::empty(), 0),
    decreases filter.len() - i,
{
    let longer = seq![plus] + filter;
    if i < filter.len() {
        assert(longer[i + 1] == filter[i]);
        lemma_nothing_left_of_the_topic(plus, filter, i + 1);
    }
    assert(longer[0] == plus);
}

} // verus!
