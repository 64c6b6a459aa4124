//! What a client asks for when it opens a connection.

use vstd::prelude::*;
use vstd::string::StrSliceExecFns;
use crate::topic::{SubscriptionTopic, Topic};

verus! {

/// The parameters of a request for a connection.
#[derive(Debug, Clone)]
pub struct WsQuery {
    /// The topics that the client wants, as their strings with commas
    /// between them.
    pub topics: Option<String>,
    /// What the client calls itself.
    pub client_id: Option<String>,
}

/// Whether a character is white space, as Unicode defines it.
pub open spec fn is_white_space(c: char) -> bool {
    let code = c as u32;
    ||| 0x09 <= code <= 0x0d
    ||| code == 0x20
    ||| code == 0x85
    ||| code == 0xa0
    ||| code == 0x1680
    ||| 0x2000 <= code <= 0x200a
    ||| code == 0x2028
    ||| code == 0x2029
    ||| code == 0x202f
    ||| code == 0x205f
    ||| code == 0x3000
}

/// A text without the white space at its start.
pub open spec fn trim_start(s: Seq<char>) -> Seq<char>
    decreases s.len(),
{
    if s.len() > 0 && is_white_space(s[0]) {
        trim_start(s.skip(1))
    } else {
        s
    }
}

/// A text without the white space at its end.
pub open spec fn trim_end(s: Seq<char>) -> Seq<char>
    decreases s.len(),
{
    if s.len() > 0 && is_white_space(s.last()) {
        trim_end(s.drop_last())
    } else {
        s
    }
}

/// A text without the white space at its start and at its end.
pub open spec fn trimmed(s: Seq<char>) -> Seq<char> {
    trim_end(trim_start(s))
}

/// The pieces of a text between its commas, in order. A text without a
/// comma is one piece, and so is the empty text; two commas in a row have
/// an empty piece between them.
pub open spec fn comma_pieces(s: Seq<char>) -> Seq<Seq<char>>
    decreases s.len(),
{
    if s.len() == 0 {
        seq![Seq::<char>::empty()]
    } else {
        let before = comma_pieces(s.drop_last());
        if s.last() == ',' {
            before.push(Seq::<char>::empty())
        } else {
            before.drop_last().push(before.last().push(s.last()))
        }
    }
}

/// The topics that a list of pieces asks for: each piece that is not empty
/// is trimmed and read as a topic.
pub open spec fn topics_of_pieces(pieces: Seq<Seq<char>>) -> Seq<Topic>
    decreases pieces.len(),
{
    if pieces.len() == 0 {
        Seq::<Topic>::empty()
    } else {
        let before = topics_of_pieces(pieces.drop_last());
        if pieces.last().len() == 0 {
            before
        } else {
            before.push(Topic::parse(trimmed(pieces.last())))
        }
    }
}

/// The topics that a text with commas asks for.
pub open spec fn requested(text: Seq<char>) -> Seq<Topic> {
    topics_of_pieces(comma_pieces(text))
}

/// The models of a sequence of topics.
pub open spec fn topic_views(topics: Seq<SubscriptionTopic>) -> Seq<Topic> {
    topics.map_values(|t: SubscriptionTopic| t@)
}

/// Whether a character is white space, as Unicode defines it.
pub fn is_whitespace(c: char) -> (r: bool)
    ensures
        r == is_white_space(c),
{
    let code: u32 = c as u32;
    (0x09 <= code && code <= 0x0d) || code == 0x20 || code == 0x85 || code == 0xa0 || code
        == 0x1680 || (0x2000 <= code && code <= 0x200a) || code == 0x2028 || code == 0x2029
        || code == 0x202f || code == 0x205f || code == 0x3000
}

/// Trimming at the start drops a run of white space that ends before a
/// character that is none, or with the text.
proof fn lemma_trim_start(s: Seq<char>, from: int)
    requires
        0 <= from <= s.len(),
        forall|i: int| 0 <= i < from ==> is_white_space(#[trigger] s[i]),
        from < s.len() ==> !is_white_space(s[from]),
    ensures
        trim_start(s) == s.skip(from),
    decreases from,
{
    if from == 0 {
        assert(s.skip(0) =~= s);
    } else {
        lemma_trim_start(s.skip(1), from - 1);
        assert(s.skip(1).skip(from - 1) =~= s.skip(from));
    }
}

/// Trimming at the end drops a run of white space that starts after a
/// character that is none, or with the text.
proof fn lemma_trim_end(s: Seq<char>, to: int)
    requires
        0 <= to <= s.len(),
        forall|i: int| to <= i < s.len() ==> is_white_space(#[trigger] s[i]),
        to > 0 ==> !is_white_space(s[to - 1]),
    ensures
        trim_end(s) == s.take(to),
    decreases s.len() - to,
{
    if to == s.len() {
        assert(s.take(to) =~= s);
    } else {
        lemma_trim_end(s.drop_last(), to);
        assert(s.drop_last().take(to) =~= s.take(to));
    }
}

/// A string slice without the white space at its start and at its end.
pub fn trim(s: &str) -> (r: &str)
    ensures
        r@ == trimmed(s@),
{
    let n: usize = s.unicode_len();
    let mut from: usize = 0;
    while from < n && is_whitespace(s.get_char(from))
        invariant
            from <= n,
            n == s@.len(),
            forall|i: int| 0 <= i < from ==> is_white_space(#[trigger] s@[i]),
        decreases n - from,
    {
        from += 1;
    }
    let mut to: usize = n;
    while to > from && is_whitespace(s.get_char(to - 1))
        invariant
            from <= to <= n,
            n == s@.len(),
            forall|i: int| to <= i < n ==> is_white_space(#[trigger] s@[i]),
        decreases to,
    {
        to -= 1;
    }
    proof {
        lemma_trim_start(s@, from as int);
        let rest = s@.skip(from as int);
        assert forall|i: int| to - from <= i < rest.len() implies is_white_space(
            #[trigger] rest[i],
        ) by {
            assert(rest[i] == s@[i + from]);
        }
        if to > from {
            assert(rest[to - from - 1] == s@[to - 1]);
        }
        lemma_trim_end(rest, to - from);
        assert(rest.take(to - from) =~= s@.subrange(from as int, to as int));
    }
    s.substring_char(from, to)
}

/// Reads the topics that a text with commas asks for: the text is cut at
/// its commas, empty pieces are left out, and each other piece is trimmed
/// and read as a topic.
pub fn parse_topic_list(text: &str) -> (topics: Vec<SubscriptionTopic>)
    ensures
        topic_views(topics@) == requested(text@),
{
    let n: usize = text.unicode_len();
    let mut topics: Vec<SubscriptionTopic> = Vec::new();
    let mut start: usize = 0;
    let mut i: usize = 0;
    let ghost mut done: Seq<Seq<char>> = Seq::empty();
    proof {
        assert(text@.take(0) =~= Seq::<char>::empty());
        assert(comma_pieces(text@.take(0)) =~= done.push(text@.subrange(0, 0)));
        assert(topic_views(topics@) =~= topics_of_pieces(done));
    }
    while i < n
        invariant
            start <= i <= n,
            n == text@.len(),
            comma_pieces(text@.take(i as int)) == done.push(text@.subrange(start as int, i as int)),
            topic_views(topics@) == topics_of_pieces(done),
        decreases n - i,
    {
        let ghost piece = text@.subrange(start as int, i as int);
        proof {
            assert(text@.take(i + 1).drop_last() =~= text@.take(i as int));
            assert(text@.take(i + 1).last() == text@[i as int]);
            assert(done.push(piece).drop_last() =~= done);
            assert(done.push(piece).last() == piece);
        }
        if text.get_char(i) == ',' {
            let ghost before = topics@;
            if i > start {
                let part: &str = text.substring_char(start, i);
                topics.push(SubscriptionTopic::from(trim(part)));
                assert(topic_views(topics@) =~= topic_views(before).push(
                    Topic::parse(trimmed(piece)),
                ));
            }
            proof {
                done = done.push(piece);
                assert(done.drop_last() =~= done.take(done.len() - 1));
                assert(topic_views(topics@) == topics_of_pieces(done));
                assert(text@.subrange(i + 1, i + 1) =~= Seq::<char>::empty());
            }
            start = i + 1;
        } else {
            proof {
                assert(piece.push(text@[i as int]) =~= text@.subrange(start as int, i + 1));
            }
        }
        i += 1;
    }
    let ghost piece = text@.subrange(start as int, n as int);
    let ghost before = topics@;
    if n > start {
        let part: &str = text.substring_char(start, n);
        topics.push(SubscriptionTopic::from(trim(part)));
        assert(topic_views(topics@) =~= topic_views(before).push(Topic::parse(trimmed(piece))));
    }
    proof {
        assert(text@.take(n as int) =~= text@);
        assert(done.push(piece).drop_last() =~= done);
        assert(done.push(piece).last() == piece);
    }
    topics
}

impl WsQuery {
    /// The topics that the request asks for; none where it names none.
    pub fn requested_topics(&self) -> (topics: Vec<SubscriptionTopic>)
        ensures
            topic_views(topics@) == match self.topics {
                Some(text) => requested(text@),
                None => requested(Seq::<char>::empty()),
            },
    {
        match &self.topics {
            Some(text) => parse_topic_list(text.as_str()),
            None => {
                proof {
                    reveal_strlit("");
                    assert(""@ =~= Seq::<char>::empty());
                }
                parse_topic_list("")
            },
        }
    }
}

} // verus!
