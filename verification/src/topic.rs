//! Topics: the routing keys that match published messages to connections.

use vstd::prelude::*;
use vstd::string::StringExecFns;
use crate::identity::{
    format_uuid, hyphenated, is_uuid_length, parse_uuid, parsed_uuid, ConnectionId,
};
use crate::text::strip_prefix;
use crate::text::text_eq;

verus! {

/// A subscription channel.
#[derive(Debug, Clone, PartialEq, Eq, Hash)]
pub enum SubscriptionTopic {
    /// Changes of the navigation.
    Navigation,
    /// Changes in the file system.
    FileSystem,
    /// Updates of one data source, named by the field.
    DataUpdates(String),
    /// The catch-all topic.
    All,
    /// Messages addressed to one connection.
    Direct(ConnectionId),
}

/// The mathematical value of a [`SubscriptionTopic`].
pub enum Topic {
    Navigation,
    FileSystem,
    DataUpdates(Seq<char>),
    All,
    Direct(ConnectionId),
}

impl View for SubscriptionTopic {
    type V = Topic;

    open spec fn view(&self) -> Topic {
        match self {
            SubscriptionTopic::Navigation => Topic::Navigation,
            SubscriptionTopic::FileSystem => Topic::FileSystem,
            SubscriptionTopic::DataUpdates(source) => Topic::DataUpdates(source@),
            SubscriptionTopic::All => Topic::All,
            SubscriptionTopic::Direct(id) => Topic::Direct(*id),
        }
    }
}

impl Topic {
    /// The canonical string form of a topic.
    pub open spec fn text(self) -> Seq<char> {
        match self {
            Topic::Navigation => "navigation"@,
            Topic::FileSystem => "filesystem"@,
            Topic::DataUpdates(source) => "data:"@ + source,
            Topic::All => "all"@,
            Topic::Direct(id) => "direct:"@ + hyphenated(id),
        }
    }

    /// The topic that a string stands for. Every string stands for one:
    /// what is not recognised, an ill-formed identifier after `direct:`
    /// included, is the catch-all topic.
    pub open spec fn parse(s: Seq<char>) -> Topic {
        if s == "navigation"@ {
            Topic::Navigation
        } else if s == "filesystem"@ {
            Topic::FileSystem
        } else if s == "all"@ {
            Topic::All
        } else if "data:"@.is_prefix_of(s) {
            Topic::DataUpdates(s.skip("data:"@.len() as int))
        } else if "direct:"@.is_prefix_of(s) {
            Topic::direct_or_all(parsed_uuid(s.skip("direct:"@.len() as int)))
        } else {
            Topic::All
        }
    }

    /// The direct topic of an identifier that was read, the catch-all topic
    /// where none was.
    pub open spec fn direct_or_all(id: Option<ConnectionId>) -> Topic {
        match id {
            Some(id) => Topic::Direct(id),
            None => Topic::All,
        }
    }
}

impl SubscriptionTopic {
    /// The canonical string form, under which clients subscribe. Read as
    /// a topic, it stands for this topic again.
    pub fn to_string(&self) -> (r: String)
        ensures
            r@ == self@.text(),
            Topic::parse(r@) == self@,
    {
        proof {
            reveal_strlit("navigation");
            reveal_strlit("filesystem");
            reveal_strlit("all");
            reveal_strlit("data:");
            reveal_strlit("direct:");
        }
        match self {
            SubscriptionTopic::Navigation => String::from_str("navigation"),
            SubscriptionTopic::FileSystem => {
                let out: String = String::from_str("filesystem");
                assert(out@[0] == 'f');
                out
            },
            SubscriptionTopic::DataUpdates(source) => {
                let mut out: String = String::from_str("data:");
                out.append(source.as_str());
                proof {
                    assert(out@[0] == 'd');
                    assert(out@.subrange(0, 5) =~= "data:"@);
                    assert(out@.skip(5) =~= source@);
                    assert(out@.len() != 3);
                }
                out
            },
            SubscriptionTopic::All => {
                let out: String = String::from_str("all");
                assert(out@.len() == 3);
                out
            },
            SubscriptionTopic::Direct(id) => {
                let mut out: String = String::from_str("direct:");
                let id_text: String = format_uuid(*id);
                out.append(id_text.as_str());
                proof {
                    assert(out@.len() == 43);
                    assert(out@[0] == 'd' && out@[1] == 'i');
                    assert(out@.subrange(0, 5)[1] == 'i');
                    assert(out@.subrange(0, 7) =~= "direct:"@);
                    assert(out@.skip(7) =~= id_text@);
                }
                out
            },
        }
    }

    /// The topic addressed by what was read after `direct:`: that
    /// connection's direct topic, or the catch-all topic where no identifier
    /// was read.
    pub fn direct_or_all(id: Option<ConnectionId>) -> (t: SubscriptionTopic)
        ensures
            t@ == Topic::direct_or_all(id),
    {
        match id {
            Some(id) => SubscriptionTopic::Direct(id),
            None => SubscriptionTopic::All,
        }
    }

    /// Reads a topic from its string form. Never fails: a string that is not
    /// recognised stands for the catch-all topic, and so does `direct:`
    /// before anything that has not the length of an identifier.
    pub fn from(s: &str) -> (t: SubscriptionTopic)
        ensures
            t@ == Topic::parse(s@),
            t@ is Direct ==> "direct:"@.is_prefix_of(s@) && is_uuid_length(
                (s@.len() - "direct:"@.len()) as nat,
            ),
    {
        proof {
            reveal_strlit("navigation");
            reveal_strlit("filesystem");
            reveal_strlit("all");
            reveal_strlit("data:");
            reveal_strlit("direct:");
        }
        if text_eq(s, "navigation") {
            SubscriptionTopic::Navigation
        } else if text_eq(s, "filesystem") {
            SubscriptionTopic::FileSystem
        } else if text_eq(s, "all") {
            SubscriptionTopic::All
        } else if let Some(source) = strip_prefix(s, "data:") {
            SubscriptionTopic::DataUpdates(String::from_str(source))
        } else if let Some(id_text) = strip_prefix(s, "direct:") {
            SubscriptionTopic::direct_or_all(parse_uuid(id_text))
        } else {
            SubscriptionTopic::All
        }
    }
}

} // verus!
