//! What the live feed of the network tells the client.

use crate::ui::components::text::{is_prefix, starts_with, str_eq};
use vstd::prelude::*;
use vstd::string::{StrSliceExecFns, StringExecFns};

verus! {

/// Something that the live feed told.
#[derive(Debug)]
pub enum UpdateEvent {
    /// There is a new notification.
    Notification { uri: String },
    /// The connection to the feed changed.
    ConnectionStatus(ConnectionStatus),
}

impl Clone for UpdateEvent {
    fn clone(&self) -> (copy: Self)
        ensures
            copy == *self,
    {
        match self {
            UpdateEvent::Notification { uri } => UpdateEvent::Notification { uri: uri.clone() },
            UpdateEvent::ConnectionStatus(status) => UpdateEvent::ConnectionStatus(*status),
        }
    }
}

/// How the connection to the live feed stands.
#[derive(Clone, Copy, PartialEq, Eq, Structural, Debug)]
pub enum ConnectionStatus {
    Connected,
    Disconnected,
    Reconnecting,
}

/// One change that a commit makes to a repository.
pub struct Operation {
    pub action: String,
    pub path: String,
    pub content_id: String,
}

/// One block of data that comes with a commit.
pub struct Block {
    pub cid: String,
    /// Whether the block holds a notification.
    pub is_notification: bool,
}

/// A commit to a repository.
pub struct RepoCommit {
    pub collection: String,
    pub repo: String,
    pub ops: Vec<Operation>,
    pub blocks: Vec<Block>,
}

/// A message of the live feed.
pub enum SubscriptionMessage {
    Commit(RepoCommit),
    Handle,
    Tombstone,
    Migrate,
}

/// What follows the last slash of `path`: all of `path` where it has none.
pub open spec fn last_segment(path: Seq<char>) -> Seq<char>
    decreases path.len(),
{
    if path.len() == 0 || path.last() == '/' {
        Seq::empty()
    } else {
        last_segment(path.drop_last()).push(path.last())
    }
}

/// The first block with the content id `cid`.
pub open spec fn block_for(blocks: Seq<Block>, cid: Seq<char>) -> Option<Block>
    decreases blocks.len(),
{
    if blocks.len() == 0 {
        None
    } else if blocks[0].cid@ == cid {
        Some(blocks[0])
    } else {
        block_for(blocks.drop_first(), cid)
    }
}

/// The operation at place `i` brings a notification: the first block with
/// its content id holds one.
pub open spec fn brings_notification(commit: &RepoCommit, i: int) -> bool {
    block_for(commit.blocks@, commit.ops@[i].content_id@) matches Some(block)
        && block.is_notification
}

/// The key of the notification that the operation `path` of the repository
/// `repo` brought.
pub open spec fn notification_uri(repo: Seq<char>, path: Seq<char>) -> Seq<char> {
    "at://"@ + repo + "/app.bsky.notification/"@ + last_segment(path)
}

/// What follows the last slash of `path`, see `last_segment`.
pub fn last_segment_of(path: &str) -> (segment: String)
    ensures
        segment@ == last_segment(path@),
{
    let length = path.unicode_len();
    let mut start: usize = length;
    let mut found = false;
    assert(path@.take(length as int) =~= path@);
    while start > 0 && !found
        invariant
            start <= length,
            length == path@.len(),
            last_segment(path@) == if found {
                path@.subrange(start as int, length as int)
            } else {
                last_segment(path@.take(start as int)) + path@.subrange(
                    start as int,
                    length as int,
                )
            },
        decreases start + if found { 0int } else { 1int },
    {
        let ghost head = path@.take(start as int);
        assert(head.drop_last() =~= path@.take(start - 1));
        assert(head.last() == path@[start - 1]);
        if path.get_char(start - 1) == '/' {
            found = true;
            assert(last_segment(head) =~= Seq::<char>::empty());
            assert(Seq::<char>::empty() + path@.subrange(start as int, length as int)
                =~= path@.subrange(start as int, length as int));
        } else {
            assert(last_segment(head) + path@.subrange(start as int, length as int)
                =~= last_segment(head.drop_last()) + path@.subrange(start - 1, length as int));
            start -= 1;
        }
    }
    proof {
        if !found {
            assert(last_segment(path@.take(0)) =~= Seq::<char>::empty());
            assert(Seq::<char>::empty() + path@.subrange(0, length as int) =~= path@.subrange(
                0,
                length as int,
            ));
        }
    }
    path.substring_char(start, length).to_owned()
}

/// Whether the first block with the content id `cid` holds a notification.
pub fn holds_notification(blocks: &Vec<Block>, cid: &str) -> (holds: bool)
    ensures
        holds == (block_for(blocks@, cid@) matches Some(block) && block.is_notification),
{
    let mut i: usize = 0;
    assert(blocks@.skip(0) =~= blocks@);
    while i < blocks.len()
        invariant
            i <= blocks@.len(),
            block_for(blocks@, cid@) == block_for(blocks@.skip(i as int), cid@),
        decreases blocks@.len() - i,
    {
        assert(blocks@.skip(i as int).drop_first() =~= blocks@.skip(i + 1));
        if str_eq(blocks[i].cid.as_str(), cid) {
            return blocks[i].is_notification;
        }
        i += 1;
    }
    false
}

/// The place of the first operation from `from` on that brings a
/// notification; the number of operations where none does.
pub open spec fn first_bringing(commit: &RepoCommit, from: int) -> int
    decreases commit.ops@.len() - from,
{
    if from >= commit.ops@.len() {
        commit.ops@.len() as int
    } else if brings_notification(commit, from) {
        from
    } else {
        first_bringing(commit, from + 1)
    }
}

/// What a message of the live feed means to the client: a commit to the
/// collection of notifications whose operations bring a notification means
/// that there is a new one, named after the first operation that brings one.
/// Every other message means nothing.
#[verifier::loop_isolation(false)]
pub fn parse_update(message: &SubscriptionMessage) -> (event: Option<UpdateEvent>)
    ensures
        match message {
            SubscriptionMessage::Commit(commit) => if is_prefix(
                "app.bsky.notification"@,
                commit.collection@,
            ) && first_bringing(commit, 0) < commit.ops@.len() {
                event matches Some(UpdateEvent::Notification { uri }) && uri@ == notification_uri(
                    commit.repo@,
                    commit.ops@[first_bringing(commit, 0)].path@,
                )
            } else {
                event is None
            },
            _ => event is None,
        },
{
    match message {
        SubscriptionMessage::Commit(commit) => {
            if !starts_with(commit.collection.as_str(), "app.bsky.notification") {
                return None;
            }
            let mut i: usize = 0;
            while i < commit.ops.len()
                invariant
                    i <= commit.ops@.len(),
                    first_bringing(commit, 0) == first_bringing(commit, i as int),
                decreases commit.ops@.len() - i,
            {
                if holds_notification(&commit.blocks, commit.ops[i].content_id.as_str()) {
                    let mut uri = "at://".to_owned();
                    uri.append(commit.repo.as_str());
                    uri.append("/app.bsky.notification/");
                    uri.append(last_segment_of(commit.ops[i].path.as_str()).as_str());
                    assert(brings_notification(commit, i as int));
                    assert(uri@ =~= notification_uri(commit.repo@, commit.ops@[i as int].path@));
                    return Some(UpdateEvent::Notification { uri });
                }
                i += 1;
            }
            None
        },
        _ => None,
    }
}

} // verus!
