use vstd::prelude::*;
use crate::identifier::{IdentifierView, ResolvedJoinType};

verus! {

/// Why one identifier could not be reported; the run goes on with the next one.
#[derive(Clone, Copy, Debug, PartialEq, Eq, Structural)]
pub enum ReportError {
    /// The platform found no entity under the handle.
    NotFound,
    /// The handle names an entity that is not a channel (a user, a basic group).
    NotAChannel,
    /// Invite hashes cannot be resolved yet.
    UnsupportedIdentifier,
    /// The channel has no message that could be reported.
    NoRecentMessage,
    /// The platform refused the report.
    ReportRejected,
}

/// What the platform's identifier lookup returned for one entity of its answer.
#[derive(Clone, Copy, Debug, PartialEq, Eq, Structural)]
pub enum PeerChat {
    Channel { id: i64, access_hash: Option<i64> },
    Other,
}

/// The pair that addresses a channel in every later request.
#[derive(Clone, Copy, Debug, PartialEq, Eq, Structural)]
pub struct ChannelRef {
    pub id: i64,
    pub access_hash: i64,
}

/// What a history query returned.
#[derive(Clone, Debug)]
pub enum HistoryPage {
    /// Messages of a channel, newest first, by id.
    ChannelMessages(Vec<i32>),
    /// Any other shape of answer.
    Other,
}

/// The history query that asks for the newest message alone.
#[derive(Clone, Copy, Debug, PartialEq, Eq, Structural)]
pub struct HistoryQuery {
    pub channel: ChannelRef,
    pub offset_id: i32,
    pub offset_date: i32,
    pub add_offset: i32,
    pub limit: i32,
    pub max_id: i32,
    pub min_id: i32,
    pub hash: i64,
}

/// The single report category that every submission carries.
#[derive(Clone, Copy, Debug, PartialEq, Eq, Structural)]
pub enum ReportCategory {
    Violence,
}

/// An abuse report against one message of a channel.
#[derive(Clone, Debug)]
pub struct ReportRequest {
    pub channel: ChannelRef,
    pub message_id: i32,
    pub category: ReportCategory,
    pub text: String,
}

/// The handle to look up, or the error of an identifier that cannot be looked up.
pub open spec fn lookup_target(s: Seq<char>) -> Result<Seq<char>, ReportError> {
    match crate::identifier::parse_identifier(s) {
        IdentifierView::Handle(h) => Ok(h),
        IdentifierView::InviteHash(_) => Err(ReportError::UnsupportedIdentifier),
    }
}

/// The channel that a lookup answer designates: its first entity, when that is a channel.
pub open spec fn channel_of(lookup: Option<Seq<PeerChat>>) -> Result<ChannelRef, ReportError> {
    match lookup {
        None => Err(ReportError::NotFound),
        Some(chats) => if chats.len() == 0 {
            Err(ReportError::NotFound)
        } else {
            match chats[0] {
                PeerChat::Channel { id, access_hash } => Ok(
                    ChannelRef {
                        id,
                        access_hash: match access_hash {
                            Some(h) => h,
                            None => 0,
                        },
                    },
                ),
                PeerChat::Other => Err(ReportError::NotAChannel),
            }
        },
    }
}

/// Parses `input` and gives the handle that the platform is to look up; an invite
/// hash is refused with its own error.
pub fn lookup_handle(input: &str) -> (r: Result<String, ReportError>)
    ensures
        match r {
            Ok(h) => lookup_target(input@) == Ok::<Seq<char>, ReportError>(h@),
            Err(e) => lookup_target(input@) == Err::<Seq<char>, ReportError>(e),
        },
{
    match ResolvedJoinType::resolve(input) {
        ResolvedJoinType::Username(h) => Ok(h),
        ResolvedJoinType::Hash(_) => Err(ReportError::UnsupportedIdentifier),
    }
}

/// Decides what a lookup answer resolves to; `None` stands for a lookup that the
/// platform refused.
pub fn channel_from_lookup(lookup: &Option<Vec<PeerChat>>) -> (r: Result<ChannelRef, ReportError>)
    ensures
        r == channel_of(
            match lookup {
                Some(v) => Some(v@),
                None => None,
            },
        ),
{
    match lookup {
        None => Err(ReportError::NotFound),
        Some(chats) => {
            if chats.len() == 0 {
                Err(ReportError::NotFound)
            } else {
                match chats[0] {
                    PeerChat::Channel { id, access_hash } => {
                        let access_hash = match access_hash {
                            Some(h) => h,
                            None => 0,
                        };
                        Ok(ChannelRef { id, access_hash })
                    },
                    PeerChat::Other => Err(ReportError::NotAChannel),
                }
            }
        },
    }
}

/// The history query for the newest message of `channel`: one message, no offset.
pub open spec fn newest_message_query(channel: ChannelRef) -> HistoryQuery {
    HistoryQuery {
        channel,
        offset_id: 0,
        offset_date: 0,
        add_offset: 0,
        limit: 1,
        max_id: i32::MAX,
        min_id: i32::MIN,
        hash: 0,
    }
}

/// The query for the newest message of `channel`.
pub fn latest_message_query(channel: ChannelRef) -> (q: HistoryQuery)
    ensures
        q == newest_message_query(channel),
{
    HistoryQuery {
        channel,
        offset_id: 0,
        offset_date: 0,
        add_offset: 0,
        limit: 1,
        max_id: i32::MAX,
        min_id: i32::MIN,
        hash: 0,
    }
}

/// The message to report on a history page: the first of a channel's messages.
pub open spec fn newest_message_of(page: HistoryPage) -> Result<i32, ReportError> {
    match page {
        HistoryPage::ChannelMessages(ids) => if ids@.len() > 0 {
            Ok(ids@[0])
        } else {
            Err(ReportError::NoRecentMessage)
        },
        HistoryPage::Other => Err(ReportError::NoRecentMessage),
    }
}

/// The id of the message to report.
pub fn latest_message_id(page: &HistoryPage) -> (r: Result<i32, ReportError>)
    ensures
        r == newest_message_of(*page),
{
    match page {
        HistoryPage::ChannelMessages(ids) => {
            if ids.len() > 0 {
                Ok(ids[0])
            } else {
                Err(ReportError::NoRecentMessage)
            }
        },
        HistoryPage::Other => Err(ReportError::NoRecentMessage),
    }
}

/// The report against message `message_id` of `channel`, in the fixed category.
pub fn report_request(channel: ChannelRef, message_id: i32, text: String) -> (r: ReportRequest)
    ensures
        r.channel == channel,
        r.message_id == message_id,
        r.category == ReportCategory::Violence,
        r.text@ == text@,
{
    ReportRequest { channel, message_id, category: ReportCategory::Violence, text }
}

/// The outcome of a submitted report: whether the platform accepted it.
pub fn submission_result(accepted: Option<bool>) -> (r: Result<(), ReportError>)
    ensures
        r is Ok <==> accepted == Some(true),
        r is Err ==> r == Err::<(), ReportError>(ReportError::ReportRejected),
{
    match accepted {
        Some(true) => Ok(()),
        _ => Err(ReportError::ReportRejected),
    }
}

/// A user, or any entity that is not a channel, is told apart from a missing one.
pub proof fn lemma_non_channel_is_distinct(chats: Seq<PeerChat>)
    requires
        chats.len() > 0,
        chats[0] == PeerChat::Other,
    ensures
        channel_of(Some(chats)) == Err::<ChannelRef, ReportError>(ReportError::NotAChannel),
        channel_of(Some(chats)) != channel_of(None),
        channel_of(Some(chats)) != channel_of(Some(Seq::<PeerChat>::empty())),
{
}

} // verus!
