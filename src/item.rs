use vstd::prelude::*;
use crate::channel::{
    channel_from_lookup, channel_of, latest_message_id, latest_message_query, lookup_handle,
    lookup_target, newest_message_of, newest_message_query, report_request, submission_result,
    ChannelRef, HistoryPage, HistoryQuery, PeerChat, ReportCategory, ReportError, ReportRequest,
};
use crate::message::{catalog_entry, choose_report_text, CATALOG_LEN};

verus! {

/// The next piece of work for one identifier, or its result.
#[derive(Debug)]
pub enum ItemStep {
    /// Look the handle up on the platform.
    Lookup { handle: String },
    /// Fetch the channel's newest message.
    Fetch { query: HistoryQuery },
    /// Submit the report.
    Submit { request: ReportRequest },
    /// Done: the submitted text, or why nothing was reported.
    Finished { result: Result<String, ReportError> },
}

/// Whether `step` ends the identifier with error `e`.
pub open spec fn fails_with(step: ItemStep, e: ReportError) -> bool {
    match step {
        ItemStep::Finished { result: Err(f) } => f == e,
        _ => false,
    }
}

/// The first step for `identifier`: a lookup of its handle, or the end when it
/// cannot be looked up.
pub fn begin_item(identifier: &str) -> (r: ItemStep)
    ensures
        match lookup_target(identifier@) {
            Ok(h) => r matches ItemStep::Lookup { handle } && handle@ == h,
            Err(e) => fails_with(r, e),
        },
{
    match lookup_handle(identifier) {
        Ok(handle) => ItemStep::Lookup { handle },
        Err(e) => ItemStep::Finished { result: Err(e) },
    }
}

/// The step after the lookup: fetching from the channel it found, or the end.
pub fn after_lookup(lookup: &Option<Vec<PeerChat>>) -> (r: ItemStep)
    ensures
        match channel_of(
            match lookup {
                Some(v) => Some(v@),
                None => None,
            },
        ) {
            Ok(c) => r == (ItemStep::Fetch { query: newest_message_query(c) }),
            Err(e) => fails_with(r, e),
        },
{
    match channel_from_lookup(lookup) {
        Ok(channel) => ItemStep::Fetch { query: latest_message_query(channel) },
        Err(e) => ItemStep::Finished { result: Err(e) },
    }
}

/// The step after the history came back: a report against its newest message, with
/// the operator's text or one drawn from the catalog; `None` stands for a fetch
/// that failed.
pub fn after_fetch(
    channel: ChannelRef,
    page: &Option<HistoryPage>,
    message_override: &Option<String>,
) -> (r: ItemStep)
    ensures
        match page {
            Some(p) => match newest_message_of(*p) {
                Ok(id) => r matches ItemStep::Submit { request } && {
                    &&& request.channel == channel
                    &&& request.message_id == id
                    &&& request.category == ReportCategory::Violence
                    &&& match message_override {
                        Some(t) => request.text@ == t@,
                        None => exists|i: int|
                            0 <= i < CATALOG_LEN && request.text@ == catalog_entry(i),
                    }
                },
                Err(e) => fails_with(r, e),
            },
            None => fails_with(r, ReportError::NoRecentMessage),
        },
{
    match page {
        Some(p) => match latest_message_id(p) {
            Ok(id) => {
                let text = choose_report_text(message_override);
                ItemStep::Submit { request: report_request(channel, id, text) }
            },
            Err(e) => ItemStep::Finished { result: Err(e) },
        },
        None => ItemStep::Finished { result: Err(ReportError::NoRecentMessage) },
    }
}

/// The end after a submission: the submitted text when the platform accepted the
/// report; `None` stands for a submission that failed.
pub fn after_submit(request: ReportRequest, accepted: Option<bool>) -> (r: ItemStep)
    ensures
        accepted == Some(true) ==> (r matches ItemStep::Finished { result: Ok(t) } && t@
            == request.text@),
        accepted != Some(true) ==> fails_with(r, ReportError::ReportRejected),
{
    match submission_result(accepted) {
        Ok(()) => ItemStep::Finished { result: Ok(request.text) },
        Err(e) => ItemStep::Finished { result: Err(e) },
    }
}

} // verus!
