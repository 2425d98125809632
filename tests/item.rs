use tg_reporter::channel::{ChannelRef, HistoryPage, PeerChat, ReportCategory, ReportError};
use tg_reporter::item::{after_fetch, after_lookup, after_submit, ItemStep};

#[test]
fn lookup_of_channel_leads_to_fetch() {
    match after_lookup(&Some(vec![PeerChat::Channel { id: 3, access_hash: Some(4) }])) {
        ItemStep::Fetch { query } => {
            assert_eq!(query.channel, ChannelRef { id: 3, access_hash: 4 });
            assert_eq!(query.limit, 1);
        }
        other => panic!("unexpected {:?}", other),
    }
}

#[test]
fn lookup_of_user_finishes_with_not_a_channel() {
    match after_lookup(&Some(vec![PeerChat::Other])) {
        ItemStep::Finished { result } => assert_eq!(result, Err(ReportError::NotAChannel)),
        other => panic!("unexpected {:?}", other),
    }
}

#[test]
fn fetch_leads_to_report_with_override() {
    let c = ChannelRef { id: 1, access_hash: 2 };
    let page = Some(HistoryPage::ChannelMessages(vec![900]));
    match after_fetch(c, &page, &Some("reason".to_string())) {
        ItemStep::Submit { request } => {
            assert_eq!(request.channel, c);
            assert_eq!(request.message_id, 900);
            assert_eq!(request.category, ReportCategory::Violence);
            assert_eq!(request.text, "reason");
        }
        other => panic!("unexpected {:?}", other),
    }
}

#[test]
fn empty_history_finishes() {
    let c = ChannelRef { id: 1, access_hash: 2 };
    match after_fetch(c, &Some(HistoryPage::ChannelMessages(vec![])), &None) {
        ItemStep::Finished { result } => assert_eq!(result, Err(ReportError::NoRecentMessage)),
        other => panic!("unexpected {:?}", other),
    }
    match after_fetch(c, &None, &None) {
        ItemStep::Finished { result } => assert_eq!(result, Err(ReportError::NoRecentMessage)),
        other => panic!("unexpected {:?}", other),
    }
}

#[test]
fn submission_outcome() {
    let c = ChannelRef { id: 1, access_hash: 2 };
    let page = Some(HistoryPage::ChannelMessages(vec![5]));
    let request = match after_fetch(c, &page, &Some("r".to_string())) {
        ItemStep::Submit { request } => request,
        other => panic!("unexpected {:?}", other),
    };
    match after_submit(request.clone(), Some(true)) {
        ItemStep::Finished { result } => assert_eq!(result, Ok("r".to_string())),
        other => panic!("unexpected {:?}", other),
    }
    match after_submit(request, Some(false)) {
        ItemStep::Finished { result } => assert_eq!(result, Err(ReportError::ReportRejected)),
        other => panic!("unexpected {:?}", other),
    }
}
