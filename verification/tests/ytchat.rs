use puppetbots::ytchat::{
    ChatPoller, LiveChatAuthorDetails, LiveChatMessage, LiveChatMessages, LiveChatSnippet,
    RETRY_DELAY_MS,
};

fn item(author: &str, text: &str) -> LiveChatMessage {
    LiveChatMessage {
        snippet: LiveChatSnippet { display_message: text.to_string() },
        author_details: LiveChatAuthorDetails { display_name: author.to_string() },
    }
}

#[test]
fn poller_url() {
    let mut p = ChatPoller::new();
    assert_eq!(
        p.url("KEY", "CHAT"),
        "https://www.googleapis.com/youtube/v3/liveChat/messages?part=id%2C%20snippet%2C%20authorDetails&key=KEY&liveChatId=CHAT&pageToken="
    );
    p.on_response(Some(LiveChatMessages {
        items: vec![],
        next_page_token: "NEXT".to_string(),
        polling_interval_millis: 10,
    }));
    assert!(p.url("K", "C").ends_with("&key=K&liveChatId=C&pageToken=NEXT"));
}

#[test]
fn poller_passes_messages_on() {
    let mut p = ChatPoller::new();
    let step = p.on_response(Some(LiveChatMessages {
        items: vec![item("ann", "hi"), item("bo", "yo")],
        next_page_token: "T2".to_string(),
        polling_interval_millis: 1500,
    }));
    assert_eq!(step.wait_ms, 1500);
    let batch = step.batch.unwrap();
    assert_eq!(batch.len(), 2);
    assert_eq!(batch[0].author, "ann");
    assert_eq!(batch[0].text, "hi");
    assert_eq!(batch[1].author, "bo");
    assert_eq!(p.page_token, "T2");
}

#[test]
fn poller_empty_and_unreadable_pages() {
    let mut p = ChatPoller::new();
    let step = p.on_response(Some(LiveChatMessages {
        items: vec![],
        next_page_token: "T".to_string(),
        polling_interval_millis: 7,
    }));
    assert!(step.batch.is_none());
    assert_eq!(step.wait_ms, 7);
    let step = p.on_response(None);
    assert!(step.batch.is_none());
    assert_eq!(step.wait_ms, RETRY_DELAY_MS);
    assert_eq!(p.page_token, "T");
}
