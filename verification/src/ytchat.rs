//! Polling the live chat of a YouTube stream for the virtual show.

use vstd::prelude::*;

verus! {

/// How long to wait before asking again after an answer that could not be read.
pub const RETRY_DELAY_MS: u64 = 5000;

/// The text of a chat message.
pub struct LiveChatSnippet {
    pub display_message: String,
}

/// The author of a chat message.
pub struct LiveChatAuthorDetails {
    pub display_name: String,
}

/// A chat message as the YouTube API gives it.
pub struct LiveChatMessage {
    pub snippet: LiveChatSnippet,
    pub author_details: LiveChatAuthorDetails,
}

/// One page of chat messages: the messages, the token of the next page, and
/// how long to wait before asking for it.
pub struct LiveChatMessages {
    pub items: Vec<LiveChatMessage>,
    pub next_page_token: String,
    pub polling_interval_millis: u64,
}

/// A chat message as the show passes it on: who wrote what.
pub struct YTChatMessage {
    pub author: String,
    pub text: String,
}

/// The author and text of a chat message.
pub open spec fn chat_entry(m: LiveChatMessage) -> (Seq<char>, Seq<char>) {
    (m.author_details.display_name@, m.snippet.display_message@)
}

/// The show's form of a chat message.
pub fn chat_message(item: &LiveChatMessage) -> (m: YTChatMessage)
    ensures
        (m.author@, m.text@) == chat_entry(*item),
{
    YTChatMessage {
        author: item.author_details.display_name.clone(),
        text: item.snippet.display_message.clone(),
    }
}

/// The show's form of every message of a page, in order.
pub fn chat_messages(page: &LiveChatMessages) -> (ms: Vec<YTChatMessage>)
    ensures
        ms@.len() == page.items@.len(),
        forall|i: int|
            0 <= i < ms@.len() ==> (#[trigger] ms@[i].author@, ms@[i].text@) == chat_entry(
                page.items@[i],
            ),
{
    let mut ms: Vec<YTChatMessage> = Vec::new();
    let n = page.items.len();
    for i in 0..n
        invariant
            n == page.items@.len(),
            ms@.len() == i,
            forall|j: int|
                0 <= j < i ==> (#[trigger] ms@[j].author@, ms@[j].text@) == chat_entry(
                    page.items@[j],
                ),
    {
        ms.push(chat_message(&page.items[i]));
    }
    ms
}

/// The address of the page of messages after `page_token` of chat `chat_id`.
pub open spec fn messages_url_of(api_key: Seq<char>, chat_id: Seq<char>, page_token: Seq<char>) -> Seq<
    char,
> {
    "https://www.googleapis.com/youtube/v3/liveChat/messages?part=id%2C%20snippet%2C%20authorDetails&key="@
        + api_key + "&liveChatId="@ + chat_id + "&pageToken="@ + page_token
}

/// What to do after an answer: the messages to pass on (none when the page
/// was empty or could not be read), and how long to wait before asking again.
pub struct PollStep {
    pub batch: Option<Vec<YTChatMessage>>,
    pub wait_ms: u64,
}

/// Where the polling of a chat stands: the token of the next page to ask for.
pub struct ChatPoller {
    pub page_token: String,
}

impl ChatPoller {
    /// Start at the first page.
    pub fn new() -> (p: ChatPoller)
        ensures
            p.page_token@ == Seq::<char>::empty(),
    {
        ChatPoller { page_token: String::new() }
    }

    /// The address to ask next.
    pub fn url(&self, api_key: &str, chat_id: &str) -> (u: String)
        ensures
            u@ == messages_url_of(api_key@, chat_id@, self.page_token@),
    {
        let mut u =
            "https://www.googleapis.com/youtube/v3/liveChat/messages?part=id%2C%20snippet%2C%20authorDetails&key=".to_owned();
        u.append(api_key);
        u.append("&liveChatId=");
        u.append(chat_id);
        u.append("&pageToken=");
        u.append(self.page_token.as_str());
        u
    }

    /// Take an answer, read or not: a page moves the poller to the next page,
    /// passes its messages on if there are any, and waits as the page says;
    /// an unreadable answer changes nothing and waits five seconds.
    pub fn on_response(&mut self, page: Option<LiveChatMessages>) -> (step: PollStep)
        ensures
            match page {
                Some(p) => {
                    &&& final(self).page_token@ == p.next_page_token@
                    &&& step.wait_ms == p.polling_interval_millis
                    &&& (step.batch is Some <==> p.items@.len() > 0)
                    &&& step.batch matches Some(b) ==> {
                        &&& b@.len() == p.items@.len()
                        &&& forall|i: int|
                            0 <= i < b@.len() ==> (#[trigger] b@[i].author@, b@[i].text@)
                                == chat_entry(p.items@[i])
                    }
                },
                None => {
                    &&& final(self).page_token@ == old(self).page_token@
                    &&& step.wait_ms == RETRY_DELAY_MS
                    &&& step.batch is None
                },
            },
    {
        match page {
            Some(p) => {
                let ms = chat_messages(&p);
                let batch = if ms.len() > 0 {
                    Some(ms)
                } else {
                    None
                };
                self.page_token = p.next_page_token;
                PollStep { batch, wait_ms: p.polling_interval_millis }
            },
            None => PollStep { batch: None, wait_ms: RETRY_DELAY_MS },
        }
    }
}

} // verus!
