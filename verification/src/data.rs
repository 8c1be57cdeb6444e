use vstd::prelude::*;

verus! {

/// The type `chrono::NaiveDateTime`, a date and time without a time zone,
/// carried through as a value of its own: nothing is claimed of what is in it.
#[verifier::external_type_specification]
#[verifier::external_body]
pub struct ExNaiveDateTime(chrono::NaiveDateTime);

/// `Clone::clone` of `chrono::NaiveDateTime`, a type that derives `Copy` and
/// `Clone`: the clone is the same date and time.
pub assume_specification[ <chrono::NaiveDateTime as Clone>::clone ](
    dt: &chrono::NaiveDateTime,
) -> (r: chrono::NaiveDateTime)
    ensures
        r == *dt,
;

/// The kinds of personal data.
#[derive(Debug, Clone, Copy, PartialEq, Eq)]
pub enum DataType {
    /// Electronic messages between users. Gmail messages, Outlook emails
    Email,
    /// Short-form text communication. SMS, WhatsApp, Telegram, Slack messages
    Message,
    /// Scheduled events and reminders. Google Calendar events, Outlook calendar entries
    Calendar,
    /// Information about people or organizations. Names, emails, phone numbers, social profiles, location
    Contract,
    /// User-written notes or memos. Evernote, Apple Notes, Notion pages, plain text notes
    Note,
    /// To-do items or actionable tasks. Task list entries, project management tasks (Trello, Asana)
    Task,
    /// Structured files containing text or data. PDFs, Word documents, Google Docs, spreadsheets
    Document,
    /// Static visual content. Photos, screenshots, infographics
    Image,
    /// Moving visual content with or without audio. Recorded meetings, short-form social videos
    Video,
    /// Non-transcribed sound data. Voice memos, podcasts, raw call recordings
    Audio,
    /// Published social media or blog content, Tweets, LinkedIn posts, blog articles
    Post,
    /// Financial or bill. Bank transactions, crypto wallet transfers, blockchain events
    Bill,
}

/// A piece of personal data, such as
/// `{"source": "gmail", "type": "email", "title": "Meeting with John",
/// "content": "...", "timestamp": "2025-08-05T09:00:00", "tags": ["meeting", "projectX"]}`.
#[derive(Debug, Clone)]
pub struct Data {
    pub data_type: DataType,
    pub source: String,
    pub title: String,
    pub content: String,
    pub timestamp: chrono::NaiveDateTime,
    pub tags: Vec<String>,
}

} // verus!
