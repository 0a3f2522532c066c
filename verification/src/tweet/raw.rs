//! The raw shape of a status as the second-generation API reports it.
//!
//! The wire decoder (a collaborator outside this crate) fills these records
//! in; here they carry plain values only — timestamps as seconds since the
//! epoch, addresses as strings — so the logic over them can be reasoned
//! about.  Fields whose wire form is floating point (annotation
//! probabilities, point coordinates) are left to the decoder.

use vstd::prelude::*;

verus! {

/// The media or poll attachments of a status.
pub enum Attachments {
    PollIds(Vec<String>),
    MediaKeys(Vec<String>),
}

/// One inferred context of a status.
pub struct ContextAnnotation {
    pub domain: ContextAnnotationDomain,
    pub entity: Option<ContextAnnotationEntity>,
}

/// The domain of a context annotation.
pub struct ContextAnnotationDomain {
    pub id: u64,
    pub name: String,
    pub description: String,
}

/// The entity of a context annotation.
pub struct ContextAnnotationEntity {
    pub id: u64,
    pub name: String,
}

/// The entities picked out of a status's text.  Annotation entities carry
/// floating-point probabilities on the wire and are left to the decoder.
pub struct Entities {
    pub cashtags: Vec<Cashtag>,
    pub hashtags: Vec<Hashtag>,
    pub mentions: Vec<Mention>,
    pub urls: Vec<UrlEntity>,
}

/// A cashtag with its position in the text.
pub struct Cashtag {
    pub start: usize,
    pub end: usize,
    pub tag: String,
}

/// A hashtag with its position in the text.
pub struct Hashtag {
    pub start: usize,
    pub end: usize,
    pub tag: String,
}

/// A mentioned account with its position in the text.
pub struct Mention {
    pub start: usize,
    pub end: usize,
    pub username: String,
}

/// A link with its position in the text; addresses are carried as strings.
pub struct UrlEntity {
    pub start: usize,
    pub end: usize,
    pub url: String,
    pub expanded_url: String,
    pub display_url: String,
    pub status: Option<u16>,
    pub title: Option<String>,
    pub description: Option<String>,
    pub unwound_url: Option<String>,
}

/// The place a status was tagged with.  The point coordinates are floating
/// point on the wire and are left to the decoder.
pub struct Geo {
    pub place_id: String,
}

/// Engagement counts visible only to the status's author.
pub struct NonPublicMetrics {
    pub impression_count: usize,
    pub url_link_clicks: usize,
    pub user_profile_clicks: usize,
}

/// Engagement counts for a grouping of views of the status.
pub struct Metrics {
    pub impression_count: usize,
    pub like_count: usize,
    pub reply_count: usize,
    pub retweet_count: usize,
    pub url_link_clicks: usize,
    pub user_profile_clicks: usize,
}

/// Publicly visible engagement counts.
pub struct PublicMetrics {
    pub retweet_count: usize,
    pub reply_count: usize,
    pub like_count: usize,
    pub quote_count: usize,
}

/// A status this one refers to, and how.
pub enum ReferencedTweet {
    RepliedTo { id: u64 },
    Quoted { id: u64 },
}

/// Who may reply to a status.
pub enum ReplySettings {
    Everyone,
    MentionedUsers,
    Followers,
}

/// Why and where a status is withheld.
pub struct WithheldDetails {
    pub copyright: bool,
    pub country_codes: Vec<String>,
}

/// A status as the second-generation API reports it.  Only `id` and `text`
/// are always present; every other field arrives only when the request asked
/// for it.
pub struct RawTweetV2 {
    /// Numeric id of the status; always present.
    pub id: u64,
    /// Text body of the status; always present.
    pub text: String,
    pub attachments: Option<Attachments>,
    /// Id of the author.
    pub author_id: Option<u64>,
    pub context_annotations: Option<Vec<ContextAnnotation>>,
    pub conversation_id: Option<u64>,
    /// When the status was posted, in seconds since the epoch.
    pub created_at: Option<i64>,
    pub entities: Option<Entities>,
    pub geo: Option<Geo>,
    pub in_reply_to_user_id: Option<u64>,
    pub lang: Option<String>,
    pub non_public_metrics: Option<NonPublicMetrics>,
    pub organic_metrics: Option<Metrics>,
    pub possibly_sensitive: Option<bool>,
    pub promoted_metrics: Option<Metrics>,
    pub public_metrics: Option<PublicMetrics>,
    pub referenced_tweets: Option<Vec<ReferencedTweet>>,
    pub reply_settings: Option<ReplySettings>,
    pub source: Option<String>,
    pub withheld: Option<WithheldDetails>,
}

impl RawTweetV2 {
    /// The second-generation API sends back only the fields a request names.
    /// This is the field list a request must carry for the answer to convert
    /// into the first-generation [`Tweet`](crate::tweet::Tweet) shape.
    pub fn fields_needed_for_v1_raw_tweet() -> (r: &'static str)
        ensures
            r@ == "created_at,entities,geo,in_reply_to_user_id,lang,possibly_sensitive,public_metrics,source,withheld"@,
    {
        "created_at,entities,geo,in_reply_to_user_id,lang,possibly_sensitive,public_metrics,source,withheld"
    }

    /// All the fields (save for some that require special permissions).
    pub fn all_fields() -> (r: &'static str)
        ensures
            r@ == "attachments,author_id,context_annotations,conversation_id,created_at,entities,geo,in_reply_to_user_id,lang,possibly_sensitive,public_metrics,referenced_tweets,reply_settings,source,withheld"@,
    {
        "attachments,author_id,context_annotations,conversation_id,created_at,entities,geo,in_reply_to_user_id,lang,possibly_sensitive,public_metrics,referenced_tweets,reply_settings,source,withheld"
    }
}

} // verus!
