//! Structured notification messages and their rendered text.
//!
//! The core produces messages; delivery (chat bots, social platforms) is
//! a downstream consumer's business. What is verified here is the exact
//! text handed to such a sink, including the length cap for short-post
//! platforms.

use vstd::prelude::*;
use vstd::string::StrSliceExecFns;
use vstd::string::StringExecFns;

use crate::util::{ascii_chars, i64_to_string, spec_i64_dec_bytes};

verus! {

/// Character limit of a short social post.
pub const POST_CHAR_LIMIT: usize = 280;

/// Urgency of a notification.
#[derive(Clone, Copy, PartialEq, Eq, Structural, Debug)]
pub enum NotificationPriority {
    Low,
    Medium,
    High,
    Critical,
}

/// What a notification is about.
#[derive(Clone, Copy, PartialEq, Eq, Structural, Debug)]
pub enum NotificationCategory {
    TokenAnalysis,
    TradingSignal,
    RiskAlert,
    PriceMovement,
    SystemStatus,
}

/// A structured message for a notification sink.
#[derive(Clone, Debug)]
pub struct NotificationMessage {
    pub title: String,
    pub content: String,
    pub priority: NotificationPriority,
    pub category: NotificationCategory,
    /// Seconds since the Unix epoch.
    pub timestamp: i64,
}

/// The display name of a priority.
pub open spec fn spec_priority_label(p: NotificationPriority) -> Seq<char> {
    match p {
        NotificationPriority::Low => "Low"@,
        NotificationPriority::Medium => "Medium"@,
        NotificationPriority::High => "High"@,
        NotificationPriority::Critical => "Critical"@,
    }
}

/// The display name of a category.
pub open spec fn spec_category_label(c: NotificationCategory) -> Seq<char> {
    match c {
        NotificationCategory::TokenAnalysis => "TokenAnalysis"@,
        NotificationCategory::TradingSignal => "TradingSignal"@,
        NotificationCategory::RiskAlert => "RiskAlert"@,
        NotificationCategory::PriceMovement => "PriceMovement"@,
        NotificationCategory::SystemStatus => "SystemStatus"@,
    }
}

/// The display name of a priority.
pub fn priority_label(p: NotificationPriority) -> (r: String)
    ensures
        r@ == spec_priority_label(p),
{
    match p {
        NotificationPriority::Low => String::from_str("Low"),
        NotificationPriority::Medium => String::from_str("Medium"),
        NotificationPriority::High => String::from_str("High"),
        NotificationPriority::Critical => String::from_str("Critical"),
    }
}

/// The display name of a category.
pub fn category_label(c: NotificationCategory) -> (r: String)
    ensures
        r@ == spec_category_label(c),
{
    match c {
        NotificationCategory::TokenAnalysis => String::from_str("TokenAnalysis"),
        NotificationCategory::TradingSignal => String::from_str("TradingSignal"),
        NotificationCategory::RiskAlert => String::from_str("RiskAlert"),
        NotificationCategory::PriceMovement => String::from_str("PriceMovement"),
        NotificationCategory::SystemStatus => String::from_str("SystemStatus"),
    }
}

/// The untruncated short-post text: title, content, and category and
/// priority hashtags.
pub open spec fn spec_post_full(m: NotificationMessage) -> Seq<char> {
    m.title@ + "\n\n"@ + m.content@ + "\n\n#"@ + spec_category_label(m.category) + " #"@
        + spec_priority_label(m.priority)
}

/// The short-post text, capped at [`POST_CHAR_LIMIT`] characters with a
/// trailing ellipsis when over.
pub open spec fn spec_post_text(m: NotificationMessage) -> Seq<char> {
    let full = spec_post_full(m);
    if full.len() <= POST_CHAR_LIMIT {
        full
    } else {
        full.take(POST_CHAR_LIMIT - 3) + "..."@
    }
}

/// Renders a message for a short-post platform, truncating to the
/// platform's character limit.
pub fn compose_post(m: &NotificationMessage) -> (r: String)
    ensures
        r@ == spec_post_text(*m),
{
    let mut s = String::new();
    s.append(m.title.as_str());
    s.append("\n\n");
    s.append(m.content.as_str());
    s.append("\n\n#");
    let cat = category_label(m.category);
    s.append(cat.as_str());
    s.append(" #");
    let prio = priority_label(m.priority);
    s.append(prio.as_str());
    let chars: usize = s.as_str().unicode_len();
    if chars <= POST_CHAR_LIMIT {
        s
    } else {
        let head = s.as_str().substring_char(0, POST_CHAR_LIMIT - 3);
        let mut out = String::from_str(head);
        out.append("...");
        proof {
            assert(out@ =~= spec_post_text(*m));
        }
        out
    }
}

/// The long-form notification text: title set off by asterisks, content,
/// then priority, category and timestamp lines.
pub open spec fn spec_detail_text(m: NotificationMessage) -> Seq<char> {
    "*"@ + m.title@ + "*\n\n"@ + m.content@ + "\n\nPriority: "@ + spec_priority_label(m.priority)
        + "\nCategory: "@ + spec_category_label(m.category) + "\nTime: "@ + ascii_chars(
        spec_i64_dec_bytes(m.timestamp as int),
    )
}

/// Renders a message for a long-form notification sink.
pub fn compose_detail(m: &NotificationMessage) -> (r: String)
    ensures
        r@ == spec_detail_text(*m),
{
    let mut s = String::from_str("*");
    s.append(m.title.as_str());
    s.append("*\n\n");
    s.append(m.content.as_str());
    s.append("\n\nPriority: ");
    let prio = priority_label(m.priority);
    s.append(prio.as_str());
    s.append("\nCategory: ");
    let cat = category_label(m.category);
    s.append(cat.as_str());
    s.append("\nTime: ");
    let stamp = i64_to_string(m.timestamp);
    s.append(stamp.as_str());
    s
}

} // verus!
