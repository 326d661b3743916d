//! Composes the outbound notification payload for one finding.
//!
//! The composer is pure: it reads the finding, classifies its severity,
//! resolves its documentation link, and assembles the message fields. It
//! never fails — a finding whose link cannot be resolved still yields a full
//! payload whose title link is simply empty.

use vstd::prelude::*;

verus! {

use vstd::string::StringExecFns;
use crate::digits::decimal_str;
use crate::digits::u64_to_string;
use crate::link::finding_link;
use crate::link::link_for;
use crate::severity::Severity;
use crate::severity::SeverityTier;
use crate::severity::classify;
use crate::severity::colour;
use crate::severity::colour_spec;
use crate::severity::mention;
use crate::severity::mention_spec;
use crate::severity::tier_of;

/// Bounds on the event timestamps the composer formats, in seconds from the
/// Unix epoch. They lie well inside the range of dates chrono can represent,
/// and cover every date GuardDuty can report by a margin of many millennia.
pub const MIN_EVENT_TIME: i64 = -8_000_000_000_000;

/// Upper counterpart of [`MIN_EVENT_TIME`].
pub const MAX_EVENT_TIME: i64 = 8_000_000_000_000;

/// Whether a timestamp lies in the range the formatter accepts.
pub open spec fn valid_event_time(t: i64) -> bool {
    MIN_EVENT_TIME <= t && t <= MAX_EVENT_TIME
}

/// What chrono's abbreviated rendering (`%a %b %e %T`: weekday, month,
/// space-padded day, time) of a UTC timestamp returns: a function of the
/// timestamp alone.
pub uninterp spec fn abbrev_time_of(secs: int) -> Seq<char>;

/// Relies on chrono's `DateTime::from_timestamp`, which accepts every
/// timestamp in the range above, and on its `format` with `%a %b %e %T`,
/// whose rendering depends on the timestamp alone.
#[verifier::external_body]
fn format_event_time(secs: i64) -> (r: String)
    requires
        valid_event_time(secs),
    ensures
        r@ == abbrev_time_of(secs as int),
{
    let dt = chrono::DateTime::<chrono::Utc>::from_timestamp(secs, 0)
        .expect("timestamp lies inside chrono's range");
    dt.format("%a %b %e %T").to_string()
}

/// One security finding, as decoded from the inbound event. Timestamps are
/// seconds from the Unix epoch, UTC. `severity_text` carries the severity
/// score rendered for display, exactly as it arrived.
pub struct Finding {
    pub finding_type: String,
    pub severity: Severity,
    pub severity_text: String,
    pub account_id: String,
    pub region: String,
    pub description: String,
    pub first_seen: i64,
    pub last_seen: i64,
    pub updated_at: i64,
    pub count: u64,
}

impl Finding {
    /// A finding is well formed when the two timestamps the composer formats
    /// lie in the formatter's range.
    pub open spec fn wf(self) -> bool {
        valid_event_time(self.first_seen) && valid_event_time(self.last_seen)
    }
}

/// One labelled field of the notification. A short field may be rendered
/// side by side with another.
pub struct NotificationField {
    pub title: String,
    pub value: String,
    pub short: bool,
}

/// The outbound notification: fallback text, presentation colour, pretext,
/// linked title, body text, the four labelled fields, footer metadata, the
/// message timestamp, and the flag that turns on mention expansion.
pub struct Notification {
    pub fallback: String,
    pub color: String,
    pub pretext: String,
    pub title: String,
    pub title_link: String,
    pub text: String,
    pub fields: Vec<NotificationField>,
    pub footer: String,
    pub footer_icon: String,
    pub ts: i64,
    pub link_names: bool,
}

/// The fallback line: source system, finding type, account and region.
pub open spec fn fallback_spec(finding_type: Seq<char>, account: Seq<char>, region: Seq<char>)
    -> Seq<char> {
    "GuardDuty:"@ + finding_type + " in "@ + account + " "@ + region
}

/// The pretext line. The mention is appended after a single space only where
/// there is one; a quiet tier leaves the line without trailing whitespace.
pub open spec fn pretext_spec(region: Seq<char>, account: Seq<char>, mention_text: Seq<char>)
    -> Seq<char> {
    let base = "*Finding in "@ + region + " from account "@ + account + "*"@;
    if mention_text.len() == 0 {
        base
    } else {
        base + " "@ + mention_text
    }
}

/// For the quiet tiers — Low and Unknown — the mention text is empty, and
/// the pretext is exactly the base line: no mention token, no stray
/// whitespace, and the line still ends in the closing marker.
pub proof fn lemma_quiet_pretext_has_no_stray_mention(
    region: Seq<char>,
    account: Seq<char>,
    t: SeverityTier,
)
    requires
        t == SeverityTier::Low || t == SeverityTier::Unknown,
    ensures
        mention_spec(t).len() == 0,
        pretext_spec(region, account, mention_spec(t)) =~= "*Finding in "@ + region
            + " from account "@ + account + "*"@,
        pretext_spec(region, account, mention_spec(t)).last() == '*',
{
    reveal_strlit("");
    reveal_strlit("*");
}

/// Composes the notification for one finding. Composition is total over well
/// formed findings: a finding whose link does not resolve still composes,
/// with an empty title link.
pub fn compose(f: &Finding) -> (p: Notification)
    requires
        f.wf(),
    ensures
        p.fallback@ == fallback_spec(f.finding_type@, f.account_id@, f.region@),
        p.color@ == colour_spec(tier_of(f.severity)),
        p.pretext@ == pretext_spec(f.region@, f.account_id@, mention_spec(tier_of(f.severity))),
        p.title@ == f.finding_type@,
        p.title_link@ == link_for(f.finding_type@),
        p.text@ == f.description@,
        p.fields@.len() == 4,
        p.fields@[0].title@ == "Severity"@,
        p.fields@[0].value@ == f.severity_text@,
        p.fields@[0].short,
        p.fields@[1].title@ == "First seen"@,
        p.fields@[1].value@ == abbrev_time_of(f.first_seen as int),
        p.fields@[1].short,
        p.fields@[2].title@ == "Count"@,
        p.fields@[2].value@ == decimal_str(f.count as int),
        p.fields@[2].short,
        p.fields@[3].title@ == "Last seen"@,
        p.fields@[3].value@ == abbrev_time_of(f.last_seen as int),
        p.fields@[3].short,
        p.footer@ == "GuardyBot"@,
        p.footer_icon@ == "https://rustacean.net/assets/rustacean-flat-happy.png"@,
        p.ts == f.updated_at,
        p.link_names,
{
    let tier = classify(f.severity);

    let mut fallback = String::from_str("GuardDuty:");
    fallback.append(f.finding_type.as_str());
    fallback.append(" in ");
    fallback.append(f.account_id.as_str());
    fallback.append(" ");
    fallback.append(f.region.as_str());
    proof {
        assert(fallback@ =~= fallback_spec(f.finding_type@, f.account_id@, f.region@));
    }

    let mention_text = mention(tier);
    let mut pretext = String::from_str("*Finding in ");
    pretext.append(f.region.as_str());
    pretext.append(" from account ");
    pretext.append(f.account_id.as_str());
    pretext.append("*");
    if !mention_text.is_empty() {
        pretext.append(" ");
        pretext.append(mention_text);
    }
    proof {
        assert(pretext@ =~= pretext_spec(f.region@, f.account_id@, mention_spec(tier_of(
            f.severity,
        ))));
    }

    let mut field_list: Vec<NotificationField> = Vec::new();
    field_list.push(
        NotificationField {
            title: String::from_str("Severity"),
            value: f.severity_text.clone(),
            short: true,
        },
    );
    field_list.push(
        NotificationField {
            title: String::from_str("First seen"),
            value: format_event_time(f.first_seen),
            short: true,
        },
    );
    field_list.push(
        NotificationField {
            title: String::from_str("Count"),
            value: u64_to_string(f.count),
            short: true,
        },
    );
    field_list.push(
        NotificationField {
            title: String::from_str("Last seen"),
            value: format_event_time(f.last_seen),
            short: true,
        },
    );

    Notification {
        fallback,
        color: String::from_str(colour(tier)),
        pretext,
        title: f.finding_type.clone(),
        title_link: finding_link(f.finding_type.as_str()),
        text: f.description.clone(),
        fields: field_list,
        footer: String::from_str("GuardyBot"),
        footer_icon: String::from_str("https://rustacean.net/assets/rustacean-flat-happy.png"),
        ts: f.updated_at,
        link_names: true,
    }
}

} // verus!
