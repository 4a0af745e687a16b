//! The Discord notification channel: configuration and message decisions.
//!
//! Delivery itself is an HTTP POST of a JSON payload, performed by the
//! embedding program; here live the validated webhook configuration and the
//! decisions on how a status is reported.

use vstd::prelude::*;

use crate::notifications::NotificationsError;
use crate::status::ActiveState;
use crate::status::UnitStatus;

verus! {

/// Declares url::Url, the parsed form of a webhook URL. Its values are
/// opaque here; they are carried through to the delivery code.
#[verifier::external_type_specification]
#[verifier::external_body]
pub struct ExUrl(url::Url);

/// Declares url::ParseError, what url::Url::parse reports for an invalid
/// URL string.
#[verifier::external_type_specification]
#[verifier::external_body]
pub struct ExParseError(url::ParseError);

/// Whether `url::Url::parse` accepts the given string. Parsing is a pure
/// function of the characters alone.
pub uninterp spec fn url_parse_ok(s: Seq<char>) -> bool;

/// Relies on url::Url::parse: deterministic in its input, it returns a URL
/// exactly when the input is a valid URL string.
#[verifier::external_body]
fn parse_url(s: &str) -> (r: Result<url::Url, url::ParseError>)
    ensures
        r is Ok <==> url_parse_ok(s@),
{
    url::Url::parse(s)
}

/// A notification provider posting webhook messages to Discord. Holds only
/// the configuration needed to construct deliveries.
pub struct Discord {
    webhook_url: url::Url,
}

impl Discord {
    /// Creates a new Discord notification provider with the given webhook
    /// URL as string. The string must be in a valid format for an URL.
    pub fn new(webhook_url: &str) -> (r: Result<Self, NotificationsError>)
        ensures
            r is Ok <==> url_parse_ok(webhook_url@),
            r matches Err(e) ==> e is InvalidWebhookUrl,
    {
        match parse_url(webhook_url) {
            Ok(url) => Ok(Discord { webhook_url: url }),
            Err(e) => Err(NotificationsError::InvalidWebhookUrl(e)),
        }
    }

    /// The webhook URL deliveries are posted to.
    pub fn webhook_url(&self) -> &url::Url {
        &self.webhook_url
    }
}

/// Whether a status is reported as a recovery: exactly when the unit's
/// active state is `active`. Decides the wording of the Discord message.
pub fn is_recovery_message(status: &UnitStatus) -> (r: bool)
    ensures
        r == (status@.active_state is Active),
{
    *status.active_state() == ActiveState::Active
}

/// The colour of the Discord embed for a status: green (6610199) for a
/// recovered unit, red (13631488) otherwise.
pub fn message_color(status: &UnitStatus) -> (r: u32)
    ensures
        status@.active_state is Active ==> r == 6610199,
        !(status@.active_state is Active) ==> r == 13631488,
{
    if is_recovery_message(status) {
        6610199
    } else {
        13631488
    }
}

} // verus!
