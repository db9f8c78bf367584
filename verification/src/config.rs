//! The settings of a sync, read and checked once, before anything else is
//! done.

use crate::clickup::{ClickUpApiInstance, RATE_LIMIT_MARGIN};
use crate::docsoc_ical::SyncWindow;
use crate::error::SyncError;
use vstd::prelude::*;

verus! {

/// Requests per minute assumed where the setting is absent.
pub const DEFAULT_RATE_LIMIT_PER_MIN: u32 = 100;

/// The settings as they are found, each present or not.
#[derive(Clone, Debug, PartialEq, Eq)]
pub struct Settings {
    /// Where the calendar feed is fetched.
    pub feed_url: Option<String>,
    /// First day of the sync window, written `YYYY-MM-DD`.
    pub start_date: Option<String>,
    /// Last day of the sync window, written `YYYY-MM-DD`.
    pub end_date: Option<String>,
    /// The bearer token for the tracker.
    pub access_token: Option<String>,
    /// The list that tasks are created in.
    pub target_list_id: Option<String>,
    /// The tracker's limit of requests per minute. The only setting that
    /// may be absent.
    pub rate_limit_per_min: Option<String>,
}

/// The settings of a sync, complete and checked.
#[derive(Clone, Debug, PartialEq, Eq)]
pub struct SyncConfig {
    pub feed_url: String,
    pub window: SyncWindow,
    pub access_token: String,
    pub api: ClickUpApiInstance,
}

/// Every character of the text is one of the digits `0` to `9`.
pub open spec fn all_digits(text: Seq<char>) -> bool {
    forall|i: int| 0 <= i < text.len() ==> '0' <= #[trigger] text[i] <= '9'
}

/// The number that a text of digits writes in base ten.
pub open spec fn digits_value(digits: Seq<char>) -> int
    decreases digits.len(),
{
    if digits.len() == 0 {
        0
    } else {
        digits_value(digits.drop_last()) * 10 + (digits.last() as u32 - '0' as u32)
    }
}

/// The number that a text writes: an optional `+`, then one digit or more
/// and nothing else, if the number fits 32 bits.
pub open spec fn decimal_u32(text: Seq<char>) -> Option<u32> {
    let digits = if text.len() > 0 && text[0] == '+' {
        text.drop_first()
    } else {
        text
    };
    if digits.len() > 0 && all_digits(digits) && digits_value(digits) <= u32::MAX {
        Some(digits_value(digits) as u32)
    } else {
        None
    }
}

/// Calls `str::parse::<u32>`. Trusted: as its documentation says, the text
/// is read as an optional `+` followed by decimal digits only; anything
/// else, no digit at all, or a number too large for a `u32` is an error,
/// which comes out as `None`.
#[verifier::external_body]
fn parse_u32(text: &str) -> (number: Option<u32>)
    ensures
        number == decimal_u32(text@),
{
    text.parse::<u32>().ok()
}

/// The rate limit that the setting asks for: the default where the setting
/// is absent, the number it holds where it is present.
pub open spec fn configured_rate_limit_spec(setting: Option<Seq<char>>) -> Result<u32, SyncError> {
    match setting {
        None => Ok(DEFAULT_RATE_LIMIT_PER_MIN),
        Some(text) => match decimal_u32(text) {
            Some(limit) => Ok(limit),
            None => Err(SyncError::InvalidConfig),
        },
    }
}

/// Reads the requests-per-minute setting. An absent setting means the
/// default; one that is not a number is a configuration error.
pub fn configured_rate_limit(setting: Option<&str>) -> (limit: Result<u32, SyncError>)
    ensures
        limit == configured_rate_limit_spec(setting.deep_view()),
{
    match setting {
        None => Ok(DEFAULT_RATE_LIMIT_PER_MIN),
        Some(text) => match parse_u32(text) {
            Some(limit) => Ok(limit),
            None => Err(SyncError::InvalidConfig),
        },
    }
}

impl Settings {
    /// The sync window that the two dates describe, if both are present and
    /// can be read.
    pub open spec fn window(self) -> Option<SyncWindow> {
        if self.start_date is Some && self.end_date is Some {
            SyncWindow::from_dates_spec(self.start_date->0@, self.end_date->0@)
        } else {
            None
        }
    }

    /// The rate limit that is asked for.
    pub open spec fn rate_limit(self) -> Result<u32, SyncError> {
        configured_rate_limit_spec(self.rate_limit_per_min.deep_view())
    }

    /// Every required setting is present, the dates can be read, and the
    /// rate limit is a number that exceeds the margin.
    pub open spec fn is_valid(self) -> bool {
        &&& self.feed_url is Some
        &&& self.access_token is Some
        &&& self.target_list_id is Some
        &&& self.window() is Some
        &&& self.rate_limit() is Ok
        &&& self.rate_limit()->Ok_0 > RATE_LIMIT_MARGIN
    }
}

impl SyncConfig {
    /// Checks the settings and puts them together. Settings that are not
    /// valid, for whatever reason, are a configuration error.
    pub fn from_settings(settings: Settings) -> (config: Result<SyncConfig, SyncError>)
        ensures
            settings.is_valid() ==> config is Ok && ({
                let c = config->Ok_0;
                &&& c.feed_url == settings.feed_url->0
                &&& c.access_token == settings.access_token->0
                &&& Some(c.window) == settings.window()
                &&& c.api.target_list_id == settings.target_list_id->0
                &&& c.api.requests_per_minute == settings.rate_limit()->Ok_0 - RATE_LIMIT_MARGIN
                &&& c.api.wf()
            }),
            !settings.is_valid() ==> config is Err && config->Err_0 == SyncError::InvalidConfig,
    {
        let Settings {
            feed_url,
            start_date,
            end_date,
            access_token,
            target_list_id,
            rate_limit_per_min,
        } = settings;
        let rate_limit = match &rate_limit_per_min {
            Some(text) => configured_rate_limit(Some(text.as_str())),
            None => configured_rate_limit(None),
        };
        match (feed_url, start_date, end_date, access_token, target_list_id, rate_limit) {
            (
                Some(feed_url),
                Some(start_date),
                Some(end_date),
                Some(access_token),
                Some(target_list_id),
                Ok(rate_limit),
            ) => {
                match SyncWindow::from_dates(start_date.as_str(), end_date.as_str()) {
                    Ok(window) => match ClickUpApiInstance::new(target_list_id, rate_limit) {
                        Ok(api) => Ok(SyncConfig { feed_url, window, access_token, api }),
                        Err(error) => Err(error),
                    },
                    Err(error) => Err(error),
                }
            },
            _ => Err(SyncError::InvalidConfig),
        }
    }
}

} // verus!
