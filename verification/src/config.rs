//! Decisions the scanner takes from its configuration: where the directive
//! text comes from, whether notifications are sent or echoed, and the
//! operator-supplied reference-time override.  The reading of the
//! configuration itself and all transport are the caller's business; these
//! functions take and return plain values.
use vstd::prelude::*;

use crate::calendar::Instant;
use crate::scan::digit_run;
use crate::scan::digits_val;
use crate::scan::find_digit_run;
use crate::scan::lemma_digit_run;
use crate::scan::read_digits;

verus! {

/// How the directive text is to be obtained.
#[derive(Clone, Copy, PartialEq, Eq, Structural, Debug)]
pub enum SourcePlan {
    /// No file is configured; only inline reminder text is scanned.
    InlineOnly,
    /// Read the configured file from local storage.
    LocalFile,
    /// Fetch the configured URL without credentials.
    HttpPlain,
    /// Fetch the configured URL with basic authentication.
    HttpBasicAuth,
}

/// A configuration the scan cannot start from.
#[derive(Clone, Copy, PartialEq, Eq, Structural, Debug)]
pub enum ConfigError {
    /// Neither a file nor inline reminder text is configured.
    InvalidConfig,
    /// Basic authentication is requested but a username or password is
    /// missing.
    InvalidCredentials,
}

/// The source decision: a missing file is acceptable only with inline
/// reminders; an `http` source with basic authentication needs both
/// credentials.
pub open spec fn spec_plan_source(
    has_file: bool,
    file_is_http: bool,
    auth_basic: bool,
    has_user: bool,
    has_pass: bool,
    has_inline: bool,
) -> Result<SourcePlan, ConfigError> {
    if !has_file {
        if has_inline {
            Ok(SourcePlan::InlineOnly)
        } else {
            Err(ConfigError::InvalidConfig)
        }
    } else if file_is_http {
        if auth_basic {
            if has_user && has_pass {
                Ok(SourcePlan::HttpBasicAuth)
            } else {
                Err(ConfigError::InvalidCredentials)
            }
        } else {
            Ok(SourcePlan::HttpPlain)
        }
    } else {
        Ok(SourcePlan::LocalFile)
    }
}

/// Decides `spec_plan_source`.
pub fn plan_source(
    has_file: bool,
    file_is_http: bool,
    auth_basic: bool,
    has_user: bool,
    has_pass: bool,
    has_inline: bool,
) -> (r: Result<SourcePlan, ConfigError>)
    ensures
        r == spec_plan_source(has_file, file_is_http, auth_basic, has_user, has_pass, has_inline),
{
    if !has_file {
        if has_inline {
            Ok(SourcePlan::InlineOnly)
        } else {
            Err(ConfigError::InvalidConfig)
        }
    } else if file_is_http {
        if auth_basic {
            if has_user && has_pass {
                Ok(SourcePlan::HttpBasicAuth)
            } else {
                Err(ConfigError::InvalidCredentials)
            }
        } else {
            Ok(SourcePlan::HttpPlain)
        }
    } else {
        Ok(SourcePlan::LocalFile)
    }
}

/// How a firing is delivered.
#[derive(Clone, Copy, PartialEq, Eq, Structural, Debug)]
pub enum PublishMode {
    /// Both delivery credentials are configured: send the notification.
    Send,
    /// Credentials are missing: echo the reminder locally instead.
    Echo,
}

/// Delivery is attempted exactly when both credentials are configured.
pub fn publish_mode(has_app_token: bool, has_user_key: bool) -> (r: PublishMode)
    ensures
        r == PublishMode::Send <==> has_app_token && has_user_key,
{
    if has_app_token && has_user_key {
        PublishMode::Send
    } else {
        PublishMode::Echo
    }
}

/// Whether a configured source names a URL: it starts with "http".
pub fn is_http_url(s: &[u8]) -> (r: bool)
    ensures
        r == (s@.len() >= 4 && s@[0] == 0x68 && s@[1] == 0x74 && s@[2] == 0x74 && s@[3] == 0x70),
{
    s.len() >= 4 && s[0] == 0x68 && s[1] == 0x74 && s[2] == 0x74 && s[3] == 0x70
}

/// The reference-time override grammar `YYYY/MM/DD HH:MM`: a four-digit
/// year, one or two digits for month, day and hour, two digits of minutes,
/// with `/`, `/`, a single space and `:` between them.
pub open spec fn override_wf(s: Seq<u8>) -> bool {
    let n = s.len() as int;
    let ye = digit_run(s, 0, n);
    let me = digit_run(s, 5, n);
    &&& ye == 4
    &&& 4 < n && s[4] == 0x2f
    &&& 1 <= me - 5 <= 2
    &&& me < n && s[me] == 0x2f
    &&& {
        let de = digit_run(s, me + 1, n);
        &&& 1 <= de - (me + 1) <= 2
        &&& de < n && s[de] == 0x20
        &&& {
            let he = digit_run(s, de + 1, n);
            &&& 1 <= he - (de + 1) <= 2
            &&& he < n && s[he] == 0x3a
            &&& digit_run(s, he + 1, n) == n
            &&& 1 <= n - (he + 1) <= 2
        }
    }
}

/// The instant an override denotes, before validity checking.
pub open spec fn override_instant(s: Seq<u8>) -> Instant {
    let n = s.len() as int;
    let me = digit_run(s, 5, n);
    let de = digit_run(s, me + 1, n);
    let he = digit_run(s, de + 1, n);
    Instant {
        year: digits_val(s, 0, 4) as i32,
        month: digits_val(s, 5, me) as u32,
        day: digits_val(s, me + 1, de) as u32,
        hour: digits_val(s, de + 1, he) as u32,
        minute: digits_val(s, he + 1, n) as u32,
    }
}

/// Parses an operator-supplied reference-time override.  Returns the
/// denoted instant exactly when the text matches the override grammar and
/// denotes a real calendar date and in-range time.
pub fn parse_override(s: &[u8]) -> (r: Option<Instant>)
    ensures
        match r {
            Some(t) => override_wf(s@) && t == override_instant(s@) && t.wf(),
            None => !override_wf(s@) || !override_instant(s@).wf(),
        },
{
    let n = s.len();
    proof {
        lemma_digit_run(s@, 0, n as int);
    }
    let ye = find_digit_run(s, 0, n);
    if !(ye == 4 && 4 < n && s[4] == 0x2f) {
        return None;
    }
    proof {
        lemma_digit_run(s@, 5, n as int);
    }
    let me = find_digit_run(s, 5, n);
    if !(1 <= me - 5 && me - 5 <= 2 && me < n && s[me] == 0x2f) {
        return None;
    }
    proof {
        lemma_digit_run(s@, me + 1, n as int);
    }
    let de = find_digit_run(s, me + 1, n);
    if !(1 <= de - (me + 1) && de - (me + 1) <= 2 && de < n && s[de] == 0x20) {
        return None;
    }
    proof {
        lemma_digit_run(s@, de + 1, n as int);
    }
    let he = find_digit_run(s, de + 1, n);
    if !(1 <= he - (de + 1) && he - (de + 1) <= 2 && he < n && s[he] == 0x3a) {
        return None;
    }
    proof {
        lemma_digit_run(s@, he + 1, n as int);
    }
    let mne = find_digit_run(s, he + 1, n);
    if !(mne == n && 1 <= n - (he + 1) && n - (he + 1) <= 2) {
        return None;
    }
    let year = read_digits(s, 0, 4);
    let month = read_digits(s, 5, me);
    let day = read_digits(s, me + 1, de);
    let hour = read_digits(s, de + 1, he);
    let minute = read_digits(s, he + 1, n);
    Instant::new(year as i32, month, day, hour, minute)
}

} // verus!
