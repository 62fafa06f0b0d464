//! Display and timing settings, read from a flat string-keyed option set.

use std::collections::BTreeMap;
use vstd::prelude::*;

verus! {

/// Format of the date field handed to `date` when none is configured.
pub const DEFAULT_DATE_FORMAT: &'static str = "%Y.%m.%d %a";

/// Format of the time field handed to `date` when none is configured.
pub const DEFAULT_TIME_FORMAT: &'static str = "%H:%M";

/// Text placed before each shown field when none is configured.
pub const DEFAULT_SEPARATOR: &'static str = " 〈";

/// Seconds between two refreshes when none are configured.
pub const DEFAULT_INTERVAL_UPDATE: &'static str = "60";

/// Logging level when none is configured.
pub const DEFAULT_LOG_LEVEL: &'static str = "debug";

/// Option key of the date format; empty switches the date off.
pub const DATE_FORMAT_KEY: &'static str = "date_format";

/// Option key of the time format; empty switches the time off.
pub const TIME_FORMAT_KEY: &'static str = "time_format";

/// Option key of the text put before each shown field.
pub const SEPARATOR_KEY: &'static str = "separator";

/// Option key of the seconds between two refreshes.
pub const INTERVAL_UPDATE_KEY: &'static str = "interval_update";

/// Option key of the logging level; empty switches logging off.
pub const LOG_LEVEL_KEY: &'static str = "log_level";

/// The settings as mathematical values.
pub struct ConfigurationView {
    pub date_format: Seq<char>,
    pub has_date: bool,
    pub time_format: Seq<char>,
    pub has_time: bool,
    pub separator: Seq<char>,
    /// The interval as written by the user: its numeric reading is left to
    /// the host side, which works in floating point.
    pub interval_update: Seq<char>,
    pub log_enabled: bool,
    pub log_level: Seq<char>,
}

/// Settings of the widget; fixed once loaded.
pub struct Configuration {
    date_format: String,
    has_date: bool,
    time_format: String,
    has_time: bool,
    separator: String,
    interval_update: String,
    log_enabled: bool,
    log_level: String,
}

impl View for Configuration {
    type V = ConfigurationView;

    closed spec fn view(&self) -> ConfigurationView {
        ConfigurationView {
            date_format: self.date_format@,
            has_date: self.has_date,
            time_format: self.time_format@,
            has_time: self.has_time,
            separator: self.separator@,
            interval_update: self.interval_update@,
            log_enabled: self.log_enabled,
            log_level: self.log_level@,
        }
    }
}

/// The settings before any user option is applied.
pub open spec fn default_view() -> ConfigurationView {
    ConfigurationView {
        date_format: DEFAULT_DATE_FORMAT@,
        has_date: true,
        time_format: DEFAULT_TIME_FORMAT@,
        has_time: true,
        separator: DEFAULT_SEPARATOR@,
        interval_update: DEFAULT_INTERVAL_UPDATE@,
        log_enabled: false,
        log_level: DEFAULT_LOG_LEVEL@,
    }
}

/// The value that the options give to `key`, if any.
pub open spec fn option_of(m: Map<Seq<char>, Seq<char>>, key: Seq<char>) -> Option<Seq<char>> {
    if m.contains_key(key) {
        Some(m[key])
    } else {
        None
    }
}

/// A field that an empty value switches off is on unless its option is
/// present and empty.
pub open spec fn enabled_by(v: Option<Seq<char>>) -> bool {
    match v {
        Some(s) => s.len() > 0,
        None => true,
    }
}

/// The value of a field that an empty option switches off: the user's
/// value when it is non-empty, the default otherwise.
pub open spec fn switchable_value(v: Option<Seq<char>>, default: Seq<char>) -> Seq<char> {
    match v {
        Some(s) => if s.len() > 0 {
            s
        } else {
            default
        },
        None => default,
    }
}

/// The value of a plain field: the user's value when present, even empty.
pub open spec fn plain_value(v: Option<Seq<char>>, default: Seq<char>) -> Seq<char> {
    match v {
        Some(s) => s,
        None => default,
    }
}

/// The settings that the options `m` give.
pub open spec fn loaded(m: Map<Seq<char>, Seq<char>>) -> ConfigurationView {
    let date = option_of(m, DATE_FORMAT_KEY@);
    let time = option_of(m, TIME_FORMAT_KEY@);
    let log = option_of(m, LOG_LEVEL_KEY@);
    ConfigurationView {
        date_format: switchable_value(date, DEFAULT_DATE_FORMAT@),
        has_date: enabled_by(date),
        time_format: switchable_value(time, DEFAULT_TIME_FORMAT@),
        has_time: enabled_by(time),
        separator: plain_value(option_of(m, SEPARATOR_KEY@), DEFAULT_SEPARATOR@),
        interval_update: plain_value(option_of(m, INTERVAL_UPDATE_KEY@), DEFAULT_INTERVAL_UPDATE@),
        log_enabled: enabled_by(log),
        log_level: switchable_value(log, DEFAULT_LOG_LEVEL@),
    }
}

/// The field is, whole, either the user's value under `key` or the
/// default.
pub open spec fn from_user_or_default(
    field: Seq<char>,
    m: Map<Seq<char>, Seq<char>>,
    key: Seq<char>,
    default: Seq<char>,
) -> bool {
    (m.contains_key(key) && field == m[key]) || field == default
}

/// Loading fills every field, each with either the user's value or the
/// default; a switchable field is off exactly when its option is present
/// and empty, and then keeps its default value.
pub proof fn lemma_load_takes_user_value_or_default(m: Map<Seq<char>, Seq<char>>)
    ensures
        from_user_or_default(loaded(m).date_format, m, DATE_FORMAT_KEY@, DEFAULT_DATE_FORMAT@),
        from_user_or_default(loaded(m).time_format, m, TIME_FORMAT_KEY@, DEFAULT_TIME_FORMAT@),
        from_user_or_default(loaded(m).separator, m, SEPARATOR_KEY@, DEFAULT_SEPARATOR@),
        from_user_or_default(
            loaded(m).interval_update,
            m,
            INTERVAL_UPDATE_KEY@,
            DEFAULT_INTERVAL_UPDATE@,
        ),
        from_user_or_default(loaded(m).log_level, m, LOG_LEVEL_KEY@, DEFAULT_LOG_LEVEL@),
        loaded(m).has_date <==> !(m.contains_key(DATE_FORMAT_KEY@) && m[DATE_FORMAT_KEY@].len() == 0),
        loaded(m).has_time <==> !(m.contains_key(TIME_FORMAT_KEY@) && m[TIME_FORMAT_KEY@].len() == 0),
        loaded(m).log_enabled <==> !(m.contains_key(LOG_LEVEL_KEY@) && m[LOG_LEVEL_KEY@].len() == 0),
        !loaded(m).has_date ==> loaded(m).date_format == DEFAULT_DATE_FORMAT@,
        !loaded(m).has_time ==> loaded(m).time_format == DEFAULT_TIME_FORMAT@,
        !loaded(m).log_enabled ==> loaded(m).log_level == DEFAULT_LOG_LEVEL@,
{
}

/// Relies on BTreeMap::get: the value stored under `key`, if there is one.
#[verifier::external_body]
fn lookup(m: &BTreeMap<String, String>, key: &str) -> (r: Option<String>)
    ensures
        match r {
            Some(v) => m.deep_view().contains_key(key@) && m.deep_view()[key@] == v@,
            None => !m.deep_view().contains_key(key@),
        },
{
    m.get(key).cloned()
}

/// Whether a switchable field is on, and its value.
fn switchable(v: Option<String>, default: &str) -> (r: (bool, String))
    ensures
        r.0 == enabled_by(v.deep_view()),
        r.1@ == switchable_value(v.deep_view(), default@),
{
    match v {
        Some(s) => {
            if s.as_str().is_empty() {
                (false, default.to_owned())
            } else {
                (true, s)
            }
        },
        None => (true, default.to_owned()),
    }
}

/// The value of a plain field.
fn plain(v: Option<String>, default: &str) -> (r: String)
    ensures
        r@ == plain_value(v.deep_view(), default@),
{
    match v {
        Some(s) => s,
        None => default.to_owned(),
    }
}

impl Default for Configuration {
    fn default() -> (r: Self)
        ensures
            r@ == default_view(),
    {
        Configuration {
            date_format: DEFAULT_DATE_FORMAT.to_owned(),
            has_date: true,
            time_format: DEFAULT_TIME_FORMAT.to_owned(),
            has_time: true,
            separator: DEFAULT_SEPARATOR.to_owned(),
            interval_update: DEFAULT_INTERVAL_UPDATE.to_owned(),
            log_enabled: false,
            log_level: DEFAULT_LOG_LEVEL.to_owned(),
        }
    }
}

impl Configuration {
    /// Replaces every setting by what the user options give: the user's
    /// value where one is present, the built-in default otherwise.
    pub fn load_user_config(&mut self, configuration: &BTreeMap<String, String>)
        ensures
            final(self)@ == loaded(configuration.deep_view()),
    {
        let ghost m = configuration.deep_view();
        let date = lookup(configuration, DATE_FORMAT_KEY);
        assert(date.deep_view() == option_of(m, DATE_FORMAT_KEY@));
        let (has_date, date_format) = switchable(date, DEFAULT_DATE_FORMAT);
        self.has_date = has_date;
        self.date_format = date_format;

        let time = lookup(configuration, TIME_FORMAT_KEY);
        assert(time.deep_view() == option_of(m, TIME_FORMAT_KEY@));
        let (has_time, time_format) = switchable(time, DEFAULT_TIME_FORMAT);
        self.has_time = has_time;
        self.time_format = time_format;

        let separator = lookup(configuration, SEPARATOR_KEY);
        assert(separator.deep_view() == option_of(m, SEPARATOR_KEY@));
        self.separator = plain(separator, DEFAULT_SEPARATOR);

        let interval = lookup(configuration, INTERVAL_UPDATE_KEY);
        assert(interval.deep_view() == option_of(m, INTERVAL_UPDATE_KEY@));
        self.interval_update = plain(interval, DEFAULT_INTERVAL_UPDATE);

        let log = lookup(configuration, LOG_LEVEL_KEY);
        assert(log.deep_view() == option_of(m, LOG_LEVEL_KEY@));
        let (log_enabled, log_level) = switchable(log, DEFAULT_LOG_LEVEL);
        self.log_enabled = log_enabled;
        self.log_level = log_level;
    }
}

} // verus!

verus! {

impl Configuration {
    pub fn get_date_format(&self) -> (r: &String)
        ensures
            r@ == self@.date_format,
    {
        &self.date_format
    }

    pub fn get_has_date(&self) -> (r: bool)
        ensures
            r == self@.has_date,
    {
        self.has_date
    }

    pub fn get_time_format(&self) -> (r: &String)
        ensures
            r@ == self@.time_format,
    {
        &self.time_format
    }

    pub fn get_has_time(&self) -> (r: bool)
        ensures
            r == self@.has_time,
    {
        self.has_time
    }

    pub fn get_separator(&self) -> (r: &String)
        ensures
            r@ == self@.separator,
    {
        &self.separator
    }

    /// The refresh interval in seconds, as the user wrote it.
    pub fn get_interval_update(&self) -> (r: &String)
        ensures
            r@ == self@.interval_update,
    {
        &self.interval_update
    }

    pub fn is_log_enabled(&self) -> (r: bool)
        ensures
            r == self@.log_enabled,
    {
        self.log_enabled
    }

    pub fn get_log_level(&self) -> (r: &String)
        ensures
            r@ == self@.log_level,
    {
        &self.log_level
    }
}

} // verus!

verus! {

/// One line that lists the settings.
pub open spec fn summary(c: ConfigurationView) -> Seq<char> {
    "Configuration: date_format: "@ + c.date_format + ", time_format: "@ + c.time_format
        + ", separator: "@ + c.separator + ", interval_update: "@ + c.interval_update
        + ", log_level: "@ + c.log_level
}

impl Configuration {
    /// One line that lists the settings.
    pub fn to_string(&self) -> (r: String)
        ensures
            r@ == summary(self@),
    {
        let mut r = String::from_str("Configuration: date_format: ");
        r.append(self.date_format.as_str());
        r.append(", time_format: ");
        r.append(self.time_format.as_str());
        r.append(", separator: ");
        r.append(self.separator.as_str());
        r.append(", interval_update: ");
        r.append(self.interval_update.as_str());
        r.append(", log_level: ");
        r.append(self.log_level.as_str());
        r
    }
}

} // verus!
