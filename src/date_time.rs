//! The date and time fields of one `date` run: how they are cut out of the
//! command's output, and how they are shown.

use crate::configuration::{Configuration, ConfigurationView};
use vstd::prelude::*;

verus! {

/// Character placed between the date and the time in the format handed to
/// `date`; it is not expected in either field.
pub const DATE_ARG_SEP: char = 'X';

/// The two fields as mathematical values.
pub struct DateTimeView {
    pub date: Seq<char>,
    pub time: Seq<char>,
}

/// The raw date and time text of one run of the command.
pub struct DateTime {
    date: String,
    time: String,
}

impl View for DateTime {
    type V = DateTimeView;

    closed spec fn view(&self) -> DateTimeView {
        DateTimeView { date: self.date@, time: self.time@ }
    }
}

/// Position of the first delimiter in `s` at or after `from`, or the
/// length of `s` when there is none.
pub open spec fn delim_pos(s: Seq<char>, from: int) -> int
    decreases s.len() - from,
{
    if from < 0 || from >= s.len() {
        s.len() as int
    } else if s[from] == DATE_ARG_SEP {
        from
    } else {
        delim_pos(s, from + 1)
    }
}

/// The fields that a command output holds: the text before the first
/// delimiter, and the text between it and the next delimiter (or the end);
/// none when there is no delimiter.
pub open spec fn parsed(s: Seq<char>) -> Option<DateTimeView> {
    let p = delim_pos(s, 0);
    if p == s.len() {
        None
    } else {
        Some(DateTimeView { date: s.subrange(0, p), time: s.subrange(p + 1, delim_pos(s, p + 1)) })
    }
}

/// The separator followed by the field, where the field is shown.
pub open spec fn shown_field(on: bool, separator: Seq<char>, field: Seq<char>) -> Seq<char> {
    if on {
        separator + field
    } else {
        Seq::empty()
    }
}

/// The display text of `dt` under `cfg`: the date, then the time, each of
/// the two that is on preceded by the separator.
pub open spec fn rendered(dt: DateTimeView, cfg: ConfigurationView) -> Seq<char> {
    shown_field(cfg.has_date, cfg.separator, dt.date) + shown_field(
        cfg.has_time,
        cfg.separator,
        dt.time,
    )
}

proof fn lemma_delim_pos_bounds(s: Seq<char>, from: int)
    requires
        0 <= from <= s.len(),
    ensures
        from <= delim_pos(s, from) <= s.len(),
        delim_pos(s, from) < s.len() ==> s[delim_pos(s, from)] == DATE_ARG_SEP,
    decreases s.len() - from,
{
    if from < s.len() && s[from] != DATE_ARG_SEP {
        lemma_delim_pos_bounds(s, from + 1);
    }
}

proof fn lemma_delim_pos_skip(s: Seq<char>, from: int, to: int)
    requires
        0 <= from <= to <= s.len(),
        forall|i: int| from <= i < to ==> s[i] != DATE_ARG_SEP,
    ensures
        delim_pos(s, from) == delim_pos(s, to),
    decreases to - from,
{
    if from < to {
        lemma_delim_pos_skip(s, from + 1, to);
    }
}

/// For date and time texts free of the delimiter, cutting the two joined by
/// the delimiter gives them back; with both fields on and the separator
/// `-`, the display text is `-`, the date, `-`, the time.
pub proof fn lemma_parse_render_round_trip(d: Seq<char>, t: Seq<char>, cfg: ConfigurationView)
    requires
        !d.contains(DATE_ARG_SEP),
        !t.contains(DATE_ARG_SEP),
        cfg.has_date,
        cfg.has_time,
        cfg.separator == seq!['-'],
    ensures
        parsed(d + seq![DATE_ARG_SEP] + t) == Some(DateTimeView { date: d, time: t }),
        rendered(DateTimeView { date: d, time: t }, cfg) == seq!['-'] + d + seq!['-'] + t,
{
    let s = d + seq![DATE_ARG_SEP] + t;
    let p = d.len() as int;
    assert forall|i: int| 0 <= i < p implies s[i] != DATE_ARG_SEP by {
        assert(s[i] == d[i]);
    }
    lemma_delim_pos_skip(s, 0, p);
    assert(delim_pos(s, 0) == p);
    assert forall|i: int| p + 1 <= i < s.len() implies s[i] != DATE_ARG_SEP by {
        assert(s[i] == t[i - p - 1]);
    }
    lemma_delim_pos_skip(s, p + 1, s.len() as int);
    assert(s.subrange(0, p) =~= d);
    assert(s.subrange(p + 1, s.len() as int) =~= t);
    assert(rendered(DateTimeView { date: d, time: t }, cfg) =~= seq!['-'] + d + seq!['-'] + t);
}

/// Position of the first delimiter in `s` at or after `from` (in
/// characters), or the length of `s`.
fn find_delim(s: &str, from: usize, n: usize) -> (r: usize)
    requires
        n == s@.len(),
        from <= n,
    ensures
        r == delim_pos(s@, from as int),
{
    let mut i: usize = from;
    while i < n
        invariant
            n == s@.len(),
            from <= i <= n,
            delim_pos(s@, from as int) == delim_pos(s@, i as int),
        decreases n - i,
    {
        if s.get_char(i) == DATE_ARG_SEP {
            return i;
        }
        i = i + 1;
    }
    i
}

impl Default for DateTime {
    fn default() -> (r: Self)
        ensures
            r@.date.len() == 0,
            r@.time.len() == 0,
    {
        DateTime { date: String::new(), time: String::new() }
    }
}

impl DateTime {
    pub fn new(date: String, time: String) -> (r: Self)
        ensures
            r@ == (DateTimeView { date: date@, time: time@ }),
    {
        DateTime { date, time }
    }

    /// Cuts the output of `date` into its date and time fields. Output
    /// without the delimiter holds no such fields and gives `None`.
    pub fn parse(output: &String) -> (r: Option<Self>)
        ensures
            r.is_some() <==> parsed(output@).is_some(),
            r matches Some(dt) ==> parsed(output@) == Some(dt@),
    {
        let s = output.as_str();
        let n = s.unicode_len();
        let p = find_delim(s, 0, n);
        proof {
            lemma_delim_pos_bounds(s@, 0);
        }
        if p == n {
            return None;
        }
        let q = find_delim(s, p + 1, n);
        proof {
            lemma_delim_pos_bounds(s@, p + 1);
        }
        let date = s.substring_char(0, p).to_owned();
        let time = s.substring_char(p + 1, q).to_owned();
        Some(DateTime::new(date, time))
    }

    /// The display text of these fields under `config`.
    pub fn render(&self, config: &Configuration) -> (r: String)
        ensures
            r@ == rendered(self@, config@),
    {
        let mut output = String::new();
        if config.get_has_date() {
            output.append(config.get_separator().as_str());
            output.append(self.date.as_str());
        }
        if config.get_has_time() {
            output.append(config.get_separator().as_str());
            output.append(self.time.as_str());
        }
        assert(output@ =~= rendered(self@, config@));
        output
    }
}

} // verus!
