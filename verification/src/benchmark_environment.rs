//! Reading the power and thermal state a benchmark ran under from the text
//! the system tools print.
use vstd::prelude::*;

use crate::release::{lines_of, text_lines};
use crate::text::{
    ascii_lower, chars_contain, chars_end_with, chars_occur_at, chars_slice, contains_seq,
    ends_with, find_char, first_index_of, lower_chars, occurs_at, owned, parse_u64,
    parse_u64_chars, split_chars, split_fields, split_whitespace_chars, str_chars,
    string_from_chars, trim, trim_bounds, whitespace_tokens,
};

verus! {

/// The power source, battery level and battery state a `pmset -g batt`
/// report gives.
#[derive(Debug, Clone, PartialEq, Eq)]
pub struct BatteryStatus {
    pub power_source: String,
    pub battery_percent: Option<u8>,
    pub battery_state: String,
}

/// `u8::from_str`: an optional `+` and decimal digits worth at most 255.
pub open spec fn parse_u8(s: Seq<char>) -> Option<u8> {
    match parse_u64(s) {
        Some(v) => if v <= 255 {
            Some(v as u8)
        } else {
            None
        },
        None => None,
    }
}

fn parse_u8_chars(s: &[char]) -> (r: Option<u8>)
    ensures
        r == parse_u8(s@),
{
    match parse_u64_chars(s) {
        Some(v) => if v <= 255 {
            Some(v as u8)
        } else {
            None
        },
        None => None,
    }
}

/// The text between the first two `'` of a line.
pub open spec fn quoted(line: Seq<char>) -> Option<Seq<char>> {
    match first_index_of(line, '\'') {
        Some(i) => {
            let tail = line.subrange(i + 1, line.len() as int);
            match first_index_of(tail, '\'') {
                Some(j) => Some(tail.subrange(0, j)),
                None => None,
            }
        },
        None => None,
    }
}

/// The power source named in quotes on the first line, or `unknown`.
pub open spec fn power_source_of(status: Seq<char>) -> Seq<char> {
    let lines = text_lines(status);
    if lines.len() > 0 && quoted(lines[0]) is Some {
        quoted(lines[0])->0
    } else {
        "unknown"@
    }
}

/// The second line of the report, or nothing.
pub open spec fn detail_of(status: Seq<char>) -> Seq<char> {
    let lines = text_lines(status);
    if lines.len() > 1 {
        lines[1]
    } else {
        Seq::empty()
    }
}

/// The percentage a token like `61%;` or `61%` carries.
pub open spec fn percent_of(token: Seq<char>) -> Option<u8> {
    if ends_with(token, "%;"@) {
        parse_u8(token.subrange(0, token.len() - 2))
    } else if ends_with(token, "%"@) {
        parse_u8(token.subrange(0, token.len() - 1))
    } else {
        None
    }
}

/// The first percentage among `tokens`.
pub open spec fn first_percent(tokens: Seq<Seq<char>>) -> Option<u8>
    decreases tokens.len(),
{
    if tokens.len() == 0 {
        None
    } else {
        match percent_of(tokens[0]) {
            Some(p) => Some(p),
            None => first_percent(tokens.drop_first()),
        }
    }
}

/// The second `;` field of the detail line, trimmed, or `unknown`.
pub open spec fn battery_state_of(detail: Seq<char>) -> Seq<char> {
    let fields = split_fields(detail, ';');
    if fields.len() > 1 && trim(fields[1]).len() > 0 {
        trim(fields[1])
    } else {
        "unknown"@
    }
}

fn quoted_chars(line: &[char]) -> (r: Option<Vec<char>>)
    ensures
        match quoted(line@) {
            Some(q) => r matches Some(v) && v@ == q,
            None => r is None,
        },
{
    match find_char(line, '\'') {
        Some(i) => {
            let len = line.len();
            assert(i < len);
            let tail = chars_slice(line, i + 1, len);
            match find_char(tail.as_slice(), '\'') {
                Some(j) => Some(chars_slice(tail.as_slice(), 0, j)),
                None => None,
            }
        },
        None => None,
    }
}

fn percent_chars(token: &[char]) -> (r: Option<u8>)
    ensures
        r == percent_of(token@),
{
    let both = str_chars("%;");
    let single = str_chars("%");
    proof {
        reveal_strlit("%;");
        reveal_strlit("%");
    }
    if chars_end_with(token, both.as_slice()) {
        let value = chars_slice(token, 0, token.len() - 2);
        parse_u8_chars(value.as_slice())
    } else if chars_end_with(token, single.as_slice()) {
        let value = chars_slice(token, 0, token.len() - 1);
        parse_u8_chars(value.as_slice())
    } else {
        None
    }
}

fn first_percent_of(tokens: &Vec<Vec<char>>) -> (r: Option<u8>)
    ensures
        r == first_percent(tokens@.map_values(|t: Vec<char>| t@)),
{
    let ghost token_views = tokens@.map_values(|t: Vec<char>| t@);
    let mut i: usize = 0;
    assert(token_views.skip(0) =~= token_views);
    while i < tokens.len()
        invariant
            i <= tokens@.len(),
            token_views == tokens@.map_values(|t: Vec<char>| t@),
            first_percent(token_views) == first_percent(token_views.skip(i as int)),
        decreases tokens@.len() - i,
    {
        assert(token_views.skip(i as int).drop_first() =~= token_views.skip(i + 1));
        assert(token_views.skip(i as int)[0] == tokens@[i as int]@);
        match percent_chars(tokens[i].as_slice()) {
            Some(p) => {
                return Some(p);
            },
            None => {},
        }
        i = i + 1;
    }
    assert(token_views.skip(i as int) =~= Seq::<Seq<char>>::empty());
    None
}

/// Reads `pmset -g batt`: the quoted power source, the first percentage on
/// the second line and the battery state after its first `;`.
pub fn parse_battery_status(status: &str) -> (r: BatteryStatus)
    ensures
        r.power_source@ == power_source_of(status@),
        r.battery_percent == first_percent(whitespace_tokens(detail_of(status@))),
        r.battery_state@ == battery_state_of(detail_of(status@)),
{
    let lines = lines_of(status);
    let ghost views = lines@.map_values(|l: Vec<char>| l@);
    let power_source = if lines.len() > 0 {
        assert(views[0] == lines@[0]@);
        match quoted_chars(lines[0].as_slice()) {
            Some(source) => string_from_chars(source.as_slice()),
            None => owned("unknown"),
        }
    } else {
        owned("unknown")
    };
    let detail: Vec<char> = if lines.len() > 1 {
        assert(views[1] == lines@[1]@);
        chars_slice(lines[1].as_slice(), 0, lines[1].len())
    } else {
        Vec::new()
    };
    assert(detail@ =~= detail_of(status@));
    let tokens = split_whitespace_chars(detail.as_slice());
    let battery_percent = first_percent_of(&tokens);
    let fields = split_chars(detail.as_slice(), ';');
    let ghost field_views = fields@.map_values(|t: Vec<char>| t@);
    let battery_state = if fields.len() > 1 {
        assert(field_views[1] == fields@[1]@);
        let (start, end) = trim_bounds(fields[1].as_slice());
        if start < end {
            let state = chars_slice(fields[1].as_slice(), start, end);
            string_from_chars(state.as_slice())
        } else {
            owned("unknown")
        }
    } else {
        owned("unknown")
    };
    BatteryStatus { power_source, battery_percent, battery_state }
}

/// The `powermode` value in the section of `custom` headed `{source}:`:
/// lines ending in `:` open a section (named by the trimmed text before
/// the colon); the first `powermode` line inside the selected section
/// decides, even when its value does not parse.
pub open spec fn power_mode_from(lines: Seq<Seq<char>>, source: Seq<char>, in_section: bool) -> Option<
    u8,
>
    decreases lines.len(),
{
    if lines.len() == 0 {
        None
    } else {
        let line = lines[0];
        if ends_with(line, ":"@) {
            power_mode_from(lines.drop_first(), source, trim(line.drop_last()) == source)
        } else if in_section && whitespace_tokens(line).len() > 0 && whitespace_tokens(line)[0]
            == "powermode"@ {
            if whitespace_tokens(line).len() > 1 {
                parse_u8(whitespace_tokens(line)[1])
            } else {
                None
            }
        } else {
            power_mode_from(lines.drop_first(), source, in_section)
        }
    }
}

/// Reads the power mode configured for `power_source` from
/// `pmset -g custom`.
pub fn parse_power_mode(custom: &str, power_source: &str) -> (r: Option<u8>)
    ensures
        r == power_mode_from(text_lines(custom@), power_source@, false),
{
    let lines = lines_of(custom);
    let ghost views = lines@.map_values(|l: Vec<char>| l@);
    let source = str_chars(power_source);
    let colon = str_chars(":");
    let keyword = str_chars("powermode");
    proof {
        reveal_strlit(":");
        reveal_strlit("powermode");
    }
    assert(colon@.len() == 1);
    let mut in_section = false;
    let mut i: usize = 0;
    assert(views.skip(0) =~= views);
    while i < lines.len()
        invariant
            i <= lines@.len(),
            views == lines@.map_values(|l: Vec<char>| l@),
            views == text_lines(custom@),
            source@ == power_source@,
            colon@ == ":"@,
            colon@.len() == 1,
            keyword@ == "powermode"@,
            power_mode_from(views, power_source@, false) == power_mode_from(
                views.skip(i as int),
                power_source@,
                in_section,
            ),
        decreases lines@.len() - i,
    {
        assert(views.skip(i as int).drop_first() =~= views.skip(i + 1));
        assert(views.skip(i as int)[0] == lines@[i as int]@);
        let line = lines[i].as_slice();
        if chars_end_with(line, colon.as_slice()) {
            let heading = chars_slice(line, 0, line.len() - 1);
            assert(heading@ =~= line@.drop_last());
            let (start, end) = trim_bounds(heading.as_slice());
            let name = chars_slice(heading.as_slice(), start, end);
            in_section = crate::text::chars_eq(name.as_slice(), source.as_slice());
        } else if in_section {
            let fields = split_whitespace_chars(line);
            let ghost field_views = fields@.map_values(|t: Vec<char>| t@);
            if fields.len() > 0 && crate::text::chars_eq(fields[0].as_slice(), keyword.as_slice()) {
                assert(field_views[0] == fields@[0]@);
                assert(!ends_with(line@, ":"@));
                assert(whitespace_tokens(line@) == field_views);
                assert(field_views[0] == "powermode"@);
                assert(in_section);
                assert(views.skip(i as int)[0] == line@);
                if fields.len() > 1 {
                    assert(field_views[1] == fields@[1]@);
                    assert(power_mode_from(views.skip(i as int), power_source@, in_section)
                        == parse_u8(field_views[1]));
                    return parse_u8_chars(fields[1].as_slice());
                }
                assert(power_mode_from(views.skip(i as int), power_source@, in_section) is None);
                return None;
            }
            proof {
                if fields.len() > 0 {
                    assert(field_views[0] == fields@[0]@);
                }
            }
        }
        i = i + 1;
    }
    assert(views.skip(i as int) =~= Seq::<Seq<char>>::empty());
    None
}

/// The warnings `pmset -g therm` reports.
#[derive(Debug, Clone, PartialEq, Eq)]
pub struct ThermalStatus {
    pub thermal_warning: String,
    pub performance_warning: String,
    pub cpu_power_status: String,
}

/// `s` with every leading repetition of `prefix` removed.
pub open spec fn strip_leading(s: Seq<char>, prefix: Seq<char>) -> Seq<char>
    decreases s.len(),
{
    if prefix.len() > 0 && occurs_at(s, prefix, 0) {
        strip_leading(s.subrange(prefix.len() as int, s.len() as int), prefix)
    } else {
        s
    }
}

/// The first line mentioning `needle` in any letter case, without leading
/// `Note: ` and surrounding whitespace, or `unknown`.
pub open spec fn status_value(lines: Seq<Seq<char>>, needle: Seq<char>) -> Seq<char>
    decreases lines.len(),
{
    if lines.len() == 0 {
        "unknown"@
    } else if contains_seq(ascii_lower(lines[0]), needle) {
        trim(strip_leading(lines[0], "Note: "@))
    } else {
        status_value(lines.drop_first(), needle)
    }
}

fn strip_leading_chars(s: &[char], prefix: &[char]) -> (r: Vec<char>)
    ensures
        r@ == strip_leading(s@, prefix@),
{
    let mut start: usize = 0;
    if prefix.len() == 0 {
        return chars_slice(s, 0, s.len());
    }
    assert(s@.subrange(0, s@.len() as int) =~= s@);
    let mut occurs = chars_occur_at(s, prefix, start);
    while occurs
        invariant
            start <= s@.len(),
            prefix@.len() > 0,
            occurs == occurs_at(s@, prefix@, start as int),
            strip_leading(s@, prefix@) == strip_leading(
                s@.subrange(start as int, s@.len() as int),
                prefix@,
            ),
        decreases s@.len() - start,
    {
        let ghost rest = s@.subrange(start as int, s@.len() as int);
        assert(occurs_at(rest, prefix@, 0)) by {
            assert(rest.subrange(0, prefix@.len() as int) =~= s@.subrange(
                start as int,
                start + prefix@.len(),
            ));
        }
        assert(rest.subrange(prefix@.len() as int, rest.len() as int) =~= s@.subrange(
            start + prefix@.len(),
            s@.len() as int,
        ));
        let step = prefix.len();
        let total = s.len();
        assert(start + step <= total);
        start = start + step;
        occurs = chars_occur_at(s, prefix, start);
    }
    proof {
        let rest = s@.subrange(start as int, s@.len() as int);
        if occurs_at(rest, prefix@, 0) {
            assert(rest.subrange(0, prefix@.len() as int) =~= s@.subrange(
                start as int,
                start + prefix@.len(),
            ));
        }
    }
    chars_slice(s, start, s.len())
}

fn status_line_value(lines: &Vec<Vec<char>>, needle: &str) -> (r: String)
    ensures
        r@ == status_value(lines@.map_values(|l: Vec<char>| l@), needle@),
{
    let ghost views = lines@.map_values(|l: Vec<char>| l@);
    let wanted = str_chars(needle);
    let note = str_chars("Note: ");
    let mut i: usize = 0;
    assert(views.skip(0) =~= views);
    while i < lines.len()
        invariant
            i <= lines@.len(),
            views == lines@.map_values(|l: Vec<char>| l@),
            wanted@ == needle@,
            note@ == "Note: "@,
            status_value(views, needle@) == status_value(views.skip(i as int), needle@),
        decreases lines@.len() - i,
    {
        assert(views.skip(i as int).drop_first() =~= views.skip(i + 1));
        assert(views.skip(i as int)[0] == lines@[i as int]@);
        let lower = lower_chars(lines[i].as_slice());
        if chars_contain(lower.as_slice(), wanted.as_slice()) {
            let stripped = strip_leading_chars(lines[i].as_slice(), note.as_slice());
            let (start, end) = trim_bounds(stripped.as_slice());
            let value = chars_slice(stripped.as_slice(), start, end);
            return string_from_chars(value.as_slice());
        }
        i = i + 1;
    }
    assert(views.skip(i as int) =~= Seq::<Seq<char>>::empty());
    owned("unknown")
}

/// Reads `pmset -g therm`: each warning is the first line mentioning it.
pub fn parse_thermal_status(status: &str) -> (r: ThermalStatus)
    ensures
        r.thermal_warning@ == status_value(text_lines(status@), "thermal warning"@),
        r.performance_warning@ == status_value(text_lines(status@), "performance warning"@),
        r.cpu_power_status@ == status_value(text_lines(status@), "cpu power status"@),
{
    let lines = lines_of(status);
    ThermalStatus {
        thermal_warning: status_line_value(&lines, "thermal warning"),
        performance_warning: status_line_value(&lines, "performance warning"),
        cpu_power_status: status_line_value(&lines, "cpu power status"),
    }
}

} // verus!
