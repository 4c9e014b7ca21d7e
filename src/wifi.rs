use vstd::prelude::*;
use vstd::string::*;

use crate::config::opt_view;

verus! {

/// The wireless association observed at one polling instant.
#[derive(Debug, Clone)]
pub struct WifiInfo {
    pub ssid: String,
    pub bssid: Option<String>,
    pub device: Option<String>,
}

/// The character sequences of a list of strings.
pub open spec fn views(v: Seq<String>) -> Seq<Seq<char>> {
    v.map_values(|s: String| s@)
}

/// Reading `s` left to right: the fields already closed, the field being
/// read, and whether the next character is escaped by a backslash.
pub open spec fn split_state(s: Seq<char>) -> (Seq<Seq<char>>, Seq<char>, bool)
    decreases s.len(),
{
    if s.len() == 0 {
        (Seq::empty(), Seq::empty(), false)
    } else {
        let (f, cur, esc) = split_state(s.drop_last());
        let c = s.last();
        if esc {
            (f, cur.push(c), false)
        } else if c == '\\' {
            (f, cur, true)
        } else if c == ':' {
            (f.push(cur), Seq::empty(), false)
        } else {
            (f, cur.push(c), false)
        }
    }
}

/// The fields of a terse `nmcli` line: cut at each ':' that no backslash
/// escapes, with the escaping backslashes removed.
pub open spec fn nmcli_fields(s: Seq<char>) -> Seq<Seq<char>> {
    split_state(s).0.push(split_state(s).1)
}

/// Reading `s` left to right: the lines already closed, and the start of the
/// line being read.
pub open spec fn lines_state(s: Seq<char>) -> (Seq<Seq<char>>, Seq<char>)
    decreases s.len(),
{
    if s.len() == 0 {
        (Seq::empty(), Seq::empty())
    } else {
        let (ls, cur) = lines_state(s.drop_last());
        if s.last() == '\n' {
            (ls.push(strip_cr(cur)), Seq::empty())
        } else {
            (ls, cur.push(s.last()))
        }
    }
}

pub open spec fn strip_cr(l: Seq<char>) -> Seq<char> {
    if l.len() > 0 && l.last() == '\r' {
        l.drop_last()
    } else {
        l
    }
}

/// The text cut at each line feed, a carriage return before a line feed
/// dropped; the piece after the last line feed is the final line.
pub open spec fn text_lines(s: Seq<char>) -> Seq<Seq<char>> {
    lines_state(s).0.push(lines_state(s).1)
}

pub open spec fn is_active_line(fields: Seq<Seq<char>>) -> bool {
    fields.len() > 0 && fields[0] == "yes"@
}

/// The index of the first line, from `i` on, whose first field is `yes`.
pub open spec fn first_active_from(ls: Seq<Seq<char>>, i: int) -> Option<int>
    decreases ls.len() - i,
{
    if i < 0 || i >= ls.len() {
        None
    } else if is_active_line(nmcli_fields(ls[i])) {
        Some(i)
    } else {
        first_active_from(ls, i + 1)
    }
}

pub open spec fn field_or_empty(fs: Seq<Seq<char>>, i: int) -> Seq<char> {
    if i < fs.len() {
        fs[i]
    } else {
        Seq::empty()
    }
}

pub open spec fn nonempty_field(fs: Seq<Seq<char>>, i: int) -> Option<Seq<char>> {
    if i < fs.len() && fs[i].len() > 0 {
        Some(fs[i])
    } else {
        None
    }
}

/// SSID, BSSID and device of an association.
pub open spec fn wifi_view(w: WifiInfo) -> (Seq<char>, Option<Seq<char>>, Option<Seq<char>>) {
    (w.ssid@, opt_view(w.bssid), opt_view(w.device))
}

/// The association that `nmcli -t -f ACTIVE,SSID,BSSID,DEVICE dev wifi`
/// output reports: taken from the first line marked active; none when no
/// line is, or when that line has an empty SSID.
pub open spec fn active_wifi_spec(text: Seq<char>) -> Option<
    (Seq<char>, Option<Seq<char>>, Option<Seq<char>>),
> {
    let ls = text_lines(text);
    match first_active_from(ls, 0) {
        Some(i) => {
            let fs = nmcli_fields(ls[i]);
            if field_or_empty(fs, 1).len() == 0 {
                None
            } else {
                Some((fs[1], nonempty_field(fs, 2), nonempty_field(fs, 3)))
            }
        },
        None => None,
    }
}

/// Splits a terse `nmcli` line into its fields.
pub fn parse_nmcli_line(line: &str) -> (r: Vec<String>)
    ensures
        views(r@) == nmcli_fields(line@),
{
    let n = line.unicode_len();
    let mut fields: Vec<String> = Vec::new();
    let mut current = String::new();
    let mut escaped = false;
    let mut i: usize = 0;
    while i < n
        invariant
            n == line@.len(),
            i <= n,
            (views(fields@), current@, escaped) == split_state(line@.take(i as int)),
        decreases n - i,
    {
        let ch = line.get_char(i);
        assert(line@.take(i + 1).drop_last() =~= line@.take(i as int));
        assert(line@.take(i + 1).last() == ch);
        if escaped {
            let one = line.substring_char(i, i + 1);
            assert(one@ =~= seq![ch]);
            current.append(one);
            escaped = false;
        } else if ch == '\\' {
            escaped = true;
        } else if ch == ':' {
            let ghost before = fields@;
            fields.push(current);
            assert(views(fields@) =~= views(before).push(split_state(line@.take(i as int)).1));
            current = String::new();
        } else {
            let one = line.substring_char(i, i + 1);
            assert(one@ =~= seq![ch]);
            current.append(one);
        }
        assert(current@ =~= split_state(line@.take(i + 1)).1);
        i = i + 1;
    }
    assert(line@.take(n as int) =~= line@);
    let ghost before = fields@;
    fields.push(current);
    assert(views(fields@) =~= views(before).push(split_state(line@).1));
    fields
}

/// Cuts a text into lines.
pub fn split_lines(text: &str) -> (r: Vec<String>)
    ensures
        views(r@) == text_lines(text@),
{
    let n = text.unicode_len();
    let mut lines: Vec<String> = Vec::new();
    let mut start: usize = 0;
    let mut i: usize = 0;
    while i < n
        invariant
            n == text@.len(),
            start <= i <= n,
            (views(lines@), text@.subrange(start as int, i as int)) == lines_state(
                text@.take(i as int),
            ),
        decreases n - i,
    {
        let ch = text.get_char(i);
        assert(text@.take(i + 1).drop_last() =~= text@.take(i as int));
        assert(text@.take(i + 1).last() == ch);
        if ch == '\n' {
            let mut end = i;
            if end > start && text.get_char(end - 1) == '\r' {
                end = end - 1;
            }
            let piece = text.substring_char(start, end);
            assert(piece@ =~= strip_cr(text@.subrange(start as int, i as int)));
            let ghost before = lines@;
            lines.push(String::from_str(piece));
            assert(views(lines@) =~= views(before).push(piece@));
            start = i + 1;
            assert(text@.subrange(start as int, i + 1) =~= Seq::<char>::empty());
        } else {
            assert(text@.subrange(start as int, i + 1) =~= text@.subrange(
                start as int,
                i as int,
            ).push(ch));
        }
        i = i + 1;
    }
    assert(text@.take(n as int) =~= text@);
    let last = text.substring_char(start, n);
    let ghost before = lines@;
    lines.push(String::from_str(last));
    assert(views(lines@) =~= views(before).push(last@));
    lines
}

/// A field of `fields`, or the empty string past its end.
fn field_at(fields: &Vec<String>, i: usize) -> (r: String)
    ensures
        r@ == field_or_empty(views(fields@), i as int),
{
    if i < fields.len() {
        fields[i].clone()
    } else {
        String::new()
    }
}

/// A field of `fields` when it is there and not empty.
fn nonempty_field_at(fields: &Vec<String>, i: usize) -> (r: Option<String>)
    ensures
        opt_view(r) == nonempty_field(views(fields@), i as int),
{
    if i < fields.len() && fields[i].unicode_len() > 0 {
        Some(fields[i].clone())
    } else {
        None
    }
}

/// The active association in the terse output of
/// `nmcli -t -f ACTIVE,SSID,BSSID,DEVICE dev wifi`.
pub fn detect_active_wifi(output: &str) -> (r: Option<WifiInfo>)
    ensures
        match r {
            Some(w) => active_wifi_spec(output@) == Some(wifi_view(w)),
            None => active_wifi_spec(output@) is None,
        },
{
    let lines = split_lines(output);
    let yes = String::from_str("yes");
    let n = lines.len();
    let mut i: usize = 0;
    while i < n
        invariant
            n == lines@.len(),
            i <= n,
            yes@ == "yes"@,
            views(lines@) == text_lines(output@),
            first_active_from(views(lines@), 0) == first_active_from(views(lines@), i as int),
        decreases n - i,
    {
        let fields = parse_nmcli_line(lines[i].as_str());
        assert(views(lines@)[i as int] == lines@[i as int]@);
        if fields.len() > 0 && fields[0] == yes {
            assert(views(fields@)[0] == fields@[0]@);
            let ssid = field_at(&fields, 1);
            if ssid.unicode_len() == 0 {
                return None;
            }
            let bssid = nonempty_field_at(&fields, 2);
            let device = nonempty_field_at(&fields, 3);
            assert(views(fields@)[1] == fields@[1]@);
            return Some(WifiInfo { ssid, bssid, device });
        }
        assert(!is_active_line(nmcli_fields(views(lines@)[i as int])));
        i = i + 1;
    }
    None
}

} // verus!
