//! Shared presentation widgets as verified view models: the pager, date
//! formatting, and the small form-input builders.

use vstd::prelude::*;

use chrono::{Datelike, Timelike};

use crate::text::{dec_u64, spec_dec};

verus! {

/// Validation messages to show above a form, if any.
pub type ErrorMessage = Option<Vec<String>>;

/// One entry of the pager: a page number, linked unless it is the page
/// being shown.
pub struct PageLink {
    pub number: u64,
    pub href: Option<String>,
}

/// The whole pager control: an optional previous link, the numbered page
/// links, and an optional next link.
pub struct PagerView {
    pub prev: Option<String>,
    pub pages: Vec<PageLink>,
    pub next: Option<String>,
}

/// How many pages a listing of `total` rows has at `size` rows a page:
/// the quotient, rounded up.
pub open spec fn spec_page_count(total: int, size: int) -> int {
    (total + size - 1) / size
}

/// The target of a page link: the base path with the page number as its
/// only query parameter.
pub open spec fn spec_page_href(url: Seq<char>, n: int) -> Seq<char> {
    url + "?page="@ + spec_dec(n)
}

fn page_href(url: &str, n: u64) -> (r: String)
    ensures
        r@ == spec_page_href(url@, n as int),
{
    let mut s = String::new();
    s.append(url);
    s.append("?page=");
    let d = dec_u64(n);
    s.append(d.as_str());
    s
}

/// The pager of a listing.  No control at all is rendered when everything
/// fits on one page.  Otherwise there is one link per page — the current
/// page shown unlinked — plus a previous link unless the first page is
/// shown and a next link unless the last is.
pub fn pager(url: &str, total: i64, size: u8, current_page: u32) -> (r: Option<PagerView>)
    requires
        size >= 1,
        current_page >= 1,
    ensures
        r is None <==> total <= size,
        r matches Some(p) ==> {
            &&& p.pages@.len() == spec_page_count(total as int, size as int)
            &&& forall|i: int|
                0 <= i < p.pages@.len() ==> (#[trigger] p.pages@[i]).number == i + 1
            &&& forall|i: int|
                0 <= i < p.pages@.len() ==> ((#[trigger] p.pages@[i]).href is None <==> i + 1
                    == current_page)
            &&& forall|i: int|
                0 <= i < p.pages@.len() && i + 1 != current_page ==> ((#[trigger] p.pages@[i]).href
                    matches Some(h) && h@ == spec_page_href(url@, i + 1))
            &&& (p.prev is Some <==> current_page != 1)
            &&& (p.prev matches Some(h) ==> h@ == spec_page_href(url@, current_page as int - 1))
            &&& (p.next is Some <==> current_page < spec_page_count(total as int, size as int))
            &&& (p.next matches Some(h) ==> h@ == spec_page_href(url@, current_page as int + 1))
        },
{
    if total <= size as i64 {
        return None;
    }
    let count: u64 = ((total as u64) + (size as u64) - 1) / (size as u64);
    proof {
        assert(spec_page_count(total as int, size as int) <= total as int + size as int - 1)
            by (nonlinear_arith)
            requires
                size >= 1,
                total >= 0,
        ;
    }
    let mut pages: Vec<PageLink> = Vec::new();
    let mut n: u64 = 1;
    while n <= count
        invariant
            count == spec_page_count(total as int, size as int),
            count <= total as int + size as int - 1,
            1 <= n <= count + 1,
            pages@.len() == n - 1,
            forall|i: int| 0 <= i < pages@.len() ==> (#[trigger] pages@[i]).number == i + 1,
            forall|i: int|
                0 <= i < pages@.len() ==> ((#[trigger] pages@[i]).href is None <==> i + 1
                    == current_page),
            forall|i: int|
                0 <= i < pages@.len() && i + 1 != current_page ==> ((#[trigger] pages@[i]).href
                    matches Some(h) && h@ == spec_page_href(url@, i + 1)),
        decreases count - n + 1,
    {
        if n == current_page as u64 {
            pages.push(PageLink { number: n, href: None });
        } else {
            let h = page_href(url, n);
            pages.push(PageLink { number: n, href: Some(h) });
        }
        n = n + 1;
    }
    let prev: Option<String> = if current_page != 1 {
        Some(page_href(url, current_page as u64 - 1))
    } else {
        None
    };
    let next: Option<String> = if (current_page as u64) < count {
        Some(page_href(url, current_page as u64 + 1))
    } else {
        None
    };
    Some(PagerView { prev, pages, next })
}

/// The proleptic-Gregorian calendar date `(year, month, day)` of an
/// instant, by the standard era arithmetic over whole days.
pub open spec fn civil_of(secs: int) -> (int, int, int) {
    let days = secs / 86400;
    let z = days + 719468;
    let era = z / 146097;
    let doe = z - era * 146097;
    let yoe = (doe - doe / 1461 + doe / 36524 - doe / 146096) / 365;
    let doy = doe - (365 * yoe + yoe / 4 - yoe / 100);
    let mp = (5 * doy + 2) / 153;
    let d = doy - (153 * mp + 2) / 5 + 1;
    let m = if mp < 10 {
        mp + 3
    } else {
        mp - 9
    };
    let y = if m <= 2 {
        yoe + era * 400 + 1
    } else {
        yoe + era * 400
    };
    (y, m, d)
}

/// The clock time `(hour, minute, second)` of an instant: its seconds
/// of day, split.
pub open spec fn clock_of(secs: int) -> (int, int, int) {
    let tod = secs % 86400;
    (tod / 3600, (tod % 3600) / 60, tod % 60)
}

/// Relies on chrono: `DateTime::from_timestamp` on a timestamp between
/// 1970 and roughly 2096 yields the instant (no panic over the required
/// range), `with_timezone(&Local)` re-expresses it in the machine's
/// zone, whose UTC offset — returned here as the last component — is
/// under a day, and the `Datelike` / `Timelike` accessors then return
/// the proleptic-Gregorian calendar date and clock time of the instant
/// shifted by that offset: `civil_of` and `clock_of` of `secs + off`.
/// Which offset the machine has is not promised, only its bound; the
/// ranges restate what the accessors are documented to yield.
#[verifier::external_body]
pub fn local_parts(secs: i64) -> (r: (i32, u8, u8, u8, u8, u8, i32))
    requires
        0 <= secs <= 4_000_000_000i64,
    ensures
        1969 <= r.0 <= 2100,
        1 <= r.1 <= 12,
        1 <= r.2 <= 31,
        r.3 <= 23,
        r.4 <= 59,
        r.5 <= 59,
        -86400 <= r.6 <= 86400,
        (r.0 as int, r.1 as int, r.2 as int) == civil_of(secs + r.6),
        (r.3 as int, r.4 as int, r.5 as int) == clock_of(secs + r.6),
{
    let utc = chrono::DateTime::from_timestamp(secs, 0).unwrap();
    let local = utc.with_timezone(&chrono::Local);
    let off = local.offset().local_minus_utc();
    (
        local.year(),
        local.month() as u8,
        local.day() as u8,
        local.hour() as u8,
        local.minute() as u8,
        local.second() as u8,
        off,
    )
}

/// Two digits, zero-padded.
pub open spec fn spec_pad2(n: int) -> Seq<char> {
    if n < 10 {
        seq!['0'] + spec_dec(n)
    } else {
        spec_dec(n)
    }
}

fn pad2(n: u8) -> (r: String)
    requires
        n <= 99,
    ensures
        r@ == spec_pad2(n as int),
{
    let mut s = String::new();
    if n < 10 {
        proof {
            reveal_strlit("0");
        }
        s.append("0");
    }
    let d = dec_u64(n as u64);
    s.append(d.as_str());
    s
}

/// `YYYY-MM-DD`, for years of four digits.
pub open spec fn spec_date(y: int, m: int, d: int) -> Seq<char> {
    spec_dec(y) + "-"@ + spec_pad2(m) + "-"@ + spec_pad2(d)
}

/// `HH:MM:SS`.
pub open spec fn spec_clock(h: int, mi: int, s: int) -> Seq<char> {
    spec_pad2(h) + ":"@ + spec_pad2(mi) + ":"@ + spec_pad2(s)
}

/// Renders a calendar date as `YYYY-MM-DD`.
pub fn format_date(y: i32, m: u8, d: u8) -> (r: String)
    requires
        1000 <= y <= 9999,
        1 <= m <= 12,
        1 <= d <= 31,
    ensures
        r@ == spec_date(y as int, m as int, d as int),
{
    let mut s = dec_u64(y as u64);
    s.append("-");
    let ms = pad2(m);
    s.append(ms.as_str());
    s.append("-");
    let ds = pad2(d);
    s.append(ds.as_str());
    s
}

/// An instant clipped to the range the calendar wrapper accepts.
pub open spec fn spec_clamp(secs: int) -> int {
    if secs < 0 {
        0
    } else if secs > 4_000_000_000 {
        4_000_000_000
    } else {
        secs
    }
}

/// Clips an instant to the range the calendar wrappers accept.
fn clamp_secs(secs: i64) -> (r: i64)
    ensures
        r == spec_clamp(secs as int),
        0 <= r <= 4_000_000_000i64,
{
    if secs < 0 {
        0
    } else if secs > 4_000_000_000 {
        4_000_000_000
    } else {
        secs
    }
}

/// The `YYYY-MM-DD` rendering of an instant's calendar date.
pub open spec fn spec_civil_date(secs: int) -> Seq<char> {
    spec_date(civil_of(secs).0, civil_of(secs).1, civil_of(secs).2)
}

/// A stored creation instant, shown as its local calendar date
/// `YYYY-MM-DD`: the calendar date of the clipped instant shifted by
/// the machine zone's offset, which is under a day.
pub fn show_date(secs: i64) -> (r: String)
    ensures
        exists|t: int|
            spec_clamp(secs as int) - 86400 <= t <= spec_clamp(secs as int) + 86400 && r@
                == #[trigger] spec_civil_date(t),
{
    let clamped = clamp_secs(secs);
    let (y, m, d, _h, _mi, _s, off) = local_parts(clamped);
    let r = format_date(y, m, d);
    proof {
        assert(r@ == spec_civil_date(clamped + off));
    }
    r
}

/// The `MM-DD` rendering of an instant's calendar date.
pub open spec fn spec_civil_day(secs: int) -> Seq<char> {
    spec_pad2(civil_of(secs).1) + "-"@ + spec_pad2(civil_of(secs).2)
}

/// A stored instant shown as its local `MM-DD`: the month and day of
/// the clipped instant shifted by the machine zone's offset.
pub fn show_day(secs: i64) -> (r: String)
    ensures
        exists|t: int|
            spec_clamp(secs as int) - 86400 <= t <= spec_clamp(secs as int) + 86400 && r@
                == #[trigger] spec_civil_day(t),
{
    let clamped = clamp_secs(secs);
    let (_y, m, d, _h, _mi, _s, off) = local_parts(clamped);
    let mut s = pad2(m);
    s.append("-");
    let ds = pad2(d);
    s.append(ds.as_str());
    proof {
        assert(s@ == spec_civil_day(clamped + off));
    }
    s
}

/// The `YYYY-MM-DD HH:MM:SS` rendering of an instant.
pub open spec fn spec_civil_time(secs: int) -> Seq<char> {
    spec_civil_date(secs) + " "@ + spec_clock(clock_of(secs).0, clock_of(secs).1, clock_of(secs).2)
}

/// A stored instant shown as its local `YYYY-MM-DD HH:MM:SS`: the
/// calendar date and clock time of the clipped instant shifted by the
/// machine zone's offset.
pub fn show_time(secs: i64) -> (r: String)
    ensures
        exists|t: int|
            spec_clamp(secs as int) - 86400 <= t <= spec_clamp(secs as int) + 86400 && r@
                == #[trigger] spec_civil_time(t),
{
    let clamped = clamp_secs(secs);
    let (y, m, d, h, mi, sec, off) = local_parts(clamped);
    let mut s = format_date(y, m, d);
    s.append(" ");
    let hs = pad2(h);
    s.append(hs.as_str());
    s.append(":");
    let mis = pad2(mi);
    s.append(mis.as_str());
    s.append(":");
    let ss = pad2(sec);
    s.append(ss.as_str());
    proof {
        assert(s@ == spec_civil_time(clamped + off));
    }
    s
}

/// A text `<input>` under construction, configured by chained setters.
pub struct TextInput {
    pub id: String,
    pub name: String,
    pub value: Option<String>,
    pub my_type: String,
    pub required: bool,
    pub checked: bool,
    pub class: String,
    pub placeholder: String,
}

impl TextInput {
    pub fn new(id: &str, name: &str, required: bool) -> (r: TextInput)
        ensures
            r.id@ == id@,
            r.name@ == name@,
            r.required == required,
            r.value is None,
            r.checked == false,
            r.my_type@ == "text"@,
            r.class@ == "form-control mb-3"@,
            r.placeholder@ == ""@,
    {
        TextInput {
            id: id.to_owned(),
            name: name.to_owned(),
            required,
            value: None,
            checked: false,
            my_type: "text".to_owned(),
            class: "form-control mb-3".to_owned(),
            placeholder: "".to_owned(),
        }
    }

    pub fn with_type(self, tt: &str) -> (r: TextInput)
        ensures
            r.my_type@ == tt@,
            r.id == self.id,
            r.name == self.name,
            r.value == self.value,
            r.required == self.required,
            r.checked == self.checked,
            r.class == self.class,
            r.placeholder == self.placeholder,
    {
        TextInput { my_type: tt.to_owned(), ..self }
    }

    pub fn placeholder(self, ph: &str) -> (r: TextInput)
        ensures
            r.placeholder@ == ph@,
            r.id == self.id,
            r.name == self.name,
            r.value == self.value,
            r.required == self.required,
            r.checked == self.checked,
            r.class == self.class,
            r.my_type == self.my_type,
    {
        TextInput { placeholder: ph.to_owned(), ..self }
    }

    pub fn value(self, value: Option<String>) -> (r: TextInput)
        ensures
            r == (TextInput { value, ..self }),
    {
        TextInput { value, ..self }
    }

    pub fn checked(self) -> (r: TextInput)
        ensures
            r == (TextInput { checked: true, ..self }),
    {
        TextInput { checked: true, ..self }
    }
}

/// A `<textarea>` under construction.
pub struct TextArea {
    pub id: String,
    pub name: String,
    pub text: Option<String>,
    pub required: bool,
    pub class: String,
    pub rows: u8,
    pub md: bool,
}

impl TextArea {
    pub fn new(id: &str, name: &str, required: bool) -> (r: TextArea)
        ensures
            r.id@ == id@,
            r.name@ == name@,
            r.required == required,
            r.text is None,
            r.class@ == "form-control"@,
            r.rows == 5u8,
            r.md == false,
    {
        TextArea {
            id: id.to_owned(),
            name: name.to_owned(),
            required,
            text: None,
            class: "form-control".to_owned(),
            rows: 5,
            md: false,
        }
    }

    pub fn text(self, text: Option<String>) -> (r: TextArea)
        ensures
            r == (TextArea { text, ..self }),
    {
        TextArea { text, ..self }
    }

    pub fn rows(self, rows: u8) -> (r: TextArea)
        ensures
            r == (TextArea { rows, ..self }),
    {
        TextArea { rows, ..self }
    }

    pub fn md(self) -> (r: TextArea)
        ensures
            r == (TextArea { md: true, ..self }),
    {
        TextArea { md: true, ..self }
    }
}

/// Page number taken from the query string.
pub struct Pagination {
    pub page: u32,
}

impl Default for Pagination {
    /// The first page.
    fn default() -> (r: Pagination)
        ensures
            r.page == 1u32,
    {
        Pagination { page: 1 }
    }
}

/// Category and type taken from the query string.
pub struct CatType {
    pub cat: i16,
    pub typ: i16,
}

impl Default for CatType {
    fn default() -> (r: CatType)
        ensures
            r.cat == 0i16,
            r.typ == 0i16,
    {
        CatType { cat: 0, typ: 0 }
    }
}

/// The countdown-and-redirect script shown after a successful action:
/// a fixed prologue, the target address, and a fixed epilogue.
pub fn redirect_script(url: &str) -> (r: String)
    ensures
        r@ == "\n<div class=\"text-center m-2\"><span id=\"s\"></span></div>\n<script type=\"text/javascript\" language=\"javascript\">\n    var time=3;\n    function Redirect() {\n        window.location = \""@
            + url@
            + "\";\n    }\n    var i=0;\n    function dis() {\n      document.all.s.innerHTML = \"\" + (time - i) + \"\";\n      i++;\n    }\n    setInterval('dis()', 1000);\n    setTimeout('Redirect()', time * 1000);\n</script>\n"@,
{
    let mut s = String::new();
    s.append(
        "\n<div class=\"text-center m-2\"><span id=\"s\"></span></div>\n<script type=\"text/javascript\" language=\"javascript\">\n    var time=3;\n    function Redirect() {\n        window.location = \"",
    );
    s.append(url);
    s.append(
        "\";\n    }\n    var i=0;\n    function dis() {\n      document.all.s.innerHTML = \"\" + (time - i) + \"\";\n      i++;\n    }\n    setInterval('dis()', 1000);\n    setTimeout('Redirect()', time * 1000);\n</script>\n",
    );
    s
}

} // verus!
