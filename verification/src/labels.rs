//! White labels (the hosted tenant sites) as the platform database records
//! them, and the small formatting rules of the administration views.
use vstd::prelude::*;
use crate::text::{
    before_char, before_char_str, chars_of, is_unicode_whitespace, is_whitespace_char, push_str,
    replace_all, replace_str, str_eq, string_from_range, to_owned_string, has_prefix, starts_with_str,
    push_char, push_signed_decimal, signed_decimal,
};

verus! {

broadcast use vstd::string::group_string_axioms;

/// Why a database operation failed.
#[derive(Debug)]
pub enum DbError {
    ConnectionFailed(String),
    QueryFailed(String),
    NotFound(String),
    SerializationError(String),
}

/// The standing of a white label: `White` active, `Gray` overdue, `Black`
/// suspended, `Red` deleted.
#[derive(Debug, Clone, Copy, PartialEq, Eq, Structural)]
pub enum LabelStatus {
    White,
    Gray,
    Black,
    Red,
}

/// The stored name of a status.
pub open spec fn status_name(s: LabelStatus) -> Seq<char> {
    match s {
        LabelStatus::White => "white"@,
        LabelStatus::Gray => "gray"@,
        LabelStatus::Black => "black"@,
        LabelStatus::Red => "red"@,
    }
}

/// The status with a given stored name, if any.
pub open spec fn status_named(name: Seq<char>) -> Option<LabelStatus> {
    if name == "white"@ {
        Some(LabelStatus::White)
    } else if name == "gray"@ {
        Some(LabelStatus::Gray)
    } else if name == "black"@ {
        Some(LabelStatus::Black)
    } else if name == "red"@ {
        Some(LabelStatus::Red)
    } else {
        None
    }
}

impl LabelStatus {
    /// The stored name: `white`, `gray`, `black` or `red`.
    pub fn as_str(&self) -> (res: &'static str)
        ensures
            res@ == status_name(*self),
    {
        match self {
            LabelStatus::White => "white",
            LabelStatus::Gray => "gray",
            LabelStatus::Black => "black",
            LabelStatus::Red => "red",
        }
    }

    /// The status with stored name `name`; `None` for any other text.
    pub fn parse(name: &str) -> (res: Option<LabelStatus>)
        ensures
            res == status_named(name@),
    {
        if str_eq(name, "white") {
            Some(LabelStatus::White)
        } else if str_eq(name, "gray") {
            Some(LabelStatus::Gray)
        } else if str_eq(name, "black") {
            Some(LabelStatus::Black)
        } else if str_eq(name, "red") {
            Some(LabelStatus::Red)
        } else {
            None
        }
    }
}

/// Every status reads back from its stored name.
pub proof fn law_status_name_roundtrip(s: LabelStatus)
    ensures
        status_named(status_name(s)) == Some(s),
{
    reveal_strlit("white");
    reveal_strlit("gray");
    reveal_strlit("black");
    reveal_strlit("red");
    assert("gray"@ != "white"@) by { assert("gray"@[0] != "white"@[0]); }
    assert("black"@ != "white"@) by { assert("black"@[0] != "white"@[0]); }
    assert("black"@ != "gray"@) by { assert("black"@[0] != "gray"@[0]); }
    assert("red"@ != "white"@) by { assert("red"@[0] != "white"@[0]); }
    assert("red"@ != "gray"@) by { assert("red"@[0] != "gray"@[0]); }
    assert("red"@ != "black"@) by { assert("red"@[0] != "black"@[0]); }
}

/// The theme colours and assets of a site.
pub struct Customization {
    pub primary_color: String,
    pub secondary_color: String,
    pub accent_color: String,
    pub background_color: String,
    pub text_color: String,
    pub logo_url: Option<String>,
    pub background_media_url: Option<String>,
    pub custom_css_url: Option<String>,
}

/// Bytes used by a site, per kind.
pub struct Storage {
    pub images_bytes: i64,
    pub videos_bytes: i64,
    pub audio_bytes: i64,
    pub db_bytes: i64,
}

impl Storage {
    /// Bytes used in all.
    pub fn total_bytes(&self) -> (res: i64)
        requires
            i64::MIN <= self.images_bytes + self.videos_bytes + self.audio_bytes + self.db_bytes <= i64::MAX,
            i64::MIN <= self.images_bytes + self.videos_bytes <= i64::MAX,
            i64::MIN <= self.images_bytes + self.videos_bytes + self.audio_bytes <= i64::MAX,
        ensures
            res == self.images_bytes + self.videos_bytes + self.audio_bytes + self.db_bytes,
    {
        self.images_bytes + self.videos_bytes + self.audio_bytes + self.db_bytes
    }
}

/// Rust's integer division, which rounds toward zero.
pub open spec fn div_toward_zero(a: int, b: int) -> int {
    if a >= 0 { a / b } else { -((-a) / b) }
}

/// `s` padded with spaces on the right to at least `width` characters (the
/// `{:<width}` format).
pub open spec fn pad_right(s: Seq<char>, width: nat) -> Seq<char> {
    s + Seq::new(if s.len() < width { (width - s.len()) as nat } else { 0 }, |i: int| ' ')
}

fn push_padded(out: &mut String, s: &str, width: usize)
    ensures
        final(out)@ == old(out)@ + pad_right(s@, width as nat),
{
    push_str(out, s);
    let n = s.unicode_len();
    let mut k: usize = n;
    while k < width
        invariant
            n == s@.len(),
            k == n || k <= width,
            n <= k,
            out@ == old(out)@ + s@ + Seq::new((k - n) as nat, |i: int| ' '),
        decreases width - k,
    {
        let ghost before = out@;
        push_char(out, ' ');
        assert(Seq::new((k + 1 - n) as nat, |i: int| ' ') =~= Seq::new((k - n) as nat, |i: int| ' ').push(' '));
        assert(out@ =~= old(out)@ + s@ + Seq::new((k + 1 - n) as nat, |i: int| ' '));
        k += 1;
    }
    assert(old(out)@ + s@ + Seq::new((k - n) as nat, |i: int| ' ') =~= old(out)@ + pad_right(s@, width as nat));
}

/// The name of a status as `{:?}` prints it.
pub open spec fn status_debug_name(s: LabelStatus) -> Seq<char> {
    match s {
        LabelStatus::White => "White"@,
        LabelStatus::Gray => "Gray"@,
        LabelStatus::Black => "Black"@,
        LabelStatus::Red => "Red"@,
    }
}

/// A line of the administration tool's label list: the domain padded to 30
/// characters, the status name to 10 and the creation date (what comes
/// before `T`) to 20, then the images, videos and database bytes in whole
/// mebibytes (rounded toward zero) and ` MB`; single spaces between.
pub fn label_list_line(domain: &str, status: LabelStatus, created_at: &str, storage: &Storage) -> (res: String)
    requires
        i64::MIN <= storage.images_bytes + storage.videos_bytes <= i64::MAX,
        i64::MIN <= storage.images_bytes + storage.videos_bytes + storage.db_bytes <= i64::MAX,
    ensures
        res@ == pad_right(domain@, 30) + " "@ + pad_right(status_debug_name(status), 10) + " "@ + pad_right(
            before_char(created_at@, 'T'),
            20,
        ) + " "@ + signed_decimal(
            div_toward_zero(storage.images_bytes + storage.videos_bytes + storage.db_bytes, 1048576),
        ) + " MB"@,
{
    let total: i64 = storage.images_bytes + storage.videos_bytes + storage.db_bytes;
    let mb: i64 = total / 1_048_576;
    let name = match status {
        LabelStatus::White => "White",
        LabelStatus::Gray => "Gray",
        LabelStatus::Black => "Black",
        LabelStatus::Red => "Red",
    };
    let date = before_char_str(created_at, 'T');
    let mut line = String::new();
    push_padded(&mut line, domain, 30);
    push_str(&mut line, " ");
    push_padded(&mut line, name, 10);
    push_str(&mut line, " ");
    push_padded(&mut line, date.as_str(), 20);
    push_str(&mut line, " ");
    push_signed_decimal(&mut line, mb);
    push_str(&mut line, " MB");
    line
}

/// Whole mebibytes of a byte count (rounded toward zero), truncated to 32
/// bits as `as u32` does.
pub fn bytes_to_mb(bytes: i64) -> (res: u32)
    ensures
        res as int == div_toward_zero(bytes as int, 1048576) % 0x1_0000_0000,
{
    let mb: i64 = bytes / 1_048_576;
    assert(mb == div_toward_zero(bytes as int, 1048576));
    if mb >= 0 {
        (mb % 0x1_0000_0000) as u32
    } else {
        let pos: i64 = -mb;
        let r: i64 = pos % 0x1_0000_0000;
        if r == 0 {
            assert((mb as int) % 0x1_0000_0000 == 0) by {
                assert(mb as int == -(pos / 0x1_0000_0000) * 0x1_0000_0000);
            }
            0
        } else {
            assert((mb as int) % 0x1_0000_0000 == 0x1_0000_0000 - r) by {
                assert(mb as int == -(pos / 0x1_0000_0000 + 1) * 0x1_0000_0000 + (0x1_0000_0000 - r));
            }
            (0x1_0000_0000 - r) as u32
        }
    }
}

/// Counts of white labels per status.
pub struct StatusCounts {
    pub total: i64,
    pub white: i64,
    pub gray: i64,
    pub black: i64,
    pub red: i64,
}

impl Default for StatusCounts {
    /// All counts zero.
    fn default() -> (res: StatusCounts)
        ensures
            res.total == 0 && res.white == 0 && res.gray == 0 && res.black == 0 && res.red == 0,
    {
        StatusCounts { total: 0, white: 0, gray: 0, black: 0, red: 0 }
    }
}

/// The state of a recorded payment.
#[derive(Debug, Clone, Copy, PartialEq, Eq, Structural)]
pub enum PaymentStatus {
    Pending,
    Paid,
    Failed,
    Refunded,
}

/// An entry of the activity log.
pub struct ActivityLog {
    pub id: String,
    pub white_label_id: Option<String>,
    pub user_id: Option<String>,
    pub admin_action: bool,
    pub action_type: String,
    pub description: String,
    pub ip_address: Option<String>,
    pub user_agent: Option<String>,
    pub created_at: String,
}

// ---------------------------------------------------------------------------
// Record identifiers
// ---------------------------------------------------------------------------

/// The record id of a row: `<table>:<id>`.
pub open spec fn record_id(table: Seq<char>, id: Seq<char>) -> Seq<char> {
    table + ":"@ + id
}

/// `<table>:<id>`.
pub fn record_id_text(table: &str, id: &str) -> (res: String)
    ensures
        res@ == record_id(table@, id@),
{
    let mut s = String::new();
    push_str(&mut s, table);
    push_str(&mut s, ":");
    push_str(&mut s, id);
    s
}

/// The id of a white label from a reference `white_labels:<id>`, or `None`
/// when the reference has another form.
pub fn label_id_of_reference(reference: &str) -> (res: Option<String>)
    ensures
        has_prefix(reference@, "white_labels:"@) ==> (res matches Some(id) && id@ == reference@.skip(13)),
        !has_prefix(reference@, "white_labels:"@) ==> res is None,
{
    proof {
        reveal_strlit("white_labels:");
    }
    if starts_with_str(reference, "white_labels:") {
        let cs = chars_of(reference);
        assert(cs@.subrange(13, cs@.len() as int) =~= reference@.skip(13));
        Some(string_from_range(&cs, 13, cs.len()))
    } else {
        None
    }
}

/// The case-insensitive pattern a domain search uses: `(?i)<term>`.
pub fn search_pattern(term: &str) -> (res: String)
    ensures
        res@ == "(?i)"@ + term@,
{
    let mut s = String::new();
    push_str(&mut s, "(?i)");
    push_str(&mut s, term);
    s
}

/// Which labels the label list shows.
pub enum LabelQuery {
    /// Labels whose domain matches the search term.
    Search(String),
    /// All labels.
    All,
    /// Labels with the given stored status name.
    ByStatus(String),
}

/// The list shown for the query parameters: a search term takes precedence,
/// then the status filter, where a missing status or `all` means every label.
pub fn label_query(status: Option<&str>, search: Option<&str>) -> (res: LabelQuery)
    ensures
        search matches Some(q) ==> (res matches LabelQuery::Search(t) && t@ == q@),
        search is None && (status is None || status->Some_0@ == "all"@) ==> res is All,
        search is None && status is Some && status->Some_0@ != "all"@ ==> (res matches LabelQuery::ByStatus(t)
            && t@ == status->Some_0@),
{
    match search {
        Some(q) => LabelQuery::Search(to_owned_string(q)),
        None => {
            let s = match status {
                Some(s) => s,
                None => "all",
            };
            if str_eq(s, "all") {
                LabelQuery::All
            } else {
                LabelQuery::ByStatus(to_owned_string(s))
            }
        },
    }
}

// ---------------------------------------------------------------------------
// Display formatting
// ---------------------------------------------------------------------------

/// The date part of an ISO timestamp: the text before the first `T`.
pub fn format_date(date_str: &str) -> (res: String)
    ensures
        res@ == before_char(date_str@, 'T'),
{
    before_char_str(date_str, 'T')
}

/// An ISO timestamp without fractional seconds and with a space between
/// date and time: the text before the first `.`, `T` replaced by a space.
pub fn format_timestamp(timestamp: &str) -> (res: String)
    ensures
        res@ == replace_all(before_char(timestamp@, '.'), "T"@, " "@),
{
    let head = before_char_str(timestamp, '.');
    proof {
        reveal_strlit("T");
    }
    replace_str(head.as_str(), "T", " ")
}

/// The length of the run of whitespace at the start of `s`.
pub open spec fn ws_run(s: Seq<char>) -> nat
    decreases s.len(),
{
    if s.len() > 0 && is_unicode_whitespace(s[0]) {
        1 + ws_run(s.skip(1))
    } else {
        0
    }
}

/// The length of the run of non-whitespace at the start of `s`.
pub open spec fn word_run(s: Seq<char>) -> nat
    decreases s.len(),
{
    if s.len() > 0 && !is_unicode_whitespace(s[0]) {
        1 + word_run(s.skip(1))
    } else {
        0
    }
}

proof fn lemma_runs_bounded(s: Seq<char>)
    ensures
        ws_run(s) <= s.len(),
        word_run(s) <= s.len(),
    decreases s.len(),
{
    if s.len() > 0 {
        lemma_runs_bounded(s.skip(1));
    }
}

/// The first whitespace-separated word of `s` that contains a `.`, if any:
/// what `s.split_whitespace().find(|w| w.contains('.'))` yields.
pub open spec fn first_dotted_word(s: Seq<char>) -> Option<Seq<char>>
    decreases s.len(),
{
    let t = s.skip(ws_run(s) as int);
    if ws_run(s) > s.len() || word_run(t) > t.len() || t.len() == 0 {
        None
    } else {
        let w = t.take(word_run(t) as int);
        if w.contains('.') {
            Some(w)
        } else if word_run(t) == 0 {
            None
        } else {
            first_dotted_word(t.skip(word_run(t) as int))
        }
    }
}

/// The domain mentioned in an activity description: its first word that
/// contains a `.`, or `N/A`.
pub fn extract_domain(description: &str) -> (res: String)
    ensures
        res@ == match first_dotted_word(description@) {
            Some(w) => w,
            None => "N/A"@,
        },
{
    let cs = chars_of(description);
    let mut i: usize = 0;
    assert(cs@.skip(0) =~= cs@);
    while i < cs.len()
        invariant
            cs@ == description@,
            i <= cs@.len(),
            first_dotted_word(description@) == first_dotted_word(cs@.skip(i as int)),
        decreases cs@.len() - i,
    {
        // skip whitespace
        let ghost s = cs@.skip(i as int);
        let mut j: usize = i;
        while j < cs.len() && is_whitespace_char(cs[j])
            invariant
                i <= j <= cs@.len(),
                ws_run(s) == (j - i) + ws_run(cs@.skip(j as int)),
                s == cs@.skip(i as int),
            decreases cs@.len() - j,
        {
            assert(cs@.skip(j as int).skip(1) =~= cs@.skip(j + 1));
            j += 1;
        }
        assert(ws_run(cs@.skip(j as int)) == 0);
        assert(s.skip(ws_run(s) as int) =~= cs@.skip(j as int));
        if j == cs.len() {
            proof {
                lemma_runs_bounded(s);
            }
            assert(cs@.skip(j as int).len() == 0);
            return to_owned_string("N/A");
        }
        // scan the word
        let ghost t = cs@.skip(j as int);
        let mut k: usize = j;
        let mut has_dot = false;
        while k < cs.len() && !is_whitespace_char(cs[k])
            invariant
                j <= k <= cs@.len(),
                t == cs@.skip(j as int),
                word_run(t) == (k - j) + word_run(cs@.skip(k as int)),
                has_dot == cs@.subrange(j as int, k as int).contains('.'),
            decreases cs@.len() - k,
        {
            assert(cs@.skip(k as int).skip(1) =~= cs@.skip(k + 1));
            assert(cs@.subrange(j as int, k + 1) =~= cs@.subrange(j as int, k as int).push(cs@[k as int]));
            if cs[k] == '.' {
                has_dot = true;
            }
            proof {
                let a = cs@.subrange(j as int, k as int);
                let b = cs@.subrange(j as int, k + 1);
                if cs@[k as int] == '.' {
                    assert(b[k - j] == '.');
                } else if a.contains('.') {
                    let x = choose|x: int| 0 <= x < a.len() && a[x] == '.';
                    assert(b[x] == '.');
                } else {
                    assert(!b.contains('.')) by {
                        if b.contains('.') {
                            let x = choose|x: int| 0 <= x < b.len() && b[x] == '.';
                            if x < a.len() {
                                assert(a[x] == '.');
                            }
                        }
                    }
                }
            }
            k += 1;
        }
        assert(word_run(cs@.skip(k as int)) == 0);
        proof {
            lemma_runs_bounded(s);
            lemma_runs_bounded(t);
        }
        assert(t.take(word_run(t) as int) =~= cs@.subrange(j as int, k as int));
        if has_dot {
            return string_from_range(&cs, j, k);
        }
        assert(t.skip(word_run(t) as int) =~= cs@.skip(k as int));
        i = k;
    }
    assert(cs@.skip(i as int).len() == 0);
    to_owned_string("N/A")
}

// ---------------------------------------------------------------------------
// Rows of the administration views
// ---------------------------------------------------------------------------

/// The domain named in an activity description, or `N/A`.
pub open spec fn described_domain(description: Seq<char>) -> Seq<char> {
    match first_dotted_word(description) {
        Some(w) => w,
        None => "N/A"@,
    }
}

/// A line of the recent-activity table.
pub struct ActivityRow {
    pub timestamp: String,
    pub domain: String,
    pub action: String,
    pub admin: String,
}

/// The recent-activity line of a log entry: its time without fractions,
/// the domain its description names, its action, and who acted (`Admin`
/// or `System`).
pub fn activity_row(log: &ActivityLog) -> (res: ActivityRow)
    ensures
        res.timestamp@ == replace_all(before_char(log.created_at@, '.'), "T"@, " "@),
        res.domain@ == described_domain(log.description@),
        res.action@ == log.action_type@,
        res.admin@ == if log.admin_action { "Admin"@ } else { "System"@ },
{
    ActivityRow {
        timestamp: format_timestamp(log.created_at.as_str()),
        domain: extract_domain(log.description.as_str()),
        action: to_owned_string(log.action_type.as_str()),
        admin: if log.admin_action { to_owned_string("Admin") } else { to_owned_string("System") },
    }
}

/// A line of the label list.
pub struct LabelRow {
    pub id: String,
    pub domain: String,
    pub status: String,
    pub created_at: String,
    pub last_payment: String,
    pub storage_mb: u32,
}

/// The list line of a label: its stored status name, the dates of its
/// creation and last payment (`Never` without one), and its storage in
/// whole mebibytes.
pub fn label_row(
    id: &str,
    domain: &str,
    status: LabelStatus,
    created_at: &str,
    last_payment_date: Option<&str>,
    storage: &Storage,
) -> (res: LabelRow)
    requires
        i64::MIN <= storage.images_bytes + storage.videos_bytes <= i64::MAX,
        i64::MIN <= storage.images_bytes + storage.videos_bytes + storage.audio_bytes <= i64::MAX,
        i64::MIN <= storage.images_bytes + storage.videos_bytes + storage.audio_bytes + storage.db_bytes <= i64::MAX,
    ensures
        res.id@ == id@,
        res.domain@ == domain@,
        res.status@ == status_name(status),
        res.created_at@ == before_char(created_at@, 'T'),
        res.last_payment@ == match last_payment_date {
            Some(d) => before_char(d@, 'T'),
            None => "Never"@,
        },
        res.storage_mb as int == div_toward_zero(
            storage.images_bytes + storage.videos_bytes + storage.audio_bytes + storage.db_bytes,
            1048576,
        ) % 0x1_0000_0000,
{
    LabelRow {
        id: to_owned_string(id),
        domain: to_owned_string(domain),
        status: to_owned_string(status.as_str()),
        created_at: format_date(created_at),
        last_payment: match last_payment_date {
            Some(d) => format_date(d),
            None => to_owned_string("Never"),
        },
        storage_mb: bytes_to_mb(storage.total_bytes()),
    }
}

/// The activity text of an administrator's action on a label:
/// `White label <id> <verb>`.
pub fn label_event_message(label_id: &str, verb: &str) -> (res: String)
    ensures
        res@ == "White label "@ + label_id@ + " "@ + verb@,
{
    let mut s = to_owned_string("White label ");
    push_str(&mut s, label_id);
    push_str(&mut s, " ");
    push_str(&mut s, verb);
    s
}

/// The answer to a request to e-mail a label's owner:
/// `Email queued for label <id>`.
pub fn email_queued_message(label_id: &str) -> (res: String)
    ensures
        res@ == "Email queued for label "@ + label_id@,
{
    let mut s = to_owned_string("Email queued for label ");
    push_str(&mut s, label_id);
    s
}

} // verus!
