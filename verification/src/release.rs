//! Release switching: the command line of the switch tool, the choice of
//! the release to roll back to, and the names of units and endpoints.
use vstd::prelude::*;
use crate::text::{to_owned_string, push_str, str_eq, chars_of};

verus! {

/// Why a switch stopped.
#[derive(Debug)]
pub enum SwitchError {
    MissingArg(&'static str),
    Io(String),
    InvalidState(&'static str),
    CommandFailed { cmd: &'static str, code: Option<i32> },
}

/// The switch tool's options.
pub struct Args {
    pub version: Option<String>,
    pub canary_domain: Option<String>,
    pub restart_all: bool,
    pub rollback: bool,
}

/// The text of an optional string.
pub open spec fn opt_text(o: Option<String>) -> Option<Seq<char>> {
    match o {
        Some(s) => Some(s@),
        None => None,
    }
}

/// The options read from a list of arguments: `--all` and `--rollback`
/// set their flags wherever they stand; the first other argument is the
/// version, the second the canary domain, and further ones are ignored.
pub open spec fn parsed_args(args: Seq<String>) -> (Option<Seq<char>>, Option<Seq<char>>, bool, bool)
    decreases args.len(),
{
    if args.len() == 0 {
        (None, None, false, false)
    } else {
        let (v, c, all, rb) = parsed_args(args.drop_last());
        let a = args.last()@;
        if a == "--all"@ {
            (v, c, true, rb)
        } else if a == "--rollback"@ {
            (v, c, all, true)
        } else if v is None {
            (Some(a), c, all, rb)
        } else if c is None {
            (v, Some(a), all, rb)
        } else {
            (v, c, all, rb)
        }
    }
}

/// The arguments after the program name.
pub open spec fn tail_args(argv: Seq<String>) -> Seq<String> {
    if argv.len() == 0 {
        Seq::empty()
    } else {
        argv.skip(1)
    }
}

/// Read the options from the command line (`argv[0]`, the program, is
/// skipped). Parsing never fails.
pub fn parse_args(argv: &Vec<String>) -> (res: Result<Args, SwitchError>)
    ensures
        res matches Ok(a) && {
            let p = parsed_args(tail_args(argv@));
            &&& opt_text(a.version) == p.0
            &&& opt_text(a.canary_domain) == p.1
            &&& a.restart_all == p.2
            &&& a.rollback == p.3
        },
{
    let mut version: Option<String> = None;
    let mut canary: Option<String> = None;
    let mut restart_all = false;
    let mut rollback = false;
    if argv.len() == 0 {
        return Ok(Args { version, canary_domain: canary, restart_all, rollback });
    }
    let mut i: usize = 1;
    assert(argv@.subrange(1, 1) =~= Seq::<String>::empty());
    while i < argv.len()
        invariant
            1 <= i <= argv@.len(),
            (opt_text(version), opt_text(canary), restart_all, rollback) == parsed_args(argv@.subrange(1, i as int)),
        decreases argv@.len() - i,
    {
        assert(argv@.subrange(1, i + 1).drop_last() =~= argv@.subrange(1, i as int));
        let a = argv[i].as_str();
        if str_eq(a, "--all") {
            restart_all = true;
        } else if str_eq(a, "--rollback") {
            rollback = true;
        } else if version.is_none() {
            version = Some(to_owned_string(a));
        } else if canary.is_none() {
            canary = Some(to_owned_string(a));
        }
        i = i + 1;
    }
    assert(argv@.subrange(1, argv@.len() as int) =~= argv@.skip(1));
    Ok(Args { version, canary_domain: canary, restart_all, rollback })
}

/// Lexicographic order of texts by code point (the byte order of their
/// UTF-8 forms).
pub open spec fn text_lt(a: Seq<char>, b: Seq<char>) -> bool
    decreases a.len(),
{
    if a.len() == 0 {
        b.len() > 0
    } else if b.len() == 0 {
        false
    } else if a[0] != b[0] {
        a[0] < b[0]
    } else {
        text_lt(a.skip(1), b.skip(1))
    }
}

/// `text_lt` is a strict total order.
pub proof fn lemma_text_lt_order(a: Seq<char>, b: Seq<char>, c: Seq<char>)
    ensures
        !text_lt(a, a),
        a != b ==> text_lt(a, b) || text_lt(b, a),
        !(text_lt(a, b) && text_lt(b, a)),
        text_lt(a, b) && text_lt(b, c) ==> text_lt(a, c),
    decreases a.len(),
{
    if a.len() > 0 {
        lemma_text_lt_order(a.skip(1), a.skip(1), a.skip(1));
    }
    if a.len() == 0 && b.len() == 0 {
        assert(a =~= b);
    }
    if a.len() > 0 && b.len() > 0 {
        if c.len() > 0 {
            lemma_text_lt_order(a.skip(1), b.skip(1), c.skip(1));
        } else {
            lemma_text_lt_order(a.skip(1), b.skip(1), b.skip(1));
        }
        if a[0] == b[0] && a.skip(1) == b.skip(1) {
            assert(a =~= seq![a[0]] + a.skip(1));
            assert(b =~= seq![b[0]] + b.skip(1));
        }
    }
}

/// Whether `a` comes before `b`.
pub fn text_less(a: &str, b: &str) -> (res: bool)
    ensures
        res == text_lt(a@, b@),
{
    let x = chars_of(a);
    let y = chars_of(b);
    let mut i: usize = 0;
    assert(a@.skip(0) =~= a@);
    assert(b@.skip(0) =~= b@);
    while i < x.len() && i < y.len()
        invariant
            x@ == a@,
            y@ == b@,
            i <= x@.len(),
            i <= y@.len(),
            x@.take(i as int) == y@.take(i as int),
            text_lt(a@, b@) == text_lt(a@.skip(i as int), b@.skip(i as int)),
        decreases x@.len() - i,
    {
        if x[i] != y[i] {
            return x[i] < y[i];
        }
        assert(a@.skip(i as int).skip(1) =~= a@.skip(i + 1));
        assert(b@.skip(i as int).skip(1) =~= b@.skip(i + 1));
        assert(x@.take(i + 1) =~= x@.take(i as int).push(x@[i as int]));
        assert(y@.take(i + 1) =~= y@.take(i as int).push(y@[i as int]));
        i = i + 1;
    }
    i < y.len()
}

/// `r` is the second element of `names` in descending order: some other
/// entry is not below it, and every entry besides those two is not above it.
pub open spec fn second_newest(names: Seq<String>, r: Seq<char>) -> bool {
    exists|i: int, j: int|
        #![trigger names[i], names[j]]
        0 <= i < names.len() && 0 <= j < names.len() && i != j && names[j]@ == r
            && !text_lt(names[i]@, r)
            && forall|k: int| 0 <= k < names.len() && k != i && k != j ==> !text_lt(r, #[trigger] names[k]@)
}

/// The release before the newest: the second name in descending order,
/// `None` with fewer than two releases.
pub fn previous_release(names: &Vec<String>) -> (res: Option<String>)
    ensures
        names@.len() < 2 ==> res is None,
        names@.len() >= 2 ==> (res matches Some(r) && second_newest(names@, r@)),
{
    if names.len() < 2 {
        return None;
    }
    // `hi` holds the newest name so far, `lo` the second.
    let mut hi: usize = 0;
    let mut lo: usize = 1;
    if text_less(names[0].as_str(), names[1].as_str()) {
        hi = 1;
        lo = 0;
    }
    proof {
        lemma_text_lt_order(names@[0]@, names@[1]@, names@[1]@);
    }
    let mut k: usize = 2;
    while k < names.len()
        invariant
            2 <= k <= names@.len(),
            hi < k,
            lo < k,
            hi != lo,
            !text_lt(names@[hi as int]@, names@[lo as int]@),
            forall|m: int| 0 <= m < k && m != hi && m != lo ==> !text_lt(names@[lo as int]@, #[trigger] names@[m]@),
        decreases names@.len() - k,
    {
        let ghost (oh, ol) = (hi, lo);
        proof {
            lemma_text_lt_order(names@[k as int]@, names@[hi as int]@, names@[lo as int]@);
            lemma_text_lt_order(names@[lo as int]@, names@[k as int]@, names@[hi as int]@);
            lemma_text_lt_order(names@[k as int]@, names@[lo as int]@, names@[hi as int]@);
            lemma_text_lt_order(names@[hi as int]@, names@[k as int]@, names@[lo as int]@);
        }
        if text_less(names[hi].as_str(), names[k].as_str()) {
            lo = hi;
            hi = k;
            proof {
                assert forall|m: int| 0 <= m < k + 1 && m != hi && m != lo implies !text_lt(names@[lo as int]@, #[trigger] names@[m]@) by {
                    lemma_text_lt_order(names@[m]@, names@[ol as int]@, names@[oh as int]@);
                    lemma_text_lt_order(names@[oh as int]@, names@[m]@, names@[ol as int]@);
                    if m == ol {
                    } else {
                        assert(!text_lt(names@[ol as int]@, names@[m]@));
                    }
                }
            }
        } else if text_less(names[lo].as_str(), names[k].as_str()) {
            lo = k;
            proof {
                assert forall|m: int| 0 <= m < k + 1 && m != hi && m != lo implies !text_lt(names@[lo as int]@, #[trigger] names@[m]@) by {
                    lemma_text_lt_order(names@[m]@, names@[ol as int]@, names@[k as int]@);
                    lemma_text_lt_order(names@[k as int]@, names@[m]@, names@[ol as int]@);
                    lemma_text_lt_order(names@[k as int]@, names@[ol as int]@, names@[m]@);
                    if m != ol {
                        assert(!text_lt(names@[ol as int]@, names@[m]@));
                    }
                }
            }
        }
        k = k + 1;
    }
    let r = names[lo].clone();
    assert(second_newest(names@, r@)) by {
        assert(names@[lo as int]@ == r@);
    }
    Some(r)
}

/// The release binary of a version: `<releases_root>/<version>/lillpepe`.
pub fn release_binary(releases_root: &str, version: &str) -> (res: String)
    ensures
        res@ == releases_root@ + "/"@ + version@ + "/lillpepe"@,
{
    let mut s = to_owned_string(releases_root);
    push_str(&mut s, "/");
    push_str(&mut s, version);
    push_str(&mut s, "/lillpepe");
    s
}

/// The directory holding the releases.
pub fn releases_root() -> (res: &'static str)
    ensures
        res@ == "/opt/lillpepe/releases"@,
{
    "/opt/lillpepe/releases"
}

/// The link naming the current release.
pub fn current_link() -> (res: &'static str)
    ensures
        res@ == "/opt/lillpepe/bin/current"@,
{
    "/opt/lillpepe/bin/current"
}

/// The binary to roll back to: that of the previous release, or
/// `InvalidState("no previous release found")` without one.
pub fn rollback_target(names: &Vec<String>) -> (res: Result<String, SwitchError>)
    ensures
        names@.len() < 2 ==> (res matches Err(SwitchError::InvalidState(m)) && m@ == "no previous release found"@),
        names@.len() >= 2 ==> (res matches Ok(p) && exists|r: Seq<char>| second_newest(names@, r)
            && p@ == "/opt/lillpepe/releases"@ + "/"@ + r + "/lillpepe"@),
{
    match previous_release(names) {
        Some(r) => Ok(release_binary(releases_root(), r.as_str())),
        None => Err(SwitchError::InvalidState("no previous release found")),
    }
}

/// What a forward switch needs: the version, then the canary domain; a
/// missing one is a `MissingArg` error naming it.
pub fn switch_target(args: &Args) -> (res: Result<(String, String), SwitchError>)
    ensures
        args.version is None ==> (res matches Err(SwitchError::MissingArg(m)) && m@ == "version (e.g. 2025.10.16+001)"@),
        args.version is Some && args.canary_domain is None
            ==> (res matches Err(SwitchError::MissingArg(m)) && m@ == "canary domain"@),
        args.version is Some && args.canary_domain is Some ==> (res matches Ok((v, c))
            && v@ == args.version->Some_0@ && c@ == args.canary_domain->Some_0@),
{
    match &args.version {
        None => Err(SwitchError::MissingArg("version (e.g. 2025.10.16+001)")),
        Some(v) => match &args.canary_domain {
            None => Err(SwitchError::MissingArg("canary domain")),
            Some(c) => Ok((to_owned_string(v.as_str()), to_owned_string(c.as_str()))),
        },
    }
}

/// The service unit of a tenant: `lillpepe@<domain>.service`.
pub fn tenant_unit(domain: &str) -> (res: String)
    ensures
        res@ == "lillpepe@"@ + domain@ + ".service"@,
{
    let mut s = to_owned_string("lillpepe@");
    push_str(&mut s, domain);
    push_str(&mut s, ".service");
    s
}

/// The health endpoint of a tenant: `https://<domain>/health`.
pub fn health_url(domain: &str) -> (res: String)
    ensures
        res@ == "https://"@ + domain@ + "/health"@,
{
    let mut s = to_owned_string("https://");
    push_str(&mut s, domain);
    push_str(&mut s, "/health");
    s
}

} // verus!
