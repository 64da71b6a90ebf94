use vstd::prelude::*;
use crate::login::opt_view;

verus! {

/// `parts` joined with `sep` between each two neighbours.
pub open spec fn join(parts: Seq<Seq<char>>, sep: Seq<char>) -> Seq<char>
    decreases parts.len(),
{
    if parts.len() == 0 {
        Seq::empty()
    } else if parts.len() == 1 {
        parts[0]
    } else {
        join(parts.drop_last(), sep) + sep + parts.last()
    }
}

/// `count` copies of `piece`, separated by `sep`.
pub open spec fn repeated(piece: Seq<char>, count: nat, sep: Seq<char>) -> Seq<char> {
    join(Seq::new(count, |_i: int| piece), sep)
}

/// Builds `count` copies of `piece` separated by `sep`.
fn repeat_piece(piece: &str, count: usize, sep: &str) -> (r: String)
    ensures
        r@ == repeated(piece@, count as nat, sep@),
{
    let mut out = String::new();
    let mut i: usize = 0;
    while i < count
        invariant
            i <= count,
            out@ == repeated(piece@, i as nat, sep@),
        decreases count - i,
    {
        if i != 0 {
            out.append(sep);
        }
        out.append(piece);
        proof {
            let before = Seq::new(i as nat, |_k: int| piece@);
            let after = Seq::new((i + 1) as nat, |_k: int| piece@);
            assert(after.drop_last() =~= before);
        }
        i = i + 1;
    }
    out
}

/// The placeholder list `?,?,...,?` with `count` placeholders.
pub fn sql_vars(count: usize) -> (r: String)
    ensures
        r@ == repeated("?"@, count as nat, ","@),
{
    repeat_piece("?", count, ",")
}

/// The row list `(?),(?),...,(?)` with `count` rows.
pub fn sql_values(count: usize) -> (r: String)
    ensures
        r@ == repeated("(?)"@, count as nat, ","@),
{
    repeat_piece("(?)", count, ",")
}

/// `count` pieces, the i-th made by `fmt_one(i)`, with `sep` between them.
pub struct RepeatDisplay<'a, F> {
    pub count: usize,
    pub sep: &'a str,
    pub fmt_one: F,
}

impl<'a, F: Fn(usize) -> String> RepeatDisplay<'a, F> {
    /// The pieces joined with the separator.
    pub fn to_string(&self) -> (r: String)
        requires
            forall|i: usize| i < self.count ==> self.fmt_one.requires((i,)),
        ensures
            exists|parts: Seq<String>|
                parts.len() == self.count && (forall|i: int|
                    0 <= i < parts.len() ==> self.fmt_one.ensures(
                        (i as usize,),
                        #[trigger] parts[i],
                    )) && r@ == join(parts.map_values(|p: String| p@), self.sep@),
    {
        let mut out = String::new();
        let ghost mut parts: Seq<String> = Seq::empty();
        let mut i: usize = 0;
        while i < self.count
            invariant
                i <= self.count,
                forall|j: usize| j < self.count ==> self.fmt_one.requires((j,)),
                parts.len() == i,
                forall|k: int| 0 <= k < i ==> self.fmt_one.ensures((k as usize,), #[trigger] parts[k]),
                out@ == join(parts.map_values(|p: String| p@), self.sep@),
            decreases self.count - i,
        {
            if i != 0 {
                out.append(self.sep);
            }
            let piece = (self.fmt_one)(i);
            out.append(piece.as_str());
            proof {
                let old_parts = parts;
                parts = parts.push(piece);
                assert(parts.map_values(|p: String| p@).drop_last() =~= old_parts.map_values(
                    |p: String| p@,
                ));
                assert forall|k: int| 0 <= k < i + 1 implies self.fmt_one.ensures(
                    (k as usize,),
                    #[trigger] parts[k],
                ) by {
                    if k < i {
                        assert(parts[k] == old_parts[k]);
                    }
                }
            }
            i = i + 1;
        }
        out
    }
}

/// Makes a [`RepeatDisplay`] of `count` pieces.
pub fn repeat_display<'a, F: Fn(usize) -> String>(count: usize, sep: &'a str, fmt_one: F) -> (r:
    RepeatDisplay<'a, F>)
    ensures
        r.count == count,
        r.sep == sep,
        r.fmt_one == fmt_one,
{
    RepeatDisplay { count, sep, fmt_one }
}

/// A span of time: whole seconds and the nanoseconds beyond them.
#[derive(Debug, Clone, Copy, PartialEq, Eq, Structural)]
pub struct Duration {
    pub secs: u64,
    pub nanos: u32,
}

/// A wall-clock time, as its distance from the Unix epoch and its side of it.
#[derive(Debug, Clone, Copy, PartialEq, Eq, Structural)]
pub struct SystemTime {
    pub before_epoch: bool,
    pub distance: Duration,
}

/// Whole milliseconds in `d`.
pub open spec fn duration_ms(d: Duration) -> int {
    d.secs * 1000 + d.nanos / 1_000_000
}

/// Milliseconds since the epoch; a time before the epoch counts as zero.
pub open spec fn since_epoch_ms(t: SystemTime) -> int {
    if t.before_epoch {
        0
    } else {
        duration_ms(t.distance)
    }
}

/// Whole milliseconds in `d`.
pub fn duration_ms_i64(d: Duration) -> (r: i64)
    requires
        duration_ms(d) <= i64::MAX,
    ensures
        r == duration_ms(d),
{
    (d.secs as i64) * 1000 + (d.nanos / 1_000_000) as i64
}

/// Milliseconds from the epoch to `t`, zero for a time before the epoch.
pub fn system_time_ms_i64(t: SystemTime) -> (r: i64)
    requires
        since_epoch_ms(t) <= i64::MAX,
    ensures
        r == since_epoch_ms(t),
{
    if t.before_epoch {
        0
    } else {
        duration_ms_i64(t.distance)
    }
}

/// Relies on std::time::SystemTime::now and SystemTime::duration_since: the
/// current time on the local clock, measured from the Unix epoch.
#[verifier::external_body]
pub(crate) fn clock_now() -> (r: SystemTime)
    ensures
        r.distance.nanos < 1_000_000_000,
{
    let (before_epoch, d) = match std::time::SystemTime::now().duration_since(std::time::UNIX_EPOCH) {
        Ok(d) => (false, d),
        Err(e) => (true, e.duration()),
    };
    SystemTime { before_epoch, distance: Duration { secs: d.as_secs(), nanos: d.subsec_nanos() } }
}

/// The current local time in milliseconds since the epoch; a clock beyond
/// the range of `i64` milliseconds reads as `i64::MAX`.
pub fn now_ms() -> (r: i64)
    ensures
        r >= 0,
{
    let t = clock_now();
    if t.before_epoch || t.distance.secs < 9_000_000_000_000_000 / 1000 {
        system_time_ms_i64(t)
    } else {
        i64::MAX
    }
}

/// The host of the URL that `s` parses to; `None` where it does not parse or
/// has no host.
pub uninterp spec fn url_host(s: Seq<char>) -> Option<Seq<char>>;

/// The explicit port of the URL that `s` parses to; `None` where it does not
/// parse or names no port.
pub uninterp spec fn url_port(s: Seq<char>) -> Option<u16>;

/// Relies on url::Url::parse and Url::host_str.
#[verifier::external_body]
fn parsed_host(s: &str) -> (r: Option<String>)
    ensures
        opt_view(r) == url_host(s@),
{
    match url::Url::parse(s) {
        Ok(u) => u.host_str().map(String::from),
        Err(_) => None,
    }
}

/// Relies on url::Url::parse and Url::port.
#[verifier::external_body]
fn parsed_port(s: &str) -> (r: Option<u16>)
    ensures
        r == url_port(s@),
{
    match url::Url::parse(s) {
        Ok(u) => u.port(),
        Err(_) => None,
    }
}

pub open spec fn digit_char(d: nat) -> char {
    if d == 0 {
        '0'
    } else if d == 1 {
        '1'
    } else if d == 2 {
        '2'
    } else if d == 3 {
        '3'
    } else if d == 4 {
        '4'
    } else if d == 5 {
        '5'
    } else if d == 6 {
        '6'
    } else if d == 7 {
        '7'
    } else if d == 8 {
        '8'
    } else {
        '9'
    }
}

/// The decimal digits of `n`, without leading zeros.
pub open spec fn decimal(n: nat) -> Seq<char>
    decreases n,
{
    if n < 10 {
        seq![digit_char(n)]
    } else {
        decimal(n / 10).push(digit_char(n % 10))
    }
}

fn digit_str(d: u16) -> (r: &'static str)
    requires
        d < 10,
    ensures
        r@ == seq![digit_char(d as nat)],
{
    proof {
        reveal_strlit("0");
        reveal_strlit("1");
        reveal_strlit("2");
        reveal_strlit("3");
        reveal_strlit("4");
        reveal_strlit("5");
        reveal_strlit("6");
        reveal_strlit("7");
        reveal_strlit("8");
        reveal_strlit("9");
    }
    let r = match d {
        0 => "0",
        1 => "1",
        2 => "2",
        3 => "3",
        4 => "4",
        5 => "5",
        6 => "6",
        7 => "7",
        8 => "8",
        _ => "9",
    };
    assert(r@ =~= seq![digit_char(d as nat)]);
    r
}

/// `n` written in decimal.
fn decimal_string(n: u16) -> (r: String)
    ensures
        r@ == decimal(n as nat),
    decreases n,
{
    if n < 10 {
        String::from_str(digit_str(n))
    } else {
        let mut s = decimal_string(n / 10);
        s.append(digit_str(n % 10));
        assert(s@ =~= decimal(n as nat));
        s
    }
}

/// `host:port` for a URL with an explicit port, else the host alone.
pub open spec fn host_port(s: Seq<char>) -> Option<Seq<char>> {
    match url_host(s) {
        None => None,
        Some(h) => Some(
            match url_port(s) {
                Some(p) => h + seq![':'] + decimal(p as nat),
                None => h,
            },
        ),
    }
}

/// The host of a URL, followed by `:` and the port where the URL names one;
/// `None` where the text is no URL with a host.
pub fn url_host_port(url_str: &str) -> (r: Option<String>)
    ensures
        opt_view(r) == host_port(url_str@),
{
    let host = parsed_host(url_str);
    match host {
        None => None,
        Some(h) => match parsed_port(url_str) {
            Some(p) => {
                let mut out = h;
                out.append(":");
                proof {
                    reveal_strlit(":");
                }
                let digits = decimal_string(p);
                out.append(digits.as_str());
                Some(out)
            },
            None => Some(h),
        },
    }
}

} // verus!
