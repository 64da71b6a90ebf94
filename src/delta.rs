use vstd::prelude::*;
use crate::login::{clone_opt_string, opt_string_eq, opt_view, Login, LoginView};

verus! {

/// For each field of a login, either "unchanged" (`None`) or "set to the
/// value held" (`Some`).
#[derive(Debug, Clone)]
pub struct LoginDelta {
    pub id: Option<String>,
    pub hostname: Option<Option<String>>,
    pub form_submit_url: Option<Option<String>>,
    pub http_realm: Option<Option<String>>,
    pub username: Option<String>,
    pub password: Option<String>,
    pub username_field: Option<String>,
    pub password_field: Option<String>,
    pub time_created: Option<i64>,
    pub time_password_changed: Option<i64>,
    pub time_last_used: Option<Option<i64>>,
    pub times_used: Option<Option<i64>>,
}

pub struct LoginDeltaView {
    pub id: Option<Seq<char>>,
    pub hostname: Option<Option<Seq<char>>>,
    pub form_submit_url: Option<Option<Seq<char>>>,
    pub http_realm: Option<Option<Seq<char>>>,
    pub username: Option<Seq<char>>,
    pub password: Option<Seq<char>>,
    pub username_field: Option<Seq<char>>,
    pub password_field: Option<Seq<char>>,
    pub time_created: Option<i64>,
    pub time_password_changed: Option<i64>,
    pub time_last_used: Option<Option<i64>>,
    pub times_used: Option<Option<i64>>,
}

pub open spec fn opt_opt_view(o: Option<Option<String>>) -> Option<Option<Seq<char>>> {
    match o {
        Some(v) => Some(opt_view(v)),
        None => None,
    }
}

impl View for LoginDelta {
    type V = LoginDeltaView;

    open spec fn view(&self) -> LoginDeltaView {
        LoginDeltaView {
            id: opt_view(self.id),
            hostname: opt_opt_view(self.hostname),
            form_submit_url: opt_opt_view(self.form_submit_url),
            http_realm: opt_opt_view(self.http_realm),
            username: opt_view(self.username),
            password: opt_view(self.password),
            username_field: opt_view(self.username_field),
            password_field: opt_view(self.password_field),
            time_created: self.time_created,
            time_password_changed: self.time_password_changed,
            time_last_used: self.time_last_used,
            times_used: self.times_used,
        }
    }
}

/// The delta that changes nothing.
pub open spec fn empty_delta() -> LoginDeltaView {
    LoginDeltaView {
        id: None,
        hostname: None,
        form_submit_url: None,
        http_realm: None,
        username: None,
        password: None,
        username_field: None,
        password_field: None,
        time_created: None,
        time_password_changed: None,
        time_last_used: None,
        times_used: None,
    }
}

/// `Some(a)` where the two values differ, else `None`.
pub open spec fn changed<T>(a: T, b: T) -> Option<T> {
    if a == b {
        None
    } else {
        Some(a)
    }
}

/// The delta that turns `b` into `a`: each field where they differ, set to
/// `a`'s value.
pub open spec fn diff(a: LoginView, b: LoginView) -> LoginDeltaView {
    LoginDeltaView {
        id: changed(a.id, b.id),
        hostname: changed(a.hostname, b.hostname),
        form_submit_url: changed(a.form_submit_url, b.form_submit_url),
        http_realm: changed(a.http_realm, b.http_realm),
        username: changed(a.username, b.username),
        password: changed(a.password, b.password),
        username_field: changed(a.username_field, b.username_field),
        password_field: changed(a.password_field, b.password_field),
        time_created: changed(a.time_created, b.time_created),
        time_password_changed: changed(a.time_password_changed, b.time_password_changed),
        time_last_used: changed(a.time_last_used, b.time_last_used),
        times_used: changed(a.times_used, b.times_used),
    }
}

/// The value set by a delta field, or the old value where it is unchanged.
pub open spec fn patched<T>(old_value: T, d: Option<T>) -> T {
    match d {
        Some(v) => v,
        None => old_value,
    }
}

/// `l` with every field that `d` sets replaced.
pub open spec fn apply(l: LoginView, d: LoginDeltaView) -> LoginView {
    LoginView {
        id: patched(l.id, d.id),
        hostname: patched(l.hostname, d.hostname),
        form_submit_url: patched(l.form_submit_url, d.form_submit_url),
        http_realm: patched(l.http_realm, d.http_realm),
        username: patched(l.username, d.username),
        password: patched(l.password, d.password),
        username_field: patched(l.username_field, d.username_field),
        password_field: patched(l.password_field, d.password_field),
        time_created: patched(l.time_created, d.time_created),
        time_password_changed: patched(l.time_password_changed, d.time_password_changed),
        time_last_used: patched(l.time_last_used, d.time_last_used),
        times_used: patched(l.times_used, d.times_used),
    }
}

/// One field of a merge: the side that sets it, and where both do, `b` if
/// `prefer_b`, else `a`.
pub open spec fn pick<T>(a: Option<T>, b: Option<T>, prefer_b: bool) -> Option<T> {
    match (a, b) {
        (Some(x), Some(y)) => if prefer_b {
            Some(y)
        } else {
            Some(x)
        },
        (Some(x), None) => Some(x),
        (None, y) => y,
    }
}

pub open spec fn max_i64(x: i64, y: i64) -> i64 {
    if x < y {
        y
    } else {
        x
    }
}

/// The later of two optional times, an absent time being the earliest.
pub open spec fn max_opt_i64(x: Option<i64>, y: Option<i64>) -> Option<i64> {
    match (x, y) {
        (Some(p), Some(q)) => Some(max_i64(p, q)),
        (Some(p), None) => Some(p),
        (None, q) => q,
    }
}

/// One timestamp field of a merge: the side that sets it, and where both do,
/// the later value.
pub open spec fn pick_latest(a: Option<i64>, b: Option<i64>) -> Option<i64> {
    match (a, b) {
        (Some(x), Some(y)) => Some(max_i64(x, y)),
        (Some(x), None) => Some(x),
        (None, y) => y,
    }
}

pub open spec fn pick_latest_opt(a: Option<Option<i64>>, b: Option<Option<i64>>) -> Option<
    Option<i64>,
> {
    match (a, b) {
        (Some(x), Some(y)) => Some(max_opt_i64(x, y)),
        (Some(x), None) => Some(x),
        (None, y) => y,
    }
}

/// Field-by-field union of two deltas. Where both set a field, `b` wins if
/// `prefer_b` and `a` otherwise; the creation and last-use times take the
/// later value whatever the flag, while the password change time goes with
/// the flag, as the password does.
pub open spec fn merge(a: LoginDeltaView, b: LoginDeltaView, prefer_b: bool) -> LoginDeltaView {
    LoginDeltaView {
        id: pick(a.id, b.id, prefer_b),
        hostname: pick(a.hostname, b.hostname, prefer_b),
        form_submit_url: pick(a.form_submit_url, b.form_submit_url, prefer_b),
        http_realm: pick(a.http_realm, b.http_realm, prefer_b),
        username: pick(a.username, b.username, prefer_b),
        password: pick(a.password, b.password, prefer_b),
        username_field: pick(a.username_field, b.username_field, prefer_b),
        password_field: pick(a.password_field, b.password_field, prefer_b),
        time_created: pick_latest(a.time_created, b.time_created),
        time_password_changed: pick(a.time_password_changed, b.time_password_changed, prefer_b),
        time_last_used: pick_latest_opt(a.time_last_used, b.time_last_used),
        times_used: pick(a.times_used, b.times_used, prefer_b),
    }
}

fn diff_string(a: &String, b: &String) -> (r: Option<String>)
    ensures
        opt_view(r) == changed(a@, b@),
{
    if a.eq(b) {
        None
    } else {
        Some(a.clone())
    }
}

fn diff_opt_string(a: &Option<String>, b: &Option<String>) -> (r: Option<Option<String>>)
    ensures
        opt_opt_view(r) == changed(opt_view(*a), opt_view(*b)),
{
    if opt_string_eq(a, b) {
        None
    } else {
        Some(clone_opt_string(a))
    }
}

fn diff_i64(a: i64, b: i64) -> (r: Option<i64>)
    ensures
        r == changed(a, b),
{
    if a == b {
        None
    } else {
        Some(a)
    }
}

fn diff_opt_i64(a: Option<i64>, b: Option<i64>) -> (r: Option<Option<i64>>)
    ensures
        r == changed(a, b),
{
    let same = match (a, b) {
        (Some(x), Some(y)) => x == y,
        (None, None) => true,
        _ => false,
    };
    if same {
        None
    } else {
        Some(a)
    }
}

fn pick_string(a: Option<String>, b: Option<String>, prefer_b: bool) -> (r: Option<String>)
    ensures
        opt_view(r) == pick(opt_view(a), opt_view(b), prefer_b),
{
    match (a, b) {
        (Some(x), Some(y)) => if prefer_b {
            Some(y)
        } else {
            Some(x)
        },
        (Some(x), None) => Some(x),
        (None, y) => y,
    }
}

fn pick_opt_string(a: Option<Option<String>>, b: Option<Option<String>>, prefer_b: bool) -> (r:
    Option<Option<String>>)
    ensures
        opt_opt_view(r) == pick(opt_opt_view(a), opt_opt_view(b), prefer_b),
{
    match (a, b) {
        (Some(x), Some(y)) => if prefer_b {
            Some(y)
        } else {
            Some(x)
        },
        (Some(x), None) => Some(x),
        (None, y) => y,
    }
}

fn pick_copy<T: Copy>(a: Option<T>, b: Option<T>, prefer_b: bool) -> (r: Option<T>)
    ensures
        r == pick(a, b, prefer_b),
{
    match (a, b) {
        (Some(x), Some(y)) => if prefer_b {
            Some(y)
        } else {
            Some(x)
        },
        (Some(x), None) => Some(x),
        (None, y) => y,
    }
}

fn latest(x: i64, y: i64) -> (r: i64)
    ensures
        r == max_i64(x, y),
{
    if x < y {
        y
    } else {
        x
    }
}

fn latest_opt(x: Option<i64>, y: Option<i64>) -> (r: Option<i64>)
    ensures
        r == max_opt_i64(x, y),
{
    match (x, y) {
        (Some(p), Some(q)) => Some(latest(p, q)),
        (Some(p), None) => Some(p),
        (None, q) => q,
    }
}

impl Default for LoginDelta {
    /// The delta that changes nothing.
    fn default() -> (r: LoginDelta)
        ensures
            r@ == empty_delta(),
    {
        LoginDelta {
            id: None,
            hostname: None,
            form_submit_url: None,
            http_realm: None,
            username: None,
            password: None,
            username_field: None,
            password_field: None,
            time_created: None,
            time_password_changed: None,
            time_last_used: None,
            times_used: None,
        }
    }
}

impl LoginDelta {
    /// Merges `self` (one side's changes) with `b` (the other side's); see
    /// [`merge`] for which value wins.
    pub fn merge(self, b: LoginDelta, prefer_b: bool) -> (r: LoginDelta)
        ensures
            r@ == merge(self@, b@, prefer_b),
    {
        let time_created = match (self.time_created, b.time_created) {
            (Some(x), Some(y)) => Some(latest(x, y)),
            (Some(x), None) => Some(x),
            (None, y) => y,
        };
        let time_last_used = match (self.time_last_used, b.time_last_used) {
            (Some(x), Some(y)) => Some(latest_opt(x, y)),
            (Some(x), None) => Some(x),
            (None, y) => y,
        };
        LoginDelta {
            id: pick_string(self.id, b.id, prefer_b),
            hostname: pick_opt_string(self.hostname, b.hostname, prefer_b),
            form_submit_url: pick_opt_string(self.form_submit_url, b.form_submit_url, prefer_b),
            http_realm: pick_opt_string(self.http_realm, b.http_realm, prefer_b),
            username: pick_string(self.username, b.username, prefer_b),
            password: pick_string(self.password, b.password, prefer_b),
            username_field: pick_string(self.username_field, b.username_field, prefer_b),
            password_field: pick_string(self.password_field, b.password_field, prefer_b),
            time_created,
            time_password_changed: pick_copy(
                self.time_password_changed,
                b.time_password_changed,
                prefer_b,
            ),
            time_last_used,
            times_used: pick_copy(self.times_used, b.times_used, prefer_b),
        }
    }
}

impl Login {
    /// The delta that turns `older` into `self`.
    pub fn delta(&self, older: &Login) -> (r: LoginDelta)
        ensures
            r@ == diff(self@, older@),
    {
        LoginDelta {
            id: diff_string(&self.id, &older.id),
            hostname: diff_opt_string(&self.hostname, &older.hostname),
            form_submit_url: diff_opt_string(&self.form_submit_url, &older.form_submit_url),
            http_realm: diff_opt_string(&self.http_realm, &older.http_realm),
            username: diff_string(&self.username, &older.username),
            password: diff_string(&self.password, &older.password),
            username_field: diff_string(&self.username_field, &older.username_field),
            password_field: diff_string(&self.password_field, &older.password_field),
            time_created: diff_i64(self.time_created, older.time_created),
            time_password_changed: diff_i64(
                self.time_password_changed,
                older.time_password_changed,
            ),
            time_last_used: diff_opt_i64(self.time_last_used, older.time_last_used),
            times_used: diff_opt_i64(self.times_used, older.times_used),
        }
    }

    /// Replaces each field that `d` sets.
    pub fn apply_delta(&mut self, d: LoginDelta)
        ensures
            final(self)@ == apply(old(self)@, d@),
    {
        if let Some(v) = d.id {
            self.id = v;
        }
        if let Some(v) = d.hostname {
            self.hostname = v;
        }
        if let Some(v) = d.form_submit_url {
            self.form_submit_url = v;
        }
        if let Some(v) = d.http_realm {
            self.http_realm = v;
        }
        if let Some(v) = d.username {
            self.username = v;
        }
        if let Some(v) = d.password {
            self.password = v;
        }
        if let Some(v) = d.username_field {
            self.username_field = v;
        }
        if let Some(v) = d.password_field {
            self.password_field = v;
        }
        if let Some(v) = d.time_created {
            self.time_created = v;
        }
        if let Some(v) = d.time_password_changed {
            self.time_password_changed = v;
        }
        if let Some(v) = d.time_last_used {
            self.time_last_used = v;
        }
        if let Some(v) = d.times_used {
            self.times_used = v;
        }
    }
}

/// Applying to `b` the delta from `b` to `a` gives back `a`.
pub proof fn lemma_apply_diff_round_trip(a: LoginView, b: LoginView)
    ensures
        apply(b, diff(a, b)) == a,
{
}

/// Merging with the empty delta on the right changes nothing, whatever the
/// flag; merging the empty delta with `d`, preferring `d`, gives `d`.
pub proof fn lemma_merge_empty_identity(d: LoginDeltaView, prefer_b: bool)
    ensures
        merge(d, empty_delta(), prefer_b) == d,
        merge(empty_delta(), d, true) == d,
{
}

} // verus!
