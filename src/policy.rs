//! The authorization policy: an ordered list of lines, each naming a user and
//! optionally the token that selects the pluggable-authentication backend.

use vstd::prelude::*;
use crate::identity::Identity;

verus! {

/// The authentication backend that a policy entry requires.
#[derive(Clone, Copy, Debug, PartialEq, Eq, Structural)]
pub enum Backend {
    Shadow,
    Pam,
}

/// White space as `char::is_whitespace` defines it (Unicode `White_Space`).
pub open spec fn is_space(c: char) -> bool {
    let v = c as u32;
    (9 <= v && v <= 13) || v == 32 || v == 0x85 || v == 0xa0 || v == 0x1680
        || (0x2000 <= v && v <= 0x200a) || v == 0x2028 || v == 0x2029 || v == 0x202f
        || v == 0x205f || v == 0x3000
}

/// The first index at or after `i` that does not hold white space.
pub open spec fn skip_spaces(s: Seq<char>, i: int) -> int
    decreases s.len() - i,
{
    if i < 0 || i >= s.len() || !is_space(s[i]) {
        i
    } else {
        skip_spaces(s, i + 1)
    }
}

/// The first index at or after `i` that holds white space.
pub open spec fn token_end(s: Seq<char>, i: int) -> int
    decreases s.len() - i,
{
    if i < 0 || i >= s.len() || is_space(s[i]) {
        i
    } else {
        token_end(s, i + 1)
    }
}

/// The marker token that selects the pluggable-authentication backend,
/// compared without regard to ASCII case.
pub open spec fn is_pam_marker(t: Seq<char>) -> bool {
    t.len() == 3 && (t[0] == 'p' || t[0] == 'P') && (t[1] == 'a' || t[1] == 'A') && (t[2] == 'm'
        || t[2] == 'M')
}

/// What one policy line states: `None` for a line without any token, else the
/// user named by its first token and the backend chosen by its second.
pub open spec fn entry_of_line(s: Seq<char>) -> Option<(Seq<char>, Backend)> {
    let a = skip_spaces(s, 0);
    let b = token_end(s, a);
    let c = skip_spaces(s, b);
    let d = token_end(s, c);
    if a >= s.len() {
        None
    } else if c < s.len() && is_pam_marker(s.subrange(c, d)) {
        Some((s.subrange(a, b), Backend::Pam))
    } else {
        Some((s.subrange(a, b), Backend::Shadow))
    }
}

/// The backend of the first line whose entry names `user`.
pub open spec fn lookup(lines: Seq<Seq<char>>, user: Seq<char>) -> Option<Backend>
    decreases lines.len(),
{
    if lines.len() == 0 {
        None
    } else {
        match entry_of_line(lines[0]) {
            Some((name, b)) if name == user => Some(b),
            _ => lookup(lines.drop_first(), user),
        }
    }
}

proof fn lemma_scan_bounds(s: Seq<char>, i: int)
    requires
        0 <= i <= s.len(),
    ensures
        i <= skip_spaces(s, i) <= s.len(),
        i <= token_end(s, i) <= s.len(),
    decreases s.len() - i,
{
    if i < s.len() {
        lemma_scan_bounds(s, i + 1);
    }
}

/// Index of the first character at or after `i` that is not white space.
fn scan_spaces(s: &str, n: usize, i: usize) -> (r: usize)
    requires
        n == s@.len(),
        i <= n,
    ensures
        r == skip_spaces(s@, i as int),
{
    let mut j = i;
    while j < n && is_space_char(s.get_char(j))
        invariant
            n == s@.len(),
            i <= j <= n,
            skip_spaces(s@, j as int) == skip_spaces(s@, i as int),
        decreases n - j,
    {
        j = j + 1;
    }
    j
}

/// Index of the first white space character at or after `i`.
fn scan_token(s: &str, n: usize, i: usize) -> (r: usize)
    requires
        n == s@.len(),
        i <= n,
    ensures
        r == token_end(s@, i as int),
{
    let mut j = i;
    while j < n && !is_space_char(s.get_char(j))
        invariant
            n == s@.len(),
            i <= j <= n,
            token_end(s@, j as int) == token_end(s@, i as int),
        decreases n - j,
    {
        j = j + 1;
    }
    j
}

/// Whether `c` is white space.
pub fn is_space_char(c: char) -> (r: bool)
    ensures
        r == is_space(c),
{
    let v = c as u32;
    (9 <= v && v <= 13) || v == 32 || v == 0x85 || v == 0xa0 || v == 0x1680 || (0x2000 <= v && v
        <= 0x200a) || v == 0x2028 || v == 0x2029 || v == 0x202f || v == 0x205f || v == 0x3000
}

/// Whether two strings hold the same characters.
pub fn same_chars(a: &str, b: &str) -> (r: bool)
    ensures
        r == (a@ == b@),
{
    let n = a.unicode_len();
    if n != b.unicode_len() {
        return false;
    }
    let mut i: usize = 0;
    while i < n
        invariant
            n == a@.len(),
            n == b@.len(),
            i <= n,
            forall|k: int| 0 <= k < i ==> a@[k] == b@[k],
        decreases n - i,
    {
        if a.get_char(i) != b.get_char(i) {
            return false;
        }
        i = i + 1;
    }
    assert(a@ =~= b@);
    true
}

/// Whether the characters `s[from..to]` form the backend marker token.
fn marks_pam(s: &str, from: usize, to: usize) -> (r: bool)
    requires
        from <= to <= s@.len(),
    ensures
        r == is_pam_marker(s@.subrange(from as int, to as int)),
{
    if to - from != 3 {
        return false;
    }
    let c0 = s.get_char(from);
    let c1 = s.get_char(from + 1);
    let c2 = s.get_char(from + 2);
    (c0 == 'p' || c0 == 'P') && (c1 == 'a' || c1 == 'A') && (c2 == 'm' || c2 == 'M')
}

/// One entry of the policy: a user and the backend required of them.
#[derive(Debug)]
pub struct PolicyEntry {
    pub username: String,
    pub backend: Backend,
}

impl View for PolicyEntry {
    type V = (Seq<char>, Backend);

    open spec fn view(&self) -> (Seq<char>, Backend) {
        (self.username@, self.backend)
    }
}

/// Reads one policy line. A line without any token is skipped (`None`); a
/// second token equal to the marker, in any ASCII case, selects the
/// pluggable-authentication backend, anything else the shadow backend.
pub fn parse_entry(line: &str) -> (r: Option<PolicyEntry>)
    ensures
        match r {
            Some(e) => entry_of_line(line@) == Some(e@),
            None => entry_of_line(line@) is None,
        },
{
    let n = line.unicode_len();
    let a = scan_spaces(line, n, 0);
    if a >= n {
        return None;
    }
    proof {
        lemma_scan_bounds(line@, a as int);
    }
    let b = scan_token(line, n, a);
    proof {
        lemma_scan_bounds(line@, b as int);
    }
    let c = scan_spaces(line, n, b);
    proof {
        lemma_scan_bounds(line@, c as int);
    }
    let d = scan_token(line, n, c);
    let username = line.substring_char(a, b).to_owned();
    let backend = if c < n && marks_pam(line, c, d) {
        Backend::Pam
    } else {
        Backend::Shadow
    };
    Some(PolicyEntry { username, backend })
}

/// The policy source could not be read.
#[derive(Clone, Copy, Debug, PartialEq, Eq, Structural)]
pub enum PolicyError {
    SourceUnavailable,
}

/// The policy's answer for one identity.
#[derive(Clone, Copy, Debug, PartialEq, Eq, Structural)]
pub enum Authorization {
    /// The identity may proceed once it passes the given backend.
    Allow(Backend),
    Deny,
}

/// The superuser's account name.
pub open spec fn superuser_name() -> Seq<char> {
    seq!['r', 'o', 'o', 't']
}

/// The policy's answer for `user`, given the policy lines, or `None` where
/// the source could not be read. An unreadable source denies everyone; a
/// matching entry decides; without one only the superuser is let through,
/// to the shadow backend.
pub open spec fn authorization_of(policy: Option<Seq<Seq<char>>>, user: Seq<char>) -> Authorization {
    match policy {
        None => Authorization::Deny,
        Some(lines) => match lookup(lines, user) {
            Some(b) => Authorization::Allow(b),
            None => if user == superuser_name() {
                Authorization::Allow(Backend::Shadow)
            } else {
                Authorization::Deny
            },
        },
    }
}

/// The policy lines as the policy sees them, or `None` where they could not
/// be read.
pub open spec fn policy_view(policy: &Result<Vec<String>, PolicyError>) -> Option<Seq<Seq<char>>> {
    match policy {
        Ok(lines) => Some(lines.deep_view()),
        Err(_) => None,
    }
}

/// The backend of the first line whose entry names `user`.
fn lookup_lines(lines: &Vec<String>, user: &str) -> (r: Option<Backend>)
    ensures
        r == lookup(lines.deep_view(), user@),
{
    let ghost all = lines.deep_view();
    let mut i: usize = 0;
    assert(all.subrange(0, all.len() as int) =~= all);
    while i < lines.len()
        invariant
            all == lines.deep_view(),
            i <= lines.len(),
            lookup(all, user@) == lookup(all.subrange(i as int, all.len() as int), user@),
        decreases lines.len() - i,
    {
        let ghost rest = all.subrange(i as int, all.len() as int);
        assert(rest.drop_first() =~= all.subrange(i + 1, all.len() as int));
        assert(rest[0] == lines[i as int]@);
        match parse_entry(lines[i].as_str()) {
            Some(entry) => {
                if same_chars(entry.username.as_str(), user) {
                    return Some(entry.backend);
                }
            },
            None => {},
        }
        i = i + 1;
    }
    assert(all.subrange(i as int, all.len() as int).len() == 0);
    None
}

/// The entry found for `user`, given the policy lines, or `None` where the
/// source could not be read.
pub open spec fn entry_for(policy: Option<Seq<Seq<char>>>, user: Seq<char>) -> Option<Backend> {
    match policy {
        Some(lines) => lookup(lines, user),
        None => None,
    }
}

/// The backend that the policy requires of `user`: that of the first line
/// whose entry names them, or `None` where no line does or where the policy
/// source could not be read.
pub fn check_user_entry(policy: &Result<Vec<String>, PolicyError>, user: &str) -> (r: Option<
    Backend,
>)
    ensures
        r == entry_for(policy_view(policy), user@),
{
    match policy {
        Ok(lines) => lookup_lines(lines, user),
        Err(_) => None,
    }
}

/// Whether `name` is the superuser's account.
pub fn is_superuser(name: &str) -> (r: bool)
    ensures
        r == (name@ == superuser_name()),
{
    let root = "root";
    proof {
        reveal_strlit("root");
    }
    assert(root@ =~= superuser_name());
    same_chars(name, root)
}

/// Decides which backend, if any, the identity must pass. The policy lines
/// are read once by the caller and not changed during the decision.
pub fn authorize(policy: &Result<Vec<String>, PolicyError>, identity: &Identity) -> (r:
    Authorization)
    ensures
        r == authorization_of(policy_view(policy), identity.username@),
{
    match policy {
        Err(_) => Authorization::Deny,
        Ok(lines) => match lookup_lines(lines, identity.username.as_str()) {
            Some(b) => Authorization::Allow(b),
            None => if is_superuser(identity.username.as_str()) {
                Authorization::Allow(Backend::Shadow)
            } else {
                Authorization::Deny
            },
        },
    }
}

/// Whether the entry of `line` names `user`.
pub open spec fn names(line: Seq<char>, user: Seq<char>) -> bool {
    entry_of_line(line) matches Some((name, _)) && name == user
}

proof fn lemma_lookup_absent(lines: Seq<Seq<char>>, user: Seq<char>)
    requires
        forall|i: int| 0 <= i < lines.len() ==> !names(#[trigger] lines[i], user),
    ensures
        lookup(lines, user) is None,
    decreases lines.len(),
{
    if lines.len() > 0 {
        assert(!names(lines[0], user));
        assert forall|i: int| 0 <= i < lines.drop_first().len() implies !names(
            #[trigger] lines.drop_first()[i],
            user,
        ) by {
            assert(lines.drop_first()[i] == lines[i + 1]);
        }
        lemma_lookup_absent(lines.drop_first(), user);
    }
}

/// Fail-closed default: a user that no policy line names, and that is not
/// the superuser, is denied, whether or not the policy could be read.
pub proof fn lemma_unlisted_user_denied(policy: Option<Seq<Seq<char>>>, user: Seq<char>)
    requires
        user != superuser_name(),
        policy matches Some(lines) ==> forall|i: int|
            0 <= i < lines.len() ==> !names(#[trigger] lines[i], user),
    ensures
        authorization_of(policy, user) == Authorization::Deny,
{
    if let Some(lines) = policy {
        lemma_lookup_absent(lines, user);
    }
}

/// Fail-closed on an unreadable policy: where the policy source cannot be
/// read, no entry is found for any user and every user is denied; nothing
/// falls through to an allow.
pub proof fn lemma_unreadable_policy_denied(user: Seq<char>)
    ensures
        authorization_of(None, user) == Authorization::Deny,
        entry_for(None, user) is None,
{
}

/// A token: a non-empty run of characters without white space.
pub open spec fn is_token(t: Seq<char>) -> bool {
    t.len() > 0 && forall|i: int| 0 <= i < t.len() ==> !is_space(#[trigger] t[i])
}

proof fn lemma_token_end_at(s: Seq<char>, i: int, j: int)
    requires
        0 <= i <= j <= s.len(),
        forall|k: int| i <= k < j ==> !is_space(#[trigger] s[k]),
        j == s.len() || is_space(s[j]),
    ensures
        token_end(s, i) == j,
    decreases j - i,
{
    if i < j {
        lemma_token_end_at(s, i + 1, j);
    }
}

/// Backend selection: a line made of a user token alone selects the shadow
/// backend; a user token, a space and a second token select the
/// pluggable-authentication backend exactly when the second token is the
/// marker, in any ASCII case.
pub proof fn lemma_backend_selection(user: Seq<char>, t: Seq<char>)
    requires
        is_token(user),
        is_token(t),
    ensures
        entry_of_line(user) == Some((user, Backend::Shadow)),
        entry_of_line(user + seq![' '] + t) == Some(
            (user, if is_pam_marker(t) { Backend::Pam } else { Backend::Shadow }),
        ),
{
    let u = user.len() as int;
    assert(!is_space(user[0]));
    lemma_token_end_at(user, 0, u);
    assert(user.subrange(0, u) =~= user);
    let s = user + seq![' '] + t;
    assert(s[0] == user[0]);
    assert(forall|k: int| 0 <= k < u ==> #[trigger] s[k] == user[k]);
    assert(s[u] == ' ');
    lemma_token_end_at(s, 0, u);
    assert(s[u + 1] == t[0]);
    assert(skip_spaces(s, u + 1) == u + 1);
    assert(forall|k: int| u + 1 <= k < s.len() ==> #[trigger] s[k] == t[k - u - 1]);
    lemma_token_end_at(s, u + 1, s.len() as int);
    assert(s.subrange(0, u) =~= user);
    assert(s.subrange(u + 1, s.len() as int) =~= t);
}

} // verus!
