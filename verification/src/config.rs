//! The OCI configuration file: an INI text of named profiles, from which a
//! client takes its tenancy, region and session token where the
//! environment does not set them.

use vstd::prelude::*;
use crate::client::OciClient;
use crate::text::text_eq;

verus! {

/// Whitespace that surrounds names and values.
pub open spec fn is_blank(c: char) -> bool {
    c == ' ' || c == '\t' || c == '\r' || c == '\n'
}

/// A text without its leading whitespace.
pub open spec fn trim_start(s: Seq<char>) -> Seq<char>
    decreases s.len(),
{
    if s.len() > 0 && is_blank(s[0]) {
        trim_start(s.drop_first())
    } else {
        s
    }
}

/// A text without its trailing whitespace.
pub open spec fn trim_end(s: Seq<char>) -> Seq<char>
    decreases s.len(),
{
    if s.len() > 0 && is_blank(s.last()) {
        trim_end(s.drop_last())
    } else {
        s
    }
}

/// A text without its surrounding whitespace.
pub open spec fn trim(s: Seq<char>) -> Seq<char> {
    trim_end(trim_start(s))
}

/// Splitting a text into lines, so far: the finished lines and the line
/// being read. A newline ends a line.
pub open spec fn split_state(s: Seq<char>) -> (Seq<Seq<char>>, Seq<char>)
    decreases s.len(),
{
    if s.len() == 0 {
        (Seq::empty(), Seq::empty())
    } else {
        let (done, cur) = split_state(s.drop_last());
        if s.last() == '\n' {
            (done.push(cur), Seq::empty())
        } else {
            (done, cur.push(s.last()))
        }
    }
}

/// The lines of a text: each newline ends one, and text after the last
/// newline is a last line.
pub open spec fn lines_of(s: Seq<char>) -> Seq<Seq<char>> {
    let (done, cur) = split_state(s);
    if cur.len() == 0 {
        done
    } else {
        done.push(cur)
    }
}

proof fn lemma_trim_start_skip(s: Seq<char>, i: int)
    requires
        0 <= i <= s.len(),
        forall|j: int| 0 <= j < i ==> is_blank(s[j]),
    ensures
        trim_start(s) == trim_start(s.subrange(i, s.len() as int)),
    decreases i,
{
    if i > 0 {
        assert(s.drop_first() =~= s.subrange(1, s.len() as int));
        lemma_trim_start_skip(s.drop_first(), i - 1);
        assert(s.drop_first().subrange(i - 1, s.drop_first().len() as int) =~= s.subrange(
            i,
            s.len() as int,
        ));
    } else {
        assert(s.subrange(0, s.len() as int) =~= s);
    }
}

proof fn lemma_trim_end_cut(s: Seq<char>, k: int)
    requires
        0 <= k <= s.len(),
        forall|j: int| k <= j < s.len() ==> is_blank(s[j]),
    ensures
        trim_end(s) == trim_end(s.subrange(0, k)),
    decreases s.len() - k,
{
    if k < s.len() {
        lemma_trim_end_cut(s.drop_last(), k);
        assert(s.drop_last().subrange(0, k) =~= s.subrange(0, k));
    } else {
        assert(s.subrange(0, k) =~= s);
    }
}

/// The text `s` without its surrounding whitespace.
pub fn trim_text(s: &str) -> (r: &str)
    ensures
        r@ == trim(s@),
{
    let n = s.unicode_len();
    let mut a: usize = 0;
    while a < n && is_blank_char(s.get_char(a))
        invariant
            n == s@.len(),
            a <= n,
            forall|j: int| 0 <= j < a ==> is_blank(s@[j]),
        decreases n - a,
    {
        a = a + 1;
    }
    let ghost t = s@.subrange(a as int, n as int);
    proof {
        lemma_trim_start_skip(s@, a as int);
        if a < n {
            assert(t[0] == s@[a as int]);
        }
        assert(trim_start(t) == t);
    }
    let mut b: usize = n;
    while b > a && is_blank_char(s.get_char(b - 1))
        invariant
            n == s@.len(),
            a <= b <= n,
            t == s@.subrange(a as int, n as int),
            forall|j: int| b - a <= j < t.len() ==> is_blank(t[j]),
        decreases b,
    {
        b = b - 1;
    }
    proof {
        lemma_trim_end_cut(t, (b - a) as int);
        let u = t.subrange(0, (b - a) as int);
        assert(u =~= s@.subrange(a as int, b as int));
        if b > a {
            assert(u.last() == s@[b - 1]);
        }
        assert(trim_end(u) == u);
    }
    s.substring_char(a, b)
}

fn is_blank_char(c: char) -> (r: bool)
    ensures
        r == is_blank(c),
{
    c == ' ' || c == '\t' || c == '\r' || c == '\n'
}

/// The lines of `text`.
pub fn split_lines(text: &str) -> (r: Vec<String>)
    ensures
        r@.map_values(|l: String| l@) == lines_of(text@),
{
    let n = text.unicode_len();
    let mut done: Vec<String> = Vec::new();
    let mut start: usize = 0;
    let mut i: usize = 0;
    while i < n
        invariant
            n == text@.len(),
            start <= i <= n,
            split_state(text@.subrange(0, i as int)) == (
                done@.map_values(|l: String| l@),
                text@.subrange(start as int, i as int),
            ),
        decreases n - i,
    {
        let c = text.get_char(i);
        let ghost prefix = text@.subrange(0, i + 1);
        proof {
            assert(prefix.drop_last() =~= text@.subrange(0, i as int));
            assert(prefix.last() == c);
        }
        if c == '\n' {
            let ghost before = done@.map_values(|l: String| l@);
            done.push(String::from_str(text.substring_char(start, i)));
            assert(done@.map_values(|l: String| l@) =~= before.push(
                text@.subrange(start as int, i as int),
            ));
            assert(text@.subrange(i + 1, i + 1) =~= Seq::<char>::empty());
            start = i + 1;
        } else {
            assert(text@.subrange(start as int, i + 1) =~= text@.subrange(start as int, i as int).push(c));
        }
        i = i + 1;
    }
    assert(text@.subrange(0, n as int) =~= text@);
    if start < n {
        let ghost before = done@.map_values(|l: String| l@);
        done.push(String::from_str(text.substring_char(start, n)));
        assert(done@.map_values(|l: String| l@) =~= before.push(
            text@.subrange(start as int, n as int),
        ));
    }
    done
}

/// A line (already trimmed) that is a comment.
pub open spec fn is_comment(l: Seq<char>) -> bool {
    l.len() > 0 && (l[0] == '#' || l[0] == ';')
}

/// A line (already trimmed) that opens a profile: `[name]`.
pub open spec fn is_header(l: Seq<char>) -> bool {
    l.len() >= 2 && l[0] == '[' && l.last() == ']'
}

/// The profile name of a header line.
pub open spec fn header_name(l: Seq<char>) -> Seq<char> {
    trim(l.subrange(1, l.len() - 1))
}

/// A line cut at its first `=`: the text before and the text after it;
/// `None` where it has no `=`.
pub open spec fn split_at_eq(l: Seq<char>) -> Option<(Seq<char>, Seq<char>)>
    decreases l.len(),
{
    if l.len() == 0 {
        None
    } else if l[0] == '=' {
        Some((Seq::empty(), l.drop_first()))
    } else {
        match split_at_eq(l.drop_first()) {
            Some((k, v)) => Some((seq![l[0]] + k, v)),
            None => None,
        }
    }
}

/// The value of `key` in the profile `profile`, reading `lines` while in
/// the profile `section` (`None` before the first header): the first
/// `key = value` line of that profile, with key and value trimmed.
/// Comments (`#`, `;`) and lines without `=` are skipped.
pub open spec fn setting_in(
    lines: Seq<Seq<char>>,
    section: Option<Seq<char>>,
    profile: Seq<char>,
    key: Seq<char>,
) -> Option<Seq<char>>
    decreases lines.len(),
{
    if lines.len() == 0 {
        None
    } else {
        let l = trim(lines[0]);
        let rest = lines.drop_first();
        if is_comment(l) {
            setting_in(rest, section, profile, key)
        } else if is_header(l) {
            setting_in(rest, Some(header_name(l)), profile, key)
        } else {
            match split_at_eq(l) {
                Some((k, v)) => if section == Some(profile) && trim(k) == key {
                    Some(trim(v))
                } else {
                    setting_in(rest, section, profile, key)
                },
                None => setting_in(rest, section, profile, key),
            }
        }
    }
}

/// The value of `key` for the profile `profile` of a configuration text:
/// its own, or else that of the `DEFAULT` profile, which every profile
/// inherits.
pub open spec fn profile_setting(text: Seq<char>, profile: Seq<char>, key: Seq<char>) -> Option<Seq<char>> {
    match setting_in(lines_of(text), None, profile, key) {
        Some(v) => Some(v),
        None => setting_in(lines_of(text), None, "DEFAULT"@, key),
    }
}

proof fn lemma_split_at_first_eq(l: Seq<char>, j: int)
    requires
        0 <= j < l.len(),
        l[j] == '=',
        forall|m: int| 0 <= m < j ==> l[m] != '=',
    ensures
        split_at_eq(l) == Some((l.subrange(0, j), l.subrange(j + 1, l.len() as int))),
    decreases j,
{
    if j == 0 {
        assert(l.drop_first() =~= l.subrange(1, l.len() as int));
        assert(l.subrange(0, 0) =~= Seq::<char>::empty());
    } else {
        let t = l.drop_first();
        lemma_split_at_first_eq(t, j - 1);
        assert(seq![l[0]] + t.subrange(0, j - 1) =~= l.subrange(0, j));
        assert(t.subrange(j, t.len() as int) =~= l.subrange(j + 1, l.len() as int));
    }
}

proof fn lemma_split_no_eq(l: Seq<char>)
    requires
        forall|m: int| 0 <= m < l.len() ==> l[m] != '=',
    ensures
        split_at_eq(l) is None,
    decreases l.len(),
{
    if l.len() > 0 {
        lemma_split_no_eq(l.drop_first());
    }
}

fn find_eq(l: &str) -> (r: Option<usize>)
    ensures
        match r {
            Some(j) => j < l@.len() && split_at_eq(l@) == Some(
                (l@.subrange(0, j as int), l@.subrange(j + 1, l@.len() as int)),
            ),
            None => split_at_eq(l@) is None,
        },
{
    let n = l.unicode_len();
    let mut j: usize = 0;
    while j < n
        invariant
            n == l@.len(),
            j <= n,
            forall|m: int| 0 <= m < j ==> l@[m] != '=',
        decreases n - j,
    {
        if l.get_char(j) == '=' {
            proof {
                lemma_split_at_first_eq(l@, j as int);
            }
            return Some(j);
        }
        j = j + 1;
    }
    proof {
        lemma_split_no_eq(l@);
    }
    None
}

/// The value of `key` for the profile `profile` in `lines`, as
/// [`setting_in`] reads it from the start.
pub fn setting(lines: &Vec<String>, profile: &str, key: &str) -> (r: Option<String>)
    ensures
        match r {
            Some(v) => setting_in(lines@.map_values(|l: String| l@), None, profile@, key@) == Some(v@),
            None => setting_in(lines@.map_values(|l: String| l@), None, profile@, key@) is None,
        },
{
    let ghost all = lines@.map_values(|l: String| l@);
    let mut section: Option<String> = None;
    assert(all.skip(0) =~= all);
    let mut i: usize = 0;
    while i < lines.len()
        invariant
            i <= lines@.len(),
            all == lines@.map_values(|l: String| l@),
            setting_in(all, None, profile@, key@) == setting_in(
                all.skip(i as int),
                match section {
                    Some(s) => Some(s@),
                    None => None,
                },
                profile@,
                key@,
            ),
        decreases lines@.len() - i,
    {
        let ghost rest = all.skip(i as int);
        proof {
            assert(rest[0] == lines@[i as int]@);
            assert(rest.drop_first() =~= all.skip(i + 1));
        }
        let l = trim_text(lines[i].as_str());
        let n = l.unicode_len();
        if n > 0 && (l.get_char(0) == '#' || l.get_char(0) == ';') {
        } else if n >= 2 && l.get_char(0) == '[' && l.get_char(n - 1) == ']' {
            section = Some(String::from_str(trim_text(l.substring_char(1, n - 1))));
        } else {
            match find_eq(l) {
                Some(j) => {
                    let in_profile = match &section {
                        Some(s) => text_eq(s.as_str(), profile),
                        None => false,
                    };
                    if in_profile && text_eq(trim_text(l.substring_char(0, j)), key) {
                        return Some(String::from_str(trim_text(l.substring_char(j + 1, n))));
                    }
                },
                None => {},
            }
        }
        i = i + 1;
    }
    None
}

/// What a profile of the configuration file says.
#[derive(Debug, PartialEq, Eq)]
pub struct ProfileSettings {
    pub tenancy: Option<String>,
    pub region: Option<String>,
    pub security_token_file: Option<String>,
}

/// The settings of the profile `profile` in the configuration text
/// `text`: `tenancy`, `region` and `security_token_file`.
pub fn read_profile(text: &str, profile: &str) -> (r: ProfileSettings)
    ensures
        opt_view(r.tenancy) == profile_setting(text@, profile@, "tenancy"@),
        opt_view(r.region) == profile_setting(text@, profile@, "region"@),
        opt_view(r.security_token_file) == profile_setting(text@, profile@, "security_token_file"@),
{
    let lines = split_lines(text);
    ProfileSettings {
        tenancy: profile_or_default(&lines, profile, "tenancy"),
        region: profile_or_default(&lines, profile, "region"),
        security_token_file: profile_or_default(&lines, profile, "security_token_file"),
    }
}

fn profile_or_default(lines: &Vec<String>, profile: &str, key: &str) -> (r: Option<String>)
    ensures
        opt_view(r) == (match setting_in(lines@.map_values(|l: String| l@), None, profile@, key@) {
            Some(v) => Some(v),
            None => setting_in(lines@.map_values(|l: String| l@), None, "DEFAULT"@, key@),
        }),
{
    match setting(lines, profile, key) {
        Some(v) => Some(v),
        None => setting(lines, "DEFAULT", key),
    }
}

/// An optional text, by value.
pub open spec fn opt_view(o: Option<String>) -> Option<Seq<char>> {
    match o {
        Some(s) => Some(s@),
        None => None,
    }
}

/// The profile used where none is named.
pub open spec fn default_profile() -> Seq<char> {
    "DEFAULT"@
}

/// The profile to read: the one named, else `DEFAULT`.
pub fn profile_name(named: Option<String>) -> (r: String)
    ensures
        r@ == (match named {
            Some(p) => p@,
            None => default_profile(),
        }),
{
    match named {
        Some(p) => p,
        None => String::from_str("DEFAULT"),
    }
}

/// A path with a leading `~` (alone or before `/`) standing for the home
/// directory, where that is known.
pub open spec fn expand_home_spec(path: Seq<char>, home: Option<Seq<char>>) -> Seq<char> {
    if path.len() >= 1 && path[0] == '~' && (path.len() == 1 || path[1] == '/') && home is Some {
        home.unwrap() + path.drop_first()
    } else {
        path
    }
}

/// `path` with a leading `~` replaced by the home directory `home`.
pub fn expand_home(path: &str, home: Option<&str>) -> (r: String)
    ensures
        r@ == expand_home_spec(
            path@,
            match home {
                Some(h) => Some(h@),
                None => None,
            },
        ),
{
    let n = path.unicode_len();
    match home {
        Some(h) => {
            if n >= 1 && path.get_char(0) == '~' && (n == 1 || path.get_char(1) == '/') {
                let mut r = String::from_str(h);
                r.append(path.substring_char(1, n));
                assert(path@.subrange(1, n as int) =~= path@.drop_first());
                r
            } else {
                String::from_str(path)
            }
        },
        None => String::from_str(path),
    }
}

/// The configuration file to read: the one named (with `~` expanded),
/// else `.oci/config` in the home directory; `None` where neither is known.
pub open spec fn config_path_spec(named: Option<Seq<char>>, home: Option<Seq<char>>) -> Option<Seq<char>> {
    match named {
        Some(p) => Some(expand_home_spec(p, home)),
        None => match home {
            Some(h) => Some(h + "/.oci/config"@),
            None => None,
        },
    }
}

/// The configuration file to read, from the named file and the home
/// directory.
pub fn config_path(named: Option<String>, home: Option<String>) -> (r: Option<String>)
    ensures
        opt_view(r) == config_path_spec(opt_view(named), opt_view(home)),
{
    match named {
        Some(p) => Some(
            expand_home(
                p.as_str(),
                match &home {
                    Some(h) => Some(h.as_str()),
                    None => None,
                },
            ),
        ),
        None => match home {
            Some(h) => {
                let mut r = h;
                r.append("/.oci/config");
                Some(r)
            },
            None => None,
        },
    }
}

/// The first of two optional texts that is set.
pub open spec fn first_set(a: Option<Seq<char>>, b: Option<Seq<char>>) -> Option<Seq<char>> {
    match a {
        Some(x) => Some(x),
        None => b,
    }
}

fn first_of(a: Option<String>, b: &Option<String>) -> (r: Option<String>)
    ensures
        opt_view(r) == first_set(opt_view(a), opt_view(*b)),
{
    match a {
        Some(x) => Some(x),
        None => match b {
            Some(y) => Some(y.clone()),
            None => None,
        },
    }
}

impl OciClient {
    /// A client from the environment's values, each `None` where it is not
    /// set, the profile's settings, and the text of the profile's session
    /// token file where it was read: the environment comes first, then the
    /// profile (for the token, the session token without surrounding
    /// whitespace), then the defaults of [`OciClient::new`].
    pub fn from_sources(
        auth_token: Option<String>,
        region: Option<String>,
        tenancy_ocid: Option<String>,
        profile: &ProfileSettings,
        session_token: Option<String>,
    ) -> (r: OciClient)
        ensures
            r.auth_token@ == (match first_set(
                opt_view(auth_token),
                match session_token {
                    Some(t) => Some(trim(t@)),
                    None => None,
                },
            ) {
                Some(t) => t,
                None => Seq::<char>::empty(),
            }),
            r.region@ == (match first_set(opt_view(region), opt_view(profile.region)) {
                Some(g) => g,
                None => crate::client::default_region(),
            }),
            r.tenancy_ocid@ == (match first_set(opt_view(tenancy_ocid), opt_view(profile.tenancy)) {
                Some(t) => t,
                None => Seq::<char>::empty(),
            }),
            auth_token matches Some(t) ==> r.auth_token@ == t@,
            region matches Some(g) ==> r.region@ == g@,
            tenancy_ocid matches Some(t) ==> r.tenancy_ocid@ == t@,
            auth_token is None ==> r.auth_token@ == (match session_token {
                Some(t) => trim(t@),
                None => Seq::<char>::empty(),
            }),
            region is None ==> r.region@ == (match profile.region {
                Some(g) => g@,
                None => crate::client::default_region(),
            }),
            tenancy_ocid is None ==> r.tenancy_ocid@ == (match profile.tenancy {
                Some(t) => t@,
                None => Seq::<char>::empty(),
            }),
    {
        let token = match auth_token {
            Some(t) => Some(t),
            None => match session_token {
                Some(t) => Some(String::from_str(trim_text(t.as_str()))),
                None => None,
            },
        };
        OciClient::new(token, first_of(region, &profile.region), first_of(tenancy_ocid, &profile.tenancy))
    }
}

/// A setting that the environment gives is used whatever the profile says,
/// and the profile's applies only where the environment gives none.
pub proof fn law_environment_before_profile(env: Option<Seq<char>>, profile: Option<Seq<char>>)
    ensures
        env matches Some(x) ==> first_set(env, profile) == Some(x),
        env is None ==> first_set(env, profile) == profile,
{
}

} // verus!
