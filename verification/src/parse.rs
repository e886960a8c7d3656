use vstd::prelude::*;
use vstd::string::StrSliceExecFns;
use vstd::string::StringExecFns;
use crate::config::{CookieConf, CookieConfView, ServiceConf, ServiceConfView};

verus! {

/// The index of the first occurrence of `c` in `s` at or after `i` and
/// before `end`; `end` when there is none.
pub open spec fn find(s: Seq<char>, i: int, end: int, c: char) -> int
    decreases end - i,
{
    if i >= end {
        end
    } else if s[i] == c {
        i
    } else {
        find(s, i + 1, end, c)
    }
}

/// What `find` returns: an index between `i` and `end`; the character at
/// it when it hit; and nothing equal to `c` before it.
pub proof fn lemma_find_props(s: Seq<char>, i: int, end: int, c: char)
    requires
        0 <= i <= end <= s.len(),
    ensures
        i <= find(s, i, end, c) <= end,
        find(s, i, end, c) < end ==> s[find(s, i, end, c)] == c,
        forall|j: int| i <= j < find(s, i, end, c) ==> s[j] != c,
    decreases end - i,
{
    if i < end && s[i] != c {
        lemma_find_props(s, i + 1, end, c);
    }
}

/// Find the first occurrence of `c` in `s` within `[i, end)`, returning
/// `end` when there is none.
pub fn find_char(s: &str, i: usize, end: usize, c: char) -> (r: usize)
    requires
        i <= end,
        end <= s@.len(),
    ensures
        r == find(s@, i as int, end as int, c),
{
    let mut j: usize = i;
    while j < end
        invariant
            i <= j <= end,
            end <= s@.len(),
            find(s@, i as int, end as int, c) == find(s@, j as int, end as int, c),
        decreases end - j,
    {
        if s.get_char(j) == c {
            return j;
        }
        j += 1;
    }
    j
}

/// Whether two string slices hold the same characters.
pub fn str_eq(a: &str, b: &str) -> (r: bool)
    ensures
        r == (a@ == b@),
{
    let alen = a.unicode_len();
    let blen = b.unicode_len();
    if alen != blen {
        return false;
    }
    let mut i: usize = 0;
    while i < alen
        invariant
            alen == a@.len(),
            alen == b@.len(),
            i <= alen,
            forall|j: int| 0 <= j < i ==> a@[j] == b@[j],
        decreases alen - i,
    {
        if a.get_char(i) != b.get_char(i) {
            return false;
        }
        i += 1;
    }
    proof {
        assert(a@ =~= b@);
    }
    true
}

/// A definition line `key = "value"`: the key runs to the first space,
/// the separator is exactly ` = `, the value is enclosed in double
/// quotes that reach the end of the line, and holds no quote itself.
/// `None` for a line of any other shape.
pub open spec fn parse_pair(l: Seq<char>) -> Option<(Seq<char>, Seq<char>)> {
    let sp = find(l, 0, l.len() as int, ' ');
    if sp < 1 {
        None
    } else if l.len() - sp < 5 {
        None
    } else if l[sp + 1] != '=' || l[sp + 2] != ' ' || l[sp + 3] != '"' {
        None
    } else if l[l.len() - 1] != '"' {
        None
    } else if find(l, sp + 4, l.len() - 1, '"') != l.len() - 1 {
        None
    } else {
        Some((l.subrange(0, sp), l.subrange(sp + 4, l.len() - 1)))
    }
}

/// Split one definition line into its key and its unquoted value.
pub fn parse_pair_line(line: &str) -> (r: Option<(String, String)>)
    ensures
        (match parse_pair(line@) {
            Some(kv) => r matches Some(p) && p.0@ == kv.0 && p.1@ == kv.1,
            None => r is None,
        }),
{
    let llen = line.unicode_len();
    let sp = find_char(line, 0, llen, ' ');
    proof {
        lemma_find_props(line@, 0, llen as int, ' ');
    }
    if sp < 1 {
        return None;
    }
    if llen - sp < 5 {
        return None;
    }
    if line.get_char(sp + 1) != '=' || line.get_char(sp + 2) != ' ' || line.get_char(sp + 3)
        != '"' {
        return None;
    }
    if line.get_char(llen - 1) != '"' {
        return None;
    }
    let q = find_char(line, sp + 4, llen - 1, '"');
    if q != llen - 1 {
        return None;
    }
    let key = line.substring_char(0, sp);
    let value = line.substring_char(sp + 4, llen - 1);
    Some((String::from_str(key), String::from_str(value)))
}

/// What the fields of a service definition hold after some of its lines
/// were read: whether the `[cookie]` section was entered, and each key's
/// value, if one was seen yet.
pub struct PartialConf {
    pub in_cookie: bool,
    pub access_url: Option<Seq<char>>,
    pub find_selector: Option<Seq<char>>,
    pub cookie_name: Option<Seq<char>>,
    pub cookie_value: Option<Seq<char>>,
}

/// The state before any line was read.
pub open spec fn init_conf() -> PartialConf {
    PartialConf {
        in_cookie: false,
        access_url: None,
        find_selector: None,
        cookie_name: None,
        cookie_value: None,
    }
}

/// How one line changes the state: a blank line changes nothing, the
/// `[cookie]` header enters the cookie section, a known key records its
/// value (a later occurrence overwrites an earlier one), an unknown key
/// is skipped, and any other line makes the whole document malformed.
pub open spec fn apply_line(st: PartialConf, l: Seq<char>) -> Option<PartialConf> {
    if l.len() == 0 {
        Some(st)
    } else if l == "[cookie]"@ {
        Some(PartialConf { in_cookie: true, ..st })
    } else {
        match parse_pair(l) {
            None => None,
            Some(kv) => Some(
                if !st.in_cookie {
                    if kv.0 == "access_url"@ {
                        PartialConf { access_url: Some(kv.1), ..st }
                    } else if kv.0 == "find_selector"@ {
                        PartialConf { find_selector: Some(kv.1), ..st }
                    } else {
                        st
                    }
                } else {
                    if kv.0 == "name"@ {
                        PartialConf { cookie_name: Some(kv.1), ..st }
                    } else if kv.0 == "value"@ {
                        PartialConf { cookie_value: Some(kv.1), ..st }
                    } else {
                        st
                    }
                },
            ),
        }
    }
}

/// Read the document line by line from position `i` onward, folding
/// `apply_line` over the lines; `None` as soon as one line is malformed.
pub open spec fn parse_doc_from(s: Seq<char>, i: int, st: PartialConf) -> Option<PartialConf>
    decreases s.len() - i,
    via parse_doc_from_decreases
{
    if !(0 <= i <= s.len()) {
        None
    } else if i == s.len() {
        Some(st)
    } else {
        let e = find(s, i, s.len() as int, '\n');
        match apply_line(st, s.subrange(i, e)) {
            None => None,
            Some(st2) => if e >= s.len() {
                Some(st2)
            } else {
                parse_doc_from(s, e + 1, st2)
            },
        }
    }
}

#[via_fn]
proof fn parse_doc_from_decreases(s: Seq<char>, i: int, st: PartialConf) {
    if 0 <= i < s.len() {
        lemma_find_props(s, i, s.len() as int, '\n');
    }
}

/// The finished configuration: the two required keys default to the
/// empty string when absent (validation rejects them later), and a
/// `[cookie]` section yields a cookie exactly when it defined both
/// `name` and `value`.
pub open spec fn assemble(st: PartialConf, cookie: Option<CookieConfView>) -> ServiceConfView {
    ServiceConfView {
        access_url: match st.access_url {
            Some(u) => u,
            None => Seq::empty(),
        },
        find_selector: match st.find_selector {
            Some(f) => f,
            None => Seq::empty(),
        },
        cookie,
    }
}

/// The service definition a whole document denotes: `None` when some
/// line is malformed, or when a `[cookie]` section is present but does
/// not define both `name` and `value`; the parsed fields otherwise, with
/// a cookie exactly when the section was present.
pub open spec fn spec_parse_service(s: Seq<char>) -> Option<ServiceConfView> {
    match parse_doc_from(s, 0, init_conf()) {
        None => None,
        Some(st) => if st.in_cookie {
            match (st.cookie_name, st.cookie_value) {
                (Some(n), Some(v)) => Some(assemble(st, Some(CookieConfView { name: n, value: v }))),
                _ => None,
            }
        } else {
            Some(assemble(st, None))
        },
    }
}

/// The view of a partially read configuration held in executable form.
pub open spec fn partial_view(
    in_cookie: bool,
    access_url: Option<String>,
    find_selector: Option<String>,
    cookie_name: Option<String>,
    cookie_value: Option<String>,
) -> PartialConf {
    PartialConf {
        in_cookie,
        access_url: opt_view(access_url),
        find_selector: opt_view(find_selector),
        cookie_name: opt_view(cookie_name),
        cookie_value: opt_view(cookie_value),
    }
}

/// The characters of an optional string.
pub open spec fn opt_view(o: Option<String>) -> Option<Seq<char>> {
    match o {
        Some(s) => Some(s@),
        None => None,
    }
}

/// Parse one service definition document.
///
/// Returns exactly the definition the document denotes, or `None` for a
/// malformed document, as `spec_parse_service` states.
pub fn parse_service_conf(text: &str) -> (r: Option<ServiceConf>)
    ensures
        (match spec_parse_service(text@) {
            Some(v) => r matches Some(c) && c@ == v,
            None => r is None,
        }),
{
    let len = text.unicode_len();
    let mut i: usize = 0;
    let mut in_cookie = false;
    let mut access_url: Option<String> = None;
    let mut find_selector: Option<String> = None;
    let mut cookie_name: Option<String> = None;
    let mut cookie_value: Option<String> = None;
    while i < len
        invariant
            len == text@.len(),
            i <= len,
            parse_doc_from(text@, 0, init_conf()) == parse_doc_from(
                text@,
                i as int,
                partial_view(in_cookie, access_url, find_selector, cookie_name, cookie_value),
            ),
        decreases len - i,
    {
        let e = find_char(text, i, len, '\n');
        proof {
            lemma_find_props(text@, i as int, len as int, '\n');
        }
        let line = text.substring_char(i, e);
        let llen = line.unicode_len();
        if llen == 0 {
            // blank line: nothing changes
        } else if str_eq(line, "[cookie]") {
            in_cookie = true;
        } else {
            match parse_pair_line(line) {
                None => {
                    return None;
                },
                Some(kv) => {
                    let (k, v) = kv;
                    if !in_cookie {
                        if str_eq(k.as_str(), "access_url") {
                            access_url = Some(v);
                        } else if str_eq(k.as_str(), "find_selector") {
                            find_selector = Some(v);
                        }
                    } else {
                        if str_eq(k.as_str(), "name") {
                            cookie_name = Some(v);
                        } else if str_eq(k.as_str(), "value") {
                            cookie_value = Some(v);
                        }
                    }
                },
            }
        }
        if e == len {
            i = e;
        } else {
            i = e + 1;
        }
    }
    let cookie: Option<CookieConf> = if in_cookie {
        match (cookie_name, cookie_value) {
            (Some(n), Some(v)) => Some(CookieConf { name: n, value: v }),
            _ => {
                return None;
            },
        }
    } else {
        None
    };
    let conf = ServiceConf {
        access_url: match access_url {
            Some(u) => u,
            None => String::new(),
        },
        find_selector: match find_selector {
            Some(f) => f,
            None => String::new(),
        },
        cookie,
    };
    Some(conf)
}

} // verus!
