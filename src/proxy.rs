use vstd::prelude::*;

use crate::text::{has_prefix, has_suffix, str_starts_with};

verus! {

/// Requests whose path begins with `prefix` are forwarded to `origin`.
#[derive(Clone, Debug)]
pub struct ProxyRule {
    pub prefix: String,
    pub origin: String,
}

pub struct ProxyRuleView {
    pub prefix: Seq<char>,
    pub origin: Seq<char>,
}

impl View for ProxyRule {
    type V = ProxyRuleView;

    open spec fn view(&self) -> ProxyRuleView {
        ProxyRuleView { prefix: self.prefix@, origin: self.origin@ }
    }
}

impl ProxyRule {
    /// A rule's prefix is never empty.
    pub open spec fn wf(&self) -> bool {
        self.prefix@.len() > 0
    }
}

/// A `--proxy` entry that is not of the form `prefix|origin`.
#[derive(Clone, Debug)]
pub struct ProxyConfigError {
    pub entry: String,
}

/// Where a forwarded request goes.
#[derive(Clone, Debug)]
pub struct ProxyTarget {
    /// The full URI of the forwarded request.
    pub uri: String,
    /// The `host:port` to connect to.
    pub authority: String,
}

pub open spec fn rules_view(rules: Seq<ProxyRule>) -> Seq<ProxyRuleView> {
    rules.map_values(|r: ProxyRule| r@)
}

/// How often `c` occurs in `s`.
pub open spec fn occurrences(s: Seq<char>, c: char) -> nat
    decreases s.len(),
{
    if s.len() == 0 {
        0
    } else {
        occurrences(s.drop_last(), c) + if s.last() == c {
            1nat
        } else {
            0nat
        }
    }
}

/// The rule that an entry `prefix|origin` describes: exactly one `|`, and a
/// prefix that is not empty.
pub open spec fn rule_of(entry: Seq<char>) -> Option<ProxyRuleView> {
    if occurrences(entry, '|') == 1 {
        let i = choose|i: int| 0 <= i < entry.len() && entry[i] == '|';
        if i > 0 {
            Some(ProxyRuleView { prefix: entry.subrange(0, i), origin: entry.subrange(i + 1, entry.len() as int) })
        } else {
            None
        }
    } else {
        None
    }
}

proof fn lemma_occurrences_prefix(s: Seq<char>, c: char, k: int)
    requires
        0 <= k < s.len(),
    ensures
        occurrences(s.subrange(0, k + 1), c) == occurrences(s.subrange(0, k), c) + if s[k] == c {
            1nat
        } else {
            0nat
        },
{
    assert(s.subrange(0, k + 1).drop_last() =~= s.subrange(0, k));
}

/// Reads one `--proxy` entry of the form `prefix|origin`.
pub fn parse_proxy_rule(entry: &str) -> (r: Result<ProxyRule, ProxyConfigError>)
    ensures
        match r {
            Ok(rule) => rule_of(entry@) == Some(rule@) && rule.wf(),
            Err(e) => rule_of(entry@).is_none() && e.entry@ == entry@,
        },
{
    let n = entry.unicode_len();
    let mut count: usize = 0;
    let mut pos: usize = 0;
    let mut i: usize = 0;
    while i < n
        invariant
            n == entry@.len(),
            i <= n,
            count == occurrences(entry@.subrange(0, i as int), '|'),
            count <= i,
            count >= 1 ==> pos < i && entry@[pos as int] == '|',
            count == 1 ==> forall|j: int| 0 <= j < i && j != pos ==> entry@[j] != '|',
            count == 0 ==> forall|j: int| 0 <= j < i ==> entry@[j] != '|',
        decreases n - i,
    {
        proof {
            lemma_occurrences_prefix(entry@, '|', i as int);
        }
        if entry.get_char(i) == '|' {
            if count == 0 {
                pos = i;
            }
            count = count + 1;
        }
        i = i + 1;
    }
    assert(entry@.subrange(0, n as int) =~= entry@);
    if count != 1 || pos == 0 {
        proof {
            if count == 1 {
                let k = choose|k: int| 0 <= k < entry@.len() && entry@[k] == '|';
                assert(k == pos);
            }
        }
        return Err(ProxyConfigError { entry: String::from_str(entry) });
    }
    let prefix = String::from_str(entry.substring_char(0, pos));
    let origin = String::from_str(entry.substring_char(pos + 1, n));
    let rule = ProxyRule { prefix, origin };
    proof {
        let k = choose|k: int| 0 <= k < entry@.len() && entry@[k] == '|';
        assert(k == pos);
    }
    Ok(rule)
}

/// The rules that a list of entries describes, or the first entry that
/// describes none.
pub open spec fn rules_of(entries: Seq<Seq<char>>) -> Result<Seq<ProxyRuleView>, Seq<char>>
    decreases entries.len(),
{
    if entries.len() == 0 {
        Ok(Seq::empty())
    } else {
        match rules_of(entries.drop_last()) {
            Err(e) => Err(e),
            Ok(rs) => match rule_of(entries.last()) {
                Some(r) => Ok(rs.push(r)),
                None => Err(entries.last()),
            },
        }
    }
}

pub open spec fn strings_view(v: Seq<String>) -> Seq<Seq<char>> {
    v.map_values(|s: String| s@)
}

/// Reads the `--proxy` entries, in order; fails on the first malformed one.
pub fn parse_proxy_list(entries: &Vec<String>) -> (r: Result<Vec<ProxyRule>, ProxyConfigError>)
    ensures
        match r {
            Ok(rules) => rules_of(strings_view(entries@)) == Ok::<Seq<ProxyRuleView>, Seq<char>>(
                rules_view(rules@),
            ) && forall|i: int| 0 <= i < rules@.len() ==> #[trigger] rules@[i].wf(),
            Err(e) => rules_of(strings_view(entries@)) == Err::<Seq<ProxyRuleView>, Seq<char>>(
                e.entry@,
            ),
        },
{
    let ghost sv = strings_view(entries@);
    let mut rules: Vec<ProxyRule> = Vec::new();
    let mut i: usize = 0;
    assert(sv.subrange(0, 0) =~= Seq::<Seq<char>>::empty());
    assert(rules_view(rules@) =~= Seq::<ProxyRuleView>::empty());
    while i < entries.len()
        invariant
            sv == strings_view(entries@),
            i <= entries@.len(),
            rules_of(sv.subrange(0, i as int)) == Ok::<Seq<ProxyRuleView>, Seq<char>>(
                rules_view(rules@),
            ),
            forall|k: int| 0 <= k < rules@.len() ==> #[trigger] rules@[k].wf(),
        decreases entries@.len() - i,
    {
        let ghost before = rules@;
        assert(sv.subrange(0, i + 1).drop_last() =~= sv.subrange(0, i as int));
        assert(sv.subrange(0, i + 1).last() == entries@[i as int]@);
        match parse_proxy_rule(entries[i].as_str()) {
            Ok(rule) => {
                rules.push(rule);
                assert(rules_view(rules@) =~= rules_view(before).push(rule@));
            },
            Err(e) => {
                proof {
                    lemma_rules_of_error_stays(sv, i as int + 1);
                }
                return Err(e);
            },
        }
        i = i + 1;
    }
    assert(sv.subrange(0, i as int) =~= sv);
    Ok(rules)
}

proof fn lemma_rules_of_error_stays(entries: Seq<Seq<char>>, k: int)
    requires
        0 <= k <= entries.len(),
        rules_of(entries.subrange(0, k)) is Err,
    ensures
        rules_of(entries) == rules_of(entries.subrange(0, k)),
    decreases entries.len() - k,
{
    if k < entries.len() {
        assert(entries.subrange(0, k + 1).drop_last() =~= entries.subrange(0, k));
        lemma_rules_of_error_stays(entries, k + 1);
    } else {
        assert(entries.subrange(0, k) =~= entries);
    }
}

/// The index of the first rule whose prefix begins `path`.
pub open spec fn first_match(rules: Seq<ProxyRuleView>, path: Seq<char>) -> Option<int>
    decreases rules.len(),
{
    if rules.len() == 0 {
        None
    } else {
        match first_match(rules.drop_last(), path) {
            Some(i) => Some(i),
            None => if has_prefix(path, rules.last().prefix) {
                Some(rules.len() - 1)
            } else {
                None
            },
        }
    }
}

/// `origin` without one trailing `/`.
pub open spec fn origin_base(origin: Seq<char>) -> Seq<char> {
    if has_suffix(origin, "/"@) {
        origin.drop_last()
    } else {
        origin
    }
}

/// The address to connect to for `origin`: the origin without its
/// `http://` or `https://` scheme.
pub open spec fn origin_authority(origin: Seq<char>) -> Seq<char> {
    if has_prefix(origin, "http://"@) {
        origin.subrange(7, origin.len() as int)
    } else if has_prefix(origin, "https://"@) {
        origin.subrange(8, origin.len() as int)
    } else {
        origin
    }
}

pub struct ProxyTargetView {
    pub uri: Seq<char>,
    pub authority: Seq<char>,
}

impl View for ProxyTarget {
    type V = ProxyTargetView;

    open spec fn view(&self) -> ProxyTargetView {
        ProxyTargetView { uri: self.uri@, authority: self.authority@ }
    }
}

/// Where a request for `path` goes under `rule`: the full path, prefix
/// included, appended to the origin.
pub open spec fn target_of(rule: ProxyRuleView, path: Seq<char>) -> ProxyTargetView {
    ProxyTargetView { uri: origin_base(rule.origin) + path, authority: origin_authority(rule.origin) }
}

/// Where a request for `path` is forwarded, if any rule matches it.
pub open spec fn proxy_target_of(rules: Seq<ProxyRuleView>, path: Seq<char>) -> Option<ProxyTargetView> {
    match first_match(rules, path) {
        Some(i) => Some(target_of(rules[i], path)),
        None => None,
    }
}

/// The index of the first rule, in configured order, whose prefix begins `path`.
pub fn find_proxy_rule(path: &str, rules: &Vec<ProxyRule>) -> (r: Option<usize>)
    ensures
        match r {
            Some(i) => i < rules@.len() && first_match(rules_view(rules@), path@) == Some(i as int),
            None => first_match(rules_view(rules@), path@) is None,
        },
{
    let ghost rv = rules_view(rules@);
    let mut i: usize = 0;
    while i < rules.len()
        invariant
            rv == rules_view(rules@),
            i <= rules@.len(),
            first_match(rv.subrange(0, i as int), path@) is None,
        decreases rules@.len() - i,
    {
        assert(rv.subrange(0, i + 1).drop_last() =~= rv.subrange(0, i as int));
        assert(rv.subrange(0, i + 1).last() == rules@[i as int]@);
        if str_starts_with(path, rules[i].prefix.as_str()) {
            proof {
                lemma_first_match_stays(rv, path@, i as int + 1);
            }
            return Some(i);
        }
        i = i + 1;
    }
    assert(rv.subrange(0, i as int) =~= rv);
    None
}

proof fn lemma_first_match_stays(rules: Seq<ProxyRuleView>, path: Seq<char>, k: int)
    requires
        0 <= k <= rules.len(),
        first_match(rules.subrange(0, k), path) is Some,
    ensures
        first_match(rules, path) == first_match(rules.subrange(0, k), path),
    decreases rules.len() - k,
{
    if k < rules.len() {
        assert(rules.subrange(0, k + 1).drop_last() =~= rules.subrange(0, k));
        lemma_first_match_stays(rules, path, k + 1);
    } else {
        assert(rules.subrange(0, k) =~= rules);
    }
}

/// Where a request for `path` goes under `rule`.
pub fn proxy_target(rule: &ProxyRule, path: &str) -> (r: ProxyTarget)
    ensures
        r@ == target_of(rule@, path@),
{
    let origin = rule.origin.as_str();
    let n = origin.unicode_len();
    proof {
        reveal_strlit("/");
        reveal_strlit("http://");
        reveal_strlit("https://");
    }
    let base = if n > 0 && origin.get_char(n - 1) == '/' {
        let b = origin.substring_char(0, n - 1);
        assert(b@ =~= origin@.drop_last());
        assert(origin@.subrange(n - 1, n as int) =~= "/"@);
        b
    } else {
        proof {
            if has_suffix(origin@, "/"@) {
                assert(origin@.subrange(n - 1, n as int)[0] == origin@[n - 1]);
                assert("/"@[0] == '/');
            }
        }
        origin
    };
    let mut uri = String::from_str(base);
    uri.append(path);
    let authority = if str_starts_with(origin, "http://") {
        origin.substring_char(7, n)
    } else if str_starts_with(origin, "https://") {
        origin.substring_char(8, n)
    } else {
        origin
    };
    ProxyTarget { uri, authority: String::from_str(authority) }
}

/// Decides whether a request for `path` is forwarded, and where: the first
/// rule whose prefix begins the path wins.
pub fn proxy_response(path: &str, rules: &Vec<ProxyRule>) -> (r: Option<ProxyTarget>)
    ensures
        match r {
            Some(t) => proxy_target_of(rules_view(rules@), path@) == Some(t@),
            None => proxy_target_of(rules_view(rules@), path@).is_none(),
        },
{
    match find_proxy_rule(path, rules) {
        Some(i) => {
            assert(rules_view(rules@)[i as int] == rules@[i as int]@);
            Some(proxy_target(&rules[i], path))
        },
        None => None,
    }
}

} // verus!
