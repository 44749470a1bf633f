use vstd::prelude::*;
use regex::Regex;

use crate::Config;

verus! {

#[verifier::external_type_specification]
#[verifier::external_body]
pub struct ExRegex(regex::Regex);

#[verifier::external_type_specification]
#[verifier::external_body]
pub struct ExRegexError(regex::Error);

/// The pattern text a compiled regex was built from.
pub uninterp spec fn regex_pattern(re: Regex) -> Seq<char>;

/// Whether the regex engine builds a regex from `pattern`.
pub uninterp spec fn regex_accepts(pattern: Seq<char>) -> bool;

/// The leftmost-first match of `pattern` in `haystack`: the whole matched text, and the text
/// of the first capturing group where that group took part in the match.
pub uninterp spec fn first_captures(pattern: Seq<char>, haystack: Seq<char>) -> Option<
    (Seq<char>, Option<Seq<char>>),
>;

/// The characters that have a meaning of their own in a regex.
pub open spec fn is_meta_character(c: char) -> bool {
    c == '\\' || c == '.' || c == '+' || c == '*' || c == '?' || c == '(' || c == ')' || c
        == '|' || c == '[' || c == ']' || c == '{' || c == '}' || c == '^' || c == '$' || c
        == '#' || c == '&' || c == '-' || c == '~'
}

/// `s` with a backslash before each meta character, so that a regex reads it literally.
pub open spec fn escaped(s: Seq<char>) -> Seq<char>
    decreases s.len(),
{
    if s.len() == 0 {
        Seq::empty()
    } else {
        let c = s.last();
        escaped(s.drop_last()) + if is_meta_character(c) {
            seq!['\\', c]
        } else {
            seq![c]
        }
    }
}

/// The escaped names, each after the one before, with `|` between two of them.
pub open spec fn alternation(names: Seq<Seq<char>>) -> Seq<char>
    decreases names.len(),
{
    if names.len() == 0 {
        Seq::empty()
    } else if names.len() == 1 {
        escaped(names[0])
    } else {
        alternation(names.drop_last()) + seq!['|'] + escaped(names.last())
    }
}

/// The prefix a configuration asks for: `@` where it names none.
pub open spec fn config_prefix(config: Config) -> Seq<char> {
    match config.prefix {
        Some(p) => p@,
        None => seq!['@'],
    }
}

/// The sub-names a configuration allows after the prefix, in order.
pub open spec fn config_pathnames(config: Config) -> Seq<Seq<char>> {
    match config.allowed_pathnames {
        Some(v) => v@.map_values(|n: String| n@),
        None => Seq::empty(),
    }
}

/// The alias pattern of a configuration: the prefix, then optionally one of the allowed
/// sub-names as group 1, then `/`; every name read literally. Where no name is allowed the
/// pattern has no group.
pub open spec fn alias_pattern(config: Config) -> Seq<char> {
    let names = config_pathnames(config);
    if names.len() == 0 {
        escaped(config_prefix(config)) + seq!['/']
    } else {
        escaped(config_prefix(config)) + seq!['('] + alternation(names) + seq![')', '?', '/']
    }
}

/// What a successful search of the alias pattern found in a literal.
pub struct AliasMatch {
    /// The whole matched text, e.g. `@common/`.
    pub matched: String,
    /// The text of the sub-name group, where the group took part.
    pub subname: Option<String>,
}

impl AliasMatch {
    /// The matched text and the sub-name's text.
    pub open spec fn view(&self) -> (Seq<char>, Option<Seq<char>>) {
        (
            self.matched@,
            match self.subname {
                Some(n) => Some(n@),
                None => None,
            },
        )
    }
}

/// What a search found, as text.
pub open spec fn found_view(found: Option<AliasMatch>) -> Option<(Seq<char>, Option<Seq<char>>)> {
    match found {
        Some(m) => Some(m.view()),
        None => None,
    }
}

/// Whether `c` has a meaning of its own in a regex.
fn is_meta(c: char) -> (r: bool)
    ensures
        r == is_meta_character(c),
{
    match c {
        '\\' | '.' | '+' | '*' | '?' | '(' | ')' | '|' | '[' | ']' | '{' | '}' | '^' | '$'
        | '#' | '&' | '-' | '~' => true,
        _ => false,
    }
}

/// `s` with a backslash before each meta character, so that a regex reads it literally.
pub fn escape_literal(s: &str) -> (r: String)
    ensures
        r@ == escaped(s@),
{
    let n = s.unicode_len();
    let backslash = "\\";
    proof {
        reveal_strlit("\\");
    }
    let mut out = String::new();
    let mut i: usize = 0;
    while i < n
        invariant
            n == s@.len(),
            i <= n,
            backslash@ == seq!['\\'],
            out@ == escaped(s@.subrange(0, i as int)),
        decreases n - i,
    {
        let c = s.get_char(i);
        if is_meta(c) {
            out.append(backslash);
        }
        let one = s.substring_char(i, i + 1);
        assert(one@ =~= seq![c]);
        out.append(one);
        proof {
            let t = s@.subrange(0, i + 1);
            assert(t.drop_last() =~= s@.subrange(0, i as int));
            assert(t.last() == c);
            assert(out@ =~= escaped(t));
        }
        i = i + 1;
    }
    assert(s@.subrange(0, n as int) =~= s@);
    out
}

/// Relies on regex::Regex::new: whether it builds a regex depends on the pattern text alone,
/// and a regex it builds keeps the text it was given (what Regex::as_str returns).
#[verifier::external_body]
fn regex_new(pattern: &str) -> (r: Result<Regex, regex::Error>)
    ensures
        r is Ok <==> regex_accepts(pattern@),
        r is Ok ==> regex_pattern(r->Ok_0) == pattern@,
{
    Regex::new(pattern)
}

/// Relies on regex::Regex::captures: the leftmost-first match of the regex in `haystack`,
/// with group 0 (the whole match) and group 1.
#[verifier::external_body]
fn regex_captures(re: &Regex, haystack: &str) -> (r: Option<AliasMatch>)
    ensures
        found_view(r) == first_captures(regex_pattern(*re), haystack@),
{
    match re.captures(haystack) {
        Some(c) => Some(
            AliasMatch {
                matched: c[0].to_string(),
                subname: c.get(1).map(|g| g.as_str().to_string()),
            },
        ),
        None => None,
    }
}

/// The text of the alias pattern of `config`.
pub fn alias_pattern_text(config: &Config) -> (r: String)
    ensures
        r@ == alias_pattern(*config),
{
    let mut out = match &config.prefix {
        Some(p) => escape_literal(p.as_str()),
        None => {
            let at = "@";
            proof {
                reveal_strlit("@");
            }
            assert(at@ =~= seq!['@']);
            escape_literal(at)
        },
    };
    let no_names = match &config.allowed_pathnames {
        Some(names) => names.len() == 0,
        None => true,
    };
    if no_names {
        let slash = "/";
        proof {
            reveal_strlit("/");
        }
        out.append(slash);
        assert(out@ =~= alias_pattern(*config));
        return out;
    }
    let open = "(";
    proof {
        reveal_strlit("(");
    }
    out.append(open);
    let ghost start = out@;
    assert(start == escaped(config_prefix(*config)) + seq!['(']);
    let names = match &config.allowed_pathnames {
        Some(names) => names,
        None => return out,
    };
    let ghost all = names@.map_values(|n: String| n@);
    let mut i: usize = 0;
    while i < names.len()
        invariant
            all == names@.map_values(|n: String| n@),
            i <= names@.len(),
            out@ == start + alternation(all.take(i as int)),
        decreases names@.len() - i,
    {
        if i > 0 {
            let bar = "|";
            proof {
                reveal_strlit("|");
            }
            out.append(bar);
        }
        let e = escape_literal(names[i].as_str());
        out.append(e.as_str());
        proof {
            let taken = all.take(i + 1);
            assert(taken.drop_last() =~= all.take(i as int));
            assert(taken.last() == names@[i as int]@);
            if i == 0 {
                assert(alternation(all.take(0)) =~= Seq::<char>::empty());
            }
            assert(out@ =~= start + alternation(taken));
        }
        i = i + 1;
    }
    assert(all.take(names@.len() as int) =~= all);
    let close = ")?/";
    proof {
        reveal_strlit(")?/");
    }
    out.append(close);
    assert(out@ =~= alias_pattern(*config));
    out
}

/// Why no matcher could be built for a configuration.
#[derive(Debug, PartialEq, Eq, Structural)]
pub enum PatternError {
    /// The regex engine turned the alias pattern down.
    Rejected,
}

/// A compiled alias pattern, together with the text it was compiled from.
pub struct AliasMatcher {
    regex: Regex,
    pattern: String,
}

impl AliasMatcher {
    #[verifier::type_invariant]
    spec fn compiled_from_pattern(&self) -> bool {
        self.pattern@ == regex_pattern(self.regex)
    }

    /// The pattern text of this matcher.
    pub closed spec fn pattern(&self) -> Seq<char> {
        self.pattern@
    }

    /// Builds the matcher of `config`; an error where the regex engine rejects the pattern.
    pub fn compile(config: &Config) -> (r: Result<AliasMatcher, PatternError>)
        ensures
            r is Ok <==> regex_accepts(alias_pattern(*config)),
            r is Ok ==> r->Ok_0.pattern() == alias_pattern(*config),
    {
        let pattern = alias_pattern_text(config);
        match regex_new(pattern.as_str()) {
            Ok(regex) => Ok(AliasMatcher { regex, pattern }),
            Err(_) => Err(PatternError::Rejected),
        }
    }

    /// Whether this matcher was compiled from `pattern`.
    pub fn has_pattern(&self, pattern: &String) -> (r: bool)
        ensures
            r == (self.pattern() == pattern@),
    {
        self.pattern == *pattern
    }

    /// The first alias in `literal`, as the regex engine finds it.
    pub fn captures(&self, literal: &str) -> (r: Option<AliasMatch>)
        ensures
            found_view(r) == first_captures(self.pattern(), literal@),
    {
        proof {
            use_type_invariant(self);
        }
        regex_captures(&self.regex, literal)
    }
}

/// The matchers compiled so far in one build session, at most one per pattern.
pub struct MatcherCache {
    matchers: Vec<AliasMatcher>,
}

impl MatcherCache {
    /// The patterns of the matchers held, in the order they were compiled.
    pub closed spec fn patterns(&self) -> Seq<Seq<char>> {
        self.matchers@.map_values(|m: AliasMatcher| m.pattern())
    }

    /// The matcher held at index `i`.
    pub closed spec fn matcher_at(&self, i: int) -> AliasMatcher {
        self.matchers@[i]
    }

    /// A cache that holds no matcher yet.
    pub fn new() -> (r: MatcherCache)
        ensures
            r.patterns() == Seq::<Seq<char>>::empty(),
    {
        let r = MatcherCache { matchers: Vec::new() };
        assert(r.patterns() =~= Seq::<Seq<char>>::empty());
        r
    }

    /// How many matchers are held.
    pub fn len(&self) -> (r: usize)
        ensures
            r == self.patterns().len(),
    {
        self.matchers.len()
    }

    /// The matcher at index `i`.
    pub fn get(&self, i: usize) -> (r: &AliasMatcher)
        requires
            i < self.patterns().len(),
        ensures
            *r == self.matcher_at(i as int),
            r.pattern() == self.patterns()[i as int],
    {
        &self.matchers[i]
    }

    /// The index of the matcher for `config`. A pattern already held is reused and nothing is
    /// compiled; a new one is compiled once and kept at the end.
    pub fn matcher_for(&mut self, config: &Config) -> (r: Result<usize, PatternError>)
        ensures
            match r {
                Ok(i) => {
                    &&& i < final(self).patterns().len()
                    &&& final(self).patterns()[i as int] == alias_pattern(*config)
                },
                Err(_) => final(self).patterns() == old(self).patterns(),
            },
            old(self).patterns().contains(alias_pattern(*config)) ==> final(self).patterns()
                == old(self).patterns(),
            !old(self).patterns().contains(alias_pattern(*config)) ==> (final(self).patterns()
                == old(self).patterns() || final(self).patterns() == old(self).patterns().push(
                alias_pattern(*config),
            )),
            forall|j: int|
                0 <= j < old(self).patterns().len() ==> #[trigger] final(self).matcher_at(j)
                    == old(self).matcher_at(j),
            old(self).patterns().contains(alias_pattern(*config)) ==> r is Ok,
            r is Err <==> (!old(self).patterns().contains(alias_pattern(*config))
                && !regex_accepts(alias_pattern(*config))),
    {
        let pattern = alias_pattern_text(config);
        let mut i: usize = 0;
        while i < self.matchers.len()
            invariant
                self.matchers@ == old(self).matchers@,
                pattern@ == alias_pattern(*config),
                i <= self.matchers@.len(),
                forall|j: int| 0 <= j < i ==> self.matchers@[j].pattern() != pattern@,
            decreases self.matchers@.len() - i,
        {
            if self.matchers[i].has_pattern(&pattern) {
                assert(self.patterns()[i as int] == pattern@);
                return Ok(i);
            }
            i = i + 1;
        }
        proof {
            if self.patterns().contains(pattern@) {
                let k = choose|k: int|
                    0 <= k < self.patterns().len() && self.patterns()[k] == pattern@;
                assert(self.matchers@[k].pattern() == pattern@);
            }
        }
        match regex_new(pattern.as_str()) {
            Ok(regex) => {
                let m = AliasMatcher { regex, pattern };
                self.matchers.push(m);
                assert(self.patterns() =~= old(self).patterns().push(alias_pattern(*config)));
                Ok(self.matchers.len() - 1)
            },
            Err(_) => Err(PatternError::Rejected),
        }
    }
}

} // verus!
