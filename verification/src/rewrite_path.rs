//! Request path rewriting with a regular expression.
use vstd::prelude::*;
use regex::Regex;
use http::uri::PathAndQuery;
use crate::error::PluginError;
use crate::json::str_equal;
use crate::text::{join2, join3, join4, owned};

verus! {

#[verifier::external_type_specification]
#[verifier::external_body]
pub struct ExRegex(Regex);

/// `regex::Regex::new(pattern)`: nothing when the pattern compiles, else the
/// display text of the error.
pub uninterp spec fn regex_error(pattern: Seq<char>) -> Option<Seq<char>>;

/// `Regex::is_match`: whether the compiled `pattern` matches somewhere in `text`.
pub uninterp spec fn regex_matches(pattern: Seq<char>, text: Seq<char>) -> bool;

/// `Regex::replace`: `text` with the leftmost match of `pattern` replaced by
/// `replacement`, in which `$n` and `$name` stand for capture groups.
pub uninterp spec fn regex_replaced(pattern: Seq<char>, text: Seq<char>, replacement: Seq<char>) -> Seq<char>;

/// `path_and_query.parse::<http::uri::PathAndQuery>()`: nothing when `http`
/// accepts the text, else the display text of the error.
pub uninterp spec fn path_and_query_error(text: Seq<char>) -> Option<Seq<char>>;

/// A compiled regular expression together with the pattern it was compiled from.
pub struct CompiledRegex {
    pattern: String,
    regex: Regex,
}

impl CompiledRegex {
    /// The pattern the expression was compiled from.
    pub closed spec fn pattern(&self) -> Seq<char> {
        self.pattern@
    }
}

/// `Regex::new(pattern)`, kept with its pattern.
#[verifier::external_body]
pub(crate) fn compile_regex(pattern: &str) -> (r: Result<CompiledRegex, String>)
    ensures
        match r {
            Ok(re) => re.pattern() == pattern@ && regex_error(pattern@) is None,
            Err(t) => regex_error(pattern@) == Some(t@),
        },
{
    match Regex::new(pattern) {
        Ok(regex) => Ok(CompiledRegex { pattern: pattern.to_string(), regex }),
        Err(e) => Err(e.to_string()),
    }
}

/// `Regex::clone`: the same compiled expression.
#[verifier::external_body]
fn clone_regex(re: &CompiledRegex) -> (r: CompiledRegex)
    ensures
        r.pattern() == re.pattern(),
{
    CompiledRegex { pattern: re.pattern.clone(), regex: re.regex.clone() }
}

/// `Regex::is_match(text)`.
#[verifier::external_body]
pub(crate) fn regex_is_match(re: &CompiledRegex, text: &str) -> (r: bool)
    ensures
        r == regex_matches(re.pattern(), text@),
{
    re.regex.is_match(text)
}

/// `Regex::replace(text, replacement)`: as the `regex` documentation says,
/// a text without a match comes back unchanged.
#[verifier::external_body]
pub(crate) fn regex_replace(re: &CompiledRegex, text: &str, replacement: &str) -> (r: String)
    ensures
        r@ == regex_replaced(re.pattern(), text@, replacement@),
        !regex_matches(re.pattern(), text@) ==> r@ == text@,
{
    re.regex.replace(text, replacement).into_owned()
}

/// Whether `http` accepts `text` as a path and query.
#[verifier::external_body]
fn check_path_and_query(text: &str) -> (r: Result<(), String>)
    ensures
        match r {
            Ok(()) => path_and_query_error(text@) is None,
            Err(t) => path_and_query_error(text@) == Some(t@),
        },
{
    match text.parse::<PathAndQuery>() {
        Ok(_) => Ok(()),
        Err(e) => Err(e.to_string()),
    }
}

/// The rewrite rule.
#[derive(Debug, Clone, PartialEq, Eq)]
pub struct RewriteRule {
    /// The regular expression matched against the path, such as `/api/v1/(.*)`.
    pub pattern: String,
    /// The replacement, such as `/api/v2/$1`.
    pub replacement: String,
}

/// The path rewriting plugin. It keeps the last pattern it compiled.
pub struct RewritePathPlugin {
    cached_pattern: String,
    cached_regex: Option<CompiledRegex>,
}

impl RewritePathPlugin {
    #[verifier::type_invariant]
    spec fn cache_consistent(&self) -> bool {
        match self.cached_regex {
            Some(re) => re.pattern() == self.cached_pattern@ && regex_error(self.cached_pattern@) is None,
            None => self.cached_pattern@.len() == 0,
        }
    }

    /// Whether no pattern has been compiled yet.
    pub closed spec fn fresh(&self) -> bool {
        self.cached_regex is None
    }

    /// The pattern compiled last, if any.
    pub closed spec fn cached(&self) -> Option<Seq<char>> {
        match self.cached_regex {
            Some(_) => Some(self.cached_pattern@),
            None => None,
        }
    }

    /// A plugin that has compiled nothing yet.
    pub fn new() -> (r: Self)
        ensures
            r.fresh(),
            r.cached() is None,
    {
        RewritePathPlugin { cached_pattern: String::new(), cached_regex: None }
    }

    /// Whether no pattern has been compiled yet.
    pub fn is_fresh(&self) -> (r: bool)
        ensures
            r == self.fresh(),
    {
        self.cached_regex.is_none()
    }

    /// The plugin's name.
    pub fn name(&self) -> (r: &'static str)
        ensures
            r@ == "rewrite-path"@,
    {
        "rewrite-path"
    }

    /// The compiled `pattern`, from the cache when it holds that pattern.
    /// The empty pattern before anything was compiled is the one input the
    /// cache cannot serve (it holds no expression for it).
    pub fn get_regex(&mut self, pattern: &str) -> (r: Result<CompiledRegex, PluginError>)
        requires
            !(pattern@.len() == 0 && old(self).fresh()),
        ensures
            match regex_error(pattern@) {
                None => r matches Ok(re) && re.pattern() == pattern@ && final(self).cached() == Some(pattern@),
                Some(t) => r matches Err(e) && e.is_execute("Invalid regex pattern '"@ + pattern@ + "': "@ + t)
                    && final(self).cached() == old(self).cached(),
            },
    {
        proof {
            use_type_invariant(&*self);
        }
        if str_equal(self.cached_pattern.as_str(), pattern) {
            match &self.cached_regex {
                Some(re) => return Ok(clone_regex(re)),
                None => {
                    proof {
                        assert(false);
                    }
                },
            }
        }
        let compiled = match compile_regex(pattern) {
            Ok(re) => re,
            Err(t) => return Err(PluginError::ExecuteError(join4("Invalid regex pattern '", pattern, "': ", t.as_str()))),
        };
        let result = clone_regex(&compiled);
        *self = RewritePathPlugin { cached_pattern: owned(pattern), cached_regex: Some(compiled) };
        Ok(result)
    }
}

/// The rewritten path and query: `None` when the pattern does not match the
/// path, else the replaced path followed by `?` and the query when there is one.
pub open spec fn rewritten(pattern: Seq<char>, replacement: Seq<char>, path: Seq<char>, query: Option<Seq<char>>) -> Option<Seq<char>> {
    if !regex_matches(pattern, path) {
        None
    } else {
        let p = regex_replaced(pattern, path, replacement);
        match query {
            Some(q) => Some(p + "?"@ + q),
            None => Some(p),
        }
    }
}

/// The outcome of rewriting a request's path under a rule.
pub open spec fn rewrite_outcome(rule: &RewriteRule, path: Seq<char>, query: Option<Seq<char>>) -> Result<Option<Seq<char>>, Seq<char>> {
    match regex_error(rule.pattern@) {
        Some(t) => Err("Invalid regex pattern '"@ + rule.pattern@ + "': "@ + t),
        None => match rewritten(rule.pattern@, rule.replacement@, path, query) {
            None => Ok(None),
            Some(pq) => match path_and_query_error(pq) {
                Some(t) => Err("Invalid path: "@ + t),
                None => Ok(Some(pq)),
            },
        },
    }
}

impl RewritePathPlugin {
    /// The new path and query of a request whose path is `path` and query
    /// `query`, or `None` when the rule leaves it alone.
    pub fn on_request(&mut self, rule: &RewriteRule, path: &str, query: Option<&str>) -> (r: Result<Option<String>, PluginError>)
        requires
            !(rule.pattern@.len() == 0 && old(self).fresh()),
        ensures
            match rewrite_outcome(rule, path@, match query { Some(q) => Some(q@), None => None }) {
                Ok(Some(pq)) => r matches Ok(Some(s)) && s@ == pq,
                Ok(None) => r matches Ok(None),
                Err(m) => r matches Err(e) && e.is_execute(m),
            },
    {
        let re = match self.get_regex(rule.pattern.as_str()) {
            Ok(re) => re,
            Err(e) => return Err(e),
        };
        if !regex_is_match(&re, path) {
            return Ok(None);
        }
        let replaced = regex_replace(&re, path, rule.replacement.as_str());
        let pq = match query {
            Some(q) => join3(replaced.as_str(), "?", q),
            None => replaced,
        };
        match check_path_and_query(pq.as_str()) {
            Ok(()) => Ok(Some(pq)),
            Err(t) => Err(PluginError::ExecuteError(join2("Invalid path: ", t.as_str()))),
        }
    }
}

/// When the pattern matches the path, the replacement is applied to the
/// path alone and the query follows, untouched, after `?`; the request is
/// then given that path and query whenever `http` accepts it.
pub proof fn law_replacement_applies_to_path_only(rule: &RewriteRule, path: Seq<char>, query: Seq<char>)
    requires
        regex_matches(rule.pattern@, path),
    ensures
        rewritten(rule.pattern@, rule.replacement@, path, None) == Some(regex_replaced(rule.pattern@, path, rule.replacement@)),
        rewritten(rule.pattern@, rule.replacement@, path, Some(query))
            == Some(regex_replaced(rule.pattern@, path, rule.replacement@) + "?"@ + query),
        regex_error(rule.pattern@) is None
            && path_and_query_error(regex_replaced(rule.pattern@, path, rule.replacement@) + "?"@ + query) is None
            ==> rewrite_outcome(rule, path, Some(query)) == Ok::<Option<Seq<char>>, Seq<char>>(
                Some(regex_replaced(rule.pattern@, path, rule.replacement@) + "?"@ + query),
            ),
        regex_error(rule.pattern@) is None && path_and_query_error(regex_replaced(rule.pattern@, path, rule.replacement@)) is None
            ==> rewrite_outcome(rule, path, None) == Ok::<Option<Seq<char>>, Seq<char>>(
                Some(regex_replaced(rule.pattern@, path, rule.replacement@)),
            ),
{
}

/// A path the pattern does not match is left as it is.
pub proof fn law_unmatched_path_is_left_alone(pattern: Seq<char>, replacement: Seq<char>, path: Seq<char>, query: Option<Seq<char>>)
    requires
        !regex_matches(pattern, path),
        regex_error(pattern) is None,
    ensures
        rewritten(pattern, replacement, path, query) is None,
{
}

} // verus!
