use vstd::prelude::*;
use vstd::string::*;
use crate::version::{same_text, UnresolvedSpec};

verus! {

/// The alias that a user alias is rewritten to, by the first rule that
/// matches: the runtime's name is `latest`; `lts-*` and `lts/*` are `stable`;
/// `lts-<name>` and `lts/<name>` are `<name>`; any other alias is kept.
pub open spec fn alias_rewrite(a: Seq<char>) -> Option<Seq<char>> {
    if a == "node"@ {
        Some("latest"@)
    } else if a == "lts-*"@ || a == "lts/*"@ {
        Some("stable"@)
    } else if a.len() >= 4 && (a.take(4) == "lts-"@ || a.take(4) == "lts/"@) {
        Some(a.skip(4))
    } else {
        None
    }
}

/// The outcome of alias resolution: the alias that should be looked up in
/// place of the one asked for, if any.
#[derive(Debug)]
pub struct ResolveVersionOutput {
    pub candidate: Option<UnresolvedSpec>,
}

/// Rewrites an alias into the alias that the catalog knows; any other kind of
/// specifier, and an alias that no rule matches, gets no candidate.
pub fn resolve_version(initial: &UnresolvedSpec) -> (r: ResolveVersionOutput)
    ensures
        match initial {
            UnresolvedSpec::Alias(a) => match alias_rewrite(a@) {
                Some(c) => match r.candidate {
                    Some(UnresolvedSpec::Alias(x)) => x@ == c,
                    _ => false,
                },
                None => r.candidate is None,
            },
            _ => r.candidate is None,
        },
{
    match initial {
        UnresolvedSpec::Alias(alias) => {
            let a = alias.as_str();
            let n = a.unicode_len();
            let candidate = if same_text(a, "node") {
                String::from_str("latest")
            } else if same_text(a, "lts-*") || same_text(a, "lts/*") {
                String::from_str("stable")
            } else if n >= 4 && (same_text(a.substring_char(0, 4), "lts-") || same_text(a.substring_char(0, 4), "lts/")) {
                String::from_str(a.substring_char(4, n))
            } else {
                return ResolveVersionOutput { candidate: None };
            };
            ResolveVersionOutput { candidate: Some(UnresolvedSpec::Alias(candidate)) }
        },
        _ => ResolveVersionOutput { candidate: None },
    }
}

} // verus!
