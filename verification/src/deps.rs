//! Verification that every external program a manifest requires is installed.
//!
//! Each dependency spec is a regular-expression pattern over executable names.
//! A spec is satisfied when at least one executable resolvable on the host's
//! search path has a matching name. Verification fails fast on the first spec
//! that is invalid or unmatched, before any later pipeline stage can run.

use vstd::prelude::*;

verus! {

/// Whether a pattern is a valid regular expression.
pub uninterp spec fn regex_valid(pattern: Seq<char>) -> bool;

/// Whether a valid regular expression pattern matches somewhere in a text.
pub uninterp spec fn regex_matches(pattern: Seq<char>, text: Seq<char>) -> bool;

/// Relies on regex::Regex::new, which succeeds exactly on valid patterns, and
/// regex::Regex::is_match, whose result depends on the pattern and the
/// haystack alone.
#[verifier::external_body]
fn regex_is_match(pattern: &str, text: &str) -> (r: Option<bool>)
    ensures
        r is Some <==> regex_valid(pattern@),
        r matches Some(b) ==> b == regex_matches(pattern@, text@),
{
    match regex::Regex::new(pattern) {
        Ok(re) => Some(re.is_match(text)),
        Err(_) => None,
    }
}

/// Whether any of the given executable names matches the pattern.
pub open spec fn spec_any_match(pattern: Seq<char>, names: Seq<Seq<char>>) -> bool {
    exists|i: int| 0 <= i < names.len() && regex_matches(pattern, names[i])
}

/// Whether one dependency spec is satisfied by the installed executables.
pub open spec fn spec_dep_ok(pattern: Seq<char>, names: Seq<Seq<char>>) -> bool {
    regex_valid(pattern) && spec_any_match(pattern, names)
}

/// Why dependency verification failed.
#[derive(Debug)]
pub enum VerifyError {
    /// A dependency spec is not a valid regular expression.
    InvalidPattern { pattern: String },
    /// No installed executable matches the dependency spec.
    Missing { pattern: String },
}

/// The mathematical model of a [`VerifyError`].
pub enum VerifyErrorV {
    InvalidPattern { pattern: Seq<char> },
    Missing { pattern: Seq<char> },
}

impl View for VerifyError {
    type V = VerifyErrorV;

    open spec fn view(&self) -> VerifyErrorV {
        match self {
            VerifyError::InvalidPattern { pattern } => VerifyErrorV::InvalidPattern {
                pattern: pattern@,
            },
            VerifyError::Missing { pattern } => VerifyErrorV::Missing { pattern: pattern@ },
        }
    }
}

/// The outcome of checking dependency specs in order against the installed
/// executable names: `None` when every spec is satisfied, otherwise the
/// failure of the first spec that is invalid or unmatched.
pub open spec fn spec_verify_result(specs: Seq<Seq<char>>, names: Seq<Seq<char>>) -> Option<
    VerifyErrorV,
>
    decreases specs.len(),
{
    if specs.len() == 0 {
        Option::None
    } else if !regex_valid(specs[0]) {
        Option::Some(VerifyErrorV::InvalidPattern { pattern: specs[0] })
    } else if !spec_any_match(specs[0], names) {
        Option::Some(VerifyErrorV::Missing { pattern: specs[0] })
    } else {
        spec_verify_result(specs.drop_first(), names)
    }
}

/// Every spec before position `k` is satisfied exactly when the first failure
/// is not among them.
proof fn lemma_verify_result_prefix(specs: Seq<Seq<char>>, names: Seq<Seq<char>>, k: int)
    requires
        0 <= k <= specs.len(),
        forall|j: int| 0 <= j < k ==> spec_dep_ok(#[trigger] specs[j], names),
    ensures
        spec_verify_result(specs, names) == spec_verify_result(
            specs.subrange(k, specs.len() as int),
            names,
        ),
    decreases k,
{
    if k == 0 {
        assert(specs.subrange(0, specs.len() as int) =~= specs);
    } else {
        assert(spec_dep_ok(specs[0], names));
        lemma_verify_result_prefix(specs.drop_first(), names, k - 1);
        assert(specs.drop_first().subrange(k - 1, specs.drop_first().len() as int) =~= specs
            .subrange(k, specs.len() as int));
    }
}

/// Tests one pattern against every executable name.
///
/// `None` exactly when the pattern is invalid; otherwise whether any name
/// matches.
fn any_name_matches(pattern: &str, names: &Vec<String>) -> (r: Option<bool>)
    ensures
        r is Some <==> regex_valid(pattern@),
        r matches Some(b) ==> b == spec_any_match(pattern@, names.deep_view()),
{
    match regex_is_match(pattern, "") {
        None => None,
        Some(_) => {
            let mut i: usize = 0;
            while i < names.len()
                invariant
                    0 <= i <= names.len(),
                    regex_valid(pattern@),
                    forall|j: int| 0 <= j < i ==> !regex_matches(pattern@, names.deep_view()[j]),
                decreases names.len() - i,
            {
                match regex_is_match(pattern, names[i].as_str()) {
                    None => {
                        proof {
                            assert(false);
                        }
                    },
                    Some(b) => {
                        if b {
                            proof {
                                assert(regex_matches(pattern@, names.deep_view()[i as int]));
                            }
                            return Some(true);
                        }
                    },
                }
                i = i + 1;
            }
            Some(false)
        },
    }
}

/// Checks every dependency spec against the installed executable names.
///
/// Succeeds exactly when each spec is a valid pattern matched by at least one
/// name. Otherwise reports the first offending spec: `InvalidPattern` when it
/// does not compile, `Missing` when it compiles but matches no name.
pub fn verify_dependencies(specs: &Vec<String>, executables: &Vec<String>) -> (r: Result<
    (),
    VerifyError,
>)
    ensures
        r is Ok <==> spec_verify_result(specs.deep_view(), executables.deep_view()) is None,
        r matches Err(e) ==> Option::Some(e@) == spec_verify_result(
            specs.deep_view(),
            executables.deep_view(),
        ),
{
    let ghost sv = specs.deep_view();
    let ghost nv = executables.deep_view();
    let mut i: usize = 0;
    while i < specs.len()
        invariant
            0 <= i <= specs.len(),
            sv == specs.deep_view(),
            nv == executables.deep_view(),
            forall|j: int| 0 <= j < i ==> spec_dep_ok(#[trigger] sv[j], nv),
        decreases specs.len() - i,
    {
        let ghost remaining = sv.subrange(i as int, sv.len() as int);
        proof {
            lemma_verify_result_prefix(sv, nv, i as int);
            assert(remaining[0] == sv[i as int]);
            assert(remaining.drop_first() =~= sv.subrange(i + 1, sv.len() as int));
        }
        match any_name_matches(specs[i].as_str(), executables) {
            None => {
                return Err(VerifyError::InvalidPattern { pattern: specs[i].clone() });
            },
            Some(found) => {
                if !found {
                    return Err(VerifyError::Missing { pattern: specs[i].clone() });
                }
            },
        }
        i = i + 1;
    }
    proof {
        lemma_verify_result_prefix(sv, nv, sv.len() as int);
        assert(sv.subrange(sv.len() as int, sv.len() as int) =~= Seq::<Seq<char>>::empty());
    }
    Ok(())
}

} // verus!
