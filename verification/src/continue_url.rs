//! Validation of the continuation target of a login.
//!
//! A continuation is first held against an allow pattern built from the
//! configured domain; one that fails it but still looks like an absolute URL
//! is rejected; anything else is not a redirect request at all.

use crate::outside::{regex_compiles, regex_is_match, regex_matches};
use vstd::prelude::*;
use vstd::string::{StrSliceExecFns, StringExecFns};

verus! {

/// What a continuation target was found to be.
pub enum Classification {
    /// The target lies in the allowed domain: the caller may redirect to it.
    AllowedRedirect(String),
    /// The target is an absolute URL outside the allowed domain: the caller
    /// must not redirect.
    RejectedExternalUrl,
    /// The target is no absolute URL: the caller hands the token back
    /// directly.
    Opaque(String),
}

/// The mathematical form of a [`Classification`].
pub enum ClassificationModel {
    AllowedRedirect(Seq<char>),
    RejectedExternalUrl,
    Opaque(Seq<char>),
}

impl View for Classification {
    type V = ClassificationModel;

    open spec fn view(&self) -> ClassificationModel {
        match self {
            Classification::AllowedRedirect(url) => ClassificationModel::AllowedRedirect(url@),
            Classification::RejectedExternalUrl => ClassificationModel::RejectedExternalUrl,
            Classification::Opaque(text) => ClassificationModel::Opaque(text@),
        }
    }
}

/// The configured domain does not give a usable allow pattern.
pub struct InvalidAllowedDomain {}

impl InvalidAllowedDomain {
    /// What to tell the operator.
    pub fn message(&self) -> (text: String)
        ensures
            text@ == "Invalid `allowed_continue_domain` format, please check your configuration file."@,
    {
        "Invalid `allowed_continue_domain` format, please check your configuration file.".to_owned()
    }
}

/// The part of the allow pattern before the domain: the scheme and any run of
/// host characters.
pub open spec fn allow_prefix() -> Seq<char> {
    "^https?://[a-zA-Z0-9\\.\\\\-_]*("@
}

/// The part of the allow pattern after the domain.
pub open spec fn allow_suffix() -> Seq<char> {
    ").*$"@
}

/// The pattern of anything that looks like an absolute URL.
pub open spec fn url_pattern() -> Seq<char> {
    "^https?://.+$"@
}

/// `text` with a backslash put before every dot.
pub open spec fn escape_dots(text: Seq<char>) -> Seq<char>
    decreases text.len(),
{
    if text.len() == 0 {
        Seq::<char>::empty()
    } else if text.last() == '.' {
        escape_dots(text.drop_last()) + seq!['\\', '.']
    } else {
        escape_dots(text.drop_last()).push(text.last())
    }
}

/// The allow pattern for a domain: anchored at both ends, the scheme, any run
/// of host characters, the domain with its dots taken literally, then
/// anything.
pub open spec fn allow_pattern(domain: Seq<char>) -> Seq<char> {
    allow_prefix() + escape_dots(domain) + allow_suffix()
}

/// The classification that follows from the two pattern tests: the allow
/// pattern decides first, the URL shape second.
pub open spec fn classification_of(allowed: bool, url_shaped: bool, continuation: Seq<char>)
    -> ClassificationModel {
    if allowed {
        ClassificationModel::AllowedRedirect(continuation)
    } else if url_shaped {
        ClassificationModel::RejectedExternalUrl
    } else {
        ClassificationModel::Opaque(continuation)
    }
}

/// The classification of `continuation` under the allow pattern `pattern`.
pub open spec fn classification(pattern: Seq<char>, continuation: Seq<char>)
    -> ClassificationModel {
    classification_of(
        regex_matches(pattern, continuation),
        regex_matches(url_pattern(), continuation),
        continuation,
    )
}

/// `text` with a backslash put before every dot.
pub fn escaped_dots(text: &str) -> (escaped: String)
    ensures
        escaped@ == escape_dots(text@),
{
    let length = text.unicode_len();
    let mut escaped = String::new();
    let mut i: usize = 0;
    while i < length
        invariant
            i <= length,
            length == text@.len(),
            escaped@ == escape_dots(text@.take(i as int)),
        decreases length - i,
    {
        proof {
            let next = text@.take(i as int + 1);
            assert(next.drop_last() =~= text@.take(i as int));
        }
        if text.get_char(i) == '.' {
            proof {
                reveal_strlit("\\.");
            }
            escaped.append("\\.");
        } else {
            let piece = text.substring_char(i, i + 1);
            escaped.append(piece);
        }
        i += 1;
    }
    assert(text@.take(length as int) =~= text@);
    escaped
}

/// The allow pattern for `domain`.
pub fn build_allow_pattern(domain: &str) -> (pattern: String)
    ensures
        pattern@ == allow_pattern(domain@),
{
    let escaped = escaped_dots(domain);
    "^https?://[a-zA-Z0-9\\.\\\\-_]*(".to_owned().concat(escaped.as_str()).concat(").*$")
}

/// Decides the classification from the outcome of the two pattern tests.
pub fn classify_matches(allowed: bool, url_shaped: bool, continuation: &str) -> (found:
    Classification)
    ensures
        found@ == classification_of(allowed, url_shaped, continuation@),
{
    if allowed {
        Classification::AllowedRedirect(continuation.to_owned())
    } else if url_shaped {
        Classification::RejectedExternalUrl
    } else {
        Classification::Opaque(continuation.to_owned())
    }
}

/// The validator for one allowed domain. Its allow pattern and the URL
/// pattern are known to be accepted by the regular-expression engine.
pub struct ContinueValidator {
    pattern: String,
}

impl ContinueValidator {
    #[verifier::type_invariant]
    spec fn well_formed(&self) -> bool {
        regex_compiles(self.pattern@) && regex_compiles(url_pattern())
    }

    /// The allow pattern this validator tests against.
    pub closed spec fn pattern(&self) -> Seq<char> {
        self.pattern@
    }

    /// A validator for `allowed_domain`. Refused exactly when the
    /// regular-expression engine does not accept the allow pattern built from
    /// the domain, or the URL pattern.
    pub fn new(allowed_domain: &str) -> (made: Result<ContinueValidator, InvalidAllowedDomain>)
        ensures
            made is Ok <==> regex_compiles(allow_pattern(allowed_domain@)) && regex_compiles(
                url_pattern(),
            ),
            made matches Ok(validator) ==> validator.pattern() == allow_pattern(allowed_domain@),
    {
        let pattern = build_allow_pattern(allowed_domain);
        let allow_ok = regex_is_match(pattern.as_str(), "").is_some();
        let url_ok = regex_is_match("^https?://.+$", "").is_some();
        if allow_ok && url_ok {
            Ok(ContinueValidator { pattern })
        } else {
            Err(InvalidAllowedDomain {  })
        }
    }

    /// The allow pattern this validator tests against.
    pub fn allow_pattern(&self) -> (pattern: &str)
        ensures
            pattern@ == self.pattern(),
    {
        self.pattern.as_str()
    }

    /// Classifies a continuation target.
    pub fn classify(&self, continuation: &str) -> (found: Classification)
        ensures
            found@ == classification(self.pattern(), continuation@),
    {
        proof {
            use_type_invariant(self);
        }
        let allowed = match regex_is_match(self.pattern.as_str(), continuation) {
            Some(found) => found,
            None => false,
        };
        let url_shaped = match regex_is_match("^https?://.+$", continuation) {
            Some(found) => found,
            None => false,
        };
        classify_matches(allowed, url_shaped, continuation)
    }
}

/// Classifies `continuation` for the allowed domain `allowed_domain`.
pub fn classify(continuation: &str, allowed_domain: &str) -> (found: Result<
    Classification,
    InvalidAllowedDomain,
>)
    ensures
        found is Ok <==> regex_compiles(allow_pattern(allowed_domain@)) && regex_compiles(
            url_pattern(),
        ),
        found matches Ok(class) ==> class@ == classification(
            allow_pattern(allowed_domain@),
            continuation@,
        ),
{
    match ContinueValidator::new(allowed_domain) {
        Ok(validator) => Ok(validator.classify(continuation)),
        Err(refusal) => Err(refusal),
    }
}

} // verus!
