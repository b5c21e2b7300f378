//! Handle derivation: turning a branch name or an explicit override into a
//! filesystem- and session-safe identifier ("handle"). The handle names both
//! the worktree directory and the session window of a unit of work, so it
//! must be non-empty, free of path separators and traversal sequences, and
//! free of whitespace.

use vstd::prelude::*;

verus! {

broadcast use vstd::string::group_string_axioms;

/// True for the characters a slug may contain: lowercase ASCII letters,
/// digits, and hyphens.
pub open spec fn slug_char(c: char) -> bool {
    (('a' as u32) <= (c as u32) && (c as u32) <= ('z' as u32)) || (('0' as u32) <= (c as u32)
        && (c as u32) <= ('9' as u32)) || c == '-'
}

/// The slug of a character sequence, as the slugification routine computes
/// it. The result depends on the characters alone.
pub uninterp spec fn slug_of(s: Seq<char>) -> Seq<char>;

/// Whether a character has the Unicode White_Space property.
pub uninterp spec fn is_unicode_space(c: char) -> bool;

/// Relies on slug::slugify: the result is a function of the input characters
/// alone and consists of lowercase ASCII letters, digits, and hyphens, with
/// a hyphen never doubled, leading, or trailing; an empty input gives an
/// empty slug.
#[verifier::external_body]
fn slugify(s: &str) -> (r: String)
    ensures
        r@ == slug_of(s@),
        forall|i: int| 0 <= i < r@.len() ==> slug_char(#[trigger] r@[i]),
        r@.len() > 0 ==> r@[0] != '-' && r@[r@.len() - 1] != '-',
        forall|i: int| 0 < i < r@.len() ==> !(#[trigger] r@[i] == '-' && r@[i - 1] == '-'),
        s@.len() == 0 ==> r@.len() == 0,
{
    slug::slugify(s)
}

/// Relies on char::is_whitespace: true exactly for characters with the
/// Unicode White_Space property. Within ASCII these are tab, line feed,
/// vertical tab, form feed, carriage return, and space; every other ASCII
/// character, printable or not, is not whitespace.
#[verifier::external_body]
pub(crate) fn char_is_whitespace(c: char) -> (r: bool)
    ensures
        r == is_unicode_space(c),
        (c == ' ' || c == '\t' || c == '\n' || c == '\r' || c as u32 == 0xb || c as u32 == 0xc)
            ==> r,
        ((' ' as u32) < (c as u32) && (c as u32) <= 0x7e) ==> !r,
        ((c as u32) < 0x9 || (0xd < (c as u32) && (c as u32) < 0x20)) ==> !r,
{
    c.is_whitespace()
}

/// Why a proposed handle was rejected.
#[derive(Debug, Clone, Copy, PartialEq, Eq, Structural)]
pub enum NamingError {
    /// The handle is empty.
    Empty,
    /// The handle contains `..` or begins with a path separator.
    PathTraversal,
    /// The handle contains whitespace.
    Whitespace,
}

impl NamingError {
    /// A human-readable description of the rejection.
    pub fn message(&self) -> (r: String)
        ensures
            *self is Empty ==> r@ == "Handle cannot be empty"@,
            *self is PathTraversal ==> r@ == "Handle cannot contain path traversal"@,
            *self is Whitespace ==> r@ == "Handle cannot contain whitespace"@,
    {
        match self {
            NamingError::Empty => "Handle cannot be empty".to_owned(),
            NamingError::PathTraversal => "Handle cannot contain path traversal".to_owned(),
            NamingError::Whitespace => "Handle cannot contain whitespace".to_owned(),
        }
    }
}

/// Two consecutive dots occur somewhere in `s`.
pub open spec fn has_dotdot(s: Seq<char>) -> bool {
    exists|i: int| 0 <= i && i + 2 <= s.len() && #[trigger] s[i] == '.' && s[i + 1] == '.'
}

/// Some character of `s` is whitespace.
pub open spec fn has_space(s: Seq<char>) -> bool {
    exists|i: int| 0 <= i < s.len() && is_unicode_space(#[trigger] s[i])
}

/// A handle is valid when it is non-empty, contains no `..`, does not begin
/// with a path separator, and contains no whitespace.
pub open spec fn spec_valid_handle(s: Seq<char>) -> bool {
    &&& s.len() > 0
    &&& !has_dotdot(s)
    &&& s[0] != '/'
    &&& !has_space(s)
}

/// The check a proposed handle must pass, with the rejections in the order
/// they are reported.
pub open spec fn validate_handle_model(s: Seq<char>) -> Result<(), NamingError> {
    if s.len() == 0 {
        Err(NamingError::Empty)
    } else if has_dotdot(s) || s[0] == '/' {
        Err(NamingError::PathTraversal)
    } else if has_space(s) {
        Err(NamingError::Whitespace)
    } else {
        Ok(())
    }
}

/// Validates that a handle is safe for filesystem and session use.
#[verifier::loop_isolation(false)]
pub fn validate_handle(handle: &str) -> (r: Result<(), NamingError>)
    ensures
        r == validate_handle_model(handle@),
        r is Ok <==> spec_valid_handle(handle@),
        handle@.len() > 0 && (forall|i: int|
            0 <= i < handle@.len() ==> slug_char(#[trigger] handle@[i])) ==> r is Ok,
{
    let n = handle.unicode_len();
    if n == 0 {
        return Err(NamingError::Empty);
    }
    let mut i: usize = 1;
    while i < n
        invariant
            1 <= i <= n,
            n == handle@.len(),
            forall|j: int| 0 <= j && j + 2 <= i ==> !(#[trigger] handle@[j] == '.'
                && handle@[j + 1] == '.'),
        decreases n - i,
    {
        if handle.get_char(i - 1) == '.' && handle.get_char(i) == '.' {
            assert(has_dotdot(handle@));
            return Err(NamingError::PathTraversal);
        }
        i = i + 1;
    }
    assert(!has_dotdot(handle@));
    if handle.get_char(0) == '/' {
        return Err(NamingError::PathTraversal);
    }
    let mut k: usize = 0;
    while k < n
        invariant
            0 <= k <= n,
            n == handle@.len(),
            forall|j: int| 0 <= j < k ==> !is_unicode_space(#[trigger] handle@[j]),
        decreases n - k,
    {
        let c = handle.get_char(k);
        if char_is_whitespace(c) {
            assert(has_space(handle@));
            return Err(NamingError::Whitespace);
        }
        k = k + 1;
    }
    assert(!has_space(handle@));
    Ok(())
}

/// The name the handle is derived from: the explicit override when one is
/// given, the branch name otherwise.
pub open spec fn chosen_name(branch: Seq<char>, explicit: Option<Seq<char>>) -> Seq<char> {
    match explicit {
        Some(e) => e,
        None => branch,
    }
}

/// What handle derivation yields: the slug of the chosen name if that slug
/// is a valid handle, nothing otherwise.
pub open spec fn derive_handle_model(branch: Seq<char>, explicit: Option<Seq<char>>) -> Option<
    Seq<char>,
> {
    let h = slug_of(chosen_name(branch, explicit));
    if spec_valid_handle(h) {
        Some(h)
    } else {
        None
    }
}

/// Derives the handle (worktree directory name and session window base name)
/// from the branch name and an optional explicit override.
///
/// The explicit override takes absolute priority and is slugified
/// independently of the branch name; otherwise the branch name itself is
/// slugified. The result is validated unconditionally: it becomes a
/// directory name and a window name, so any ambiguity is an input error.
/// Whatever the branch name contained, a derived handle is non-empty and
/// holds no path separator and no whitespace.
pub fn derive_handle(branch_name: &str, explicit_name: Option<&str>) -> (r: Result<
    String,
    NamingError,
>)
    ensures
        r is Ok <==> derive_handle_model(branch_name@, explicit_name.deep_view()) is Some,
        r matches Ok(h) ==> Some(h@) == derive_handle_model(branch_name@, explicit_name.deep_view()),
        r is Ok <==> slug_of(chosen_name(branch_name@, explicit_name.deep_view())).len() > 0,
        r matches Ok(h) ==> h@.len() > 0 && (forall|i: int|
            0 <= i < h@.len() ==> slug_char(#[trigger] h@[i])),
        r matches Ok(h) ==> (forall|i: int|
            0 <= i < h@.len() ==> #[trigger] h@[i] != '/' && h@[i] != '\\' && !is_unicode_space(
                h@[i],
            )),
{
    let handle = match explicit_name {
        Some(name) => slugify(name),
        None => slugify(branch_name),
    };
    match validate_handle(handle.as_str()) {
        Ok(()) => Ok(handle),
        Err(e) => Err(e),
    }
}

/// Derivation with an explicit override is independent of the branch name:
/// holding the override fixed, any two branch names give the same result.
pub proof fn lemma_derive_handle_override_independent(
    branch_a: Seq<char>,
    branch_b: Seq<char>,
    explicit: Seq<char>,
)
    ensures
        derive_handle_model(branch_a, Some(explicit)) == derive_handle_model(
            branch_b,
            Some(explicit),
        ),
{
}

} // verus!
